use vstd::prelude::*;

verus! {

/// How a rectifier folds negative samples.
#[derive(Debug, Clone, Copy, PartialEq, Eq, Structural)]
pub enum RectifyType {
    /// Elementwise absolute value.
    Absolute,
    /// Elementwise square (instantaneous power).
    Square,
}

impl Default for RectifyType {
    fn default() -> (r: RectifyType)
        ensures
            r == RectifyType::Absolute,
    {
        RectifyType::Absolute
    }
}

/// Error type of building a rectifier; never produced, as that cannot fail.
#[derive(Debug, Clone, Copy, PartialEq, Eq)]
pub struct RectifyError {}

/// Parameters of the rectifier block, which is stateless.
#[derive(Debug, Clone, Copy, PartialEq, Eq, Structural)]
pub struct Rectify {
    pub rectify_type: RectifyType,
}

impl Rectify {
    pub fn builder() -> (r: RectifyBuilder)
        ensures
            r.rectify_type is None,
    {
        RectifyBuilder::new()
    }
}

/// Builder for [`Rectify`]; an unset type is [`RectifyType::Absolute`].
#[derive(Debug, Clone, Copy)]
pub struct RectifyBuilder {
    pub rectify_type: Option<RectifyType>,
}

impl RectifyBuilder {
    pub fn new() -> (r: RectifyBuilder)
        ensures
            r.rectify_type is None,
    {
        RectifyBuilder { rectify_type: None }
    }

    /// Rectification type.
    pub fn rectify(self, rtype: RectifyType) -> (r: RectifyBuilder)
        ensures
            r.rectify_type == Some(rtype),
    {
        RectifyBuilder { rectify_type: Some(rtype) }
    }

    /// Construct a rectifier.
    pub fn build(self) -> (r: Result<Rectify, RectifyError>)
        ensures
            r matches Ok(b) && b.rectify_type == (match self.rectify_type {
                Some(t) => t,
                None => RectifyType::Absolute,
            }),
    {
        let rectify_type = match self.rectify_type {
            Some(t) => t,
            None => RectifyType::Absolute,
        };
        Ok(Rectify { rectify_type })
    }
}

} // verus!
