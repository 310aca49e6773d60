use vstd::prelude::*;

use crate::binary32::{Binary32, ONE_BITS, ZERO_BITS};

verus! {

/// Error type of building an affine transform; never produced, as that cannot fail.
#[derive(Debug, Clone, Copy, PartialEq, Eq)]
pub struct AffineError {}

/// Parameters of the affine block: each sample becomes
/// `(sample - offset) * gain`. Typically used to remove a known DC bias from
/// a signal and scale it into usable units.
#[derive(Debug, Clone, Copy, PartialEq, Eq, Structural)]
pub struct AffineTransform {
    pub offset: Binary32,
    pub gain: Binary32,
}

impl AffineTransform {
    pub fn builder() -> (r: AffineTransformBuilder)
        ensures
            r.offset is None,
            r.gain is None,
    {
        AffineTransformBuilder::new()
    }
}

/// Builder for [`AffineTransform`]; an unset offset is `0.0`, an unset gain
/// `1.0`.
#[derive(Debug, Clone, Copy)]
pub struct AffineTransformBuilder {
    pub offset: Option<Binary32>,
    pub gain: Option<Binary32>,
}

impl AffineTransformBuilder {
    pub fn new() -> (r: AffineTransformBuilder)
        ensures
            r.offset is None,
            r.gain is None,
    {
        AffineTransformBuilder { offset: None, gain: None }
    }

    /// Subtract this value from every input sample.
    pub fn offset(self, offset: Binary32) -> (r: AffineTransformBuilder)
        ensures
            r == (AffineTransformBuilder { offset: Some(offset), ..self }),
    {
        AffineTransformBuilder { offset: Some(offset), ..self }
    }

    /// Multiply every sample by this value (after offset subtraction).
    pub fn gain(self, gain: Binary32) -> (r: AffineTransformBuilder)
        ensures
            r == (AffineTransformBuilder { gain: Some(gain), ..self }),
    {
        AffineTransformBuilder { gain: Some(gain), ..self }
    }

    /// Construct an affine transform.
    pub fn build(self) -> (r: Result<AffineTransform, AffineError>)
        ensures
            r matches Ok(t) && t.offset == (match self.offset {
                Some(v) => v,
                None => Binary32 { bits: ZERO_BITS },
            }) && t.gain == (match self.gain {
                Some(v) => v,
                None => Binary32 { bits: ONE_BITS },
            }),
    {
        let offset = match self.offset {
            Some(v) => v,
            None => Binary32::zero(),
        };
        let gain = match self.gain {
            Some(v) => v,
            None => Binary32::one(),
        };
        Ok(AffineTransform { offset, gain })
    }
}

} // verus!
