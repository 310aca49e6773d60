use vstd::prelude::*;

use crate::binary32::{Binary32, ONE_BITS, ZERO_BITS};

verus! {

/// Which half of the spectrum a one-pole filter keeps.
#[derive(Debug, Clone, Copy, PartialEq, Eq, Structural)]
pub enum OnePoleFilterType {
    LowPass,
    HighPass,
}

impl Default for OnePoleFilterType {
    fn default() -> (r: OnePoleFilterType)
        ensures
            r == OnePoleFilterType::LowPass,
    {
        OnePoleFilterType::LowPass
    }
}

#[derive(Debug, Clone, Copy, PartialEq, Eq, Structural)]
pub enum OnePoleError {
    /// Alpha is not within `[0, 1]`.
    AlphaOutOfRange,
}

/// `alpha` lies in the closed unit interval (a NaN does not).
pub open spec fn alpha_in_range(alpha: Binary32) -> bool {
    Binary32 { bits: ZERO_BITS }.spec_le(alpha) && alpha.spec_le(Binary32 { bits: ONE_BITS })
}

/// Parameters of a one-pole ("alpha/beta") filter.
///
/// In low-pass form the filter decays its memory by `alpha` and takes in the
/// incoming sample by the remainder `1 - alpha`; in high-pass form it
/// subtracts that low-pass output from the input.
#[derive(Debug, Clone, Copy, PartialEq, Eq, Structural)]
pub struct OnePoleFilter {
    pub alpha: Binary32,
    pub pass: OnePoleFilterType,
}

impl OnePoleFilter {
    pub open spec fn wf(self) -> bool {
        alpha_in_range(self.alpha)
    }

    pub fn builder() -> (r: OnePoleFilterBuilder)
        ensures
            r.alpha is None,
            r.filter_type is None,
    {
        OnePoleFilterBuilder::new()
    }
}

/// Builder for [`OnePoleFilter`]; an unset alpha is `0.0`, an unset type
/// low-pass.
#[derive(Debug, Clone, Copy)]
pub struct OnePoleFilterBuilder {
    pub alpha: Option<Binary32>,
    pub filter_type: Option<OnePoleFilterType>,
}

impl OnePoleFilterBuilder {
    /// The alpha this builder configures, defaults applied.
    pub open spec fn spec_alpha(self) -> Binary32 {
        match self.alpha {
            Some(a) => a,
            None => Binary32 { bits: ZERO_BITS },
        }
    }

    /// The filter type this builder configures, defaults applied.
    pub open spec fn spec_filter_type(self) -> OnePoleFilterType {
        match self.filter_type {
            Some(t) => t,
            None => OnePoleFilterType::LowPass,
        }
    }

    pub fn new() -> (r: OnePoleFilterBuilder)
        ensures
            r.alpha is None,
            r.filter_type is None,
    {
        OnePoleFilterBuilder { alpha: None, filter_type: None }
    }

    /// Configure as low-pass or high-pass.
    pub fn pass(self, t: OnePoleFilterType) -> (r: OnePoleFilterBuilder)
        ensures
            r == (OnePoleFilterBuilder { filter_type: Some(t), ..self }),
    {
        OnePoleFilterBuilder { filter_type: Some(t), ..self }
    }

    /// Momentum coefficient of the moving average
    /// (`1.0`: infinitely stiff, never updates; `0.0`: follows every sample).
    pub fn alpha(self, alpha: Binary32) -> (r: OnePoleFilterBuilder)
        ensures
            r == (OnePoleFilterBuilder { alpha: Some(alpha), ..self }),
    {
        OnePoleFilterBuilder { alpha: Some(alpha), ..self }
    }

    /// Construct a filter; it fails exactly when alpha is outside `[0, 1]`.
    pub fn build(self) -> (r: Result<OnePoleFilter, OnePoleError>)
        ensures
            alpha_in_range(self.spec_alpha()) ==> r == Ok::<OnePoleFilter, OnePoleError>(
                OnePoleFilter { alpha: self.spec_alpha(), pass: self.spec_filter_type() },
            ),
            !alpha_in_range(self.spec_alpha()) ==> r == Err::<OnePoleFilter, OnePoleError>(
                OnePoleError::AlphaOutOfRange,
            ),
    {
        let alpha = match self.alpha {
            Some(a) => a,
            None => Binary32::zero(),
        };
        let zero = Binary32::zero();
        let one = Binary32::one();
        if !(zero.le(&alpha) && alpha.le(&one)) {
            return Err(OnePoleError::AlphaOutOfRange);
        }
        let pass = match self.filter_type {
            Some(t) => t,
            None => OnePoleFilterType::LowPass,
        };
        Ok(OnePoleFilter { alpha, pass })
    }
}

} // verus!
