use vstd::prelude::*;

use crate::binary32::{Binary32, ONE_BITS, TWO_BITS};

verus! {

/// Order of the low-pass design when none is given.
pub const DEFAULT_LPF_ORDER: usize = 4;

#[derive(Debug, Clone, Copy, PartialEq, Eq, Structural)]
pub enum LPFError {
    /// The filter design produced no usable cascade of sections.
    FilterFailure,
    /// The cutoff frequency is above the sample rate.
    CutoffTooHigh,
}

/// Parameters of a digital Butterworth low-pass, realised as a cascade of
/// second-order sections designed from them.
#[derive(Debug, Clone, Copy, PartialEq, Eq, Structural)]
pub struct LowPassFilter {
    pub order: usize,
    pub cutoff_hz: Binary32,
    pub sample_rate_hz: Binary32,
}

impl LowPassFilter {
    pub fn builder() -> (r: LowPassFilterBuilder)
        ensures
            r.sample_rate_hz is None,
            r.cutoff_hz is None,
            r.order is None,
    {
        LowPassFilterBuilder::new()
    }
}

/// Builder for [`LowPassFilter`]; an unset cutoff is `1.0` Hz, an unset
/// sample rate `2.0` Hz and an unset order 4.
#[derive(Debug, Clone, Copy)]
pub struct LowPassFilterBuilder {
    pub sample_rate_hz: Option<Binary32>,
    pub cutoff_hz: Option<Binary32>,
    pub order: Option<usize>,
}

impl Default for LowPassFilterBuilder {
    fn default() -> (r: LowPassFilterBuilder)
        ensures
            r.sample_rate_hz is None,
            r.cutoff_hz is None,
            r.order is None,
    {
        LowPassFilterBuilder::new()
    }
}

impl LowPassFilterBuilder {
    pub open spec fn spec_cutoff_hz(self) -> Binary32 {
        match self.cutoff_hz {
            Some(v) => v,
            None => Binary32 { bits: ONE_BITS },
        }
    }

    pub open spec fn spec_sample_rate_hz(self) -> Binary32 {
        match self.sample_rate_hz {
            Some(v) => v,
            None => Binary32 { bits: TWO_BITS },
        }
    }

    pub open spec fn spec_order(self) -> usize {
        match self.order {
            Some(n) => n,
            None => DEFAULT_LPF_ORDER,
        }
    }

    pub fn new() -> (r: LowPassFilterBuilder)
        ensures
            r.sample_rate_hz is None,
            r.cutoff_hz is None,
            r.order is None,
    {
        LowPassFilterBuilder { sample_rate_hz: None, cutoff_hz: None, order: None }
    }

    /// Interpret samples as coming in at a sample rate.
    pub fn sample_rate(self, hz: Binary32) -> (r: LowPassFilterBuilder)
        ensures
            r == (LowPassFilterBuilder { sample_rate_hz: Some(hz), ..self }),
    {
        LowPassFilterBuilder { sample_rate_hz: Some(hz), ..self }
    }

    /// Low-pass filter order.
    pub fn order(self, order: usize) -> (r: LowPassFilterBuilder)
        ensures
            r == (LowPassFilterBuilder { order: Some(order), ..self }),
    {
        LowPassFilterBuilder { order: Some(order), ..self }
    }

    /// Low-pass filter cutoff frequency.
    pub fn cutoff_hz(self, hz: Binary32) -> (r: LowPassFilterBuilder)
        ensures
            r == (LowPassFilterBuilder { cutoff_hz: Some(hz), ..self }),
    {
        LowPassFilterBuilder { cutoff_hz: Some(hz), ..self }
    }

    /// Validate the parameters of a low-pass filter. The cutoff is compared
    /// with the sample rate itself (not with half of it): it fails exactly
    /// when the sample rate is below the cutoff.
    pub fn build(self) -> (r: Result<LowPassFilter, LPFError>)
        ensures
            self.spec_sample_rate_hz().spec_lt(self.spec_cutoff_hz()) ==> r == Err::<
                LowPassFilter,
                LPFError,
            >(LPFError::CutoffTooHigh),
            !self.spec_sample_rate_hz().spec_lt(self.spec_cutoff_hz()) ==> r == Ok::<
                LowPassFilter,
                LPFError,
            >(
                LowPassFilter {
                    order: self.spec_order(),
                    cutoff_hz: self.spec_cutoff_hz(),
                    sample_rate_hz: self.spec_sample_rate_hz(),
                },
            ),
    {
        let cutoff_hz = match self.cutoff_hz {
            Some(v) => v,
            None => Binary32::one(),
        };
        let sample_rate_hz = match self.sample_rate_hz {
            Some(v) => v,
            None => Binary32::from_bits(TWO_BITS),
        };
        if sample_rate_hz.lt(&cutoff_hz) {
            return Err(LPFError::CutoffTooHigh);
        }
        let order = match self.order {
            Some(n) => n,
            None => DEFAULT_LPF_ORDER,
        };
        Ok(LowPassFilter { order, cutoff_hz, sample_rate_hz })
    }
}

} // verus!
