use vstd::prelude::*;

use crate::binary32::{Binary32, ONE_BITS, ZERO_BITS};

verus! {

#[derive(Debug, Clone, Copy, PartialEq, Eq, Structural)]
pub enum ThresholdError {
    /// The trigger level lies below the reset level.
    ThresholdError,
}

/// A level crossing found by a [`ThresholdTrigger`], with the cumulative
/// index of the sample at which it happened.
#[derive(Debug, Clone, Copy, PartialEq, Eq, Structural)]
pub enum Crossing {
    Triggered(usize),
    Reset(usize),
}

impl Crossing {
    pub open spec fn sample_index(self) -> usize {
        match self {
            Crossing::Triggered(n) => n,
            Crossing::Reset(n) => n,
        }
    }
}

/// Hysteresis comparator over an energy signal.
///
/// Once more than `holdoff` samples have been seen, a sample above `trigger`
/// latches the comparator (a `Triggered` crossing) and a later sample at or
/// below `reset` releases it (a `Reset` crossing).
#[derive(Debug, Clone, Copy)]
pub struct ThresholdTrigger {
    pub trigger: Binary32,
    pub reset: Binary32,
    pub triggered: bool,
    pub holdoff: usize,
    /// Number of samples processed so far.
    pub processed: usize,
}

impl ThresholdTrigger {
    /// The trigger level is at or above the reset level, as construction
    /// demands.
    pub open spec fn wf(self) -> bool {
        self.reset.spec_le(self.trigger)
    }

    /// The comparator after one more sample, and the crossings it reports.
    pub open spec fn step(self, v: Binary32) -> (ThresholdTrigger, Seq<Crossing>) {
        let p = self.processed;
        let next = (p + 1) as usize;
        if p > self.holdoff {
            let fire = !self.triggered && self.trigger.spec_lt(v);
            let armed = self.triggered || fire;
            let release = armed && v.spec_le(self.reset);
            let fired: Seq<Crossing> = if fire {
                seq![Crossing::Triggered(p)]
            } else {
                seq![]
            };
            let released: Seq<Crossing> = if release {
                seq![Crossing::Reset(p)]
            } else {
                seq![]
            };
            (ThresholdTrigger { triggered: armed && !release, processed: next, ..self }, fired + released)
        } else {
            (ThresholdTrigger { processed: next, ..self }, seq![])
        }
    }

    /// The comparator after a run of samples, and the crossings it reports,
    /// in sample order.
    pub open spec fn scan(self, vs: Seq<Binary32>) -> (ThresholdTrigger, Seq<Crossing>)
        decreases vs.len(),
    {
        if vs.len() == 0 {
            (self, seq![])
        } else {
            let (mid, early) = self.scan(vs.drop_last());
            let (last, late) = mid.step(vs.last());
            (last, early + late)
        }
    }

    pub fn builder() -> (r: ThresholdTriggerBuilder)
        ensures
            r.trigger is None,
            r.reset is None,
            r.holdoff is None,
    {
        ThresholdTriggerBuilder::new()
    }

    /// Forget every sample seen so far.
    pub fn reset(&mut self)
        ensures
            *final(self) == (ThresholdTrigger { triggered: false, processed: 0, ..*old(self) }),
    {
        self.triggered = false;
        self.processed = 0;
    }

    /// Run a batch of samples through the comparator and report its crossings.
    pub fn process(&mut self, input: &Vec<Binary32>) -> (r: Vec<Crossing>)
        requires
            old(self).processed + input@.len() <= usize::MAX,
        ensures
            (*final(self), r@) == old(self).scan(input@),
            final(self).processed == old(self).processed + input@.len(),
            forall|i: int|
                0 <= i < r@.len() ==> #[trigger] r@[i].sample_index() > old(self).holdoff,
    {
        let ghost start = *self;
        let mut out: Vec<Crossing> = Vec::new();
        let mut i: usize = 0;
        while i < input.len()
            invariant
                i <= input@.len(),
                start.processed + input@.len() <= usize::MAX,
                (*self, out@) == start.scan(input@.take(i as int)),
                self.processed == start.processed + i,
                self.holdoff == start.holdoff,
            decreases input@.len() - i,
        {
            proof {
                let s = input@.take(i as int + 1);
                assert(s.drop_last() == input@.take(i as int));
                assert(s.last() == input@[i as int]);
            }
            let v = input[i];
            if self.processed > self.holdoff {
                if !self.triggered && self.trigger.lt(&v) {
                    out.push(Crossing::Triggered(self.processed));
                    self.triggered = true;
                }
                if self.triggered && v.le(&self.reset) {
                    out.push(Crossing::Reset(self.processed));
                    self.triggered = false;
                }
            }
            self.processed = self.processed + 1;
            i = i + 1;
        }
        proof {
            assert(input@.take(input@.len() as int) == input@);
            lemma_scan_after_holdoff(start, input@);
            assert(out@ == start.scan(input@).1);
        }
        out
    }
}

/// Every crossing reported over a run of samples carries an index past the
/// holdoff, at or after the count of samples seen before the run.
pub proof fn lemma_scan_after_holdoff(t: ThresholdTrigger, vs: Seq<Binary32>)
    requires
        t.processed + vs.len() <= usize::MAX,
    ensures
        t.scan(vs).0.processed == t.processed + vs.len(),
        t.scan(vs).0.holdoff == t.holdoff,
        forall|i: int|
            0 <= i < t.scan(vs).1.len() ==> {
                &&& #[trigger] t.scan(vs).1[i].sample_index() > t.holdoff
                &&& t.scan(vs).1[i].sample_index() >= t.processed
                &&& t.scan(vs).1[i].sample_index() < t.processed + vs.len()
            },
    decreases vs.len(),
{
    if vs.len() > 0 {
        lemma_scan_after_holdoff(t, vs.drop_last());
        let (mid, early) = t.scan(vs.drop_last());
        let (last, late) = mid.step(vs.last());
        assert(t.scan(vs).1 == early + late);
        assert forall|i: int| 0 <= i < t.scan(vs).1.len() implies {
            &&& #[trigger] t.scan(vs).1[i].sample_index() > t.holdoff
            &&& t.scan(vs).1[i].sample_index() >= t.processed
            &&& t.scan(vs).1[i].sample_index() < t.processed + vs.len()
        } by {
            if i < early.len() {
                assert(t.scan(vs).1[i] == early[i]);
            } else {
                assert(t.scan(vs).1[i] == late[i - early.len()]);
            }
        }
    }
}

/// No crossing is reported while the cumulative sample count has not passed
/// the holdoff: a run whose samples all have index `holdoff` or lower reports
/// nothing, wherever the signal goes.
pub proof fn lemma_holdoff_silences(t: ThresholdTrigger, vs: Seq<Binary32>)
    requires
        t.processed + vs.len() <= t.holdoff + 1,
        t.processed + vs.len() <= usize::MAX,
    ensures
        t.scan(vs).1.len() == 0,
{
    lemma_scan_after_holdoff(t, vs);
    if t.scan(vs).1.len() > 0 {
        let c = t.scan(vs).1[0];
        assert(c.sample_index() > t.holdoff);
        assert(c.sample_index() < t.processed + vs.len());
    }
}

/// Builder for [`ThresholdTrigger`]; unset levels default to a trigger level
/// of `1.0` and a reset level of `0.0`, an unset holdoff to zero.
#[derive(Debug, Clone, Copy)]
pub struct ThresholdTriggerBuilder {
    pub trigger: Option<Binary32>,
    pub reset: Option<Binary32>,
    pub holdoff: Option<usize>,
}

impl Default for ThresholdTriggerBuilder {
    fn default() -> (r: ThresholdTriggerBuilder)
        ensures
            r.trigger is None,
            r.reset is None,
            r.holdoff is None,
    {
        ThresholdTriggerBuilder::new()
    }
}

impl ThresholdTriggerBuilder {
    /// The trigger this builder describes, or why it cannot be built.
    pub open spec fn spec_build(self) -> Result<ThresholdTrigger, ThresholdError> {
        let trigger = match self.trigger {
            Some(v) => v,
            None => Binary32 { bits: ONE_BITS },
        };
        let reset = match self.reset {
            Some(v) => v,
            None => Binary32 { bits: ZERO_BITS },
        };
        let holdoff = match self.holdoff {
            Some(n) => n,
            None => 0,
        };
        if reset.spec_le(trigger) {
            Ok(ThresholdTrigger { trigger, reset, triggered: false, holdoff, processed: 0 })
        } else {
            Err(ThresholdError::ThresholdError)
        }
    }

    pub fn new() -> (r: ThresholdTriggerBuilder)
        ensures
            r.trigger is None,
            r.reset is None,
            r.holdoff is None,
    {
        ThresholdTriggerBuilder { trigger: None, reset: None, holdoff: None }
    }

    /// Level at which to trigger.
    pub fn trigger(self, level: Binary32) -> (r: ThresholdTriggerBuilder)
        ensures
            r == (ThresholdTriggerBuilder { trigger: Some(level), ..self }),
    {
        ThresholdTriggerBuilder { trigger: Some(level), ..self }
    }

    /// Level at which to reset the trigger.
    pub fn reset(self, level: Binary32) -> (r: ThresholdTriggerBuilder)
        ensures
            r == (ThresholdTriggerBuilder { reset: Some(level), ..self }),
    {
        ThresholdTriggerBuilder { reset: Some(level), ..self }
    }

    /// Disable the trigger until some number of samples have been processed.
    pub fn holdoff(self, n: usize) -> (r: ThresholdTriggerBuilder)
        ensures
            r == (ThresholdTriggerBuilder { holdoff: Some(n), ..self }),
    {
        ThresholdTriggerBuilder { holdoff: Some(n), ..self }
    }

    /// Construct a trigger; it fails unless the trigger level is at or above
    /// the reset level (so a NaN level is refused too).
    pub fn build(self) -> (r: Result<ThresholdTrigger, ThresholdError>)
        ensures
            r == self.spec_build(),
            self.spec_build_levels_inverted() ==> r == Err::<ThresholdTrigger, ThresholdError>(
                ThresholdError::ThresholdError,
            ),
            r matches Ok(t) ==> t.wf() && !t.triggered && t.processed == 0,
    {
        let trigger = match self.trigger {
            Some(v) => v,
            None => Binary32::one(),
        };
        let reset = match self.reset {
            Some(v) => v,
            None => Binary32::zero(),
        };
        let holdoff = match self.holdoff {
            Some(n) => n,
            None => 0,
        };
        if !reset.le(&trigger) {
            return Err(ThresholdError::ThresholdError);
        }
        Ok(ThresholdTrigger { trigger, reset, triggered: false, holdoff, processed: 0 })
    }

    /// The configured (or default) trigger level lies below the reset level.
    pub open spec fn spec_build_levels_inverted(self) -> bool {
        let trigger = match self.trigger {
            Some(v) => v,
            None => Binary32 { bits: ONE_BITS },
        };
        let reset = match self.reset {
            Some(v) => v,
            None => Binary32 { bits: ZERO_BITS },
        };
        trigger.spec_lt(reset)
    }
}

} // verus!
