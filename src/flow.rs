use vstd::prelude::*;

use crate::affine::{AffineError, AffineTransform};
use crate::binary32::Binary32;
use crate::config::FilterConfig;
use crate::event::{Event, TriggerMessage};
use crate::lp_filter::{LPFError, LowPassFilter};
use crate::one_pole::{alpha_in_range, OnePoleError, OnePoleFilter, OnePoleFilterType};
use crate::rectify::{Rectify, RectifyType};
use crate::threshold::{lemma_holdoff_silences, Crossing, ThresholdError, ThresholdTrigger};

verus! {

/// Why a flow's trigger chain could not be set up.
#[derive(Debug, Clone, Copy, PartialEq, Eq)]
pub enum FlowError {
    Affine(AffineError),
    /// The DC-removal one-pole filter is misconfigured.
    DCOnePole(OnePoleError),
    /// The energy one-pole filter is misconfigured.
    ACOnePole(OnePoleError),
    FilterError(LPFError),
    Trigger(ThresholdError),
    /// The diagnostic dump file could not be opened.
    DebugDumpError,
}

/// Whether a batch crossed the trigger level, and whether it crossed back.
#[derive(Debug, Clone, Copy, PartialEq, Eq, Structural)]
pub struct TriggerResult {
    pub triggered: bool,
    pub reset: bool,
}

pub open spec fn has_triggered(cs: Seq<Crossing>) -> bool {
    exists|i: int| 0 <= i < cs.len() && #[trigger] cs[i] is Triggered
}

pub open spec fn has_reset(cs: Seq<Crossing>) -> bool {
    exists|i: int| 0 <= i < cs.len() && #[trigger] cs[i] is Reset
}

impl TriggerResult {
    /// Collapse the crossings of a batch into two flags.
    pub fn from_crossings(cs: &Vec<Crossing>) -> (r: TriggerResult)
        ensures
            r.triggered == has_triggered(cs@),
            r.reset == has_reset(cs@),
    {
        let mut triggered = false;
        let mut reset = false;
        let mut i: usize = 0;
        while i < cs.len()
            invariant
                i <= cs@.len(),
                triggered == exists|j: int| 0 <= j < i && #[trigger] cs@[j] is Triggered,
                reset == exists|j: int| 0 <= j < i && #[trigger] cs@[j] is Reset,
            decreases cs@.len() - i,
        {
            match cs[i] {
                Crossing::Triggered(_) => {
                    triggered = true;
                },
                Crossing::Reset(_) => {
                    reset = true;
                },
            }
            i = i + 1;
        }
        TriggerResult { triggered, reset }
    }
}

/// The validated blocks of one flow's detector, in signal order: affine
/// scaling, low-pass, DC removal, squaring, energy smoothing, and the
/// hysteresis trigger on the energy.
#[derive(Debug, Clone, Copy)]
pub struct ClassicTrigger {
    pub affine: AffineTransform,
    pub lpf: LowPassFilter,
    pub dc_remove: OnePoleFilter,
    pub square: Rectify,
    pub ac_remove: OnePoleFilter,
    pub threshold: ThresholdTrigger,
}

/// The detector a filter configuration describes at a sample rate, or the
/// first block (in signal order) that refuses its parameters.
pub open spec fn spec_trigger_from_config(sample_rate_hz: Binary32, f: FilterConfig) -> Result<
    ClassicTrigger,
    FlowError,
> {
    if sample_rate_hz.spec_lt(f.cutoff) {
        Err(FlowError::FilterError(LPFError::CutoffTooHigh))
    } else if !alpha_in_range(f.dc_alpha) {
        Err(FlowError::DCOnePole(OnePoleError::AlphaOutOfRange))
    } else if !alpha_in_range(f.energy_alpha) {
        Err(FlowError::ACOnePole(OnePoleError::AlphaOutOfRange))
    } else if !f.reset_level.spec_le(f.trigger_level) {
        Err(FlowError::Trigger(ThresholdError::ThresholdError))
    } else {
        Ok(
            ClassicTrigger {
                affine: AffineTransform { offset: f.offset, gain: f.gain },
                lpf: LowPassFilter {
                    order: f.order as usize,
                    cutoff_hz: f.cutoff,
                    sample_rate_hz,
                },
                dc_remove: OnePoleFilter { alpha: f.dc_alpha, pass: OnePoleFilterType::HighPass },
                square: Rectify { rectify_type: RectifyType::Square },
                ac_remove: OnePoleFilter {
                    alpha: f.energy_alpha,
                    pass: OnePoleFilterType::LowPass,
                },
                threshold: ThresholdTrigger {
                    trigger: f.trigger_level,
                    reset: f.reset_level,
                    triggered: false,
                    holdoff: f.holdoff,
                    processed: 0,
                },
            },
        )
    }
}

/// Validate a flow's filter configuration into its detector blocks.
pub fn trigger_from_config(sample_rate_hz: Binary32, filter: &FilterConfig) -> (r: Result<
    ClassicTrigger,
    FlowError,
>)
    ensures
        r == spec_trigger_from_config(sample_rate_hz, *filter),
{
    let affine = match AffineTransform::builder().gain(filter.gain).offset(filter.offset).build() {
        Ok(a) => a,
        Err(e) => {
            return Err(FlowError::Affine(e));
        },
    };
    let lpf = match LowPassFilter::builder().sample_rate(sample_rate_hz).cutoff_hz(
        filter.cutoff,
    ).order(filter.order as usize).build() {
        Ok(l) => l,
        Err(e) => {
            return Err(FlowError::FilterError(e));
        },
    };
    let dc_remove = match OnePoleFilter::builder().alpha(filter.dc_alpha).pass(
        OnePoleFilterType::HighPass,
    ).build() {
        Ok(f) => f,
        Err(e) => {
            return Err(FlowError::DCOnePole(e));
        },
    };
    let square = match Rectify::builder().rectify(RectifyType::Square).build() {
        Ok(s) => s,
        // building a rectifier cannot fail
        Err(_) => Rectify { rectify_type: RectifyType::Square },
    };
    let ac_remove = match OnePoleFilter::builder().alpha(filter.energy_alpha).pass(
        OnePoleFilterType::LowPass,
    ).build() {
        Ok(f) => f,
        Err(e) => {
            return Err(FlowError::ACOnePole(e));
        },
    };
    let threshold = match ThresholdTrigger::builder().trigger(filter.trigger_level).reset(
        filter.reset_level,
    ).holdoff(filter.holdoff).build() {
        Ok(t) => t,
        Err(e) => {
            return Err(FlowError::Trigger(e));
        },
    };
    Ok(ClassicTrigger { affine, lpf, dc_remove, square, ac_remove, threshold })
}

/// The state last announced for a flow.
#[derive(Debug, Clone, Copy, PartialEq, Eq, Structural)]
pub enum TriggerLatch {
    /// Nothing announced yet.
    Unknown,
    Triggered,
    Reset,
}

/// The decision state of one flow: its id, its hysteresis trigger and the
/// latch that keeps announcements from repeating.
#[derive(Debug, Clone, Copy)]
pub struct FlowState {
    pub flow_id: usize,
    pub threshold: ThresholdTrigger,
    pub latch: TriggerLatch,
}

pub open spec fn message(id: usize, e: Event) -> TriggerMessage {
    TriggerMessage { source_id: id, event: e }
}

impl FlowState {
    /// The flow after an earthquake is detected, and what it announces:
    /// `Triggered`, unless that was the last announcement.
    pub open spec fn spec_triggered(self) -> (FlowState, Seq<TriggerMessage>) {
        if self.latch != TriggerLatch::Triggered {
            (
                FlowState { latch: TriggerLatch::Triggered, ..self },
                seq![message(self.flow_id, Event::Triggered)],
            )
        } else {
            (self, seq![])
        }
    }

    /// The flow after calm returns, and what it announces: `Reset`, unless
    /// that was the last announcement.
    pub open spec fn spec_reset(self) -> (FlowState, Seq<TriggerMessage>) {
        if self.latch != TriggerLatch::Reset {
            (FlowState { latch: TriggerLatch::Reset, ..self }, seq![message(self.flow_id, Event::Reset)])
        } else {
            (self, seq![])
        }
    }

    /// The flow after a batch of energy samples, and what it announces: at
    /// most one `Triggered` and then at most one `Reset`.
    pub open spec fn spec_process(self, energy: Seq<Binary32>) -> (FlowState, Seq<TriggerMessage>) {
        let (t, cs) = self.threshold.scan(energy);
        let s1 = FlowState { threshold: t, ..self };
        let (s2, m1) = if has_triggered(cs) {
            s1.spec_triggered()
        } else {
            (s1, seq![])
        };
        let (s3, m2) = if has_reset(cs) {
            s2.spec_reset()
        } else {
            (s2, seq![])
        };
        (s3, m1 + m2)
    }

    pub fn new(flow_id: usize, threshold: ThresholdTrigger) -> (r: FlowState)
        ensures
            r == (FlowState { flow_id, threshold, latch: TriggerLatch::Unknown }),
    {
        FlowState { flow_id, threshold, latch: TriggerLatch::Unknown }
    }

    pub fn available(&self) -> (r: TriggerMessage)
        ensures
            r == message(self.flow_id, Event::Available),
    {
        TriggerMessage { source_id: self.flow_id, event: Event::Available }
    }

    pub fn unavailable(&self) -> (r: TriggerMessage)
        ensures
            r == message(self.flow_id, Event::Unavailable),
    {
        TriggerMessage { source_id: self.flow_id, event: Event::Unavailable }
    }

    /// Announce an earthquake unless it is the last announcement.
    pub fn triggered(&mut self) -> (r: Option<TriggerMessage>)
        ensures
            (*final(self), match r {
                Some(m) => seq![m],
                None => seq![],
            }) == old(self).spec_triggered(),
    {
        if self.latch != TriggerLatch::Triggered {
            self.latch = TriggerLatch::Triggered;
            Some(TriggerMessage { source_id: self.flow_id, event: Event::Triggered })
        } else {
            None
        }
    }

    /// Announce calm unless it is the last announcement.
    pub fn reset(&mut self) -> (r: Option<TriggerMessage>)
        ensures
            (*final(self), match r {
                Some(m) => seq![m],
                None => seq![],
            }) == old(self).spec_reset(),
    {
        if self.latch != TriggerLatch::Reset {
            self.latch = TriggerLatch::Reset;
            Some(TriggerMessage { source_id: self.flow_id, event: Event::Reset })
        } else {
            None
        }
    }

    /// Run a batch of energy samples through the trigger and return the
    /// announcements it calls for, in order.
    pub fn process(&mut self, energy: &Vec<Binary32>) -> (r: Vec<TriggerMessage>)
        requires
            old(self).threshold.processed + energy@.len() <= usize::MAX,
        ensures
            (*final(self), r@) == old(self).spec_process(energy@),
            final(self).flow_id == old(self).flow_id,
            final(self).threshold.processed == old(self).threshold.processed + energy@.len(),
    {
        let crossings = self.threshold.process(energy);
        let result = TriggerResult::from_crossings(&crossings);
        let mut out: Vec<TriggerMessage> = Vec::new();
        if result.triggered {
            match self.triggered() {
                Some(m) => out.push(m),
                None => {},
            }
        }
        let ghost mid = out@;
        if result.reset {
            match self.reset() {
                Some(m) => out.push(m),
                None => {},
            }
        }
        proof {
            assert(out@ == mid + (out@.subrange(mid.len() as int, out@.len() as int)));
        }
        out
    }
}

/// The latch after a run of announcements starting from `l`: the last
/// `Triggered` or `Reset` among them, if any.
pub open spec fn last_announced(l: TriggerLatch, ms: Seq<TriggerMessage>) -> TriggerLatch
    decreases ms.len(),
{
    if ms.len() == 0 {
        l
    } else {
        let l2 = last_announced(l, ms.drop_last());
        match ms.last().event {
            Event::Triggered => TriggerLatch::Triggered,
            Event::Reset => TriggerLatch::Reset,
            _ => l2,
        }
    }
}

/// After the latch `l`, the announcements never repeat a `Triggered` or a
/// `Reset` without the other one in between.
pub open spec fn alternates(l: TriggerLatch, ms: Seq<TriggerMessage>) -> bool
    decreases ms.len(),
{
    if ms.len() == 0 {
        true
    } else {
        let before = last_announced(l, ms.drop_last());
        &&& alternates(l, ms.drop_last())
        &&& (ms.last().event == Event::Triggered ==> before != TriggerLatch::Triggered)
        &&& (ms.last().event == Event::Reset ==> before != TriggerLatch::Reset)
    }
}

/// A flow after a run of energy batches, and all it announced.
pub open spec fn run_batches(f: FlowState, bs: Seq<Seq<Binary32>>) -> (FlowState, Seq<
    TriggerMessage,
>)
    decreases bs.len(),
{
    if bs.len() == 0 {
        (f, seq![])
    } else {
        let (g, early) = run_batches(f, bs.drop_last());
        let (h, late) = g.spec_process(bs.last());
        (h, early + late)
    }
}

/// Announcements can be checked piece by piece: the second part continues
/// from the latch the first part leaves.
pub proof fn lemma_alternates_append(l: TriggerLatch, a: Seq<TriggerMessage>, b: Seq<TriggerMessage>)
    ensures
        last_announced(l, a + b) == last_announced(last_announced(l, a), b),
        alternates(l, a + b) == (alternates(l, a) && alternates(last_announced(l, a), b)),
    decreases b.len(),
{
    if b.len() == 0 {
        assert(a + b == a);
    } else {
        lemma_alternates_append(l, a, b.drop_last());
        assert((a + b).drop_last() == a + b.drop_last());
        assert((a + b).last() == b.last());
    }
}

proof fn lemma_single(l: TriggerLatch, m: TriggerMessage)
    ensures
        last_announced(l, seq![m]) == (match m.event {
            Event::Triggered => TriggerLatch::Triggered,
            Event::Reset => TriggerLatch::Reset,
            _ => l,
        }),
        alternates(l, seq![m]) == ((m.event == Event::Triggered ==> l != TriggerLatch::Triggered)
            && (m.event == Event::Reset ==> l != TriggerLatch::Reset)),
{
    let e = Seq::<TriggerMessage>::empty();
    assert(seq![m].drop_last() == e);
    assert(seq![m].last() == m);
    assert(last_announced(l, e) == l);
    assert(alternates(l, e));
}

/// One batch keeps the announcements alternating and leaves the latch at
/// the last announcement.
pub proof fn lemma_process_alternates(f: FlowState, energy: Seq<Binary32>)
    ensures
        alternates(f.latch, f.spec_process(energy).1),
        last_announced(f.latch, f.spec_process(energy).1) == f.spec_process(energy).0.latch,
{
    let (t, cs) = f.threshold.scan(energy);
    let s1 = FlowState { threshold: t, ..f };
    let (s2, m1) = if has_triggered(cs) {
        s1.spec_triggered()
    } else {
        (s1, seq![])
    };
    let (s3, m2) = if has_reset(cs) {
        s2.spec_reset()
    } else {
        (s2, seq![])
    };
    assert(f.spec_process(energy) == (s3, m1 + m2));
    if m1.len() == 1 {
        lemma_single(f.latch, m1[0]);
        assert(m1 == seq![m1[0]]);
    } else {
        assert(m1 == Seq::<TriggerMessage>::empty());
    }
    assert(last_announced(f.latch, m1) == s2.latch);
    assert(alternates(f.latch, m1));
    if m2.len() == 1 {
        lemma_single(s2.latch, m2[0]);
        assert(m2 == seq![m2[0]]);
    } else {
        assert(m2 == Seq::<TriggerMessage>::empty());
    }
    assert(last_announced(s2.latch, m2) == s3.latch);
    assert(alternates(s2.latch, m2));
    lemma_alternates_append(f.latch, m1, m2);
}

/// For any input, a flow never announces `Triggered` twice without a
/// `Reset` in between (nor `Reset` twice without a `Triggered`), counting
/// from what it announced last, over any number of batches and whatever its
/// holdoff.
pub proof fn lemma_no_repeated_trigger(f: FlowState, bs: Seq<Seq<Binary32>>)
    ensures
        alternates(f.latch, run_batches(f, bs).1),
        last_announced(f.latch, run_batches(f, bs).1) == run_batches(f, bs).0.latch,
    decreases bs.len(),
{
    if bs.len() > 0 {
        lemma_no_repeated_trigger(f, bs.drop_last());
        let (g, early) = run_batches(f, bs.drop_last());
        lemma_process_alternates(g, bs.last());
        lemma_alternates_append(f.latch, early, g.spec_process(bs.last()).1);
    }
}

/// While the cumulative sample count has not passed the holdoff, a batch
/// makes the flow announce nothing, whatever the signal does: every sample
/// of the batch has index `holdoff` or lower.
pub proof fn lemma_holdoff_no_announcement(f: FlowState, energy: Seq<Binary32>)
    requires
        f.threshold.processed + energy.len() <= f.threshold.holdoff + 1,
        f.threshold.processed + energy.len() <= usize::MAX,
    ensures
        f.spec_process(energy).1.len() == 0,
        f.spec_process(energy).0.latch == f.latch,
{
    lemma_holdoff_silences(f.threshold, energy);
    let cs = f.threshold.scan(energy).1;
    assert(!has_triggered(cs));
    assert(!has_reset(cs));
    assert(Seq::<TriggerMessage>::empty() + Seq::<TriggerMessage>::empty() =~= Seq::<
        TriggerMessage,
    >::empty());
}

} // verus!
