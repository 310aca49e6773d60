use rs_udp::binary32::Binary32;
use rs_udp::config::FilterConfig;
use rs_udp::event::{Event, TriggerMessage};
use rs_udp::flow::{trigger_from_config, FlowError, FlowState, TriggerLatch, TriggerResult};
use rs_udp::lp_filter::LPFError;
use rs_udp::one_pole::{OnePoleError, OnePoleFilterType};
use rs_udp::rectify::RectifyType;
use rs_udp::threshold::{Crossing, ThresholdError, ThresholdTrigger, ThresholdTriggerBuilder};

fn b(v: f32) -> Binary32 {
    Binary32::from_bits(v.to_bits())
}

fn signal(vs: &[f32]) -> Vec<Binary32> {
    vs.iter().map(|v| b(*v)).collect()
}

fn trigger(level: f32, reset: f32, holdoff: usize) -> ThresholdTrigger {
    ThresholdTriggerBuilder::new()
        .trigger(b(level))
        .reset(b(reset))
        .holdoff(holdoff)
        .build()
        .expect("levels")
}

fn events(ms: &[TriggerMessage]) -> Vec<Event> {
    ms.iter().map(|m| m.event).collect()
}

#[test]
fn crossings_carry_cumulative_indices() {
    let mut t = trigger(1.0, 0.0, 0);
    let cs = t.process(&signal(&[0.0, 2.0, 2.0, 0.0, 2.0]));
    assert_eq!(cs, vec![Crossing::Triggered(1), Crossing::Reset(3), Crossing::Triggered(4)]);
    assert_eq!(t.processed, 5);
    assert!(t.triggered);
    let cs = t.process(&signal(&[0.5, -1.0]));
    assert_eq!(cs, vec![Crossing::Reset(6)]);
    assert_eq!(t.processed, 7);
    t.reset();
    assert_eq!(t.processed, 0);
    assert!(!t.triggered);
}

#[test]
fn level_comparisons_are_strict_above_and_inclusive_below() {
    let mut t = trigger(1.0, 0.5, 0);
    // sample 0 is within the holdoff of zero samples
    let cs = t.process(&signal(&[9.0, 1.0, 1.0000001, 0.6, 0.5]));
    assert_eq!(cs, vec![Crossing::Triggered(2), Crossing::Reset(4)]);
    let cs = t.process(&signal(&[f32::NAN, f32::INFINITY, f32::NAN]));
    assert_eq!(cs, vec![Crossing::Triggered(6)]);
}

#[test]
fn holdoff_delays_every_crossing() {
    let mut t = trigger(1.0, 0.0, 3);
    assert!(t.process(&signal(&[5.0, 5.0])).is_empty());
    assert!(t.process(&signal(&[0.0, 5.0])).is_empty());
    // four samples have been seen before this one
    assert_eq!(t.process(&signal(&[5.0, 0.0])), vec![Crossing::Triggered(4), Crossing::Reset(5)]);
}

#[test]
fn collapse_crossings() {
    let r = TriggerResult::from_crossings(&vec![Crossing::Reset(3), Crossing::Triggered(4)]);
    assert_eq!(r, TriggerResult { triggered: true, reset: true });
    let r = TriggerResult::from_crossings(&vec![]);
    assert_eq!(r, TriggerResult { triggered: false, reset: false });
    let r = TriggerResult::from_crossings(&vec![Crossing::Reset(9)]);
    assert_eq!(r, TriggerResult { triggered: false, reset: true });
}

#[test]
fn flow_never_repeats_an_announcement() {
    let mut f = FlowState::new(7, trigger(1.0, 0.0, 0));
    let mut all: Vec<Event> = Vec::new();
    let batches: [&[f32]; 7] = [
        &[0.0, 2.0],
        &[2.0, 2.0],
        &[0.0],
        &[0.0, 0.0],
        &[2.0, 0.0],
        &[2.0, 0.0, 3.0, 0.0, 5.0],
        &[5.0],
    ];
    for batch in batches {
        let ms = f.process(&signal(batch));
        assert!(ms.iter().all(|m| m.source_id == 7));
        all.extend(events(&ms));
    }
    assert_eq!(
        all,
        vec![
            Event::Triggered,
            Event::Reset,
            Event::Triggered,
            Event::Reset,
            Event::Triggered,
            Event::Reset,
        ]
    );
    for pair in all.windows(2) {
        assert_ne!(pair[0], pair[1]);
    }
    // the last batch leaves the comparator latched, the flow announced Reset
    assert_eq!(f.latch, TriggerLatch::Reset);
    assert!(f.threshold.triggered);
}

#[test]
fn latch_gates_announcements() {
    let mut f = FlowState::new(1, trigger(1.0, 0.0, 0));
    assert_eq!(f.reset(), Some(TriggerMessage { source_id: 1, event: Event::Reset }));
    assert_eq!(f.reset(), None);
    assert_eq!(f.triggered(), Some(TriggerMessage { source_id: 1, event: Event::Triggered }));
    assert_eq!(f.triggered(), None);
    assert_eq!(f.available().event, Event::Available);
    assert_eq!(f.unavailable().event, Event::Unavailable);
    // a first crossing that only calms down still announces Reset once
    let mut g = FlowState::new(2, trigger(1.0, 0.0, 0));
    g.threshold.triggered = true;
    assert_eq!(events(&g.process(&signal(&[0.0]))), vec![]);
    assert_eq!(events(&g.process(&signal(&[0.0]))), vec![Event::Reset]);
    assert_eq!(events(&g.process(&signal(&[0.0]))), vec![]);
}

fn cfg() -> FilterConfig {
    FilterConfig::default()
}

#[test]
fn trigger_from_default_config() {
    let c = trigger_from_config(b(100.0), &cfg()).expect("defaults are valid");
    assert_eq!(c.affine.offset, b(0.0));
    assert_eq!(c.affine.gain, b(1.0));
    assert_eq!(c.lpf.order, 8);
    assert_eq!(c.lpf.cutoff_hz, b(8.0));
    assert_eq!(c.lpf.sample_rate_hz, b(100.0));
    assert_eq!(c.dc_remove.alpha, b(0.99));
    assert_eq!(c.dc_remove.pass, OnePoleFilterType::HighPass);
    assert_eq!(c.square.rectify_type, RectifyType::Square);
    assert_eq!(c.ac_remove.alpha, b(0.99));
    assert_eq!(c.ac_remove.pass, OnePoleFilterType::LowPass);
    assert_eq!(c.threshold.trigger, b(1.0));
    assert_eq!(c.threshold.reset, b(0.0));
    assert_eq!(c.threshold.holdoff, 0);
}

#[test]
fn trigger_from_config_errors() {
    let e = trigger_from_config(b(4.0), &cfg()).err();
    assert_eq!(e, Some(FlowError::FilterError(LPFError::CutoffTooHigh)));
    let mut c = cfg();
    c.dc_alpha = b(1.5);
    c.energy_alpha = b(-1.0);
    assert_eq!(
        trigger_from_config(b(100.0), &c).err(),
        Some(FlowError::DCOnePole(OnePoleError::AlphaOutOfRange))
    );
    c.dc_alpha = b(0.5);
    assert_eq!(
        trigger_from_config(b(100.0), &c).err(),
        Some(FlowError::ACOnePole(OnePoleError::AlphaOutOfRange))
    );
    c.energy_alpha = b(0.5);
    c.reset_level = b(2.0);
    assert_eq!(
        trigger_from_config(b(100.0), &c).err(),
        Some(FlowError::Trigger(ThresholdError::ThresholdError))
    );
    c.trigger_level = b(2.0);
    c.holdoff = 12;
    c.order = 2;
    let t = trigger_from_config(b(100.0), &c).expect("valid");
    assert_eq!(t.threshold.holdoff, 12);
    assert_eq!(t.lpf.order, 2);
}
