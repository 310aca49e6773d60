use rs_udp::affine::AffineTransformBuilder;
use rs_udp::binary32::Binary32;
use rs_udp::lp_filter::{LPFError, LowPassFilterBuilder};
use rs_udp::one_pole::{OnePoleError, OnePoleFilterBuilder, OnePoleFilterType};
use rs_udp::rectify::{Rectify, RectifyBuilder, RectifyType};
use rs_udp::threshold::{ThresholdError, ThresholdTriggerBuilder};

fn b(v: f32) -> Binary32 {
    Binary32::from_bits(v.to_bits())
}

#[test]
fn affine_test_one() {
    AffineTransformBuilder::new()
        .offset(b(15000 as f32))
        .gain(b(0.00004))
        .build()
        .expect("build");
}

#[test]
fn lp_filter_test_one() {
    LowPassFilterBuilder::new()
        .sample_rate(b(100.0))
        .cutoff_hz(b(6.0))
        .order(4)
        .build()
        .expect("works");
}

#[test]
fn one_pole_test_one() {
    OnePoleFilterBuilder::new()
        .alpha(b(0.99 as f32))
        .pass(OnePoleFilterType::LowPass)
        .build()
        .expect("works");
}

#[test]
fn test_fails() {
    let err = OnePoleFilterBuilder::new()
        .alpha(b(2.0 as f32))
        .pass(OnePoleFilterType::HighPass)
        .build()
        .err()
        .unwrap_or_else(|| panic!("expecting an error"));
    assert!(matches!(err, OnePoleError::AlphaOutOfRange));
}

#[test]
fn rectify_test_one() {
    RectifyBuilder::new()
        .rectify(RectifyType::Absolute)
        .build()
        .expect("works");
}

#[test]
fn threshold_test_one() {
    ThresholdTriggerBuilder::new()
        .trigger(b(0.5 as f32))
        .reset(b(0.2))
        .build()
        .expect("works");
}

#[test]
fn affine_defaults_are_identity() {
    let t = AffineTransformBuilder::new().build().expect("build");
    assert_eq!(t.offset, b(0.0));
    assert_eq!(t.gain, b(1.0));
    let t = AffineTransformBuilder::new().offset(b(3.0)).gain(b(-2.5)).build().expect("build");
    assert_eq!(t.offset, b(3.0));
    assert_eq!(t.gain, b(-2.5));
}

#[test]
fn rectify_default_is_absolute() {
    let r = Rectify::builder().build().expect("works");
    assert_eq!(r.rectify_type, RectifyType::Absolute);
    let r = Rectify::builder().rectify(RectifyType::Square).build().expect("works");
    assert_eq!(r.rectify_type, RectifyType::Square);
}

#[test]
fn low_pass_accepts_cutoff_8_at_100_hz_order_4() {
    let f = LowPassFilterBuilder::new()
        .cutoff_hz(b(8.0))
        .sample_rate(b(100.0))
        .order(4)
        .build()
        .expect("works");
    assert_eq!(f.order, 4);
    assert_eq!(f.cutoff_hz, b(8.0));
    assert_eq!(f.sample_rate_hz, b(100.0));
}

#[test]
fn low_pass_boundary_is_the_sample_rate_itself() {
    // A cutoff equal to the sample rate passes, one just above it fails;
    // half the sample rate plays no part.
    assert!(LowPassFilterBuilder::new().cutoff_hz(b(8.0)).sample_rate(b(8.0)).build().is_ok());
    assert!(LowPassFilterBuilder::new().cutoff_hz(b(60.0)).sample_rate(b(100.0)).build().is_ok());
    let err = LowPassFilterBuilder::new()
        .cutoff_hz(b(8.0))
        .sample_rate(b(7.99))
        .order(4)
        .build()
        .err()
        .expect("cutoff above sample rate");
    assert_eq!(err, LPFError::CutoffTooHigh);
}

#[test]
fn low_pass_defaults() {
    let f = LowPassFilterBuilder::new().build().expect("works");
    assert_eq!(f.order, 4);
    assert_eq!(f.cutoff_hz, b(1.0));
    assert_eq!(f.sample_rate_hz, b(2.0));
    let err = LowPassFilterBuilder::new().cutoff_hz(b(3.0)).build().err().expect("too high");
    assert_eq!(err, LPFError::CutoffTooHigh);
}

#[test]
fn one_pole_alpha_range() {
    for ok in [0.0f32, -0.0, 0.5, 0.99, 1.0] {
        let f = OnePoleFilterBuilder::new().alpha(b(ok)).build().expect("in range");
        assert_eq!(f.alpha, b(ok));
        assert_eq!(f.pass, OnePoleFilterType::LowPass);
    }
    for bad in [-0.01f32, 1.01, 2.0, f32::INFINITY, f32::NEG_INFINITY, f32::NAN] {
        let err = OnePoleFilterBuilder::new().alpha(b(bad)).build().err().expect("out of range");
        assert_eq!(err, OnePoleError::AlphaOutOfRange);
    }
    let f = OnePoleFilterBuilder::new().build().expect("default alpha");
    assert_eq!(f.alpha, b(0.0));
}

#[test]
fn threshold_rejects_trigger_below_reset() {
    let err = ThresholdTriggerBuilder::new()
        .trigger(b(0.2))
        .reset(b(0.5))
        .build()
        .err()
        .expect("trigger below reset");
    assert_eq!(err, ThresholdError::ThresholdError);
    // default levels are trigger 1.0 and reset 0.0
    let err = ThresholdTriggerBuilder::new().reset(b(1.5)).build().err().expect("default trigger");
    assert_eq!(err, ThresholdError::ThresholdError);
    let err = ThresholdTriggerBuilder::new().trigger(b(f32::NAN)).build().err().expect("nan");
    assert_eq!(err, ThresholdError::ThresholdError);
    let t = ThresholdTriggerBuilder::new().trigger(b(0.3)).reset(b(0.3)).build().expect("equal");
    assert_eq!(t.trigger, b(0.3));
    let t = ThresholdTriggerBuilder::new().holdoff(7).build().expect("defaults");
    assert_eq!(t.trigger, b(1.0));
    assert_eq!(t.reset, b(0.0));
    assert_eq!(t.holdoff, 7);
    assert_eq!(t.processed, 0);
    assert!(!t.triggered);
}
