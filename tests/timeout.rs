use rs_udp::channel::Channel;
use rs_udp::timeout::{ChannelChecker, Liveness};

const SECOND: u64 = 1_000_000_000;

// If no timeout is configured then no timeout is expected.
#[test]
fn timeout_test_one() {
    let channel = Channel::try_from("EHZ").expect("channel");
    let now: u64 = 42 * SECOND;
    let mut checker = ChannelChecker::new_for_timeout(None);
    checker.track_channel(channel);
    checker.start(now);
    assert_eq!(checker.next_timeout(now + 3), None);
}

// If no channels are being tracked then no timeout is expected.
#[test]
fn test_two() {
    let now: u64 = 42 * SECOND;
    let mut checker = ChannelChecker::new_for_timeout(None);
    checker.start(now);
    assert_eq!(checker.next_timeout(now + 3), None);
}

#[test]
fn test_three() {
    let now: u64 = 42 * SECOND;
    let timeout = 5 * SECOND;
    let mut checker = ChannelChecker::new_for_timeout(Some(timeout));
    checker.track_channel(Channel::Ehz);
    checker.start(now);
    let result = checker.next_timeout(now + SECOND);
    assert!(result.is_some());
    assert_eq!(result.unwrap(), timeout - SECOND);
}

#[test]
fn unmonitored_channel_ok() {
    let now: u64 = 42 * SECOND;
    let timeout = 5 * SECOND;
    let mut checker = ChannelChecker::new_for_timeout(Some(timeout));
    checker.track_channel(Channel::Ehz);
    checker.start(now);
    checker.mark_channel_alive(now + 2 * SECOND, Channel::Enn);
}

#[test]
fn untracked_channel_reports_alive_and_changes_nothing() {
    let mut checker = ChannelChecker::new_for_timeout(Some(5 * SECOND));
    checker.track_channel(Channel::Ehz);
    checker.start(10 * SECOND);
    let before = checker.channel_states.clone();
    assert!(checker.mark_channel_alive(12 * SECOND, Channel::Enn));
    assert_eq!(checker.channel_states, before);
    assert_eq!(checker.next_timeout(12 * SECOND), Some(3 * SECOND));
}

#[test]
fn no_timeout_waits_forever_whatever_the_time() {
    let mut checker = ChannelChecker::new_for_timeout(None);
    checker.track_channel(Channel::Ehz);
    checker.track_channel(Channel::Ene);
    checker.start(0);
    for now in [0, 1, SECOND, u64::MAX] {
        assert_eq!(checker.next_timeout(now), None);
    }
    checker.mark_channel_alive(7, Channel::Ehz);
    assert_eq!(checker.next_timeout(u64::MAX), None);
}

#[test]
fn tracking_is_idempotent() {
    let mut checker = ChannelChecker::new_for_timeout(None);
    checker.track_channel(Channel::Ehz);
    checker.track_channel(Channel::Ehz);
    checker.track_channel(Channel::Ehn);
    assert_eq!(checker.channel_states.len(), 2);
    assert_eq!(checker.channel_states[0].alive, Liveness::Unknown);
    assert_eq!(checker.channel_states[0].as_of, None);
}

#[test]
fn deadline_is_zero_once_timeout_reached() {
    let timeout = 5 * SECOND;
    let mut checker = ChannelChecker::new_for_timeout(Some(timeout));
    checker.track_channel(Channel::Ehz);
    checker.track_channel(Channel::Ehn);
    checker.start(100 * SECOND);
    // the earliest channel decides
    checker.mark_channel_alive(103 * SECOND, Channel::Ehn);
    assert_eq!(checker.next_timeout(104 * SECOND), Some(SECOND));
    assert_eq!(checker.next_timeout(105 * SECOND), Some(0));
    assert_eq!(checker.next_timeout(200 * SECOND), Some(0));
    // a clock reading before the last-seen time counts as no time elapsed
    assert_eq!(checker.next_timeout(90 * SECOND), Some(timeout));
}

#[test]
fn mark_alive_reports_previous_liveness() {
    let mut checker = ChannelChecker::new_for_timeout(Some(5 * SECOND));
    checker.track_channel(Channel::Ehz);
    checker.start(0);
    assert!(!checker.mark_channel_alive(SECOND, Channel::Ehz));
    assert!(checker.mark_channel_alive(2 * SECOND, Channel::Ehz));
    let expired = checker.timeout_iter(8 * SECOND);
    assert_eq!(expired.len(), 1);
    assert_eq!(expired[0].channel, Channel::Ehz);
    assert_eq!(expired[0].alive, Liveness::Dead);
    assert!(!checker.mark_channel_alive(9 * SECOND, Channel::Ehz));
}

#[test]
fn expiry_is_strict_and_single_pass() {
    let mut checker = ChannelChecker::new_for_timeout(Some(5 * SECOND));
    checker.track_channel(Channel::Ehz);
    checker.track_channel(Channel::Ehn);
    checker.track_channel(Channel::Ehe);
    checker.start(10 * SECOND);
    checker.mark_channel_alive(12 * SECOND, Channel::Ehn);
    // exactly the timeout since last seen is not yet expired
    assert!(checker.timeout_iter(15 * SECOND).is_empty());
    let expired = checker.timeout_iter(16 * SECOND);
    let channels: Vec<Channel> = expired.iter().map(|s| s.channel).collect();
    assert_eq!(channels, vec![Channel::Ehz, Channel::Ehe]);
    assert!(checker.timeout_iter(16 * SECOND).is_empty());
    // dead channels no longer count towards the deadline
    assert_eq!(checker.next_timeout(16 * SECOND), Some(SECOND));
    let expired = checker.timeout_iter(18 * SECOND);
    assert_eq!(expired.len(), 1);
    assert_eq!(expired[0].channel, Channel::Ehn);
    assert_eq!(checker.next_timeout(18 * SECOND), None);
}

#[test]
fn early_clock_readings_expire_nothing() {
    let mut checker = ChannelChecker::new_for_timeout(Some(5 * SECOND));
    checker.track_channel(Channel::Ehz);
    checker.start(0);
    assert!(checker.timeout_iter(SECOND).is_empty());
    assert!(checker.timeout_iter(5 * SECOND).is_empty());
    assert_eq!(checker.timeout_iter(5 * SECOND + 1).len(), 1);
}
