use shuidui::alarm_gate::DeviceRateLimiters;
use shuidui::rate_limiter::{RateLimiter, MAX_ALERTS_PER_WINDOW, WINDOW_NANOS};

#[test]
fn limiter_lets_three_through_then_suppresses() {
    let mut r = RateLimiter::new();
    assert!(r.should_send_at("frame_vibration", "warning", 0));
    assert!(r.should_send_at("frame_vibration", "warning", 1_000));
    assert!(r.should_send_at("frame_vibration", "warning", 2_000));
    assert!(!r.should_send_at("frame_vibration", "warning", 3_000));
    assert!(!r.should_send_at("frame_vibration", "warning", WINDOW_NANOS));
}

#[test]
fn limiter_keys_are_type_and_level() {
    let mut r = RateLimiter::new();
    for _ in 0..MAX_ALERTS_PER_WINDOW {
        assert!(r.should_send_at("frame_vibration", "warning", 10));
    }
    assert!(!r.should_send_at("frame_vibration", "warning", 10));
    assert!(r.should_send_at("frame_vibration", "critical", 10));
    assert!(r.should_send_at("duitou_stall", "warning", 10));
}

#[test]
fn limiter_key_joins_with_a_colon() {
    let mut r = RateLimiter::new();
    // "a:b" + ":" + "c" and "a" + ":" + "b:c" are the same key
    assert!(r.should_send_at("a:b", "c", 0));
    assert!(r.should_send_at("a", "b:c", 0));
    assert!(r.should_send_at("a:b", "c", 0));
    assert!(!r.should_send_at("a", "b:c", 0));
    assert!(r.should_send_at("a:b:", "c", 0));
}

#[test]
fn limiter_forgets_after_the_window() {
    let mut r = RateLimiter::new();
    for t in [0u128, 1, 2] {
        assert!(r.should_send_at("duitou_acceleration", "critical", t));
    }
    // exactly the window after the first entry: not yet expired
    assert!(!r.should_send_at("duitou_acceleration", "critical", WINDOW_NANOS));
    // one nanosecond later the first entry has left the window
    assert!(r.should_send_at("duitou_acceleration", "critical", WINDOW_NANOS + 1));
    assert!(!r.should_send_at("duitou_acceleration", "critical", WINDOW_NANOS + 1));
    // long after, everything has left the window
    assert!(r.should_send_at("duitou_acceleration", "critical", 100 * WINDOW_NANOS));
}

#[test]
fn limiter_earlier_clock_reading_expires_nothing() {
    let mut r = RateLimiter::new();
    for _ in 0..3 {
        assert!(r.should_send_at("x", "y", 50 * WINDOW_NANOS));
    }
    assert!(!r.should_send_at("x", "y", 0));
}

#[test]
fn limiter_with_real_clock() {
    let mut r = RateLimiter::new();
    assert!(r.should_send("frame_vibration", "critical"));
    assert!(r.should_send("frame_vibration", "critical"));
    assert!(r.should_send("frame_vibration", "critical"));
    assert!(!r.should_send("frame_vibration", "critical"));
}

#[test]
fn device_limiters_are_independent() {
    let mut g = DeviceRateLimiters::new();
    for _ in 0..3 {
        assert!(g.should_send_at("shuidui-001", "frame_vibration", "warning", 5));
    }
    assert!(!g.should_send_at("shuidui-001", "frame_vibration", "warning", 6));
    assert!(g.should_send_at("shuidui-002", "frame_vibration", "warning", 6));
    assert!(!g.should_send_at("shuidui-001", "frame_vibration", "warning", 7));
    assert!(g.should_send_at("shuidui-001", "frame_vibration", "warning", WINDOW_NANOS + 6));
}

#[test]
fn device_limiters_with_real_clock() {
    let mut g = DeviceRateLimiters::new();
    for _ in 0..3 {
        assert!(g.should_send("d1", "duitou_stall", "critical"));
    }
    assert!(!g.should_send("d1", "duitou_stall", "critical"));
    assert!(g.should_send("d2", "duitou_stall", "critical"));
}

#[test]
fn held_back_alerts_do_not_extend_the_window() {
    let second: u128 = 1_000_000_000;
    let mut r = RateLimiter::new();
    assert!(r.should_send_at("frame_vibration", "critical", 0));
    assert!(r.should_send_at("frame_vibration", "critical", second));
    assert!(r.should_send_at("frame_vibration", "critical", 2 * second));
    // held back: three went out within the last five seconds
    assert!(!r.should_send_at("frame_vibration", "critical", 3 * second));
    // at 5.5 s only the sends at 1 s and 2 s are within the window; the
    // held-back request at 3 s does not count
    assert!(r.should_send_at("frame_vibration", "critical", 5 * second + second / 2));
    assert!(!r.should_send_at("frame_vibration", "critical", 6 * second));
    // at 7.5 s the send at 5.5 s remains, the ones at 1 s and 2 s have left
    assert!(r.should_send_at("frame_vibration", "critical", 7 * second + second / 2));
}
