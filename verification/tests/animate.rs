use std::time::Duration;

use vagabond_server::animate::Animator;
use vagabond_server::entity::ServerAnimator;

#[test]
fn new_animator_starts_at_frame_zero() {
    let a = Animator::new(10, Duration::from_millis(100), 2);
    assert_eq!(a.current_frame(), 0);
    assert_eq!(a.current_repeat(), 0);
    assert_eq!(a.max_repeats(), 2);
}

#[test]
fn zero_duration_animator_advances_once_per_update() {
    // with a zero frame duration every update is due immediately, so the
    // timing nondeterminism is fixed and the counter logic is observable
    let mut a = Animator::new(3, Duration::from_millis(0), 1);
    a.update(); // establishes the start instant and advances to 1
    assert_eq!(a.current_frame(), 1);
    a.update();
    assert_eq!(a.current_frame(), 2);
    a.update();
    // reaching the last frame starts the one allowed repeat: the repeat
    // counter grows and the frame wraps to zero
    assert_eq!(a.current_frame(), 0);
    assert_eq!(a.current_repeat(), 1);
}

#[test]
fn paused_animator_stands_still() {
    let mut a = Animator::new(3, Duration::from_millis(0), 0);
    assert!(!a.paused);
    a.paused = true;
    a.update();
    a.update();
    assert_eq!(a.current_frame(), 0);
    assert_eq!(a.current_repeat(), 0);
    // unpausing lets the zero-duration animator advance again
    a.paused = false;
    a.update();
    assert_eq!(a.current_frame(), 1);
}

#[test]
fn long_duration_animator_does_not_advance() {
    let mut a = Animator::new(3, Duration::from_secs(3600), 0);
    a.update();
    a.update();
    assert_eq!(a.current_frame(), 0);
    assert_eq!(a.current_repeat(), 0);
}

#[test]
fn ended_animation_stops_at_the_last_frame() {
    let mut a = Animator::new(2, Duration::from_millis(0), 0);
    for _ in 0..10 {
        a.update();
    }
    // one full run, one wrap, then the animation parks on its last frame
    assert_eq!(a.current_frame(), 2);
    assert!(a.current_repeat() >= 1);
}

#[test]
fn indefinite_repeat_keeps_wrapping() {
    let mut a = Animator::new(2, Duration::from_millis(0), -1);
    for _ in 0..7 {
        a.update();
    }
    // frames cycle 0 -> 1 -> (2, wraps to 0) forever; the repeat counter
    // never moves for an indefinitely repeating animation
    assert_eq!(a.current_repeat(), 0);
    assert!(a.current_frame() < 2);
}

#[test]
fn end_resets_the_animation() {
    let mut a = Animator::new(3, Duration::from_millis(0), 5);
    a.update();
    a.update();
    a.end();
    assert_eq!(a.current_frame(), 0);
    assert_eq!(a.current_repeat(), 0);
    assert_eq!(a.max_repeats(), 5);
}

#[test]
fn server_animator_round_trips_the_counters() {
    let mut a = Animator::new(5, Duration::from_millis(0), 3);
    a.update();
    a.update();
    let relayed = ServerAnimator::from_animator(&a);
    assert_eq!(relayed.current_frame(), 2);
    assert_eq!(relayed.current_repeat(), 0);

    let mut b = Animator::new(5, Duration::from_secs(1), 3);
    b.update_from_server_animator(&relayed);
    assert_eq!(b.current_frame(), 2);
    assert_eq!(b.current_repeat(), 0);
}

#[test]
fn fresh_server_animator_is_zeroed() {
    let a = ServerAnimator::new();
    assert_eq!(a.current_frame(), 0);
    assert_eq!(a.current_repeat(), 0);
}
