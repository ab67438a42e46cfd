use egui_animate::anim::Animation;
use egui_animate::driver::{Driver, Phase};

const ID_A: u64 = 7;
const ID_B: u64 = 8;

#[test]
fn end_to_end_fade_example() {
    // A 400-tick symmetric animation; the value changes from 3 to 4 at tick 0.
    let anim = Animation::new(400u64, (), ());
    let mut driver = Driver::new();

    // First sight of the identity: settled, no transition.
    let o = driver.frame(ID_A, 3, 0, &anim);
    assert_eq!(o.phase, Phase::Idle);
    assert_eq!(o.visible_value, 3);

    // The change itself: transitioning out from the start.
    let o = driver.frame(ID_A, 4, 0, &anim);
    assert_eq!(o.phase, Phase::TransitioningOut);
    assert_eq!(o.visible_value, 3);
    assert_eq!(o.progress.num, 0);
    assert_eq!(o.progress.den, 200);

    // Halfway through the out segment: progress 0.5, prior value visible.
    let o = driver.frame(ID_A, 4, 100, &anim);
    assert_eq!(o.phase, Phase::TransitioningOut);
    assert_eq!(o.visible_value, 3);
    assert_eq!(o.progress.num, 100);
    assert_eq!(o.progress.den, 200);

    // A quarter into the in segment: progress 0.25, new value visible.
    let o = driver.frame(ID_A, 4, 250, &anim);
    assert_eq!(o.phase, Phase::TransitioningIn);
    assert_eq!(o.visible_value, 4);
    assert_eq!(o.progress.num, 50);
    assert_eq!(o.progress.den, 200);

    // At the total duration: idle, new value visible.
    let o = driver.frame(ID_A, 4, 400, &anim);
    assert_eq!(o.phase, Phase::Idle);
    assert_eq!(o.visible_value, 4);
}

#[test]
fn held_value_settles_exactly_at_total_duration() {
    let anim = Animation::new(400u64, (), ());
    let mut driver = Driver::new();
    driver.frame(ID_A, 1, 50, &anim);
    // Value switches at tick 50 and is held constant thereafter.
    driver.frame(ID_A, 2, 50, &anim);

    let o = driver.frame(ID_A, 2, 449, &anim);
    assert_ne!(o.phase, Phase::Idle);
    let o = driver.frame(ID_A, 2, 450, &anim);
    assert_eq!(o.phase, Phase::Idle);
    assert_eq!(o.visible_value, 2);
    // Never re-enters a transitioning phase while the value is held.
    for t in [451u64, 500, 1000, 1_000_000] {
        let o = driver.frame(ID_A, 2, t, &anim);
        assert_eq!(o.phase, Phase::Idle);
        assert_eq!(o.visible_value, 2);
    }
}

#[test]
fn progress_is_monotone_across_frames() {
    let anim = Animation::new(100u64, (), ());
    let mut driver = Driver::new();
    driver.frame(ID_A, 1, 0, &anim);
    driver.frame(ID_A, 2, 0, &anim);
    let mut last_phase = Phase::TransitioningOut;
    let mut last_num: u128 = 0;
    let mut last_den: u128 = 1;
    for t in 0..120u64 {
        let o = driver.frame(ID_A, 2, t, &anim);
        if o.phase != last_phase {
            // A new segment (or idleness) restarts the local fraction.
            last_phase = o.phase;
            last_num = 0;
            last_den = 1;
        }
        assert!(o.progress.num <= o.progress.den);
        assert!(last_num * o.progress.den as u128 <= o.progress.num as u128 * last_den);
        last_num = o.progress.num as u128;
        last_den = o.progress.den as u128;
    }
}

#[test]
fn zero_duration_out_segment_is_skipped() {
    let anim = Animation::new_in(300u64, ());
    let mut driver = Driver::new();
    driver.frame(ID_A, 1, 10, &anim);
    // The very first frame after the change is already transitioning in.
    let o = driver.frame(ID_A, 2, 10, &anim);
    assert_eq!(o.phase, Phase::TransitioningIn);
    assert_eq!(o.visible_value, 2);
    assert_eq!(o.progress.num, 0);
    assert_eq!(o.progress.den, 300);
}

#[test]
fn zero_duration_animation_completes_at_once() {
    let anim = Animation::new(0u64, (), ());
    let mut driver = Driver::new();
    driver.frame(ID_A, 1, 10, &anim);
    let o = driver.frame(ID_A, 2, 10, &anim);
    assert_eq!(o.phase, Phase::Idle);
    assert_eq!(o.visible_value, 2);
}

#[test]
fn empty_animation_is_always_idle() {
    let anim = Animation::<()>::empty();
    let mut driver = Driver::new();
    driver.frame(ID_A, 1, 0, &anim);
    for (value, t) in [(2u64, 0u64), (2, 1), (3, 5), (3, 100)] {
        let o = driver.frame(ID_A, value, t, &anim);
        assert_eq!(o.phase, Phase::Idle);
        assert_eq!(o.visible_value, value);
        assert_eq!(o.progress.num, o.progress.den);
    }
}

#[test]
fn distinct_identities_are_independent() {
    let anim = Animation::new(400u64, (), ());
    let mut driver = Driver::new();
    driver.frame(ID_A, 1, 0, &anim);
    driver.frame(ID_B, 10, 0, &anim);

    // Only A's value changes; B must stay idle and keep its own value.
    driver.frame(ID_A, 2, 100, &anim);
    let oa = driver.frame(ID_A, 2, 150, &anim);
    let ob = driver.frame(ID_B, 10, 150, &anim);
    assert_eq!(oa.phase, Phase::TransitioningOut);
    assert_eq!(oa.visible_value, 1);
    assert_eq!(ob.phase, Phase::Idle);
    assert_eq!(ob.visible_value, 10);

    // Both animate simultaneously, each with its own clock and values.
    driver.frame(ID_B, 20, 200, &anim);
    let oa = driver.frame(ID_A, 2, 350, &anim);
    let ob = driver.frame(ID_B, 20, 350, &anim);
    assert_eq!(oa.phase, Phase::TransitioningIn);
    assert_eq!(oa.visible_value, 2);
    assert_eq!(oa.progress.num, 50);
    assert_eq!(ob.phase, Phase::TransitioningOut);
    assert_eq!(ob.visible_value, 10);
    assert_eq!(ob.progress.num, 150);
}

#[test]
fn change_mid_transition_restarts() {
    let anim = Animation::new(400u64, (), ());
    let mut driver = Driver::new();
    driver.frame(ID_A, 3, 0, &anim);
    driver.frame(ID_A, 4, 0, &anim);
    // Halfway through the out segment the value changes again: the transition
    // restarts at once, showing the value it replaces.
    let o = driver.frame(ID_A, 5, 100, &anim);
    assert_eq!(o.phase, Phase::TransitioningOut);
    assert_eq!(o.visible_value, 4);
    assert_eq!(o.progress.num, 0);
    assert_eq!(o.progress.den, 200);
    // And settles 400 ticks after the restart.
    let o = driver.frame(ID_A, 5, 500, &anim);
    assert_eq!(o.phase, Phase::Idle);
    assert_eq!(o.visible_value, 5);
}

#[test]
fn retire_drops_identity_state() {
    let anim = Animation::new(400u64, (), ());
    let mut driver = Driver::new();
    assert_eq!(driver.len(), 0);
    driver.frame(ID_A, 1, 0, &anim);
    driver.frame(ID_A, 2, 0, &anim);
    assert_eq!(driver.len(), 1);
    driver.retire(ID_A);
    assert_eq!(driver.len(), 0);
    // A retired identity starts over as fresh: settled, even mid-change.
    let o = driver.frame(ID_A, 9, 10, &anim);
    assert_eq!(o.phase, Phase::Idle);
    assert_eq!(o.visible_value, 9);
}

#[test]
fn state_of_reports_stored_timing() {
    let anim = Animation::new(400u64, (), ());
    let mut driver = Driver::new();
    assert_eq!(driver.state_of(ID_A), None);
    driver.frame(ID_A, 3, 25, &anim);
    driver.frame(ID_A, 4, 25, &anim);
    let s = driver.state_of(ID_A).unwrap();
    assert_eq!(s.previous_value, 3);
    assert_eq!(s.current_value, 4);
    assert_eq!(s.started_at, 25);
}
