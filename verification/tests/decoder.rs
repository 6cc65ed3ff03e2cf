use gpio2midi::decoder::QuadratureState;

// Phases as (a, b) level pairs: 00, 01, 11, 10.
const P00: (bool, bool) = (false, false);
const P01: (bool, bool) = (false, true);
const P11: (bool, bool) = (true, true);
const P10: (bool, bool) = (true, false);

#[test]
fn new_state_is_seeded_and_rested() {
    let s = QuadratureState::new(true, false, 64);
    assert_eq!(s.prev_phase, 2);
    assert_eq!(s.accum, 0);
    assert_eq!(s.value, 64);

    let s = QuadratureState::new(true, true, 0);
    assert_eq!(s.prev_phase, 3);
    let s = QuadratureState::new(false, true, 127);
    assert_eq!(s.prev_phase, 1);
    assert_eq!(s.value, 127);
}

#[test]
fn full_forward_rotation_yields_one_plus_step() {
    let mut s = QuadratureState::new(false, false, 64);
    assert_eq!(s.update(P01.0, P01.1), None);
    assert_eq!(s.update(P11.0, P11.1), None);
    assert_eq!(s.update(P10.0, P10.1), None);
    assert_eq!(s.update(P00.0, P00.1), Some(1));
    assert_eq!(s.accum, 0);
    assert_eq!(s.prev_phase, 0);
}

#[test]
fn full_backward_rotation_yields_one_minus_step() {
    let mut s = QuadratureState::new(false, false, 64);
    assert_eq!(s.update(P10.0, P10.1), None);
    assert_eq!(s.update(P11.0, P11.1), None);
    assert_eq!(s.update(P01.0, P01.1), None);
    assert_eq!(s.update(P00.0, P00.1), Some(-1));
    assert_eq!(s.accum, 0);
    assert_eq!(s.prev_phase, 0);
}

#[test]
fn unchanged_phase_is_ignored() {
    let mut s = QuadratureState::new(false, true, 64);
    let before = s;
    assert_eq!(s.update(P01.0, P01.1), None);
    assert_eq!(s, before);
    assert_eq!(s.update(P01.0, P01.1), None);
    assert_eq!(s, before);
}

#[test]
fn repeated_pair_after_movement_changes_nothing() {
    let mut s = QuadratureState::new(false, false, 64);
    assert_eq!(s.update(P01.0, P01.1), None);
    let after_first = s;
    assert_eq!(s.update(P01.0, P01.1), None);
    assert_eq!(s, after_first);
}

#[test]
fn two_bit_jump_is_noise() {
    let mut s = QuadratureState::new(false, false, 64);
    assert_eq!(s.update(P11.0, P11.1), None);
    assert_eq!(s.accum, 0);
    assert_eq!(s.prev_phase, 3);

    // The mirror jump back is noise too.
    assert_eq!(s.update(P00.0, P00.1), None);
    assert_eq!(s.accum, 0);
}

#[test]
fn jump_preserves_partial_progress() {
    let mut s = QuadratureState::new(false, false, 64);
    assert_eq!(s.update(P01.0, P01.1), None);
    assert_eq!(s.update(P11.0, P11.1), None);
    assert_eq!(s.accum, 2);

    // A noisy jump across both bits must not reset the accumulator.
    assert_eq!(s.update(P00.0, P00.1), None);
    assert_eq!(s.accum, 2);
    assert_eq!(s.prev_phase, 0);

    // Two more clean forward quarter-steps complete the detent.
    assert_eq!(s.update(P01.0, P01.1), None);
    assert_eq!(s.update(P11.0, P11.1), Some(1));
    assert_eq!(s.accum, 0);
}

#[test]
fn no_step_before_threshold() {
    let mut s = QuadratureState::new(false, false, 64);
    let samples = [P01, P11, P10, P00, P01, P11, P10, P00];
    let mut steps = 0;
    for (a, b) in samples {
        if s.update(a, b).is_some() {
            steps += 1;
            assert_eq!(s.accum, 0);
        } else {
            assert!(s.accum.abs() < 4);
        }
    }
    assert_eq!(steps, 2);
}

#[test]
fn update_never_touches_value() {
    let mut s = QuadratureState::new(false, false, 100);
    for (a, b) in [P01, P11, P10, P00, P11, P10] {
        s.update(a, b);
        assert_eq!(s.value, 100);
    }
}
