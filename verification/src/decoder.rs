//! Quadrature decoding for two-phase rotary encoders.
//!
//! A mechanical encoder produces a Gray-code sequence on its two phase pins:
//! one detent (one mechanical click) is four valid quarter-step transitions.
//! The decoder accumulates the signed contribution of each transition and
//! emits one directional step exactly when a full detent has been seen.

use vstd::prelude::*;

verus! {

/// The two-bit phase sample formed from the levels of pins A and B
/// (A is the high bit, a high level reads as 1).
pub open spec fn phase_of(a: bool, b: bool) -> u8 {
    if a {
        if b { 3 } else { 2 }
    } else {
        if b { 1 } else { 0 }
    }
}

/// The signed contribution of one phase transition to rotational movement.
///
/// Valid Gray-code transitions (exactly one bit flips) contribute +1 or -1
/// depending on direction; a two-bit jump is noise and contributes 0, as
/// does an unchanged phase.
pub open spec fn movement(prev: u8, new: u8) -> int {
    let idx = prev * 4 + new;
    if idx == 1 || idx == 7 || idx == 8 || idx == 14 {
        1
    } else if idx == 2 || idx == 4 || idx == 11 || idx == 13 {
        -1
    } else {
        0
    }
}

/// The phase that follows `ph` in a clean forward rotation
/// (the cycle 00 -> 01 -> 11 -> 10 -> 00).
pub open spec fn gray_next(ph: u8) -> u8 {
    if ph == 0 {
        1
    } else if ph == 1 {
        3
    } else if ph == 3 {
        2
    } else {
        0
    }
}

/// The phase that follows `ph` in a clean backward rotation
/// (the cycle 00 -> 10 -> 11 -> 01 -> 00).
pub open spec fn gray_prev(ph: u8) -> u8 {
    if ph == 0 {
        2
    } else if ph == 2 {
        3
    } else if ph == 3 {
        1
    } else {
        0
    }
}

/// Sample the two pin levels into a two-bit phase.
pub fn sample_phase(a: bool, b: bool) -> (r: u8)
    ensures
        r == phase_of(a, b),
        r < 4,
{
    let hi: u8 = if a { 2 } else { 0 };
    let lo: u8 = if b { 1 } else { 0 };
    hi + lo
}

/// The signed movement of one transition, as executable code.
fn movement_of(prev: u8, new: u8) -> (r: i8)
    requires
        prev < 4,
        new < 4,
    ensures
        r as int == movement(prev, new),
        -1 <= r <= 1,
{
    let idx: u8 = prev * 4 + new;
    if idx == 1 || idx == 7 || idx == 8 || idx == 14 {
        1
    } else if idx == 2 || idx == 4 || idx == 11 || idx == 13 {
        -1
    } else {
        0
    }
}

/// The decode state of one rotary encoder: the last seen phase, the running
/// accumulator of quarter-steps since the last emitted detent, and the
/// control's current absolute CC value.
#[derive(Clone, Copy, PartialEq, Eq, Structural, Debug)]
pub struct QuadratureState {
    pub prev_phase: u8,
    pub accum: i8,
    pub value: u8,
}

impl QuadratureState {
    /// Well-formedness: the phase is two bits, the accumulator never rests
    /// at or beyond a full detent, and the value is a valid MIDI data byte.
    pub open spec fn wf(self) -> bool {
        &&& self.prev_phase < 4
        &&& -3 <= self.accum <= 3
        &&& self.value <= 127
    }

    /// The state after feeding one phase sample: an unchanged phase is
    /// ignored; otherwise the transition's movement is accumulated and the
    /// accumulator resets exactly when it reaches a full detent.
    pub open spec fn stepped(self, ph: u8) -> QuadratureState {
        if ph == self.prev_phase {
            self
        } else {
            let acc = self.accum + movement(self.prev_phase, ph);
            if acc >= 4 || acc <= -4 {
                QuadratureState { prev_phase: ph, accum: 0, value: self.value }
            } else {
                QuadratureState { prev_phase: ph, accum: acc as i8, value: self.value }
            }
        }
    }

    /// The step emitted by feeding one phase sample: `Some(+1)` or `Some(-1)`
    /// exactly when the accumulator reaches a full detent, `None` otherwise.
    pub open spec fn step_of(self, ph: u8) -> Option<i8> {
        if ph == self.prev_phase {
            None
        } else {
            let acc = self.accum + movement(self.prev_phase, ph);
            if acc >= 4 {
                Some(1i8)
            } else if acc <= -4 {
                Some(-1i8)
            } else {
                None
            }
        }
    }

    /// A fresh decode state seeded with the pins' current levels and an
    /// initial CC value.
    pub fn new(a: bool, b: bool, initial_value: u8) -> (r: QuadratureState)
        requires
            initial_value <= 127,
        ensures
            r.prev_phase == phase_of(a, b),
            r.accum == 0,
            r.value == initial_value,
            r.wf(),
    {
        QuadratureState { prev_phase: sample_phase(a, b), accum: 0, value: initial_value }
    }

    /// Feed one sampled phase pair. Returns `Some(+1)` or `Some(-1)` exactly
    /// when this sample completes a detent, and `None` otherwise; the stored
    /// CC value is never touched here.
    pub fn update(&mut self, a: bool, b: bool) -> (r: Option<i8>)
        requires
            old(self).wf(),
        ensures
            final(self).wf(),
            *final(self) == old(self).stepped(phase_of(a, b)),
            r == old(self).step_of(phase_of(a, b)),
            final(self).value == old(self).value,
            r is None ==> -3 <= final(self).accum <= 3,
            r is Some ==> final(self).accum == 0,
            r is Some ==> (old(self).accum + movement(old(self).prev_phase, phase_of(a, b)) == 4
                || old(self).accum + movement(old(self).prev_phase, phase_of(a, b)) == -4),
    {
        let new_phase = sample_phase(a, b);
        if new_phase == self.prev_phase {
            return None;
        }
        let mov = movement_of(self.prev_phase, new_phase);
        let acc: i8 = self.accum + mov;
        self.prev_phase = new_phase;
        if acc >= 4 || acc <= -4 {
            self.accum = 0;
            if acc > 0 {
                Some(1)
            } else {
                Some(-1)
            }
        } else {
            self.accum = acc;
            None
        }
    }
}

/// A sample equal to the stored phase changes nothing and emits nothing.
pub proof fn lemma_unchanged_phase_is_noop(s: QuadratureState, ph: u8)
    requires
        ph == s.prev_phase,
    ensures
        s.stepped(ph) == s,
        s.step_of(ph) is None,
{
}

/// Feeding the same phase pair twice in a row: whatever the first sample did,
/// the second changes nothing and emits nothing.
pub proof fn lemma_repeat_sample_is_noop(s: QuadratureState, ph: u8)
    ensures
        s.stepped(ph).stepped(ph) == s.stepped(ph),
        s.stepped(ph).step_of(ph) is None,
{
}

/// A step is emitted only when the accumulated quarter-steps reach the
/// detent threshold, and after every silent sample the accumulator rests
/// strictly below it.
pub proof fn lemma_step_requires_threshold(s: QuadratureState, ph: u8)
    requires
        s.wf(),
        ph < 4,
    ensures
        s.step_of(ph) is Some ==> (s.accum + movement(s.prev_phase, ph) == 4
            || s.accum + movement(s.prev_phase, ph) == -4),
        s.step_of(ph) is None ==> -3 <= s.stepped(ph).accum <= 3,
        s.stepped(ph).wf(),
{
}

/// An invalid two-bit jump (both phase bits change at once) is noise: it
/// emits nothing and leaves the accumulator exactly where it was.
pub proof fn lemma_jump_is_noise(s: QuadratureState, ph: u8)
    requires
        s.wf(),
        ph < 4,
        ph != s.prev_phase,
        s.prev_phase + ph == 3,
    ensures
        s.step_of(ph) is None,
        s.stepped(ph).accum == s.accum,
        s.stepped(ph).prev_phase == ph,
{
}

/// A full clean forward rotation (four Gray-code quarter-steps) from a
/// rested accumulator yields exactly one `+1` step, on the last transition,
/// and returns to the starting phase with a rested accumulator.
pub proof fn lemma_full_forward_rotation(s: QuadratureState)
    requires
        s.wf(),
        s.accum == 0,
    ensures
        ({
            let p1 = gray_next(s.prev_phase);
            let p2 = gray_next(p1);
            let p3 = gray_next(p2);
            let p4 = gray_next(p3);
            let s1 = s.stepped(p1);
            let s2 = s1.stepped(p2);
            let s3 = s2.stepped(p3);
            &&& s.step_of(p1) is None
            &&& s1.step_of(p2) is None
            &&& s2.step_of(p3) is None
            &&& s3.step_of(p4) == Some(1i8)
            &&& s3.stepped(p4).accum == 0
            &&& s3.stepped(p4).prev_phase == s.prev_phase
            &&& p4 == s.prev_phase
        }),
{
}

/// A full clean backward rotation from a rested accumulator yields exactly
/// one `-1` step, on the last transition, and returns to the starting phase
/// with a rested accumulator.
pub proof fn lemma_full_backward_rotation(s: QuadratureState)
    requires
        s.wf(),
        s.accum == 0,
    ensures
        ({
            let p1 = gray_prev(s.prev_phase);
            let p2 = gray_prev(p1);
            let p3 = gray_prev(p2);
            let p4 = gray_prev(p3);
            let s1 = s.stepped(p1);
            let s2 = s1.stepped(p2);
            let s3 = s2.stepped(p3);
            &&& s.step_of(p1) is None
            &&& s1.step_of(p2) is None
            &&& s2.step_of(p3) is None
            &&& s3.step_of(p4) == Some(-1i8)
            &&& s3.stepped(p4).accum == 0
            &&& s3.stepped(p4).prev_phase == s.prev_phase
            &&& p4 == s.prev_phase
        }),
{
}

} // verus!
