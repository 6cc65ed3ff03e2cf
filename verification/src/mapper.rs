//! Mapping of button edges and decoded encoder steps to MIDI CC values.

use vstd::prelude::*;

verus! {

/// How a button's input pin is biased. The bias decides which level means
/// "pressed": a pull-up pin is active-low, a pull-down pin is active-high.
#[derive(Clone, Copy, PartialEq, Eq, Structural, Debug)]
pub enum PullMode {
    Up,
    Down,
}

/// The direction of a level transition observed on a button pin.
#[derive(Clone, Copy, PartialEq, Eq, Structural, Debug)]
pub enum EdgeKind {
    Rising,
    Falling,
}

/// The CC value sent for a button edge: the transition onto the active level
/// sends 127 (press), the transition off it sends 0 (release).
pub open spec fn spec_button_value(pull: PullMode, edge: EdgeKind) -> u8 {
    match (pull, edge) {
        (PullMode::Up, EdgeKind::Falling) => 127,
        (PullMode::Up, EdgeKind::Rising) => 0,
        (PullMode::Down, EdgeKind::Rising) => 127,
        (PullMode::Down, EdgeKind::Falling) => 0,
    }
}

/// Map one qualifying button edge to its CC value.
pub fn button_value(pull: PullMode, edge: EdgeKind) -> (r: u8)
    ensures
        r == spec_button_value(pull, edge),
        r == 0 || r == 127,
{
    match (pull, edge) {
        (PullMode::Up, EdgeKind::Falling) => 127,
        (PullMode::Up, EdgeKind::Rising) => 0,
        (PullMode::Down, EdgeKind::Rising) => 127,
        (PullMode::Down, EdgeKind::Falling) => 0,
    }
}

/// The relative encoding of a detent step: +1 maps to CC value 1, -1 maps to
/// CC value 127 (read by the receiver as a two's-complement-style minus one).
/// No stored value takes part.
pub open spec fn spec_relative_value(step: i8) -> u8 {
    if step > 0 {
        1
    } else {
        127
    }
}

/// Map one detent step to its relative-mode CC value.
pub fn relative_value(step: i8) -> (r: u8)
    requires
        step == 1 || step == -1,
    ensures
        r == spec_relative_value(step),
        step == 1 ==> r == 1,
        step == -1 ==> r == 127,
{
    if step > 0 {
        1
    } else {
        127
    }
}

/// The absolute encoding of a detent step: the stored value moves one unit
/// in the step's direction, saturating at 0 and 127, never wrapping.
pub open spec fn spec_saturating_step(value: u8, step: i8) -> u8 {
    if step > 0 {
        if value >= 127 {
            127
        } else {
            (value + 1) as u8
        }
    } else {
        if value == 0 {
            0
        } else {
            (value - 1) as u8
        }
    }
}

/// Move an absolute-mode value one detent step, saturating at the MIDI bounds.
pub fn saturating_step(value: u8, step: i8) -> (r: u8)
    requires
        value <= 127,
        step == 1 || step == -1,
    ensures
        r == spec_saturating_step(value, step),
        r <= 127,
        step == 1 && value < 127 ==> r == value + 1,
        step == 1 && value == 127 ==> r == 127,
        step == -1 && value > 0 ==> r == value - 1,
        step == -1 && value == 0 ==> r == 0,
{
    if step > 0 {
        if value >= 127 {
            127
        } else {
            value + 1
        }
    } else {
        if value == 0 {
            0
        } else {
            value - 1
        }
    }
}

} // verus!
