//! The event dispatcher's decision core.
//!
//! Two producers feed the engine at run time: interrupt callbacks deliver
//! button edges, and a fixed-rate poll loop samples encoder phase pins. The
//! functions here take one such event against the registry and decide which
//! Control Change message, if any, must go to the MIDI sink; the surrounding
//! queueing, locking and sending is the caller's task.

use vstd::prelude::*;
use vstd::pervasive::VecAdditionalExecFns;
use crate::decoder::QuadratureState;
use crate::decoder::phase_of;
use crate::mapper::EdgeKind;
use crate::mapper::spec_button_value;
use crate::mapper::spec_relative_value;
use crate::mapper::spec_saturating_step;
use crate::mapper::button_value;
use crate::mapper::relative_value;
use crate::mapper::saturating_step;
use crate::message::CcMessage;
use crate::registry::Entry;
use crate::registry::Registry;
use crate::registry::RuntimeControl;

verus! {

/// The message owed for one dequeued button event: exactly one per
/// qualifying edge on a registered button pin, none for any other pin.
/// The registry is read only; button handling keeps no state.
pub fn handle_button_event(reg: &Registry, pin: u8, edge: EdgeKind) -> (r: Option<CcMessage>)
    requires
        reg.wf(),
    ensures
        r is Some <==> reg.has_pin(pin) && reg.control_for(pin) is Button,
        reg.has_pin(pin) ==> (reg.control_for(pin) matches RuntimeControl::Button { cc, pull }
            ==> r == Some(CcMessage { cc, value: spec_button_value(pull, edge) })),
        r matches Some(m) ==> m.wf(),
{
    let found = reg.get(pin);
    match found {
        Some(RuntimeControl::Button { cc, pull }) => {
            proof {
                let i = reg.index_of(pin);
                assert(reg@[i].control.wf());
            }
            Some(CcMessage { cc, value: button_value(pull, edge) })
        },
        _ => None,
    }
}

/// The decode state an encoder entry holds after one poll sample, and the
/// value field it ends with in absolute mode.
pub open spec fn spec_polled_state(state: QuadratureState, relative: bool, ph: u8) -> QuadratureState {
    let moved = state.stepped(ph);
    match state.step_of(ph) {
        None => moved,
        Some(s) => if relative {
            moved
        } else {
            QuadratureState {
                prev_phase: moved.prev_phase,
                accum: moved.accum,
                value: spec_saturating_step(state.value, s),
            }
        },
    }
}

/// The message one poll sample of an encoder entry owes: none while the
/// detent threshold is not reached; in relative mode the step's fixed
/// encoding; in absolute mode the saturated new value.
pub open spec fn spec_polled_message(
    state: QuadratureState,
    relative: bool,
    cc: u8,
    ph: u8,
) -> Option<CcMessage> {
    match state.step_of(ph) {
        None => None,
        Some(s) => if relative {
            Some(CcMessage { cc, value: spec_relative_value(s) })
        } else {
            Some(CcMessage { cc, value: spec_saturating_step(state.value, s) })
        },
    }
}

/// One poll cycle for one encoder: feed the freshly sampled phase pair to
/// its decoder and decide which message to send. A pin that is not a
/// registered encoder yields nothing and changes nothing; otherwise only
/// that entry's decode state moves, exactly as `spec_polled_state` says, and
/// the message owed is exactly `spec_polled_message`.
pub fn poll_encoder(reg: &mut Registry, pin: u8, level_a: bool, level_b: bool) -> (r: Option<
    CcMessage,
>)
    requires
        old(reg).wf(),
    ensures
        final(reg).wf(),
        !(old(reg).has_pin(pin) && old(reg).control_for(pin) is Encoder) ==> r is None
            && *final(reg) == *old(reg),
        old(reg).has_pin(pin) ==> (old(reg).control_for(pin) matches RuntimeControl::Encoder {
            cc,
            relative,
            state,
        } ==> ({
            let ph = phase_of(level_a, level_b);
            &&& r == spec_polled_message(state, relative, cc, ph)
            &&& final(reg)@ == old(reg)@.update(
                old(reg).index_of(pin),
                Entry {
                    pin,
                    control: RuntimeControl::Encoder {
                        cc,
                        relative,
                        state: spec_polled_state(state, relative, ph),
                    },
                },
            )
            &&& final(reg).has_pin(pin)
            &&& final(reg).index_of(pin) == old(reg).index_of(pin)
            &&& final(reg).control_for(pin) == RuntimeControl::Encoder {
                cc,
                relative,
                state: spec_polled_state(state, relative, ph),
            }
        })),
        r matches Some(m) ==> m.wf(),
{
    let idx = match reg.find_pin(pin) {
        Some(i) => i,
        None => {
            return None;
        },
    };
    let entry = reg.entries[idx];
    match entry.control {
        RuntimeControl::Button { .. } => None,
        RuntimeControl::Encoder { cc, relative, state } => {
            proof {
                assert(reg@[idx as int].control.wf());
            }
            let mut st = state;
            let step = st.update(level_a, level_b);
            let r: Option<CcMessage> = match step {
                None => None,
                Some(s) => {
                    if relative {
                        Some(CcMessage { cc, value: relative_value(s) })
                    } else {
                        let new_value = saturating_step(st.value, s);
                        st.value = new_value;
                        Some(CcMessage { cc, value: new_value })
                    }
                },
            };
            let new_entry = Entry {
                pin,
                control: RuntimeControl::Encoder { cc, relative, state: st },
            };
            proof {
                lemma_update_entry_keeps_wf(*reg, idx as int, new_entry);
            }
            reg.entries.set(idx, new_entry);
            proof {
                crate::registry::lemma_entry_resolves(*reg, idx as int);
            }
            r
        },
    }
}

/// Replacing an entry by one with the same pin and a well-formed control
/// keeps the registry well formed.
proof fn lemma_update_entry_keeps_wf(reg: Registry, at: int, entry: Entry)
    requires
        reg.wf(),
        0 <= at < reg@.len(),
        entry.pin == reg@[at].pin,
        entry.control.wf(),
    ensures
        forall|i: int, j: int|
            0 <= i < j < reg@.update(at, entry).len() ==> (#[trigger] reg@.update(at, entry)[i]).pin
                != (#[trigger] reg@.update(at, entry)[j]).pin,
        forall|i: int|
            0 <= i < reg@.update(at, entry).len() ==> (#[trigger] reg@.update(at, entry)[i]).control.wf(),
{
    let s = reg@.update(at, entry);
    assert forall|i: int, j: int| 0 <= i < j < s.len() implies (#[trigger] s[i]).pin != (
    #[trigger] s[j]).pin by {
        assert(s[i].pin == reg@[i].pin);
        assert(s[j].pin == reg@[j].pin);
    }
    assert forall|i: int| 0 <= i < s.len() implies (#[trigger] s[i]).control.wf() by {
        if i != at {
            assert(s[i] == reg@[i]);
        }
    }
}

} // verus!
