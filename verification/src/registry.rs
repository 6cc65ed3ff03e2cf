//! The runtime table of configured controls, keyed by primary pin.
//!
//! The registry is built once at startup from the ordered list of configured
//! controls and is never structurally changed afterward; only the decode
//! state of an encoder entry is mutated while events are processed.

use vstd::prelude::*;
use crate::decoder::QuadratureState;
use crate::decoder::phase_of;
use crate::mapper::PullMode;

verus! {

/// The default CC value an absolute-mode encoder starts at (the MIDI center).
pub const INITIAL_ENCODER_VALUE: u8 = 64;

/// Why building the registry from configuration failed.
#[derive(Clone, Copy, PartialEq, Eq, Structural, Debug)]
pub enum ConfigError {
    /// A control's CC number lies outside 0..=127.
    CcOutOfRange { cc: u8 },
    /// A primary pin is claimed by more than one control.
    PinCollision { pin: u8 },
}

/// One live control bound to a primary pin.
#[derive(Clone, Copy, PartialEq, Eq, Structural, Debug)]
pub enum RuntimeControl {
    Button { cc: u8, pull: PullMode },
    Encoder { cc: u8, relative: bool, state: QuadratureState },
}

impl RuntimeControl {
    /// Well-formedness: the CC number is a valid data byte, and an encoder's
    /// decode state keeps its own invariant.
    pub open spec fn wf(self) -> bool {
        match self {
            RuntimeControl::Button { cc, .. } => cc <= 127,
            RuntimeControl::Encoder { cc, state, .. } => cc <= 127 && state.wf(),
        }
    }
}

/// One registry entry: a primary pin and the control it drives.
#[derive(Clone, Copy, PartialEq, Eq, Structural, Debug)]
pub struct Entry {
    pub pin: u8,
    pub control: RuntimeControl,
}

/// The entry a successful button registration appends.
pub open spec fn button_entry(pin: u8, cc: u8, pull: PullMode) -> Entry {
    Entry { pin, control: RuntimeControl::Button { cc, pull } }
}

/// The entry a successful encoder registration appends: the decode state is
/// seeded with the sampled phase, a rested accumulator and the center value.
pub open spec fn encoder_entry(
    pin: u8,
    cc: u8,
    relative: bool,
    level_a: bool,
    level_b: bool,
) -> Entry {
    Entry {
        pin,
        control: RuntimeControl::Encoder {
            cc,
            relative,
            state: QuadratureState {
                prev_phase: phase_of(level_a, level_b),
                accum: 0,
                value: INITIAL_ENCODER_VALUE,
            },
        },
    }
}

/// The table of all configured controls.
pub struct Registry {
    pub entries: Vec<Entry>,
}

impl View for Registry {
    type V = Seq<Entry>;

    open spec fn view(&self) -> Seq<Entry> {
        self.entries@
    }
}

impl Registry {
    /// Well-formedness: no two entries claim the same primary pin, and every
    /// control keeps its own invariant.
    pub open spec fn wf(self) -> bool {
        &&& forall|i: int, j: int|
            0 <= i < j < self@.len() ==> (#[trigger] self@[i]).pin != (#[trigger] self@[j]).pin
        &&& forall|i: int| 0 <= i < self@.len() ==> (#[trigger] self@[i]).control.wf()
    }

    /// Whether some entry claims this pin.
    pub open spec fn has_pin(self, pin: u8) -> bool {
        exists|i: int| 0 <= i < self@.len() && (#[trigger] self@[i]).pin == pin
    }

    /// The index of the entry claiming this pin (meaningful only when
    /// `has_pin` holds; unique when the registry is well formed).
    pub open spec fn index_of(self, pin: u8) -> int {
        choose|i: int| 0 <= i < self@.len() && (#[trigger] self@[i]).pin == pin
    }

    /// The control registered for this pin (meaningful only when `has_pin`
    /// holds).
    pub open spec fn control_for(self, pin: u8) -> RuntimeControl {
        self@[self.index_of(pin)].control
    }

    /// An empty registry.
    pub fn new() -> (r: Registry)
        ensures
            r@.len() == 0,
            r.wf(),
    {
        Registry { entries: Vec::new() }
    }

    /// How many controls are registered.
    pub fn len(&self) -> (r: usize)
        ensures
            r == self@.len(),
    {
        self.entries.len()
    }

    /// Find the index of the entry for a pin.
    pub fn find_pin(&self, pin: u8) -> (r: Option<usize>)
        requires
            self.wf(),
        ensures
            match r {
                Some(i) => {
                    &&& i < self@.len()
                    &&& self@[i as int].pin == pin
                    &&& self.has_pin(pin)
                    &&& self.index_of(pin) == i as int
                },
                None => !self.has_pin(pin),
            },
    {
        let n = self.entries.len();
        let mut i: usize = 0;
        while i < n
            invariant
                n == self@.len(),
                i <= n,
                self.wf(),
                forall|k: int| 0 <= k < i ==> (#[trigger] self@[k]).pin != pin,
            decreases n - i,
        {
            if self.entries[i].pin == pin {
                proof {
                    assert(self@[i as int].pin == pin);
                    let w = self.index_of(pin);
                    assert(0 <= w < self@.len() && self@[w].pin == pin);
                    assert(w == i as int);
                }
                return Some(i);
            }
            i += 1;
        }
        proof {
            assert forall|k: int| 0 <= k < self@.len() implies (#[trigger] self@[k]).pin != pin by {}
        }
        None
    }

    /// The control registered for a pin, if any.
    pub fn get(&self, pin: u8) -> (r: Option<RuntimeControl>)
        requires
            self.wf(),
        ensures
            match r {
                Some(c) => self.has_pin(pin) && c == self.control_for(pin),
                None => !self.has_pin(pin),
            },
    {
        match self.find_pin(pin) {
            Some(i) => Some(self.entries[i].control),
            None => None,
        }
    }

    /// Register a button on its pin. Fails if the CC number is out of range
    /// or the pin is already claimed; on success the entry is appended and
    /// nothing else changes.
    pub fn add_button(&mut self, pin: u8, cc: u8, pull: PullMode) -> (r: Result<(), ConfigError>)
        requires
            old(self).wf(),
        ensures
            final(self).wf(),
            cc > 127 ==> r == Err::<(), ConfigError>(ConfigError::CcOutOfRange { cc })
                && *final(self) == *old(self),
            cc <= 127 && old(self).has_pin(pin) ==> r == Err::<(), ConfigError>(
                ConfigError::PinCollision { pin },
            ) && *final(self) == *old(self),
            cc <= 127 && !old(self).has_pin(pin) ==> r == Ok::<(), ConfigError>(())
                && final(self)@ == old(self)@.push(button_entry(pin, cc, pull))
                && final(self).has_pin(pin)
                && final(self).control_for(pin) == button_entry(pin, cc, pull).control,
    {
        if cc > 127 {
            return Err(ConfigError::CcOutOfRange { cc });
        }
        if self.find_pin(pin).is_some() {
            return Err(ConfigError::PinCollision { pin });
        }
        let entry = Entry { pin, control: RuntimeControl::Button { cc, pull } };
        proof {
            lemma_push_keeps_wf(*self, entry);
        }
        self.entries.push(entry);
        proof {
            lemma_entry_resolves(*self, self@.len() - 1);
        }
        Ok(())
    }

    /// Register a rotary encoder on its primary pin, seeding the decode
    /// state with the pins' current levels and the default center value.
    /// Fails if the CC number is out of range or the pin is already claimed;
    /// on success the entry is appended and nothing else changes.
    pub fn add_encoder(
        &mut self,
        pin: u8,
        cc: u8,
        relative: bool,
        level_a: bool,
        level_b: bool,
    ) -> (r: Result<(), ConfigError>)
        requires
            old(self).wf(),
        ensures
            final(self).wf(),
            cc > 127 ==> r == Err::<(), ConfigError>(ConfigError::CcOutOfRange { cc })
                && *final(self) == *old(self),
            cc <= 127 && old(self).has_pin(pin) ==> r == Err::<(), ConfigError>(
                ConfigError::PinCollision { pin },
            ) && *final(self) == *old(self),
            cc <= 127 && !old(self).has_pin(pin) ==> r == Ok::<(), ConfigError>(())
                && final(self)@ == old(self)@.push(encoder_entry(pin, cc, relative, level_a, level_b))
                && final(self).has_pin(pin)
                && final(self).control_for(pin) == encoder_entry(
                pin,
                cc,
                relative,
                level_a,
                level_b,
            ).control,
    {
        if cc > 127 {
            return Err(ConfigError::CcOutOfRange { cc });
        }
        if self.find_pin(pin).is_some() {
            return Err(ConfigError::PinCollision { pin });
        }
        let state = QuadratureState::new(level_a, level_b, INITIAL_ENCODER_VALUE);
        let entry = Entry { pin, control: RuntimeControl::Encoder { cc, relative, state } };
        proof {
            lemma_push_keeps_wf(*self, entry);
        }
        self.entries.push(entry);
        proof {
            lemma_entry_resolves(*self, self@.len() - 1);
        }
        Ok(())
    }
}

/// In a well-formed registry, the entry at any index is exactly the one that
/// `index_of` and `control_for` name for its pin.
pub proof fn lemma_entry_resolves(reg: Registry, i: int)
    requires
        reg.wf(),
        0 <= i < reg@.len(),
    ensures
        reg.has_pin(reg@[i].pin),
        reg.index_of(reg@[i].pin) == i,
        reg.control_for(reg@[i].pin) == reg@[i].control,
{
    let pin = reg@[i].pin;
    assert(0 <= i < reg@.len() && reg@[i].pin == pin);
    assert(reg.has_pin(pin));
    let w = reg.index_of(pin);
    assert(0 <= w < reg@.len() && reg@[w].pin == pin);
    if w != i {
        assert(reg@[w].pin != reg@[i].pin);
    }
}

/// Appending an entry for an unclaimed pin with a well-formed control keeps
/// the registry well formed.
proof fn lemma_push_keeps_wf(reg: Registry, entry: Entry)
    requires
        reg.wf(),
        !reg.has_pin(entry.pin),
        entry.control.wf(),
    ensures
        forall|i: int, j: int|
            0 <= i < j < reg@.push(entry).len() ==> (#[trigger] reg@.push(entry)[i]).pin != (
            #[trigger] reg@.push(entry)[j]).pin,
        forall|i: int|
            0 <= i < reg@.push(entry).len() ==> (#[trigger] reg@.push(entry)[i]).control.wf(),
{
    let s = reg@.push(entry);
    assert forall|i: int, j: int| 0 <= i < j < s.len() implies (#[trigger] s[i]).pin != (
    #[trigger] s[j]).pin by {
        if j == s.len() - 1 {
            assert(s[i] == reg@[i]);
            assert(!(0 <= i < reg@.len() && (#[trigger] reg@[i]).pin == entry.pin));
        } else {
            assert(s[i] == reg@[i]);
            assert(s[j] == reg@[j]);
        }
    }
    assert forall|i: int| 0 <= i < s.len() implies (#[trigger] s[i]).control.wf() by {
        if i < reg@.len() {
            assert(s[i] == reg@[i]);
        }
    }
}

} // verus!
