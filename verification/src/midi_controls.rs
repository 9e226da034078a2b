//! Controls driven by MIDI control-change messages: which configured control
//! an incoming message addresses, the table of current values, and the
//! channel/controller bytes of the messages that echo the values back.
//!
//! Control values and ranges are 32-bit floats carried as their bit patterns.

use vstd::prelude::*;
use crate::assoc::{keys_unique, assoc_map, assoc_get, assoc_insert};

verus! {

/// Status byte of a control-change message on channel 0.
pub const CONTROL_CHANGE: u8 = 176;

/// A MIDI-mapped control: the channel and controller number it listens to,
/// and the bit patterns of its range and default value.
#[derive(Clone, Copy, Debug, PartialEq, Eq, Structural)]
pub struct MidiControlConfig {
    pub channel: u8,
    pub cc: u8,
    pub min: u32,
    pub max: u32,
    pub default: u32,
}

impl MidiControlConfig {
    pub fn new(midi: (u8, u8), range: (u32, u32), default: u32) -> (r: MidiControlConfig)
        ensures
            r == (MidiControlConfig {
                channel: midi.0,
                cc: midi.1,
                min: range.0,
                max: range.1,
                default,
            }),
    {
        MidiControlConfig { channel: midi.0, cc: midi.1, min: range.0, max: range.1, default }
    }
}

/// Current values of MIDI-mapped controls by name; a name without a value reads
/// as zero (the bit pattern of `0.0`).
pub struct MidiState {
    values: Vec<(String, u32)>,
}

impl MidiState {
    /// The stored values in table order.
    pub closed spec fn entries(&self) -> Seq<(String, u32)> {
        self.values@
    }

    pub closed spec fn values_map(&self) -> Map<Seq<char>, u32> {
        assoc_map(self.values@)
    }

    pub closed spec fn wf(&self) -> bool {
        keys_unique(self.values@)
    }

    pub fn new() -> (r: MidiState)
        ensures
            r.wf(),
            r.values_map() == Map::<Seq<char>, u32>::empty(),
    {
        MidiState { values: Vec::new() }
    }

    pub fn get(&self, name: &str) -> (r: u32)
        requires
            self.wf(),
        ensures
            r == (if self.values_map().contains_key(name@) {
                self.values_map()[name@]
            } else {
                0
            }),
    {
        match assoc_get(&self.values, name) {
            Some(v) => *v,
            None => 0,
        }
    }

    pub fn set(&mut self, name: &str, value: u32)
        requires
            old(self).wf(),
        ensures
            final(self).wf(),
            final(self).values_map() == old(self).values_map().insert(name@, value),
    {
        assoc_insert(&mut self.values, String::from_str(name), value);
    }

    pub fn has(&self, name: &str) -> (r: bool)
        requires
            self.wf(),
        ensures
            r == self.values_map().contains_key(name@),
    {
        assoc_get(&self.values, name).is_some()
    }

    /// The value table, one entry per name.
    pub fn values(&self) -> (r: &Vec<(String, u32)>)
        requires
            self.wf(),
        ensures
            keys_unique(r@),
            r@ == self.entries(),
            assoc_map(r@) == self.values_map(),
    {
        &self.values
    }
}

/// A set of MIDI-mapped controls: their configurations by name, their current
/// values and whether the MIDI input is connected.
pub struct MidiControls {
    configs: Vec<(String, MidiControlConfig)>,
    state: MidiState,
    is_active: bool,
}

/// The names of the configurations that a control-change message addresses:
/// those whose channel is the low nibble of the status byte and whose
/// controller number is the second byte; none for a message shorter than three bytes.
pub open spec fn addressed(configs: Seq<(String, MidiControlConfig)>, message: Seq<u8>) -> Seq<
    Seq<char>,
>
    decreases configs.len(),
{
    if message.len() < 3 || configs.len() == 0 {
        Seq::empty()
    } else {
        let rest = addressed(configs.drop_last(), message);
        let c = configs.last().1;
        if c.channel == (message[0] & 0x0f) && c.cc == message[1] {
            rest.push(configs.last().0@)
        } else {
            rest
        }
    }
}

impl MidiControls {
    pub closed spec fn configs_map(&self) -> Map<Seq<char>, MidiControlConfig> {
        assoc_map(self.configs@)
    }

    pub closed spec fn config_entries(&self) -> Seq<(String, MidiControlConfig)> {
        self.configs@
    }

    pub closed spec fn values_map(&self) -> Map<Seq<char>, u32> {
        self.state.values_map()
    }

    pub closed spec fn active(&self) -> bool {
        self.is_active
    }

    pub closed spec fn wf(&self) -> bool {
        keys_unique(self.configs@) && self.state.wf()
    }

    pub fn new() -> (r: MidiControls)
        ensures
            r.wf(),
            r.configs_map() == Map::<Seq<char>, MidiControlConfig>::empty(),
            r.values_map() == Map::<Seq<char>, u32>::empty(),
            !r.active(),
    {
        MidiControls { configs: Vec::new(), state: MidiState::new(), is_active: false }
    }

    /// Adds the control `name`, starting at its default value.
    pub fn add(&mut self, name: &str, config: MidiControlConfig)
        requires
            old(self).wf(),
        ensures
            final(self).wf(),
            final(self).configs_map() == old(self).configs_map().insert(name@, config),
            final(self).values_map() == old(self).values_map().insert(name@, config.default),
            final(self).active() == old(self).active(),
    {
        self.state.set(name, config.default);
        assoc_insert(&mut self.configs, String::from_str(name), config);
    }

    pub fn get(&self, name: &str) -> (r: u32)
        requires
            self.wf(),
        ensures
            r == (if self.values_map().contains_key(name@) {
                self.values_map()[name@]
            } else {
                0
            }),
    {
        self.state.get(name)
    }

    pub fn set(&mut self, name: &str, value: u32)
        requires
            old(self).wf(),
        ensures
            final(self).wf(),
            final(self).values_map() == old(self).values_map().insert(name@, value),
            final(self).configs_map() == old(self).configs_map(),
            final(self).config_entries() == old(self).config_entries(),
            final(self).active() == old(self).active(),
    {
        self.state.set(name, value);
    }

    pub fn update_value(&mut self, name: &str, value: u32)
        requires
            old(self).wf(),
        ensures
            final(self).wf(),
            final(self).values_map() == old(self).values_map().insert(name@, value),
            final(self).configs_map() == old(self).configs_map(),
            final(self).config_entries() == old(self).config_entries(),
            final(self).active() == old(self).active(),
    {
        self.state.set(name, value);
    }

    pub fn has(&self, name: &str) -> (r: bool)
        requires
            self.wf(),
        ensures
            r == self.values_map().contains_key(name@),
    {
        self.state.has(name)
    }

    /// The value table, one entry per name.
    pub fn values(&self) -> (r: &Vec<(String, u32)>)
        requires
            self.wf(),
        ensures
            keys_unique(r@),
            r@ == self.value_entries(),
            assoc_map(r@) == self.values_map(),
    {
        self.state.values()
    }

    /// The configuration table, one entry per name.
    pub fn configs(&self) -> (r: &Vec<(String, MidiControlConfig)>)
        requires
            self.wf(),
        ensures
            keys_unique(r@),
            r@ == self.config_entries(),
            assoc_map(r@) == self.configs_map(),
    {
        &self.configs
    }

    pub fn is_active(&self) -> (r: bool)
        ensures
            r == self.active(),
    {
        self.is_active
    }

    /// Records whether the MIDI input could be connected.
    pub fn set_active(&mut self, active: bool)
        requires
            old(self).wf(),
        ensures
            final(self).wf(),
            final(self).active() == active,
            final(self).values_map() == old(self).values_map(),
            final(self).configs_map() == old(self).configs_map(),
            final(self).config_entries() == old(self).config_entries(),
    {
        self.is_active = active;
    }

    /// The names of the controls that a control-change message addresses, in
    /// configuration order.
    pub fn addressed_controls(&self, message: &[u8]) -> (r: Vec<String>)
        ensures
            r@.map_values(|s: String| s@) == addressed(self.config_entries(), message@),
    {
        let mut r: Vec<String> = Vec::new();
        if message.len() < 3 {
            assert(r@.map_values(|s: String| s@) =~= addressed(self.configs@, message@));
            return r;
        }
        let channel = message[0] & 0x0f;
        let cc = message[1];
        let n = self.configs.len();
        let mut i: usize = 0;
        while i < n
            invariant
                n == self.configs@.len(),
                i <= n,
                message@.len() >= 3,
                channel == message@[0] & 0x0f,
                cc == message@[1],
                r@.map_values(|s: String| s@) == addressed(self.configs@.take(i as int), message@),
            decreases n - i,
        {
            assert(self.configs@.take(i + 1).drop_last() =~= self.configs@.take(i as int));
            let entry = &self.configs[i];
            if entry.1.channel == channel && entry.1.cc == cc {
                r.push(entry.0.clone());
                assert(r@.map_values(|s: String| s@) =~= addressed(
                    self.configs@.take(i as int),
                    message@,
                ).push(self.configs@[i as int].0@));
            }
            i = i + 1;
        }
        assert(self.configs@.take(n as int) =~= self.configs@);
        r
    }

    /// The status byte and controller number of the control-change message
    /// that sends the value of `name`, with the value's bit pattern and the
    /// configured range.
    pub open spec fn message_part(&self, name: Seq<char>) -> (u8, u8, u32, u32, u32) {
        let c = self.configs_map()[name];
        ((CONTROL_CHANGE + c.channel) as u8, c.cc, self.values_map()[name], c.min, c.max)
    }

    /// The stored values in table order.
    pub closed spec fn value_entries(&self) -> Seq<(String, u32)> {
        self.state.entries()
    }

    /// For each stored value, in table order, the parts of the control-change
    /// message that sends it; every stored name must have a configuration.
    pub fn message_parts(&self) -> (r: Vec<(u8, u8, u32, u32, u32)>)
        requires
            self.wf(),
            forall|k: Seq<char>| #[trigger]
                self.values_map().contains_key(k) ==> self.configs_map().contains_key(k),
            forall|k: Seq<char>| #[trigger]
                self.configs_map().contains_key(k) ==> self.configs_map()[k].channel < 80,
        ensures
            r@.len() == self.value_entries().len(),
            forall|i: int|
                0 <= i < r@.len() ==> #[trigger] r@[i] == self.message_part(
                    self.value_entries()[i].0@,
                ),
            forall|i: int|
                0 <= i < r@.len() ==> {
                    let name = self.value_entries()[i].0@;
                    let c = self.configs_map()[name];
                    &&& (#[trigger] r@[i]).2 == self.value_entries()[i].1
                    &&& r@[i].2 == self.values_map()[name]
                    &&& r@[i].0 == CONTROL_CHANGE + c.channel
                    &&& r@[i].1 == c.cc
                    &&& r@[i].3 == c.min
                    &&& r@[i].4 == c.max
                },
    {
        let values = self.state.values();
        let mut r: Vec<(u8, u8, u32, u32, u32)> = Vec::new();
        let n = values.len();
        let mut i: usize = 0;
        while i < n
            invariant
                n == values@.len(),
                i <= n,
                values@ == self.value_entries(),
                keys_unique(values@),
                assoc_map(values@) == self.values_map(),
                keys_unique(self.configs@),
                forall|k: Seq<char>| #[trigger]
                    self.values_map().contains_key(k) ==> self.configs_map().contains_key(k),
                forall|k: Seq<char>| #[trigger]
                    self.configs_map().contains_key(k) ==> self.configs_map()[k].channel < 80,
                r@.len() == i,
                forall|j: int|
                    0 <= j < i ==> #[trigger] r@[j] == self.message_part(values@[j].0@),
                forall|j: int| 0 <= j < i ==> (#[trigger] r@[j]).2 == values@[j].1,
            decreases n - i,
        {
            let name = &values[i].0;
            let value = values[i].1;
            proof {
                crate::assoc::lemma_assoc_value(values@, i as int);
            }
            match assoc_get(&self.configs, name.as_str()) {
                Some(config) => {
                    r.push((CONTROL_CHANGE + config.channel, config.cc, value, config.min, config.max));
                },
                None => {
                    assert(self.values_map().contains_key(values@[i as int].0@));
                    assert(false);
                },
            }
            i = i + 1;
        }
        assert forall|k: int| 0 <= k < r@.len() implies {
            let name = self.value_entries()[k].0@;
            let c = self.configs_map()[name];
            &&& (#[trigger] r@[k]).2 == self.value_entries()[k].1
            &&& r@[k].2 == self.values_map()[name]
            &&& r@[k].0 == CONTROL_CHANGE + c.channel
            &&& r@[k].1 == c.cc
            &&& r@[k].3 == c.min
            &&& r@[k].4 == c.max
        } by {
            crate::assoc::lemma_assoc_value(values@, k);
            let name = values@[k].0@;
            assert(self.values_map().contains_key(name));
            assert(self.configs_map().contains_key(name));
            assert(self.configs_map()[name].channel < 80);
            assert(r@[k] == self.message_part(name));
        }
        r
    }
}

/// Bit pattern of the float `1.0`, the upper bound of a normalized control.
pub const UNIT_MAX_BITS: u32 = 0x3f80_0000;

/// Collects MIDI-mapped controls; the application connects the MIDI input
/// when the set is complete.
pub struct MidiControlBuilder {
    controls: MidiControls,
}

impl MidiControlBuilder {
    pub closed spec fn controls_spec(&self) -> MidiControls {
        self.controls
    }

    pub fn new() -> (r: MidiControlBuilder)
        ensures
            r.controls_spec().wf(),
            r.controls_spec().configs_map() == Map::<Seq<char>, MidiControlConfig>::empty(),
            r.controls_spec().values_map() == Map::<Seq<char>, u32>::empty(),
            !r.controls_spec().active(),
    {
        MidiControlBuilder { controls: MidiControls::new() }
    }

    /// Adds the control `name` on `midi` (channel, controller) with the given
    /// range and default, all bit patterns of floats.
    pub fn control(self, name: &str, midi: (u8, u8), range: (u32, u32), default: u32) -> (r:
        MidiControlBuilder)
        requires
            self.controls_spec().wf(),
        ensures
            r.controls_spec().wf(),
            r.controls_spec().configs_map() == self.controls_spec().configs_map().insert(
                name@,
                MidiControlConfig { channel: midi.0, cc: midi.1, min: range.0, max: range.1, default },
            ),
            r.controls_spec().values_map() == self.controls_spec().values_map().insert(
                name@,
                default,
            ),
            r.controls_spec().active() == self.controls_spec().active(),
    {
        let mut b = self;
        b.controls.add(name, MidiControlConfig::new(midi, range, default));
        b
    }

    /// Adds the control `name` on `midi` over the range from `0.0` to `1.0`.
    pub fn control_n(self, name: &str, midi: (u8, u8), default: u32) -> (r: MidiControlBuilder)
        requires
            self.controls_spec().wf(),
        ensures
            r.controls_spec().wf(),
            r.controls_spec().configs_map() == self.controls_spec().configs_map().insert(
                name@,
                MidiControlConfig {
                    channel: midi.0,
                    cc: midi.1,
                    min: 0,
                    max: UNIT_MAX_BITS,
                    default,
                },
            ),
            r.controls_spec().values_map() == self.controls_spec().values_map().insert(
                name@,
                default,
            ),
            r.controls_spec().active() == self.controls_spec().active(),
    {
        let mut b = self;
        b.controls.add(name, MidiControlConfig::new(midi, (0, UNIT_MAX_BITS), default));
        b
    }

    /// The collected controls. Connecting them to the MIDI input, and
    /// recording with `set_active` whether that worked, is the application's part.
    pub fn build(self) -> (r: MidiControls)
        ensures
            r == self.controls_spec(),
    {
        self.controls
    }
}

/// The message that echoes a control carries the value currently stored under
/// its name, with the status byte of its configured channel, its controller
/// number and its configured range: setting a value changes the message that
/// is sent for it.
pub proof fn law_message_carries_current_value(m: MidiControls, name: Seq<char>, value: u32)
    requires
        m.wf(),
        m.configs_map().contains_key(name),
        m.configs_map()[name].channel < 80,
    ensures
        m.values_map().contains_key(name) ==> m.message_part(name).2 == m.values_map()[name],
        m.message_part(name).0 == CONTROL_CHANGE + m.configs_map()[name].channel,
        m.message_part(name).1 == m.configs_map()[name].cc,
        m.message_part(name).3 == m.configs_map()[name].min,
        m.message_part(name).4 == m.configs_map()[name].max,
        forall|after: MidiControls|
            after.configs_map() == m.configs_map() && after.values_map() == m.values_map().insert(
                name,
                value,
            ) ==> #[trigger] after.message_part(name).2 == value,
{
}

/// Reading a MIDI control after setting it gives the value set: when `after`
/// is `before` after `set(name, value)` (or `update_value`), `get(name)` is
/// `value`; every other name reads as before, and one that was never set still
/// reads as zero.
pub proof fn law_midi_read_after_write(
    before: MidiControls,
    after: MidiControls,
    name: Seq<char>,
    value: u32,
    other: Seq<char>,
)
    requires
        before.wf(),
        after.wf(),
        after.configs_map() == before.configs_map(),
        after.values_map() == before.values_map().insert(name, value),
    ensures
        after.values_map().contains_key(name) && after.values_map()[name] == value,
        other != name ==> after.values_map().contains_key(other) == before.values_map().contains_key(
            other,
        ),
        other != name && before.values_map().contains_key(other) ==> after.values_map()[other]
            == before.values_map()[other],
{
}

} // verus!
