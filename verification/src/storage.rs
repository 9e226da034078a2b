//! Persisted control values: where a sketch's values are stored and how
//! stored values are applied when the sketch starts.

use vstd::prelude::*;
use crate::assoc::{keys_unique, assoc_map};
use crate::controls::{Controls, ControlValue};
use crate::midi_controls::MidiControls;
use crate::text::concat3;

verus! {

/// Folder of the project that holds the stored controls.
pub const STORAGE_DIR: &'static str = "storage";

/// The file name of a sketch's stored controls: `<sketch>_controls.json`.
pub fn controls_file_name(sketch_name: &str) -> (r: String)
    ensures
        r@ == sketch_name@ + "_controls.json"@,
{
    let r = concat3(sketch_name, "_controls.json", "");
    proof {
        reveal_strlit("");
    }
    assert(r@ =~= sketch_name@ + "_controls.json"@);
    r
}

/// The location of a sketch's stored controls, as path components below the
/// project root: the storage folder, then the file name.
pub fn controls_storage_path(sketch_name: &str) -> (r: Vec<String>)
    ensures
        r@.len() == 2,
        r@[0]@ == "storage"@,
        r@[1]@ == sketch_name@ + "_controls.json"@,
{
    let mut r: Vec<String> = Vec::new();
    r.push(String::from_str(STORAGE_DIR));
    r.push(controls_file_name(sketch_name));
    r
}

/// `current` with every stored value applied over it.
pub open spec fn applied<V>(current: Map<Seq<char>, V>, stored: Seq<(String, V)>) -> Map<
    Seq<char>,
    V,
> {
    current.union_prefer_right(assoc_map(stored))
}

impl Controls {
    /// Applies stored values: each stored name takes its stored value, the
    /// others keep theirs.
    pub fn apply_stored(&mut self, stored: Vec<(String, ControlValue)>)
        requires
            old(self).wf(),
        ensures
            final(self).wf(),
            final(self).configs() == old(self).configs(),
            final(self).values_map() == applied(old(self).values_map(), stored@),
    {
        let ghost start = self.values_map();
        let ghost s = stored@;
        let n = stored.len();
        let mut i: usize = 0;
        let mut rest = stored;
        while i < n
            invariant
                n == s.len(),
                i <= n,
                rest@ == s.skip(i as int),
                self.wf(),
                self.configs() == old(self).configs(),
                self.values_map() == applied(start, s.take(i as int)),
            decreases n - i,
        {
            let (name, value) = rest.remove(0);
            assert(s.skip(i as int).drop_first() =~= s.skip(i + 1));
            assert(s.take(i + 1).drop_last() =~= s.take(i as int));
            assert(s[i as int] == (name, value));
            self.update_value(name.as_str(), value);
            assert(applied(start, s.take(i + 1)) =~= applied(start, s.take(i as int)).insert(
                name@,
                value,
            ));
            i = i + 1;
        }
        assert(s.take(n as int) =~= s);
    }
}

/// The controls of a sketch: the GUI controls and the MIDI-mapped controls.
pub struct ControlHub {
    pub ui_controls: Controls,
    pub midi_controls: MidiControls,
}

impl ControlHub {
    pub open spec fn wf(&self) -> bool {
        self.ui_controls.wf() && self.midi_controls.wf()
    }

    pub fn new(ui_controls: Controls, midi_controls: MidiControls) -> (r: ControlHub)
        ensures
            r.ui_controls == ui_controls,
            r.midi_controls == midi_controls,
    {
        ControlHub { ui_controls, midi_controls }
    }

    /// Stores `value` under `name` among the GUI controls.
    pub fn update_ui_value(&mut self, name: &str, value: ControlValue)
        requires
            old(self).wf(),
        ensures
            final(self).wf(),
            final(self).ui_controls.configs() == old(self).ui_controls.configs(),
            final(self).ui_controls.values_map() == old(self).ui_controls.values_map().insert(
                name@,
                value,
            ),
            final(self).midi_controls == old(self).midi_controls,
    {
        self.ui_controls.update_value(name, value);
    }

    /// Applies the values read from a sketch's stored controls: GUI values and
    /// MIDI values each take the stored value for every stored name.
    pub fn load_from_storage(
        &mut self,
        ui_values: Vec<(String, ControlValue)>,
        midi_values: Vec<(String, u32)>,
    )
        requires
            old(self).wf(),
        ensures
            final(self).wf(),
            final(self).ui_controls.configs() == old(self).ui_controls.configs(),
            final(self).ui_controls.values_map() == applied(
                old(self).ui_controls.values_map(),
                ui_values@,
            ),
            final(self).midi_controls.values_map() == applied(
                old(self).midi_controls.values_map(),
                midi_values@,
            ),
            final(self).midi_controls.configs_map() == old(self).midi_controls.configs_map(),
            final(self).midi_controls.active() == old(self).midi_controls.active(),
    {
        self.ui_controls.apply_stored(ui_values);
        self.midi_controls.apply_stored(midi_values);
    }
}

impl MidiControls {
    /// Applies stored values: each stored name takes its stored value, the
    /// others keep theirs.
    pub fn apply_stored(&mut self, stored: Vec<(String, u32)>)
        requires
            old(self).wf(),
        ensures
            final(self).wf(),
            final(self).values_map() == applied(old(self).values_map(), stored@),
            final(self).configs_map() == old(self).configs_map(),
            final(self).config_entries() == old(self).config_entries(),
            final(self).active() == old(self).active(),
    {
        let ghost start = self.values_map();
        let ghost s = stored@;
        let n = stored.len();
        let mut i: usize = 0;
        while i < n
            invariant
                n == s.len(),
                s == stored@,
                i <= n,
                self.wf(),
                self.configs_map() == old(self).configs_map(),
                self.config_entries() == old(self).config_entries(),
                self.active() == old(self).active(),
                self.values_map() == applied(start, s.take(i as int)),
            decreases n - i,
        {
            assert(s.take(i + 1).drop_last() =~= s.take(i as int));
            self.update_value(stored[i].0.as_str(), stored[i].1);
            assert(applied(start, s.take(i + 1)) =~= applied(start, s.take(i as int)).insert(
                s[i as int].0@,
                s[i as int].1,
            ));
            i = i + 1;
        }
        assert(s.take(n as int) =~= s);
    }
}

/// Applying the same stored values twice gives what applying them once gives.
pub proof fn law_apply_stored_idempotent<V>(current: Map<Seq<char>, V>, stored: Seq<(String, V)>)
    ensures
        applied(applied(current, stored), stored) == applied(current, stored),
{
    assert(applied(applied(current, stored), stored) =~= applied(current, stored));
}

/// After stored values are applied, each stored name reads its stored value
/// (the last one given for that name) and every other name keeps its value.
pub proof fn law_applied_reads<V>(current: Map<Seq<char>, V>, stored: Seq<(String, V)>, k: Seq<char>)
    ensures
        assoc_map(stored).contains_key(k) ==> applied(current, stored).contains_key(k) && applied(
            current,
            stored,
        )[k] == assoc_map(stored)[k],
        !assoc_map(stored).contains_key(k) ==> (applied(current, stored).contains_key(k)
            == current.contains_key(k)) && (current.contains_key(k) ==> applied(current, stored)[k]
            == current[k]),
{
}

} // verus!
