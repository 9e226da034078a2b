//! Sketch controls: the configuration of sliders, checkboxes, selects and
//! buttons, and the table of their current values by name.
//!
//! A slider's numbers are 32-bit floats; they are carried here as their bit
//! patterns (`f32::to_bits`), which the table stores and hands back unchanged.

use vstd::prelude::*;
use crate::assoc::{keys_unique, assoc_map, assoc_get, assoc_insert, lemma_assoc_contains};
use crate::text::str_eq;

verus! {

/// The value of a control.
#[derive(Clone, Debug)]
pub enum ControlValue {
    /// Bit pattern of a 32-bit float.
    Float(u32),
    Bool(bool),
    String(String),
}

/// The configuration of one control.
#[derive(Clone, Debug)]
#[allow(inconsistent_fields)]
pub enum Control {
    /// A slider; `value`, `min`, `max` and `step` are bit patterns of 32-bit floats.
    Slider { name: String, value: u32, min: u32, max: u32, step: u32 },
    Checkbox { name: String, value: bool },
    Select { name: String, value: String, options: Vec<String> },
    Button { name: String },
    Separator {},
}

impl Control {
    /// The name of the control; a separator's is empty.
    pub open spec fn name_spec(&self) -> Seq<char> {
        match self {
            Control::Slider { name, .. } => name@,
            Control::Checkbox { name, .. } => name@,
            Control::Select { name, .. } => name@,
            Control::Button { name } => name@,
            Control::Separator {  } => ""@,
        }
    }

    /// The initial value of the control; buttons and separators hold `false`.
    pub open spec fn value_spec(&self) -> ControlValue {
        match self {
            Control::Slider { value, .. } => ControlValue::Float(*value),
            Control::Checkbox { value, .. } => ControlValue::Bool(*value),
            Control::Select { value, .. } => ControlValue::String(*value),
            Control::Button { .. } => ControlValue::Bool(false),
            Control::Separator {  } => ControlValue::Bool(false),
        }
    }

    pub fn name(&self) -> (r: &str)
        ensures
            r@ == self.name_spec(),
    {
        match self {
            Control::Slider { name, .. } => name.as_str(),
            Control::Checkbox { name, .. } => name.as_str(),
            Control::Select { name, .. } => name.as_str(),
            Control::Button { name } => name.as_str(),
            Control::Separator {  } => "",
        }
    }

    pub fn value(&self) -> (r: ControlValue)
        ensures
            r == self.value_spec(),
    {
        match self {
            Control::Slider { value, .. } => ControlValue::Float(*value),
            Control::Checkbox { value, .. } => ControlValue::Bool(*value),
            Control::Select { value, .. } => ControlValue::String(value.clone()),
            Control::Button { .. } => ControlValue::Bool(false),
            Control::Separator {  } => ControlValue::Bool(false),
        }
    }

    pub fn checkbox(name: &str, value: bool) -> (r: Control)
        ensures
            r matches Control::Checkbox { name: n, value: v } && n@ == name@ && v == value,
    {
        Control::Checkbox { name: String::from_str(name), value }
    }

    /// A slider over `range`; all numbers are bit patterns of 32-bit floats.
    pub fn slider(name: &str, value: u32, range: (u32, u32), step: u32) -> (r: Control)
        ensures
            r matches Control::Slider { name: n, value: v, min, max, step: s } && n@ == name@
                && v == value && min == range.0 && max == range.1 && s == step,
    {
        Control::Slider { name: String::from_str(name), value, min: range.0, max: range.1, step }
    }

    pub fn select(name: &str, value: &str, options: Vec<String>) -> (r: Control)
        ensures
            r matches Control::Select { name: n, value: v, options: o } && n@ == name@ && v@
                == value@ && o == options,
    {
        Control::Select { name: String::from_str(name), value: String::from_str(value), options }
    }

    pub fn button(name: &str) -> (r: Control)
        ensures
            r matches Control::Button { name: n } && n@ == name@,
    {
        Control::Button { name: String::from_str(name) }
    }

    pub fn separator() -> (r: Control)
        ensures
            r matches Control::Separator {  },
    {
        Control::Separator {  }
    }
}

/// The values that a list of controls starts with: each control's initial
/// value under its name, a later control winning over an earlier namesake.
pub open spec fn initial_values(cs: Seq<Control>) -> Map<Seq<char>, ControlValue>
    decreases cs.len(),
{
    if cs.len() == 0 {
        Map::empty()
    } else {
        initial_values(cs.drop_last()).insert(cs.last().name_spec(), cs.last().value_spec())
    }
}

/// The first control in `cs` named `name`.
pub open spec fn find_named(cs: Seq<Control>, name: Seq<char>) -> Option<Control>
    decreases cs.len(),
{
    if cs.len() == 0 {
        None
    } else if cs[0].name_spec() == name {
        Some(cs[0])
    } else {
        find_named(cs.drop_first(), name)
    }
}

/// A set of controls and the current value of each, by name.
pub struct Controls {
    controls: Vec<Control>,
    values: Vec<(String, ControlValue)>,
}

impl Controls {
    /// The control configurations, in order.
    pub closed spec fn configs(&self) -> Seq<Control> {
        self.controls@
    }

    /// The current values by name.
    pub closed spec fn values_map(&self) -> Map<Seq<char>, ControlValue> {
        assoc_map(self.values@)
    }

    pub closed spec fn wf(&self) -> bool {
        keys_unique(self.values@)
    }

    /// Controls configured by `controls`, each holding its initial value.
    pub fn new(controls: Vec<Control>) -> (r: Controls)
        ensures
            r.wf(),
            r.configs() == controls@,
            r.values_map() == initial_values(controls@),
    {
        let mut values: Vec<(String, ControlValue)> = Vec::new();
        let n = controls.len();
        let mut i: usize = 0;
        while i < n
            invariant
                n == controls@.len(),
                i <= n,
                keys_unique(values@),
                assoc_map(values@) == initial_values(controls@.take(i as int)),
            decreases n - i,
        {
            let name = String::from_str(controls[i].name());
            let value = controls[i].value();
            assoc_insert(&mut values, name, value);
            assert(controls@.take(i + 1).drop_last() =~= controls@.take(i as int));
            i = i + 1;
        }
        assert(controls@.take(n as int) =~= controls@);
        Controls { controls, values }
    }

    pub fn get_controls(&self) -> (r: &Vec<Control>)
        ensures
            r@ == self.configs(),
    {
        &self.controls
    }

    /// The value table, one entry per name.
    pub fn values(&self) -> (r: &Vec<(String, ControlValue)>)
        requires
            self.wf(),
        ensures
            keys_unique(r@),
            assoc_map(r@) == self.values_map(),
    {
        &self.values
    }

    /// The value of the float control `name`, as a bit pattern.
    pub fn float(&self, name: &str) -> (r: u32)
        requires
            self.wf(),
            self.values_map().contains_key(name@),
            self.values_map()[name@] is Float,
        ensures
            self.values_map()[name@] == ControlValue::Float(r),
    {
        match assoc_get(&self.values, name) {
            Some(ControlValue::Float(v)) => *v,
            _ => 0,
        }
    }

    /// The value of the checkbox `name`.
    pub fn bool(&self, name: &str) -> (r: bool)
        requires
            self.wf(),
            self.values_map().contains_key(name@),
            self.values_map()[name@] is Bool,
        ensures
            self.values_map()[name@] == ControlValue::Bool(r),
    {
        match assoc_get(&self.values, name) {
            Some(ControlValue::Bool(v)) => *v,
            _ => false,
        }
    }

    /// The value of the select `name`.
    pub fn string(&self, name: &str) -> (r: String)
        requires
            self.wf(),
            self.values_map().contains_key(name@),
            self.values_map()[name@] is String,
        ensures
            self.values_map()[name@] == ControlValue::String(r),
    {
        match assoc_get(&self.values, name) {
            Some(ControlValue::String(v)) => v.clone(),
            _ => String::new(),
        }
    }

    /// Whether a value is stored under `name`.
    pub fn has(&self, name: &str) -> (r: bool)
        requires
            self.wf(),
        ensures
            r == self.values_map().contains_key(name@),
    {
        assoc_get(&self.values, name).is_some()
    }

    /// Stores `value` under `name`.
    pub fn update_value(&mut self, name: &str, value: ControlValue)
        requires
            old(self).wf(),
        ensures
            final(self).wf(),
            final(self).configs() == old(self).configs(),
            final(self).values_map() == old(self).values_map().insert(name@, value),
    {
        assoc_insert(&mut self.values, String::from_str(name), value);
    }

    /// The configuration of the first control named `name`.
    pub fn get_original_config(&self, name: &str) -> (r: Option<&Control>)
        ensures
            r is None ==> find_named(self.configs(), name@) is None,
            r is Some ==> find_named(self.configs(), name@) == Some(*r->0),
    {
        let n = self.controls.len();
        let mut i: usize = 0;
        assert(self.controls@.skip(0) =~= self.controls@);
        while i < n
            invariant
                n == self.controls@.len(),
                i <= n,
                find_named(self.controls@, name@) == find_named(self.controls@.skip(i as int), name@),
            decreases n - i,
        {
            assert(self.controls@.skip(i as int).drop_first() =~= self.controls@.skip(i + 1));
            if str_eq(self.controls[i].name(), name) {
                return Some(&self.controls[i]);
            }
            i = i + 1;
        }
        None
    }

    /// The range of the slider `name`, as bit patterns of its bounds.
    pub fn slider_range(&self, name: &str) -> (r: (u32, u32))
        requires
            find_named(self.configs(), name@) matches Some(c) && c is Slider,
        ensures
            find_named(self.configs(), name@) matches Some(
                Control::Slider { min, max, .. },
            ) && r == (min, max),
    {
        match self.get_original_config(name) {
            Some(Control::Slider { min, max, .. }) => (*min, *max),
            _ => (0, 0),
        }
    }
}

/// Reading a control after storing a value under its name gives that value:
/// when `after` is `before` after `update_value(name, value)`, `has(name)`
/// holds and the value read under `name` is `value`, while every other name
/// keeps its presence and its value.
pub proof fn law_read_after_update(
    before: Controls,
    after: Controls,
    name: Seq<char>,
    value: ControlValue,
    other: Seq<char>,
)
    requires
        before.wf(),
        after.wf(),
        after.configs() == before.configs(),
        after.values_map() == before.values_map().insert(name, value),
    ensures
        after.values_map().contains_key(name),
        after.values_map()[name] == value,
        other != name ==> (after.values_map().contains_key(other) == before.values_map().contains_key(
            other,
        )),
        other != name && before.values_map().contains_key(other) ==> after.values_map()[other]
            == before.values_map()[other],
{
}

/// Every control's name holds a value in the initial table, and a control
/// whose name no later control repeats holds its own initial value.
pub proof fn law_initial_values(cs: Seq<Control>, i: int)
    requires
        0 <= i < cs.len(),
    ensures
        initial_values(cs).contains_key(cs[i].name_spec()),
        (forall|j: int| i < j < cs.len() ==> #[trigger] cs[j].name_spec() != cs[i].name_spec())
            ==> initial_values(cs)[cs[i].name_spec()] == cs[i].value_spec(),
    decreases cs.len(),
{
    if i < cs.len() - 1 {
        let t = cs.drop_last();
        law_initial_values(t, i);
        assert(t[i] == cs[i]);
        assert forall|j: int| i < j < t.len() implies #[trigger] t[j].name_spec() == cs[j].name_spec() by {}
    }
}

} // verus!
