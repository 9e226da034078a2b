//! The vertical-lines study: which line modulation a mode name selects, and
//! which controls are disabled in which modes.

use vstd::prelude::*;
use crate::assoc::{keys_unique, assoc_map, assoc_get};
use crate::controls::ControlValue;
use crate::text::str_eq;

verus! {

/// The modulations that can displace the lines.
#[derive(Clone, Copy, Debug, PartialEq, Eq, Structural)]
pub enum XMod {
    PerLine,
    Ripples,
    LinePhase,
    Spiral,
    WaveInterference,
    HarmonicCascade,
    FractalWaves,
    Moire,
    StandingWaves,
    QuantumRipples,
}

/// The modulation names, in menu order.
pub open spec fn xmod_names() -> Seq<Seq<char>> {
    seq![
        "per_line"@,
        "ripples"@,
        "line_phase"@,
        "spiral"@,
        "wave_interference"@,
        "harmonic_cascade"@,
        "fractal_waves"@,
        "moire"@,
        "standing_waves"@,
        "quantum_ripples"@,
    ]
}

/// The modulations, in menu order.
pub open spec fn xmods() -> Seq<XMod> {
    seq![
        XMod::PerLine,
        XMod::Ripples,
        XMod::LinePhase,
        XMod::Spiral,
        XMod::WaveInterference,
        XMod::HarmonicCascade,
        XMod::FractalWaves,
        XMod::Moire,
        XMod::StandingWaves,
        XMod::QuantumRipples,
    ]
}

/// The modulation a name selects.
pub open spec fn xmod_named(name: Seq<char>) -> Option<XMod> {
    if name == "per_line"@ {
        Some(XMod::PerLine)
    } else if name == "ripples"@ {
        Some(XMod::Ripples)
    } else if name == "line_phase"@ {
        Some(XMod::LinePhase)
    } else if name == "spiral"@ {
        Some(XMod::Spiral)
    } else if name == "wave_interference"@ {
        Some(XMod::WaveInterference)
    } else if name == "harmonic_cascade"@ {
        Some(XMod::HarmonicCascade)
    } else if name == "fractal_waves"@ {
        Some(XMod::FractalWaves)
    } else if name == "moire"@ {
        Some(XMod::Moire)
    } else if name == "standing_waves"@ {
        Some(XMod::StandingWaves)
    } else if name == "quantum_ripples"@ {
        Some(XMod::QuantumRipples)
    } else {
        None
    }
}

/// The table of line modulations.
pub struct XMods {}

impl XMods {
    /// The modulation names, in menu order.
    pub fn to_names() -> (r: Vec<String>)
        ensures
            r@.len() == 10,
            forall|k: int| 0 <= k < 10 ==> #[trigger] r@[k]@ == xmod_names()[k],
    {
        let mut r: Vec<String> = Vec::new();
        r.push(String::from_str("per_line"));
        r.push(String::from_str("ripples"));
        r.push(String::from_str("line_phase"));
        r.push(String::from_str("spiral"));
        r.push(String::from_str("wave_interference"));
        r.push(String::from_str("harmonic_cascade"));
        r.push(String::from_str("fractal_waves"));
        r.push(String::from_str("moire"));
        r.push(String::from_str("standing_waves"));
        r.push(String::from_str("quantum_ripples"));
        r
    }

    /// The modulation named `name`, which must be one of the menu's names.
    pub fn func_by_name(name: &str) -> (r: XMod)
        requires
            xmod_named(name@) is Some,
        ensures
            r == xmod_named(name@)->0,
    {
        if str_eq(name, "per_line") {
            XMod::PerLine
        } else if str_eq(name, "ripples") {
            XMod::Ripples
        } else if str_eq(name, "line_phase") {
            XMod::LinePhase
        } else if str_eq(name, "spiral") {
            XMod::Spiral
        } else if str_eq(name, "wave_interference") {
            XMod::WaveInterference
        } else if str_eq(name, "harmonic_cascade") {
            XMod::HarmonicCascade
        } else if str_eq(name, "fractal_waves") {
            XMod::FractalWaves
        } else if str_eq(name, "moire") {
            XMod::Moire
        } else if str_eq(name, "standing_waves") {
            XMod::StandingWaves
        } else {
            XMod::QuantumRipples
        }
    }

    /// The modulations of the menu's names, in menu order.
    pub fn to_vec() -> (r: Vec<XMod>)
        ensures
            r@ == xmods(),
    {
        let names = XMods::to_names();
        let mut r: Vec<XMod> = Vec::new();
        let mut i: usize = 0;
        while i < names.len()
            invariant
                names@.len() == 10,
                forall|k: int| 0 <= k < 10 ==> #[trigger] names@[k]@ == xmod_names()[k],
                i <= 10,
                r@ == xmods().take(i as int),
            decreases 10 - i,
        {
            proof {
                lemma_xmod_names_select(i as int);
            }
            let m = XMods::func_by_name(names[i].as_str());
            r.push(m);
            assert(xmods().take(i + 1) =~= xmods().take(i as int).push(xmods()[i as int]));
            i = i + 1;
        }
        assert(xmods().take(10) =~= xmods());
        r
    }
}

/// Each menu name selects the modulation at its place in the menu.
pub proof fn lemma_xmod_names_select(k: int)
    requires
        0 <= k < 10,
    ensures
        xmod_named(xmod_names()[k]) == Some(xmods()[k]),
{
    reveal_strlit("per_line");
    reveal_strlit("ripples");
    reveal_strlit("line_phase");
    reveal_strlit("spiral");
    reveal_strlit("wave_interference");
    reveal_strlit("harmonic_cascade");
    reveal_strlit("fractal_waves");
    reveal_strlit("moire");
    reveal_strlit("standing_waves");
    reveal_strlit("quantum_ripples");
    assert("per_line"@.len() == 8);
    assert("ripples"@.len() == 7);
    assert("line_phase"@.len() == 10);
    assert("spiral"@.len() == 6);
    assert("wave_interference"@.len() == 17);
    assert("harmonic_cascade"@.len() == 16);
    assert("fractal_waves"@.len() == 13);
    assert("moire"@.len() == 5);
    assert("standing_waves"@.len() == 14);
    assert("quantum_ripples"@.len() == 15);
    if k == 0 {
    } else if k == 1 {
    } else if k == 2 {
    } else if k == 3 {
    } else if k == 4 {
    } else if k == 5 {
    } else if k == 6 {
    } else if k == 7 {
    } else if k == 8 {
    } else {
        assert(k == 9);
    }
}

/// The select control whose value is the current mode.
pub open spec fn mode_value(values: Map<Seq<char>, ControlValue>) -> Option<Seq<char>> {
    if values.contains_key("mode"@) {
        match values["mode"@] {
            ControlValue::String(m) => Some(m@),
            _ => None,
        }
    } else {
        None
    }
}

/// A control is disabled unless the mode control holds one of `modes`; it is
/// disabled too when there is no mode control or it does not hold a string.
pub fn disabled_unless_modes(modes: &Vec<String>, values: &Vec<(String, ControlValue)>) -> (r:
    bool)
    requires
        keys_unique(values@),
    ensures
        r == !(mode_value(assoc_map(values@)) matches Some(m) && exists|i: int|
            0 <= i < modes@.len() && #[trigger] modes@[i]@ == m),
{
    match assoc_get(values, "mode") {
        Some(ControlValue::String(mode)) => {
            let n = modes.len();
            let mut i: usize = 0;
            while i < n
                invariant
                    n == modes@.len(),
                    i <= n,
                    mode_value(assoc_map(values@)) == Some(mode@),
                    forall|j: int| 0 <= j < i ==> #[trigger] modes@[j]@ != mode@,
                decreases n - i,
            {
                if str_eq(modes[i].as_str(), mode.as_str()) {
                    assert(modes@[i as int]@ == mode@);
                    return false;
                }
                i = i + 1;
            }
            true
        },
        _ => true,
    }
}

} // verus!
