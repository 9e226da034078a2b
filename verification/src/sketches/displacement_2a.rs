//! The second displacement sketch: its pattern menu, the cache of the
//! functions selected by the current pattern, and the shapes that restrain
//! where circles are drawn.

use vstd::prelude::*;
use crate::patterns::{
    function_pairs, pair_name, parse_dynamic_pattern, pattern_fns, PatternError, TrigFn,
};
use crate::text::{split_by, str_eq};

verus! {

/// The custom patterns, drawn by formulas of their own.
pub open spec fn custom_patterns() -> Seq<Seq<char>> {
    seq!["Custo"@, "Sprial"@, "Ripple"@, "VortxFld"@, "VortxFld2"@, "FracRipl"@, "Quantum"@]
}

/// The pattern menu: the custom patterns, then every pair of functions.
pub fn generate_pattern_options() -> (r: Vec<String>)
    ensures
        r@.len() == 107,
        forall|k: int| 0 <= k < 7 ==> #[trigger] r@[k]@ == custom_patterns()[k],
        forall|a: int, b: int|
            0 <= a < 10 && 0 <= b < 10 ==> #[trigger] r@[7 + 10 * a + b]@ == pair_name(a, b),
{
    let mut all_patterns: Vec<String> = Vec::new();
    all_patterns.push(String::from_str("Custo"));
    all_patterns.push(String::from_str("Sprial"));
    all_patterns.push(String::from_str("Ripple"));
    all_patterns.push(String::from_str("VortxFld"));
    all_patterns.push(String::from_str("VortxFld2"));
    all_patterns.push(String::from_str("FracRipl"));
    all_patterns.push(String::from_str("Quantum"));
    let ghost customs = all_patterns@;
    let mut options = function_pairs();
    let ghost pairs = options@;
    all_patterns.append(&mut options);
    assert(all_patterns@ == customs + pairs);
    assert forall|a: int, b: int| 0 <= a < 10 && 0 <= b < 10 implies #[trigger] all_patterns@[7
        + 10 * a + b]@ == pair_name(a, b) by {
        assert(all_patterns@[7 + 10 * a + b] == pairs[10 * a + b]);
    }
    all_patterns
}

/// The pattern whose functions are cached and the cached functions.
pub struct TrigFnCache {
    pub cached_pattern: String,
    pub cached_trig_fns: Option<(TrigFn, TrigFn)>,
}

impl View for TrigFnCache {
    type V = (Seq<char>, Option<(TrigFn, TrigFn)>);

    open spec fn view(&self) -> (Seq<char>, Option<(TrigFn, TrigFn)>) {
        (self.cached_pattern@, self.cached_trig_fns)
    }
}

/// The cache after reading `pattern`: a pattern of two known functions is
/// cached with them; a pattern that is not two parts is cached without
/// functions; with an unknown function the functions are dropped and the
/// cached pattern stays.
pub open spec fn cache_after_update(
    cache: (Seq<char>, Option<(TrigFn, TrigFn)>),
    pattern: Seq<char>,
) -> (Seq<char>, Option<(TrigFn, TrigFn)>) {
    if split_by(pattern, ',').len() != 2 {
        (pattern, None)
    } else {
        match pattern_fns(pattern) {
            Ok(fns) => (pattern, Some(fns)),
            Err(_) => (cache.0, None),
        }
    }
}

/// The cache after a frame's check: it is updated when it holds no functions
/// or holds another pattern, and kept otherwise.
pub open spec fn cache_after_refresh(
    cache: (Seq<char>, Option<(TrigFn, TrigFn)>),
    pattern: Seq<char>,
) -> (Seq<char>, Option<(TrigFn, TrigFn)>) {
    if cache.1 is None || cache.0 != pattern {
        cache_after_update(cache, pattern)
    } else {
        cache
    }
}

impl TrigFnCache {
    /// A cache for `pattern` that holds no functions yet.
    pub fn new(pattern: &str) -> (r: TrigFnCache)
        ensures
            r@ == (pattern@, None::<(TrigFn, TrigFn)>),
    {
        TrigFnCache { cached_pattern: String::from_str(pattern), cached_trig_fns: None }
    }

    /// Reads the functions of `pattern` into the cache.
    pub fn update_trig_fns(&mut self, pattern: &str)
        ensures
            final(self)@ == cache_after_update(old(self)@, pattern@),
    {
        match parse_dynamic_pattern(pattern) {
            Ok(fns) => {
                self.cached_pattern = String::from_str(pattern);
                self.cached_trig_fns = Some(fns);
            },
            Err(PatternError::Invalid) => {
                self.cached_pattern = String::from_str(pattern);
                self.cached_trig_fns = None;
            },
            Err(PatternError::UnknownFunction) => {
                self.cached_trig_fns = None;
            },
        }
    }

    /// The check made on each frame: updates the cache when it holds no
    /// functions or the pattern control changed.
    pub fn refresh(&mut self, pattern: &str)
        ensures
            final(self)@ == cache_after_refresh(old(self)@, pattern@),
    {
        if self.cached_trig_fns.is_none() || !str_eq(self.cached_pattern.as_str(), pattern) {
            self.update_trig_fns(pattern);
        }
    }
}

/// Refreshing twice with the same pattern gives what refreshing once gives.
pub proof fn law_refresh_idempotent(cache: (Seq<char>, Option<(TrigFn, TrigFn)>), pattern: Seq<char>)
    ensures
        cache_after_refresh(cache_after_refresh(cache, pattern), pattern) == cache_after_refresh(
            cache,
            pattern,
        ),
{
}

/// A shape that restrains where circles are drawn.
#[derive(Clone, Copy, Debug, PartialEq, Eq, Structural)]
pub enum QuadShape {
    Rectangle,
    Circle,
    Ripple,
    Spiral,
}

/// The shape a control value names; any other name means a rectangle.
pub open spec fn quad_shape_named(s: Seq<char>) -> QuadShape {
    if s == "Rectangle"@ {
        QuadShape::Rectangle
    } else if s == "Circle"@ {
        QuadShape::Circle
    } else if s == "Ripple"@ {
        QuadShape::Ripple
    } else if s == "Spiral"@ {
        QuadShape::Spiral
    } else {
        QuadShape::Rectangle
    }
}

impl QuadShape {
    /// The shape named `s`; names are matched exactly, and unknown names give
    /// a rectangle.
    pub fn from_str(s: &str) -> (r: QuadShape)
        ensures
            r == quad_shape_named(s@),
    {
        if str_eq(s, "Rectangle") {
            QuadShape::Rectangle
        } else if str_eq(s, "Circle") {
            QuadShape::Circle
        } else if str_eq(s, "Ripple") {
            QuadShape::Ripple
        } else if str_eq(s, "Spiral") {
            QuadShape::Spiral
        } else {
            QuadShape::Rectangle
        }
    }
}

} // verus!
