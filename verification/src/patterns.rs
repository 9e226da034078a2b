//! Weave patterns of the displacement sketches: a pattern `"<a>,<b>"` names
//! two trigonometric functions, one applied to each coordinate. This module
//! holds the function table, the menu of all pairs and the parsing of a
//! pattern name; evaluating the functions is left to the caller.

use vstd::prelude::*;
use crate::text::{split_by, split_on, str_eq, concat3, free_of, lemma_split_two};

verus! {

/// The trigonometric functions that patterns combine.
#[derive(Clone, Copy, Debug, PartialEq, Eq, Structural)]
pub enum TrigFn {
    Cos,
    Sin,
    Tan,
    Tanh,
    Sec,
    Csc,
    Cot,
    Sech,
    Csch,
    Coth,
}

/// The names of the functions, in menu order.
pub open spec fn trig_fn_names() -> Seq<Seq<char>> {
    seq![
        "cos"@,
        "sin"@,
        "tan"@,
        "tanh"@,
        "sec"@,
        "csc"@,
        "cot"@,
        "sech"@,
        "csch"@,
        "coth"@,
    ]
}

/// The functions, in menu order.
pub open spec fn trig_fns() -> Seq<TrigFn> {
    seq![
        TrigFn::Cos,
        TrigFn::Sin,
        TrigFn::Tan,
        TrigFn::Tanh,
        TrigFn::Sec,
        TrigFn::Csc,
        TrigFn::Cot,
        TrigFn::Sech,
        TrigFn::Csch,
        TrigFn::Coth,
    ]
}

/// The function a name stands for.
pub open spec fn trig_fn_named(name: Seq<char>) -> Option<TrigFn> {
    if name == "cos"@ {
        Some(TrigFn::Cos)
    } else if name == "sin"@ {
        Some(TrigFn::Sin)
    } else if name == "tan"@ {
        Some(TrigFn::Tan)
    } else if name == "tanh"@ {
        Some(TrigFn::Tanh)
    } else if name == "sec"@ {
        Some(TrigFn::Sec)
    } else if name == "csc"@ {
        Some(TrigFn::Csc)
    } else if name == "cot"@ {
        Some(TrigFn::Cot)
    } else if name == "sech"@ {
        Some(TrigFn::Sech)
    } else if name == "csch"@ {
        Some(TrigFn::Csch)
    } else if name == "coth"@ {
        Some(TrigFn::Coth)
    } else {
        None
    }
}

/// Looks a function up by its name.
pub fn trig_fn_lookup(name: &str) -> (r: Option<TrigFn>)
    ensures
        r == trig_fn_named(name@),
{
    if str_eq(name, "cos") {
        Some(TrigFn::Cos)
    } else if str_eq(name, "sin") {
        Some(TrigFn::Sin)
    } else if str_eq(name, "tan") {
        Some(TrigFn::Tan)
    } else if str_eq(name, "tanh") {
        Some(TrigFn::Tanh)
    } else if str_eq(name, "sec") {
        Some(TrigFn::Sec)
    } else if str_eq(name, "csc") {
        Some(TrigFn::Csc)
    } else if str_eq(name, "cot") {
        Some(TrigFn::Cot)
    } else if str_eq(name, "sech") {
        Some(TrigFn::Sech)
    } else if str_eq(name, "csch") {
        Some(TrigFn::Csch)
    } else if str_eq(name, "coth") {
        Some(TrigFn::Coth)
    } else {
        None
    }
}

/// The name of pair `(a, b)` in the pattern menu: `"<a>,<b>"`.
pub open spec fn pair_name(a: int, b: int) -> Seq<char> {
    trig_fn_names()[a] + ","@ + trig_fn_names()[b]
}

/// Every ordered pair of function names, `"<a>,<b>"`, with the first
/// function varying slowest: entry `10 * a + b` pairs name `a` with name `b`.
pub fn function_pairs() -> (r: Vec<String>)
    ensures
        r@.len() == 100,
        forall|a: int, b: int|
            0 <= a < 10 && 0 <= b < 10 ==> #[trigger] r@[10 * a + b]@ == pair_name(a, b),
{
    let names: Vec<&'static str> = vec![
        "cos",
        "sin",
        "tan",
        "tanh",
        "sec",
        "csc",
        "cot",
        "sech",
        "csch",
        "coth",
    ];
    assert(forall|k: int| 0 <= k < 10 ==> #[trigger] names@[k]@ == trig_fn_names()[k]);
    let mut r: Vec<String> = Vec::new();
    let mut i: usize = 0;
    while i < 10
        invariant
            i <= 10,
            names@.len() == 10,
            forall|k: int| 0 <= k < 10 ==> #[trigger] names@[k]@ == trig_fn_names()[k],
            r@.len() == 10 * i,
            forall|a: int, b: int|
                0 <= a < i && 0 <= b < 10 ==> #[trigger] r@[10 * a + b]@ == pair_name(a, b),
        decreases 10 - i,
    {
        let mut j: usize = 0;
        while j < 10
            invariant
                i < 10,
                j <= 10,
                names@.len() == 10,
                forall|k: int| 0 <= k < 10 ==> #[trigger] names@[k]@ == trig_fn_names()[k],
                r@.len() == 10 * i + j,
                forall|a: int, b: int|
                    0 <= a < i && 0 <= b < 10 ==> #[trigger] r@[10 * a + b]@ == pair_name(a, b),
                forall|b: int| 0 <= b < j ==> #[trigger] r@[10 * i + b]@ == pair_name(i as int, b),
            decreases 10 - j,
        {
            let pair = concat3(names[i], ",", names[j]);
            r.push(pair);
            j = j + 1;
        }
        assert forall|a: int, b: int| 0 <= a < i + 1 && 0 <= b < 10 implies #[trigger] r@[10 * a
            + b]@ == pair_name(a, b) by {
            if a == i {
                assert(r@[10 * (i as int) + b]@ == pair_name(i as int, b));
            }
        }
        i = i + 1;
    }
    r
}

/// Why a pattern name does not name two functions.
#[derive(Clone, Copy, Debug, PartialEq, Eq, Structural)]
pub enum PatternError {
    /// The name does not consist of exactly two comma-separated parts.
    Invalid,
    /// A part is not the name of a function.
    UnknownFunction,
}

/// The pair of functions a pattern name selects.
pub open spec fn pattern_fns(pattern: Seq<char>) -> Result<(TrigFn, TrigFn), PatternError> {
    let parts = split_by(pattern, ',');
    if parts.len() != 2 {
        Err(PatternError::Invalid)
    } else {
        match (trig_fn_named(parts[0]), trig_fn_named(parts[1])) {
            (Some(a), Some(b)) => Ok((a, b)),
            _ => Err(PatternError::UnknownFunction),
        }
    }
}

/// The two functions of a pattern `"<a>,<b>"`: the first applies to x, the
/// second to y.
pub fn parse_dynamic_pattern(pattern: &str) -> (r: Result<(TrigFn, TrigFn), PatternError>)
    ensures
        r == pattern_fns(pattern@),
{
    let parts = split_on(pattern, ',');
    if parts.len() != 2 {
        return Err(PatternError::Invalid);
    }
    let a = trig_fn_lookup(parts[0].as_str());
    let b = trig_fn_lookup(parts[1].as_str());
    match (a, b) {
        (Some(fa), Some(fb)) => Ok((fa, fb)),
        _ => Err(PatternError::UnknownFunction),
    }
}

/// Each function name selects the function of the same place in the menu
/// (`"sec"` the secant, `"csc"` the cosecant, and so on), and no two names
/// select the same function.
pub proof fn law_names_select_their_functions(k: int, j: int)
    requires
        0 <= k < 10,
        0 <= j < 10,
    ensures
        trig_fn_named(trig_fn_names()[k]) == Some(trig_fns()[k]),
        k != j ==> trig_fns()[k] != trig_fns()[j],
        trig_fn_named("sec"@) == Some(TrigFn::Sec),
        trig_fn_named("csc"@) == Some(TrigFn::Csc),
{
    reveal_strlit("cos");
    reveal_strlit("sin");
    reveal_strlit("tan");
    reveal_strlit("tanh");
    reveal_strlit("sec");
    reveal_strlit("csc");
    reveal_strlit("cot");
    reveal_strlit("sech");
    reveal_strlit("csch");
    reveal_strlit("coth");
    assert("cos"@ =~= seq!['c', 'o', 's']);
    assert("sin"@ =~= seq!['s', 'i', 'n']);
    assert("tan"@ =~= seq!['t', 'a', 'n']);
    assert("tanh"@ =~= seq!['t', 'a', 'n', 'h']);
    assert("sec"@ =~= seq!['s', 'e', 'c']);
    assert("csc"@ =~= seq!['c', 's', 'c']);
    assert("cot"@ =~= seq!['c', 'o', 't']);
    assert("sech"@ =~= seq!['s', 'e', 'c', 'h']);
    assert("csch"@ =~= seq!['c', 's', 'c', 'h']);
    assert("coth"@ =~= seq!['c', 'o', 't', 'h']);
}

/// Parsing a menu pair gives the functions at the pair's places: entry
/// `10 * a + b` of the menu parses to function `a` for x and function `b` for y.
pub proof fn law_menu_pair_functions(a: int, b: int)
    requires
        0 <= a < 10,
        0 <= b < 10,
    ensures
        pattern_fns(pair_name(a, b)) == Ok::<(TrigFn, TrigFn), PatternError>(
            (trig_fns()[a], trig_fns()[b]),
        ),
{
    law_menu_pairs_parse(a, b);
    law_names_select_their_functions(a, b);
    law_names_select_their_functions(b, a);
}

/// Every name in the pattern menu parses to the functions it names: entry
/// `10 * a + b` selects function `a` for x and function `b` for y.
pub proof fn law_menu_pairs_parse(a: int, b: int)
    requires
        0 <= a < 10,
        0 <= b < 10,
    ensures
        pattern_fns(pair_name(a, b)) == Ok::<(TrigFn, TrigFn), PatternError>(
            (trig_fn_named(trig_fn_names()[a])->0, trig_fn_named(trig_fn_names()[b])->0),
        ),
        trig_fn_named(trig_fn_names()[a]) is Some,
        trig_fn_named(trig_fn_names()[b]) is Some,
{
    reveal_strlit("cos");
    reveal_strlit("sin");
    reveal_strlit("tan");
    reveal_strlit("tanh");
    reveal_strlit("sec");
    reveal_strlit("csc");
    reveal_strlit("cot");
    reveal_strlit("sech");
    reveal_strlit("csch");
    reveal_strlit("coth");
    reveal_strlit(",");
    assert(forall|k: int| 0 <= k < 10 ==> #[trigger] free_of(trig_fn_names()[k], ','));
    assert(","@ =~= seq![',']);
    lemma_split_two(trig_fn_names()[a], trig_fn_names()[b], ',');
}

} // verus!
