//! The first displacement sketch's pattern menu.

use vstd::prelude::*;
use crate::patterns::{function_pairs, pair_name};

verus! {

/// The pattern menu: every pair of functions, then the custom pattern `Comp1`.
pub fn generate_pattern_options() -> (r: Vec<String>)
    ensures
        r@.len() == 101,
        forall|a: int, b: int|
            0 <= a < 10 && 0 <= b < 10 ==> #[trigger] r@[10 * a + b]@ == pair_name(a, b),
        r@[100]@ == "Comp1"@,
{
    let mut options = function_pairs();
    options.push(String::from_str("Comp1"));
    options
}

} // verus!
