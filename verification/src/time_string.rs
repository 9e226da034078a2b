//! The `bar.beat.16th` notation of positions in animation scripts: three
//! numbers separated by dots.

use vstd::prelude::*;
use crate::text::{split_by, split_on};

verus! {

/// Splits `s` at every dot (`str::split('.')`); there is always at least one part.
pub fn split_on_dots(s: &str) -> (r: Vec<String>)
    ensures
        r@.len() >= 1,
        r@.len() == split_by(s@, '.').len(),
        forall|i: int| 0 <= i < r@.len() ==> #[trigger] r@[i]@ == split_by(s@, '.')[i],
{
    split_on(s, '.')
}

/// The error reported for a position that does not have exactly three fields.
pub const TIME_FORMAT_ERROR: &'static str = "Time string must be in format bar.beat.16th";

} // verus!
