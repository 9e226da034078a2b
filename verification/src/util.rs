//! Identifiers and seeds: random session identifiers made of lowercase letters
//! and digits, and the numeric seed derived from a string.

use vstd::prelude::*;
use rand::rngs::ThreadRng;
use rand::Rng;
use crate::text::push_char;
use vstd::string::StringSliceAdditionalSpecFns;

verus! {

/// The letters an identifier draws from.
pub const LETTERS: &'static str = "abcdefghijklmnopqrstuvwxyz";
/// The digits an identifier draws from.
pub const NUMBERS: &'static str = "0123456789";

/// `rand::rngs::ThreadRng`, the thread-local random generator; Verus sees
/// nothing inside it.
#[verifier::external_type_specification]
#[verifier::external_body]
pub struct ExThreadRng(ThreadRng);

/// Calls `rand::thread_rng`. Trusted to return the calling thread's generator;
/// nothing is stated of its state.
#[verifier::external_body]
fn thread_rng() -> ThreadRng {
    rand::thread_rng()
}

/// Calls `Rng::gen_ratio(numerator, denominator)`, which is true with
/// probability `numerator / denominator`; rand panics unless
/// `0 < denominator` and `numerator <= denominator`. Nothing is stated of the
/// outcome.
#[verifier::external_body]
fn random_ratio(rng: &mut ThreadRng, numerator: u32, denominator: u32) -> bool
    requires
        0 < denominator,
        numerator <= denominator,
{
    rng.gen_ratio(numerator, denominator)
}

/// Calls `Rng::gen_range(0..upper)`. Trusted, as rand documents for a
/// non-empty range, to return a value in `[0, upper)`; which one is chance.
#[verifier::external_body]
fn random_below(rng: &mut ThreadRng, upper: usize) -> (r: usize)
    requires
        upper > 0,
    ensures
        r < upper,
{
    rng.gen_range(0..upper)
}

/// A character that identifiers may hold: one of `LETTERS` or `NUMBERS`.
pub open spec fn is_id_char(c: char) -> bool {
    LETTERS@.contains(c) || NUMBERS@.contains(c)
}

/// The identifier character picked by a coin and an index: the letter at
/// `index` when the coin shows letters, else the digit at `index`.
pub fn id_char(letter: bool, index: usize) -> (c: char)
    requires
        letter ==> index < 26,
        !letter ==> index < 10,
    ensures
        letter ==> c == LETTERS@[index as int],
        !letter ==> c == NUMBERS@[index as int],
        is_id_char(c),
{
    proof {
        reveal_strlit("abcdefghijklmnopqrstuvwxyz");
        reveal_strlit("0123456789");
    }
    if letter {
        LETTERS.get_char(index)
    } else {
        NUMBERS.get_char(index)
    }
}

/// Picks that `id_char` can read: letter indices below 26, digit indices
/// below 10.
pub open spec fn valid_picks(picks: Seq<(bool, usize)>) -> bool {
    &&& forall|i: int| 0 <= i < picks.len() ==> (#[trigger] picks[i]).0 ==> picks[i].1 < 26
    &&& forall|i: int| 0 <= i < picks.len() ==> !(#[trigger] picks[i]).0 ==> picks[i].1 < 10
}

/// The identifier that picks spell: for each pick, the letter or the digit at
/// its index.
pub open spec fn picks_text(picks: Seq<(bool, usize)>) -> Seq<char> {
    Seq::new(
        picks.len(),
        |i: int|
            if picks[i].0 {
                LETTERS@[picks[i].1 as int]
            } else {
                NUMBERS@[picks[i].1 as int]
            },
    )
}

/// The identifier spelled by a sequence of picks, as `id_char` reads them.
pub fn id_from_picks(picks: &Vec<(bool, usize)>) -> (r: String)
    requires
        forall|i: int|
            0 <= i < picks@.len() ==> (#[trigger] picks@[i]).0 ==> picks@[i].1 < 26,
        forall|i: int|
            0 <= i < picks@.len() ==> !(#[trigger] picks@[i]).0 ==> picks@[i].1 < 10,
    ensures
        r@ == picks_text(picks@),
        forall|i: int| 0 <= i < r@.len() ==> is_id_char(#[trigger] r@[i]),
        r@.len() == picks@.len(),
        forall|i: int|
            0 <= i < picks@.len() ==> #[trigger] r@[i] == (if picks@[i].0 {
                LETTERS@[picks@[i].1 as int]
            } else {
                NUMBERS@[picks@[i].1 as int]
            }),
{
    let mut r = String::new();
    let n = picks.len();
    let mut i: usize = 0;
    while i < n
        invariant
            n == picks@.len(),
            i <= n,
            r@.len() == i,
            forall|j: int|
                0 <= j < picks@.len() ==> (#[trigger] picks@[j]).0 ==> picks@[j].1 < 26,
            forall|j: int|
                0 <= j < picks@.len() ==> !(#[trigger] picks@[j]).0 ==> picks@[j].1 < 10,
            forall|j: int|
                0 <= j < i ==> #[trigger] r@[j] == (if picks@[j].0 {
                    LETTERS@[picks@[j].1 as int]
                } else {
                    NUMBERS@[picks@[j].1 as int]
                }),
            forall|j: int| 0 <= j < i ==> is_id_char(#[trigger] r@[j]),
        decreases n - i,
    {
        let (letter, index) = picks[i];
        let c = id_char(letter, index);
        push_char(&mut r, c);
        i = i + 1;
    }
    assert(r@ =~= picks_text(picks@));
    r
}

/// A random identifier of `length` characters, each a lowercase letter or a
/// digit: a fair coin (a ratio of one in two, the same Bernoulli distribution
/// as `gen_bool(0.5)` in rand's source) picks letters or digits, then a uniform index picks the
/// character; the picks are spelled out by `id_from_picks`.
pub fn uuid(length: usize) -> (r: String)
    ensures
        r@.len() == length,
        forall|i: int| 0 <= i < length ==> is_id_char(#[trigger] r@[i]),
        exists|picks: Seq<(bool, usize)>|
            picks.len() == length && valid_picks(picks) && r@ == #[trigger] picks_text(picks),
{
    let mut rng = thread_rng();
    let mut picks: Vec<(bool, usize)> = Vec::new();
    let mut i: usize = 0;
    while i < length
        invariant
            i <= length,
            picks@.len() == i,
            valid_picks(picks@),
        decreases length - i,
    {
        proof {
            reveal_strlit("abcdefghijklmnopqrstuvwxyz");
            reveal_strlit("0123456789");
        }
        let letter = random_ratio(&mut rng, 1, 2);
        let index = if letter {
            random_below(&mut rng, LETTERS.unicode_len())
        } else {
            random_below(&mut rng, NUMBERS.unicode_len())
        };
        picks.push((letter, index));
        i = i + 1;
    }
    let r = id_from_picks(&picks);
    assert(r@ == picks_text(picks@));
    r
}

/// A random five-character identifier.
pub fn uuid_5() -> (r: String)
    ensures
        r@.len() == 5,
        forall|i: int| 0 <= i < 5 ==> is_id_char(#[trigger] r@[i]),
{
    uuid(5)
}

/// A fresh session identifier: five random lowercase letters or digits.
pub fn generate_session_id() -> (r: String)
    ensures
        r@.len() == 5,
        forall|i: int| 0 <= i < 5 ==> is_id_char(#[trigger] r@[i]),
{
    uuid(5)
}

/// The seed hash of a byte string: starting from zero, each byte updates the
/// hash to `hash * 31 + byte`, modulo 2^32.
pub open spec fn seed_hash(bytes: Seq<u8>) -> u32
    decreases bytes.len(),
{
    if bytes.len() == 0 {
        0
    } else {
        ((seed_hash(bytes.drop_last()) * 31 + bytes.last()) % 0x1_0000_0000) as u32
    }
}

/// The seed hash of the UTF-8 bytes of `id`; sketches use it, converted to a
/// float, as a per-name noise seed.
pub fn str_seed_hash(id: &str) -> (r: u32)
    ensures
        r == seed_hash(id.spec_bytes()),
{
    let bytes = id.as_bytes();
    let n = bytes.len();
    let mut hash: u32 = 0;
    let mut i: usize = 0;
    while i < n
        invariant
            n == bytes@.len(),
            bytes@ == id.spec_bytes(),
            i <= n,
            hash == seed_hash(bytes@.take(i as int)),
        decreases n - i,
    {
        assert(bytes@.take(i + 1).drop_last() =~= bytes@.take(i as int));
        let m = hash.wrapping_mul(31);
        let next = m.wrapping_add(bytes[i] as u32);
        assert(next == (hash * 31 + bytes@[i as int]) % 0x1_0000_0000) by (nonlinear_arith)
            requires
                m == (hash * 31) % 0x1_0000_0000,
                next == (m + bytes@[i as int]) % 0x1_0000_0000,
        ;
        hash = next;
        i = i + 1;
    }
    assert(bytes@.take(n as int) =~= bytes@);
    hash
}

} // verus!
