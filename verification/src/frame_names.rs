//! File names of captured recording frames: `frame-` followed by the frame
//! number in decimal, zero-padded to six digits, then `.png`. The encoder reads
//! the frames back by the same pattern.

use vstd::prelude::*;
use crate::text::push_char;
use crate::video_export::{digits_value, all_digits, is_digit, parse_u32};

verus! {

/// The character of the decimal digit `d`.
pub open spec fn digit_char(d: nat) -> char {
    if d == 0 {
        '0'
    } else if d == 1 {
        '1'
    } else if d == 2 {
        '2'
    } else if d == 3 {
        '3'
    } else if d == 4 {
        '4'
    } else if d == 5 {
        '5'
    } else if d == 6 {
        '6'
    } else if d == 7 {
        '7'
    } else if d == 8 {
        '8'
    } else {
        '9'
    }
}

/// The decimal digits of `n`, most significant first, without leading zeros
/// (`"0"` for zero).
pub open spec fn decimal(n: nat) -> Seq<char>
    decreases n,
{
    if n < 10 {
        seq![digit_char(n)]
    } else {
        decimal(n / 10).push(digit_char(n % 10))
    }
}

/// `s` with zeros in front up to `width` characters.
pub open spec fn zero_padded(s: Seq<char>, width: nat) -> Seq<char> {
    if s.len() >= width {
        s
    } else {
        Seq::new((width - s.len()) as nat, |i: int| '0') + s
    }
}

/// The name of captured frame `n`: `frame-NNNNNN.png`.
pub open spec fn frame_name(n: nat) -> Seq<char> {
    "frame-"@ + zero_padded(decimal(n), 6) + ".png"@
}

fn digit_of(d: u32) -> (c: char)
    requires
        d < 10,
    ensures
        c == digit_char(d as nat),
{
    if d == 0 {
        '0'
    } else if d == 1 {
        '1'
    } else if d == 2 {
        '2'
    } else if d == 3 {
        '3'
    } else if d == 4 {
        '4'
    } else if d == 5 {
        '5'
    } else if d == 6 {
        '6'
    } else if d == 7 {
        '7'
    } else if d == 8 {
        '8'
    } else {
        '9'
    }
}

fn decimal_chars(n: u32) -> (r: Vec<char>)
    ensures
        r@ == decimal(n as nat),
    decreases n,
{
    if n < 10 {
        let mut r: Vec<char> = Vec::new();
        r.push(digit_of(n));
        r
    } else {
        let mut r = decimal_chars(n / 10);
        r.push(digit_of(n % 10));
        r
    }
}

/// The file name of captured frame `n`.
pub fn frame_file_name(n: u32) -> (r: String)
    ensures
        r@ == frame_name(n as nat),
{
    let digits = decimal_chars(n);
    let mut r = String::from_str("frame-");
    let mut k: usize = digits.len();
    while k < 6
        invariant
            digits@ == decimal(n as nat),
            digits@.len() <= k <= 6 || (k == digits@.len() && k >= 6),
            r@ == "frame-"@ + Seq::new((k - digits@.len()) as nat, |i: int| '0'),
        decreases 6 - k,
    {
        push_char(&mut r, '0');
        k = k + 1;
        assert(r@ =~= "frame-"@ + Seq::new((k - digits@.len()) as nat, |i: int| '0'));
    }
    let ghost padding = r@;
    let mut j: usize = 0;
    while j < digits.len()
        invariant
            j <= digits@.len(),
            r@ == padding + digits@.take(j as int),
        decreases digits@.len() - j,
    {
        push_char(&mut r, digits[j]);
        j = j + 1;
        assert(r@ =~= padding + digits@.take(j as int));
    }
    assert(digits@.take(digits@.len() as int) =~= digits@);
    assert(r@ =~= "frame-"@ + zero_padded(decimal(n as nat), 6));
    r.append(".png");
    r
}

proof fn lemma_digit_char(d: nat)
    requires
        d < 10,
    ensures
        is_digit(digit_char(d)),
        (digit_char(d) as nat) - ('0' as nat) == d,
{
}

proof fn lemma_decimal_value(n: nat)
    ensures
        digits_value(decimal(n)) == n,
        all_digits(decimal(n)),
        decimal(n).len() >= 1,
    decreases n,
{
    if n < 10 {
        lemma_digit_char(n);
        assert(decimal(n).drop_last() =~= Seq::<char>::empty());
        assert(digits_value(Seq::<char>::empty()) == 0);
        assert(decimal(n).last() == digit_char(n));
        assert(digits_value(decimal(n)) == n);
    } else {
        lemma_decimal_value(n / 10);
        lemma_digit_char(n % 10);
        assert(decimal(n).drop_last() =~= decimal(n / 10));
        assert((n / 10) * 10 + n % 10 == n) by (nonlinear_arith);
        assert(decimal(n).last() == digit_char(n % 10));
        assert(digits_value(decimal(n)) == digits_value(decimal(n / 10)) * 10 + (n % 10));
        assert(all_digits(decimal(n))) by {
            assert forall|i: int| 0 <= i < decimal(n).len() implies is_digit(
                #[trigger] decimal(n)[i],
            ) by {
                if i < decimal(n / 10).len() {
                    assert(decimal(n)[i] == decimal(n / 10)[i]);
                }
            }
        }
    }
}

proof fn lemma_leading_zeros(k: nat, s: Seq<char>)
    ensures
        digits_value(Seq::new(k, |i: int| '0') + s) == digits_value(s),
    decreases s.len(), k,
{
    let z = Seq::new(k, |i: int| '0');
    if s.len() == 0 {
        assert(z + s =~= z);
        if k > 0 {
            lemma_leading_zeros((k - 1) as nat, s);
            assert(z.drop_last() =~= Seq::new((k - 1) as nat, |i: int| '0'));
            assert(Seq::new((k - 1) as nat, |i: int| '0') + s =~= Seq::new(
                (k - 1) as nat,
                |i: int| '0',
            ));
        }
    } else {
        lemma_leading_zeros(k, s.drop_last());
        assert((z + s).drop_last() =~= z + s.drop_last());
    }
}

/// The number in a captured frame's name reads back as the frame number: the
/// padded digits are decimal digits whose value is `n`, and the encoder's
/// progress parser reads them as `n`.
pub proof fn law_frame_number_reads_back(n: u32)
    ensures
        all_digits(zero_padded(decimal(n as nat), 6)),
        digits_value(zero_padded(decimal(n as nat), 6)) == n,
        parse_u32(zero_padded(decimal(n as nat), 6)) == Some(n),
{
    let d = decimal(n as nat);
    lemma_decimal_value(n as nat);
    let p = zero_padded(d, 6);
    if d.len() < 6 {
        lemma_leading_zeros((6 - d.len()) as nat, d);
        assert forall|i: int| 0 <= i < p.len() implies is_digit(#[trigger] p[i]) by {
            if i >= 6 - d.len() {
                assert(p[i] == d[i - (6 - d.len())]);
            }
        }
    }
    assert(p[0] != '+') by {
        assert(is_digit(p[0]));
    }
}

/// Distinct frames get distinct names, so no captured frame overwrites another.
pub proof fn law_frame_names_distinct(n: u32, m: u32)
    requires
        n != m,
    ensures
        frame_name(n as nat) != frame_name(m as nat),
{
    law_frame_number_reads_back(n);
    law_frame_number_reads_back(m);
    let pn = zero_padded(decimal(n as nat), 6);
    let pm = zero_padded(decimal(m as nat), 6);
    if frame_name(n as nat) == frame_name(m as nat) {
        reveal_strlit("frame-");
        reveal_strlit(".png");
        let a = frame_name(n as nat);
        assert(a.subrange(6, a.len() - 4) =~= pn);
        assert(frame_name(m as nat).subrange(6, a.len() - 4) =~= pm);
        assert(pn == pm);
    }
}

} // verus!
