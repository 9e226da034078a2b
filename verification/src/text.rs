//! Small string utilities shared by the parsers of the framework.

use vstd::prelude::*;

verus! {

/// The Unicode lowercase mapping of a string, as computed by `str::to_lowercase`.
pub uninterp spec fn lowercase(s: Seq<char>) -> Seq<char>;

/// Calls `str::to_lowercase`. Trusted: the result is the value of the named
/// mapping `lowercase` on the argument's characters, a function of the
/// argument alone; nothing more about the Unicode tables is stated.
#[verifier::external_body]
pub(crate) fn to_lowercase(s: &str) -> (r: String)
    ensures
        r@ == lowercase(s@),
{
    s.to_lowercase()
}

/// The path with text `s` as `{:?}` formats a `Path`: in double quotes, with
/// quotes, backslashes and control characters escaped.
pub uninterp spec fn path_debug(s: Seq<char>) -> Seq<char>;

/// Calls `format!("{:?}", Path::new(s))`. Trusted: the result is the named
/// quoting of the path, a function of its text alone.
#[verifier::external_body]
pub(crate) fn path_debug_string(s: &str) -> (r: String)
    ensures
        r@ == path_debug(s@),
{
    format!("{:?}", std::path::Path::new(s))
}

/// Calls `String::push`. Trusted: the documentation of std states that it
/// appends the given char to the end of the string.
#[verifier::external_body]
pub(crate) fn push_char(s: &mut String, c: char)
    ensures
        final(s)@ == old(s)@.push(c),
{
    s.push(c)
}

/// Whether two strings hold the same characters.
pub fn str_eq(a: &str, b: &str) -> (r: bool)
    ensures
        r == (a@ == b@),
{
    let sa = String::from_str(a);
    let sb = String::from_str(b);
    sa == sb
}

/// The concatenation `a + b + c` as a new string.
pub fn concat3(a: &str, b: &str, c: &str) -> (r: String)
    ensures
        r@ == a@ + b@ + c@,
{
    let mut r = String::from_str(a);
    r.append(b);
    r.append(c);
    r
}

/// The parts of `s` between occurrences of `sep`, in order (`str::split(sep)`).
pub open spec fn split_by(s: Seq<char>, sep: char) -> Seq<Seq<char>>
    decreases s.len(),
{
    if s.len() == 0 {
        seq![Seq::empty()]
    } else {
        let rest = split_by(s.drop_last(), sep);
        if s.last() == sep {
            rest.push(Seq::empty())
        } else {
            rest.update(rest.len() - 1, rest.last().push(s.last()))
        }
    }
}

proof fn lemma_split_by_nonempty(s: Seq<char>, sep: char)
    ensures
        split_by(s, sep).len() >= 1,
    decreases s.len(),
{
    if s.len() > 0 {
        lemma_split_by_nonempty(s.drop_last(), sep);
    }
}

/// Splits `s` at every `sep`; there is always at least one part.
pub fn split_on(s: &str, sep: char) -> (r: Vec<String>)
    ensures
        r@.len() >= 1,
        r@.len() == split_by(s@, sep).len(),
        forall|i: int| 0 <= i < r@.len() ==> #[trigger] r@[i]@ == split_by(s@, sep)[i],
{
    let mut parts: Vec<String> = Vec::new();
    let mut current = String::new();
    let n = s.unicode_len();
    let mut i: usize = 0;
    proof {
        assert(s@.take(0) =~= Seq::<char>::empty());
    }
    while i < n
        invariant
            n == s@.len(),
            i <= n,
            parts@.len() + 1 == split_by(s@.take(i as int), sep).len(),
            forall|j: int| 0 <= j < parts@.len() ==> #[trigger] parts@[j]@ == split_by(
                s@.take(i as int),
                sep,
            )[j],
            current@ == split_by(s@.take(i as int), sep).last(),
        decreases n - i,
    {
        proof {
            lemma_split_by_nonempty(s@.take(i as int), sep);
            assert(s@.take(i + 1).drop_last() =~= s@.take(i as int));
        }
        let c = s.get_char(i);
        if c == sep {
            let done = current;
            parts.push(done);
            current = String::new();
        } else {
            push_char(&mut current, c);
        }
        i = i + 1;
    }
    proof {
        assert(s@.take(n as int) =~= s@);
        lemma_split_by_nonempty(s@, sep);
    }
    parts.push(current);
    parts
}

/// The parts joined back with `sep` between them.
pub open spec fn join_by(parts: Seq<Seq<char>>, sep: char) -> Seq<char>
    decreases parts.len(),
{
    if parts.len() == 0 {
        Seq::empty()
    } else if parts.len() == 1 {
        parts[0]
    } else {
        join_by(parts.drop_last(), sep) + seq![sep] + parts.last()
    }
}

/// Splitting at a separator loses nothing: joining the parts with the
/// separator gives back the text, and no part holds the separator.
pub proof fn law_split_join(s: Seq<char>, sep: char)
    ensures
        join_by(split_by(s, sep), sep) == s,
        forall|i: int, j: int|
            0 <= i < split_by(s, sep).len() && 0 <= j < split_by(s, sep)[i].len() ==> #[trigger] split_by(s, sep)[i][j]
                != sep,
    decreases s.len(),
{
    lemma_split_by_nonempty(s, sep);
    if s.len() > 0 {
        let t = s.drop_last();
        law_split_join(t, sep);
        lemma_split_by_nonempty(t, sep);
        let rest = split_by(t, sep);
        if s.last() == sep {
            assert(split_by(s, sep).drop_last() =~= rest);
            assert(join_by(split_by(s, sep), sep) =~= join_by(rest, sep) + seq![sep] + Seq::<char>::empty());
            assert(s =~= t + seq![sep]);
            assert forall|i: int, j: int|
                0 <= i < split_by(s, sep).len() && 0 <= j < split_by(s, sep)[i].len() implies #[trigger] split_by(s, sep)[i][j]
                != sep by {
                if i < rest.len() {
                    assert(split_by(s, sep)[i] == rest[i]);
                }
            }
        } else {
            let u = rest.update(rest.len() - 1, rest.last().push(s.last()));
            assert(split_by(s, sep) == u);
            if rest.len() == 1 {
                assert(join_by(u, sep) == u[0]);
                assert(join_by(rest, sep) == rest[0]);
                assert(s =~= rest[0].push(s.last()));
            } else {
                assert(u.drop_last() =~= rest.drop_last());
                assert(join_by(u, sep) == join_by(rest.drop_last(), sep) + seq![sep] + rest.last().push(
                    s.last(),
                ));
                assert(join_by(rest, sep) == join_by(rest.drop_last(), sep) + seq![sep] + rest.last());
                assert(join_by(u, sep) =~= join_by(rest, sep).push(s.last()));
                assert(s =~= t.push(s.last()));
            }
            assert forall|i: int, j: int|
                0 <= i < split_by(s, sep).len() && 0 <= j < split_by(s, sep)[i].len() implies #[trigger] split_by(s, sep)[i][j]
                != sep by {
                if i < rest.len() - 1 {
                    assert(u[i] == rest[i]);
                } else {
                    assert(u[i] == rest.last().push(s.last()));
                    if j < rest.last().len() {
                        assert(rest[rest.len() - 1][j] != sep);
                    }
                }
            }
        }
    } else {
        assert(split_by(s, sep) =~= seq![Seq::<char>::empty()]);
    }
}


/// `s` does not hold `sep`.
pub open spec fn free_of(s: Seq<char>, sep: char) -> bool {
    forall|i: int| 0 <= i < s.len() ==> s[i] != sep
}

/// A text without the separator is one part.
pub proof fn lemma_split_single(s: Seq<char>, sep: char)
    requires
        free_of(s, sep),
    ensures
        split_by(s, sep) == seq![s],
    decreases s.len(),
{
    if s.len() > 0 {
        let t = s.drop_last();
        assert(free_of(t, sep)) by {
            assert forall|i: int| 0 <= i < t.len() implies t[i] != sep by {
                assert(t[i] == s[i]);
            }
        }
        lemma_split_single(t, sep);
        assert(s.last() != sep) by {
            assert(s[s.len() - 1] != sep);
        }
        assert(t.push(s.last()) =~= s);
    } else {
        assert(s =~= Seq::<char>::empty());
    }
}

/// Two texts without the separator, joined by it, split into the two texts.
pub proof fn lemma_split_two(x: Seq<char>, y: Seq<char>, sep: char)
    requires
        free_of(x, sep),
        free_of(y, sep),
    ensures
        split_by(x + seq![sep] + y, sep) == seq![x, y],
    decreases y.len(),
{
    let s = x + seq![sep] + y;
    if y.len() == 0 {
        lemma_split_single(x, sep);
        assert(s.drop_last() =~= x);
        assert(s.last() == sep);
        assert(y =~= Seq::<char>::empty());
    } else {
        let y0 = y.drop_last();
        assert(free_of(y0, sep)) by {
            assert forall|i: int| 0 <= i < y0.len() implies y0[i] != sep by {
                assert(y0[i] == y[i]);
            }
        }
        lemma_split_two(x, y0, sep);
        assert(s.drop_last() =~= x + seq![sep] + y0);
        assert(s.last() == y[y.len() - 1]);
        assert(y0.push(y.last()) =~= y);
    }
}

} // verus!
