//! Plain operations on text, stated over sequences of characters.

use vstd::prelude::*;
use vstd::std_specs::iter::IteratorSpec;
use vstd::string::group_string_axioms;

verus! {

/// The character sequences that a sequence of strings holds, in order.
pub open spec fn views(strings: Seq<String>) -> Seq<Seq<char>> {
    Seq::new(strings.len(), |i: int| strings[i]@)
}

/// Whether two string slices hold the same characters.
pub fn same_text(a: &str, b: &str) -> (r: bool)
    ensures
        r == (a@ == b@),
{
    let x: String = a.to_owned();
    let y: String = b.to_owned();
    x == y
}

/// The number of characters of `s` that stand before the first `sep`, or the
/// length of `s` where it holds none.
pub open spec fn first_index(s: Seq<char>, sep: char) -> int
    decreases s.len(),
{
    if s.len() == 0 || s[0] == sep {
        0
    } else {
        1 + first_index(s.drop_first(), sep)
    }
}

/// The pieces of `s` between the occurrences of `sep`: one more than there are
/// separators, empty pieces included.
pub open spec fn split_on(s: Seq<char>, sep: char) -> Seq<Seq<char>>
    decreases s.len(),
{
    let k = first_index(s, sep);
    if 0 <= k < s.len() {
        seq![s.subrange(0, k)] + split_on(s.skip(k + 1), sep)
    } else {
        seq![s]
    }
}

/// A position that holds the separator, with none before it, is the one that
/// `first_index` gives; so is the length of a text that holds none.
pub proof fn lemma_first_index(s: Seq<char>, sep: char, k: int)
    requires
        0 <= k <= s.len(),
        forall|j: int| 0 <= j < k ==> s[j] != sep,
        k < s.len() ==> s[k] == sep,
    ensures
        first_index(s, sep) == k,
    decreases s.len(),
{
    if s.len() == 0 || s[0] == sep {
    } else {
        let t = s.drop_first();
        assert forall|j: int| 0 <= j < k - 1 implies t[j] != sep by {
            assert(t[j] == s[j + 1]);
        }
        lemma_first_index(t, sep, k - 1);
    }
}

/// The pieces in a row, with `sep` between one and the next.
pub open spec fn joined(parts: Seq<Seq<char>>, sep: char) -> Seq<char>
    decreases parts.len(),
{
    if parts.len() == 0 {
        Seq::empty()
    } else if parts.len() == 1 {
        parts[0]
    } else {
        parts[0] + seq![sep] + joined(parts.drop_first(), sep)
    }
}

/// What a split gives: at least one piece, no piece that holds the
/// separator, and pieces that are the text when they are joined again.
pub proof fn lemma_split_on(s: Seq<char>, sep: char)
    ensures
        split_on(s, sep).len() >= 1,
        forall|i: int|
            0 <= i < split_on(s, sep).len() ==> !(#[trigger] split_on(s, sep)[i]).contains(sep),
        joined(split_on(s, sep), sep) == s,
    decreases s.len(),
{
    let k = first_index(s, sep);
    lemma_first_index_bounds(s, sep);
    if 0 <= k < s.len() {
        let rest = s.skip(k + 1);
        lemma_split_on(rest, sep);
        let parts = split_on(s, sep);
        let head = s.subrange(0, k);
        assert(parts == seq![head] + split_on(rest, sep));
        assert(parts.drop_first() =~= split_on(rest, sep));
        assert(parts[0] == head);
        assert(!head.contains(sep));
        assert forall|i: int| 0 <= i < parts.len() implies !(#[trigger] parts[i]).contains(
            sep,
        ) by {
            if i > 0 {
                assert(parts[i] == split_on(rest, sep)[i - 1]);
            }
        }
        assert(head + seq![sep] + rest =~= s);
    } else {
        assert(split_on(s, sep) == seq![s]);
        assert(!s.contains(sep));
    }
}

/// `first_index` lies within the text and marks the first separator.
pub proof fn lemma_first_index_bounds(s: Seq<char>, sep: char)
    ensures
        0 <= first_index(s, sep) <= s.len(),
        forall|j: int| 0 <= j < first_index(s, sep) ==> s[j] != sep,
        first_index(s, sep) < s.len() ==> s[first_index(s, sep)] == sep,
    decreases s.len(),
{
    if s.len() == 0 || s[0] == sep {
    } else {
        let t = s.drop_first();
        lemma_first_index_bounds(t, sep);
        assert forall|j: int| 0 <= j < first_index(s, sep) implies s[j] != sep by {
            if j > 0 {
                assert(s[j] == t[j - 1]);
            }
        }
        if first_index(s, sep) < s.len() {
            assert(s[first_index(s, sep)] == t[first_index(t, sep)]);
        }
    }
}

/// The characters of a string, one by one.
pub fn chars_of(s: &str) -> (r: Vec<char>)
    ensures
        r@ == s@,
{
    broadcast use group_string_axioms;

    let n: usize = s.unicode_len();
    let mut r: Vec<char> = Vec::new();
    let mut it = s.chars();
    let mut i: usize = 0;
    assert(s@.skip(0) =~= s@);
    while i < n
        invariant
            n == s@.len(),
            i <= n,
            it.remaining() == s@.skip(i as int),
            r@ == s@.take(i as int),
        decreases n - i,
    {
        let next = it.next();
        assert(next == Some(s@[i as int]));
        assert(s@.skip(i as int).drop_first() =~= s@.skip(i + 1));
        assert(s@.take(i + 1) =~= s@.take(i as int).push(s@[i as int]));
        r.push(next.unwrap());
        i = i + 1;
    }
    assert(s@.take(n as int) =~= s@);
    r
}

/// Splits `line` at every `sep`, as `str::split` does with a character.
pub fn split_text(line: &str, sep: char) -> (fields: Vec<String>)
    ensures
        views(fields@) == split_on(line@, sep),
{
    let chars: Vec<char> = chars_of(line);
    let n: usize = chars.len();
    let mut fields: Vec<String> = Vec::new();
    let mut start: usize = 0;
    let mut i: usize = 0;
    assert(line@.skip(0) =~= line@);
    assert(views(fields@) + split_on(line@, sep) =~= split_on(line@, sep));
    while i < n
        invariant
            chars@ == line@,
            n == line@.len(),
            start <= i <= n,
            forall|j: int| start <= j < i ==> line@[j] != sep,
            split_on(line@, sep) == views(fields@) + split_on(line@.skip(start as int), sep),
        decreases n - i,
    {
        if chars[i] == sep {
            let field: String = line.substring_char(start, i).to_owned();
            proof {
                let rest = line@.skip(start as int);
                lemma_first_index(rest, sep, i - start);
                assert(rest.subrange(0, i - start) =~= field@);
                assert(rest.skip(i - start + 1) =~= line@.skip(i + 1));
                assert(views(fields@.push(field)) =~= views(fields@) + seq![field@]);
            }
            fields.push(field);
            start = i + 1;
        }
        i = i + 1;
    }
    let last: String = line.substring_char(start, n).to_owned();
    proof {
        let rest = line@.skip(start as int);
        lemma_first_index(rest, sep, n - start);
        assert(rest =~= last@);
        assert(views(fields@.push(last)) =~= views(fields@) + seq![last@]);
    }
    fields.push(last);
    fields
}

/// Whether `pat` stands in `s` at position `i`.
pub open spec fn occurs_at(s: Seq<char>, pat: Seq<char>, i: int) -> bool {
    0 <= i && i + pat.len() <= s.len() && s.subrange(i, i + pat.len()) == pat
}

/// `s` with every occurrence of `pat` replaced by `to`. Occurrences are taken
/// from the left and do not overlap. An empty `pat` occurs nowhere.
pub open spec fn replaced(s: Seq<char>, pat: Seq<char>, to: Seq<char>) -> Seq<char>
    decreases s.len(),
{
    if pat.len() == 0 || s.len() == 0 {
        s
    } else if occurs_at(s, pat, 0) {
        to + replaced(s.skip(pat.len() as int), pat, to)
    } else {
        seq![s[0]] + replaced(s.skip(1), pat, to)
    }
}

/// Whether `pat` stands in `s` at position `i`.
fn matches_at(s: &Vec<char>, pat: &Vec<char>, i: usize) -> (r: bool)
    requires
        i + pat@.len() <= s@.len(),
    ensures
        r == occurs_at(s@, pat@, i as int),
{
    let n: usize = s.len();
    let m: usize = pat.len();
    let mut k: usize = 0;
    while k < m
        invariant
            n == s@.len(),
            m == pat@.len(),
            i + m <= n,
            k <= m,
            forall|j: int| 0 <= j < k ==> s@[i + j] == pat@[j],
        decreases m - k,
    {
        if s[i + k] != pat[k] {
            assert(s@.subrange(i as int, i + m)[k as int] != pat@[k as int]);
            return false;
        }
        k = k + 1;
    }
    assert(s@.subrange(i as int, i + m) =~= pat@);
    true
}

/// Replaces every occurrence of `pat` in `s` by `to`.
pub fn replace_text(s: &str, pat: &str, to: &str) -> (r: String)
    ensures
        r@ == replaced(s@, pat@, to@),
{
    let text: Vec<char> = chars_of(s);
    let pattern: Vec<char> = chars_of(pat);
    let n: usize = text.len();
    let m: usize = pattern.len();
    if m == 0 || n < m {
        proof {
            lemma_replaced_short(s@, pat@, to@);
        }
        return s.to_owned();
    }
    let mut out: String = String::new();
    let mut from: usize = 0;
    let mut i: usize = 0;
    assert(s@.skip(0) =~= s@);
    assert(out@ + s@.subrange(0, 0) + replaced(s@, pat@, to@) =~= replaced(s@, pat@, to@));
    while i <= n - m
        invariant
            text@ == s@,
            pattern@ == pat@,
            n == s@.len(),
            m == pat@.len(),
            0 < m <= n,
            from <= i <= n,
            replaced(s@, pat@, to@) == out@ + s@.subrange(from as int, i as int) + replaced(
                s@.skip(i as int),
                pat@,
                to@,
            ),
        decreases n - i,
    {
        let ghost rest = s@.skip(i as int);
        let found: bool = matches_at(&text, &pattern, i);
        proof {
            assert(rest.subrange(0, m as int) =~= s@.subrange(i as int, i + m));
        }
        if found {
            let plain: &str = s.substring_char(from, i);
            out.append(plain);
            out.append(to);
            proof {
                assert(rest.skip(m as int) =~= s@.skip(i + m));
                assert(s@.subrange(i + m, i + m) =~= Seq::<char>::empty());
            }
            i = i + m;
            from = i;
        } else {
            proof {
                assert(rest.skip(1) =~= s@.skip(i + 1));
                assert(s@.subrange(from as int, i as int) + seq![rest[0]] =~= s@.subrange(
                    from as int,
                    i + 1,
                ));
            }
            i = i + 1;
        }
    }
    proof {
        lemma_replaced_short(s@.skip(i as int), pat@, to@);
        assert(s@.subrange(from as int, i as int) + s@.skip(i as int) =~= s@.subrange(
            from as int,
            n as int,
        ));
    }
    out.append(s.substring_char(from, n));
    out
}

/// A text shorter than the pattern holds no occurrence of it.
pub proof fn lemma_replaced_short(s: Seq<char>, pat: Seq<char>, to: Seq<char>)
    requires
        pat.len() == 0 || s.len() < pat.len(),
    ensures
        replaced(s, pat, to) == s,
    decreases s.len(),
{
    if pat.len() == 0 || s.len() == 0 {
    } else {
        lemma_replaced_short(s.skip(1), pat, to);
        assert(seq![s[0]] + s.skip(1) =~= s);
    }
}

} // verus!
