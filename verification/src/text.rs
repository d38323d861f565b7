//! Character-level helpers: moving between strings and character vectors.

use vstd::prelude::*;
use vstd::std_specs::iter::IteratorSpec;

verus! {

/// `String::push` appends the character to the end of the string and changes
/// nothing else of it.
pub assume_specification[ String::push ](s: &mut String, c: char)
    ensures
        final(s)@ == old(s)@.push(c),
;

/// The characters of `s`, in order.
pub fn chars_of(s: &str) -> (out: Vec<char>)
    ensures
        out@ == s@,
{
    let mut out: Vec<char> = Vec::new();
    for c in it: s.chars()
        invariant
            out@ == it.seq().take(it.index() as int),
            it.seq() == s@,
    {
        out.push(c);
    }
    out
}

/// The string made of the characters of `v`, in order.
pub fn string_of(v: &Vec<char>) -> (out: String)
    ensures
        out@ == v@,
{
    let mut out = String::new();
    let mut i: usize = 0;
    while i < v.len()
        invariant
            i <= v.len(),
            out@ == v@.take(i as int),
        decreases v.len() - i,
    {
        out.push(v[i]);
        i += 1;
    }
    out
}

/// The views of a vector of character vectors, row by row.
pub open spec fn rows(v: Seq<Vec<char>>) -> Seq<Seq<char>> {
    Seq::new(v.len(), |i: int| v[i]@)
}

/// Whether `pat` occurs in `s` starting at index `i`.
pub open spec fn matches_at(s: Seq<char>, pat: Seq<char>, i: int) -> bool {
    0 <= i && i + pat.len() <= s.len() && s.subrange(i, i + pat.len()) == pat
}

/// The pieces of `s[start..]` around the occurrences of `pat`, taken leftmost
/// first and without overlap, given that no occurrence begins in `start..i`.
pub open spec fn pieces_from(s: Seq<char>, pat: Seq<char>, start: int, i: int) -> Seq<Seq<char>>
    decreases s.len() - i,
{
    if pat.len() == 0 || i + pat.len() > s.len() {
        seq![s.subrange(start, s.len() as int)]
    } else if matches_at(s, pat, i) {
        seq![s.subrange(start, i)] + pieces_from(s, pat, i + pat.len(), i + pat.len())
    } else {
        pieces_from(s, pat, start, i + 1)
    }
}

/// The pieces of `s` between the occurrences of the delimiter `pat`: always at
/// least one piece, and empty pieces are kept.
pub open spec fn pieces(s: Seq<char>, pat: Seq<char>) -> Seq<Seq<char>> {
    pieces_from(s, pat, 0, 0)
}

/// A copy of `s[from..to]`.
pub fn slice_of(s: &Vec<char>, from: usize, to: usize) -> (out: Vec<char>)
    requires
        from <= to <= s.len(),
    ensures
        out@ == s@.subrange(from as int, to as int),
{
    let mut out: Vec<char> = Vec::new();
    let mut i: usize = from;
    while i < to
        invariant
            from <= i <= to <= s.len(),
            out@ == s@.subrange(from as int, i as int),
        decreases to - i,
    {
        out.push(s[i]);
        i += 1;
    }
    out
}

/// Tests whether `pat` occurs in `s` at index `i`.
pub fn occurs_at(s: &Vec<char>, pat: &Vec<char>, i: usize) -> (b: bool)
    ensures
        b == matches_at(s@, pat@, i as int),
{
    if pat.len() > s.len() || i > s.len() - pat.len() {
        return false;
    }
    let mut k: usize = 0;
    while k < pat.len()
        invariant
            k <= pat.len(),
            i + pat.len() <= s.len(),
            forall|j: int| 0 <= j < k ==> s@[i + j] == pat@[j],
        decreases pat.len() - k,
    {
        if s[i + k] != pat[k] {
            assert(s@.subrange(i as int, i + pat.len())[k as int] == s@[i + k]);
            return false;
        }
        k += 1;
    }
    assert(s@.subrange(i as int, i + pat.len()) =~= pat@);
    true
}

/// Splits `s` at every occurrence of the delimiter `pat`, leftmost first. An
/// empty delimiter occurs nowhere: the text stays in one piece.
pub fn split_on(s: &Vec<char>, pat: &Vec<char>) -> (out: Vec<Vec<char>>)
    ensures
        rows(out@) == pieces(s@, pat@),
{
    let mut out: Vec<Vec<char>> = Vec::new();
    let mut start: usize = 0;
    let mut i: usize = 0;
    while 0 < pat.len() && pat.len() <= s.len() && i <= s.len() - pat.len()
        invariant
            start <= i,
            start <= s.len(),
            rows(out@) + pieces_from(s@, pat@, start as int, i as int) == pieces(s@, pat@),
        decreases s.len() - i,
    {
        if occurs_at(s, pat, i) {
            let piece = slice_of(s, start, i);
            proof {
                assert(rows(out@.push(piece)) =~= rows(out@) + seq![piece@]);
                assert((rows(out@) + seq![piece@]) + pieces_from(
                    s@,
                    pat@,
                    i + pat.len(),
                    i + pat.len(),
                ) =~= rows(out@) + (seq![piece@] + pieces_from(
                    s@,
                    pat@,
                    i + pat.len(),
                    i + pat.len(),
                )));
            }
            out.push(piece);
            i += pat.len();
            start = i;
        } else {
            i += 1;
        }
    }
    let piece = slice_of(s, start, s.len());
    proof {
        assert(rows(out@.push(piece)) =~= rows(out@) + seq![piece@]);
    }
    out.push(piece);
    out
}

/// Whether `c` counts as white space: the answer of `char::is_whitespace`.
pub uninterp spec fn is_space(c: char) -> bool;

/// `char::is_whitespace` depends on the character alone; its answer is what
/// `is_space` names.
pub assume_specification[ char::is_whitespace ](c: char) -> (r: bool)
    ensures
        r == is_space(c),
;

/// `s` with every line feed turned into a space.
pub open spec fn spaced(s: Seq<char>) -> Seq<char> {
    Seq::new(s.len(), |i: int| if s[i] == '\n' { ' ' } else { s[i] })
}

/// The number of white-space characters at the front of `s`.
pub open spec fn leading_spaces(s: Seq<char>) -> nat
    decreases s.len(),
{
    if s.len() > 0 && is_space(s[0]) {
        1 + leading_spaces(s.skip(1))
    } else {
        0
    }
}

/// The number of white-space characters at the back of `s`.
pub open spec fn trailing_spaces(s: Seq<char>) -> nat
    decreases s.len(),
{
    if s.len() > 0 && is_space(s.last()) {
        1 + trailing_spaces(s.drop_last())
    } else {
        0
    }
}

/// `s` without its leading and trailing white space.
pub open spec fn trimmed(s: Seq<char>) -> Seq<char> {
    let front = s.skip(leading_spaces(s) as int);
    front.take(front.len() - trailing_spaces(front))
}

/// The parts of `parts` in order, with `sep` between neighbours.
pub open spec fn joined(parts: Seq<Seq<char>>, sep: char) -> Seq<char>
    decreases parts.len(),
{
    if parts.len() == 0 {
        Seq::empty()
    } else if parts.len() == 1 {
        parts[0]
    } else {
        joined(parts.drop_last(), sep) + seq![sep] + parts.last()
    }
}

/// Replaces every line feed of `s` by a space.
pub fn replace_newlines(s: &Vec<char>) -> (out: Vec<char>)
    ensures
        out@ == spaced(s@),
{
    let mut out: Vec<char> = Vec::new();
    let mut i: usize = 0;
    while i < s.len()
        invariant
            i <= s.len(),
            out@ == spaced(s@).take(i as int),
        decreases s.len() - i,
    {
        let c = s[i];
        out.push(if c == '\n' { ' ' } else { c });
        i += 1;
        assert(out@ =~= spaced(s@).take(i as int));
    }
    assert(out@ =~= spaced(s@));
    out
}

/// Where the first `k` characters are all white space, the count for `s` is
/// `k` more than the count for what follows them.
proof fn lemma_leading_step(s: Seq<char>, k: int)
    requires
        0 <= k <= s.len(),
        forall|j: int| 0 <= j < k ==> is_space(s[j]),
    ensures
        leading_spaces(s) == k + leading_spaces(s.skip(k)),
    decreases k,
{
    if k > 0 {
        lemma_leading_step(s.skip(1), k - 1);
        assert(s.skip(1).skip(k - 1) =~= s.skip(k));
    } else {
        assert(s.skip(0) =~= s);
    }
}

/// Where the last `k` characters are all white space, the count for `s` is
/// `k` more than the count for what precedes them.
proof fn lemma_trailing_step(s: Seq<char>, k: int)
    requires
        0 <= k <= s.len(),
        forall|j: int| s.len() - k <= j < s.len() ==> is_space(s[j]),
    ensures
        trailing_spaces(s) == k + trailing_spaces(s.take(s.len() - k)),
    decreases k,
{
    if k > 0 {
        lemma_trailing_step(s.drop_last(), k - 1);
        assert(s.drop_last().take(s.len() - 1 - (k - 1)) =~= s.take(s.len() - k));
    } else {
        assert(s.take(s.len() as int) =~= s);
    }
}

/// Removes leading and trailing white space.
pub fn trim(s: &Vec<char>) -> (out: Vec<char>)
    ensures
        out@ == trimmed(s@),
{
    let mut from: usize = 0;
    while from < s.len() && s[from].is_whitespace()
        invariant
            from <= s.len(),
            forall|j: int| 0 <= j < from ==> is_space(s@[j]),
        decreases s.len() - from,
    {
        from += 1;
    }
    proof {
        lemma_leading_step(s@, from as int);
    }
    let ghost front = s@.skip(from as int);
    let mut to: usize = s.len();
    while to > from && s[to - 1].is_whitespace()
        invariant
            from <= to <= s.len(),
            forall|j: int| to <= j < s.len() ==> is_space(s@[j]),
        decreases to,
    {
        to -= 1;
    }
    proof {
        assert(leading_spaces(front) == 0);
        assert(leading_spaces(s@) == from);
        assert forall|j: int| front.len() - (s.len() - to) <= j < front.len() implies is_space(
            front[j],
        ) by {
            assert(front[j] == s@[j + from]);
        }
        lemma_trailing_step(front, s.len() - to);
        let rest = front.take(front.len() - (s.len() - to));
        assert(rest =~= s@.subrange(from as int, to as int));
        if to > from {
            assert(rest.last() == s@[to - 1]);
        }
        assert(trailing_spaces(rest) == 0);
    }
    slice_of(s, from, to)
}

/// Joins the parts with `sep` between neighbours.
pub fn join(parts: &Vec<Vec<char>>, sep: char) -> (out: Vec<char>)
    ensures
        out@ == joined(rows(parts@), sep),
{
    let mut out: Vec<char> = Vec::new();
    let mut i: usize = 0;
    while i < parts.len()
        invariant
            i <= parts.len(),
            out@ == joined(rows(parts@).take(i as int), sep),
        decreases parts.len() - i,
    {
        let ghost before = out@;
        if i > 0 {
            out.push(sep);
        }
        let part = &parts[i];
        let mut k: usize = 0;
        while k < part.len()
            invariant
                k <= part.len(),
                out@ == (if i > 0 {
                    before + seq![sep]
                } else {
                    before
                }) + part@.take(k as int),
            decreases part.len() - k,
        {
            out.push(part[k]);
            k += 1;
            assert(part@.take(k as int) =~= part@.take(k - 1).push(part@[k - 1]));
        }
        proof {
            let head = rows(parts@).take(i + 1);
            assert(part@.take(part.len() as int) =~= part@);
            assert(head.drop_last() =~= rows(parts@).take(i as int));
            assert(head.last() == part@);
            if i == 0 {
                assert(out@ =~= part@);
            }
        }
        i += 1;
    }
    assert(rows(parts@).take(parts.len() as int) =~= rows(parts@));
    out
}

/// Where the delimiter occurs nowhere from `i` on, what is left is one piece.
pub proof fn lemma_unbroken(s: Seq<char>, pat: Seq<char>, start: int, i: int)
    requires
        0 <= start <= i,
        forall|k: int| i <= k ==> !matches_at(s, pat, k),
    ensures
        pieces_from(s, pat, start, i) == seq![s.subrange(start, s.len() as int)],
    decreases s.len() - i,
{
    if pat.len() > 0 && i + pat.len() <= s.len() {
        lemma_unbroken(s, pat, start, i + 1);
    }
}

} // verus!
