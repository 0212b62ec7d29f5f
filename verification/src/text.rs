//! Character-level text operations used by the readers and writers.
//!
//! Every operation works on sequences of `char` and is specified by a spec
//! function that states the result directly (the semantics that the standard
//! library documents for the corresponding `str` operation).
use vstd::prelude::*;
use vstd::slice::slice_subrange;
use vstd::std_specs::iter::IteratorSpec;

verus! {

// ---------------------------------------------------------------------------
// Conversions between `str`/`String` and char vectors
// ---------------------------------------------------------------------------
/// The characters of a string slice, in order.
pub(crate) fn chars_of(s: &str) -> (r: Vec<char>)
    ensures
        r@ == s@,
{
    broadcast use vstd::string::axiom_spec_iter, vstd::string::next_postcondition;
    let mut it = s.chars();
    let mut out: Vec<char> = Vec::new();
    loop
        invariant
            out@ + IteratorSpec::remaining(&it) == s@,
        ensures
            out@ == s@,
        decreases s@.len() - out@.len(),
    {
        match it.next() {
            Some(c) => {
                out.push(c);
            },
            None => {
                break;
            },
        }
    }
    out
}

/// A `String` made of the given characters, in order.
///
/// Trusted: calls `FromIterator<char>` for `String`; the contract claims the
/// string holds exactly the given characters.
#[verifier::external_body]
pub(crate) fn string_from_chars(cs: &[char]) -> (r: String)
    ensures
        r@ == cs@,
{
    cs.iter().collect()
}

/// The views of a list of strings.
pub open spec fn strings_model(v: Seq<String>) -> Seq<Seq<char>> {
    v.map_values(|s: String| s@)
}

/// A `String` holding the characters of a string slice.
pub fn string_from_str(s: &str) -> (r: String)
    ensures
        r@ == s@,
{
    let cs = chars_of(s);
    string_from_chars(cs.as_slice())
}

/// A `String` made of a string slice followed by a `String`.
pub fn prefixed(prefix: &str, s: &String) -> (r: String)
    ensures
        r@ == prefix@ + s@,
{
    let mut v = chars_of(prefix);
    let w = chars_of(s.as_str());
    let mut i: usize = 0;
    let ghost v0 = v@;
    while i < w.len()
        invariant
            i <= w@.len(),
            w@ == s@,
            v@ == v0 + w@.take(i as int),
        decreases w.len() - i,
    {
        v.push(w[i]);
        assert(w@.take(i + 1) =~= w@.take(i as int).push(w@[i as int]));
        i = i + 1;
    }
    assert(w@.take(w@.len() as int) =~= w@);
    string_from_chars(v.as_slice())
}

/// The characters of a `String`, in order.
pub fn chars_of_string(s: &String) -> (r: Vec<char>)
    ensures
        r@ == s@,
{
    chars_of(s.as_str())
}

// ---------------------------------------------------------------------------
// Whitespace and trimming
// ---------------------------------------------------------------------------
/// Unicode `White_Space` characters (what `char::is_whitespace` accepts).
pub open spec fn is_ws(c: char) -> bool {
    ||| '\u{9}' <= c <= '\u{d}'
    ||| c == ' '
    ||| c == '\u{85}'
    ||| c == '\u{a0}'
    ||| c == '\u{1680}'
    ||| '\u{2000}' <= c <= '\u{200a}'
    ||| c == '\u{2028}'
    ||| c == '\u{2029}'
    ||| c == '\u{202f}'
    ||| c == '\u{205f}'
    ||| c == '\u{3000}'
}

pub fn is_whitespace(c: char) -> (b: bool)
    ensures
        b == is_ws(c),
{
    ('\u{9}' <= c && c <= '\u{d}') || c == ' ' || c == '\u{85}' || c == '\u{a0}' || c
        == '\u{1680}' || ('\u{2000}' <= c && c <= '\u{200a}') || c == '\u{2028}' || c
        == '\u{2029}' || c == '\u{202f}' || c == '\u{205f}' || c == '\u{3000}'
}

/// `s` without its leading whitespace.
pub open spec fn trim_start(s: Seq<char>) -> Seq<char>
    decreases s.len(),
{
    if s.len() > 0 && is_ws(s[0]) {
        trim_start(s.drop_first())
    } else {
        s
    }
}

/// `s` without its trailing whitespace.
pub open spec fn trim_end(s: Seq<char>) -> Seq<char>
    decreases s.len(),
{
    if s.len() > 0 && is_ws(s.last()) {
        trim_end(s.drop_last())
    } else {
        s
    }
}

/// `s` without leading and trailing whitespace (`str::trim`).
pub open spec fn trim(s: Seq<char>) -> Seq<char> {
    trim_end(trim_start(s))
}

/// `s` without any number of trailing copies of `c` (`str::trim_end_matches`).
pub open spec fn trim_end_char(s: Seq<char>, c: char) -> Seq<char>
    decreases s.len(),
{
    if s.len() > 0 && s.last() == c {
        trim_end_char(s.drop_last(), c)
    } else {
        s
    }
}

/// `s` without any number of leading copies of `c`.
pub open spec fn trim_start_char(s: Seq<char>, c: char) -> Seq<char>
    decreases s.len(),
{
    if s.len() > 0 && s[0] == c {
        trim_start_char(s.drop_first(), c)
    } else {
        s
    }
}

/// `s` without leading and trailing copies of `c` (`str::trim_matches`).
pub open spec fn trim_char(s: Seq<char>, c: char) -> Seq<char> {
    trim_end_char(trim_start_char(s, c), c)
}

/// The whitespace-trimmed part of `s`.
pub fn trim_slice<'a>(s: &'a [char]) -> (r: &'a [char])
    ensures
        r@ == trim(s@),
{
    let n = s.len();
    let mut lo: usize = 0;
    assert(s@.subrange(0, n as int) =~= s@);
    while lo < n && is_whitespace(s[lo])
        invariant
            lo <= n,
            n == s@.len(),
            trim_start(s@) == trim_start(s@.subrange(lo as int, n as int)),
        decreases n - lo,
    {
        assert(s@.subrange(lo as int, n as int).drop_first() =~= s@.subrange(
            lo + 1,
            n as int,
        ));
        lo = lo + 1;
    }
    assert(trim_start(s@) == s@.subrange(lo as int, n as int));
    let mut hi: usize = n;
    while hi > lo && is_whitespace(s[hi - 1])
        invariant
            lo <= hi <= n,
            n == s@.len(),
            trim(s@) == trim_end(s@.subrange(lo as int, hi as int)),
        decreases hi,
    {
        assert(s@.subrange(lo as int, hi as int).drop_last() =~= s@.subrange(
            lo as int,
            hi - 1,
        ));
        hi = hi - 1;
    }
    slice_subrange(s, lo, hi)
}

/// `s` without trailing copies of `c`.
pub fn trim_end_char_slice<'a>(s: &'a [char], c: char) -> (r: &'a [char])
    ensures
        r@ == trim_end_char(s@, c),
{
    let mut hi: usize = s.len();
    assert(s@.subrange(0, hi as int) =~= s@);
    while hi > 0 && s[hi - 1] == c
        invariant
            hi <= s@.len(),
            trim_end_char(s@, c) == trim_end_char(s@.subrange(0, hi as int), c),
        decreases hi,
    {
        assert(s@.subrange(0, hi as int).drop_last() =~= s@.subrange(0, hi - 1));
        hi = hi - 1;
    }
    assert(s@.subrange(0, hi as int) == trim_end_char(s@.subrange(0, hi as int), c));
    slice_subrange(s, 0, hi)
}

/// `s` without leading and trailing copies of `c`.
pub fn trim_char_slice<'a>(s: &'a [char], c: char) -> (r: &'a [char])
    ensures
        r@ == trim_char(s@, c),
{
    let n = s.len();
    let mut lo: usize = 0;
    assert(s@.subrange(0, n as int) =~= s@);
    while lo < n && s[lo] == c
        invariant
            lo <= n,
            n == s@.len(),
            trim_start_char(s@, c) == trim_start_char(s@.subrange(lo as int, n as int), c),
        decreases n - lo,
    {
        assert(s@.subrange(lo as int, n as int).drop_first() =~= s@.subrange(
            lo + 1,
            n as int,
        ));
        lo = lo + 1;
    }
    let t = slice_subrange(s, lo, n);
    assert(t@ == trim_start_char(s@, c));
    trim_end_char_slice(t, c)
}

/// True when `s` holds only whitespace.
pub fn is_blank(s: &[char]) -> (b: bool)
    ensures
        b == (trim(s@).len() == 0),
{
    let t = trim_slice(s);
    t.len() == 0
}

// ---------------------------------------------------------------------------
// Searching
// ---------------------------------------------------------------------------
/// `pat` occurs in `s` at position `i`.
pub open spec fn matches_at(s: Seq<char>, pat: Seq<char>, i: int) -> bool {
    &&& 0 <= i
    &&& i + pat.len() <= s.len()
    &&& s.subrange(i, i + pat.len()) == pat
}

/// The first position at or after `i` where `pat` occurs in `s`.
pub open spec fn find_from(s: Seq<char>, pat: Seq<char>, i: int) -> Option<int>
    decreases s.len() - i,
{
    if i < 0 || i + pat.len() > s.len() {
        None
    } else if pat.len() == 0 || matches_at(s, pat, i) {
        Some(i)
    } else {
        find_from(s, pat, i + 1)
    }
}

/// The first position where `pat` occurs in `s` (`str::find`).
pub open spec fn find(s: Seq<char>, pat: Seq<char>) -> Option<int> {
    find_from(s, pat, 0)
}

/// `pat` occurs somewhere in `s` (`str::contains`).
pub open spec fn contains(s: Seq<char>, pat: Seq<char>) -> bool {
    find(s, pat) is Some
}

/// `s` begins with `pat`.
pub open spec fn starts_with(s: Seq<char>, pat: Seq<char>) -> bool {
    pat.len() <= s.len() && s.subrange(0, pat.len() as int) == pat
}

/// `s` ends with `pat`.
pub open spec fn ends_with(s: Seq<char>, pat: Seq<char>) -> bool {
    pat.len() <= s.len() && s.subrange(s.len() - pat.len(), s.len() as int) == pat
}

pub proof fn lemma_find_from_bounds(s: Seq<char>, pat: Seq<char>, i: int)
    ensures
        find_from(s, pat, i) matches Some(k) ==> i <= k && k + pat.len() <= s.len()
            && matches_at(s, pat, k) && forall|j: int|
            i <= j < k ==> !#[trigger] matches_at(s, pat, j),
    decreases s.len() - i,
{
    if i < 0 || i + pat.len() > s.len() {
    } else if pat.len() == 0 || matches_at(s, pat, i) {
        if pat.len() == 0 {
            assert(s.subrange(i, i + pat.len()) =~= pat);
        }
    } else {
        lemma_find_from_bounds(s, pat, i + 1);
    }
}

/// No occurrence of `pat` starts in `[i, k)`, so searching from `i` is searching from `k`.
pub proof fn lemma_find_from_skip(s: Seq<char>, pat: Seq<char>, i: int, k: int)
    requires
        0 <= i <= k,
        forall|j: int| i <= j < k ==> !#[trigger] matches_at(s, pat, j),
    ensures
        find_from(s, pat, i) == find_from(s, pat, k),
    decreases k - i,
{
    if i < k {
        assert(!matches_at(s, pat, i));
        if pat.len() == 0 && i + pat.len() <= s.len() {
            assert(s.subrange(i, i + pat.len()) =~= pat);
        }
        lemma_find_from_skip(s, pat, i + 1, k);
    }
}

/// `pat` occurs in `s` at position `i`.
pub fn matches_at_exec(s: &[char], pat: &[char], i: usize) -> (b: bool)
    ensures
        b == matches_at(s@, pat@, i as int),
{
    if pat.len() > s.len() || i > s.len() - pat.len() {
        return false;
    }
    let mut k: usize = 0;
    let slen = s.len();
    while k < pat.len()
        invariant
            slen == s@.len(),
            i + pat@.len() <= s@.len(),
            k <= pat@.len(),
            forall|j: int| 0 <= j < k ==> s@[i + j] == pat@[j],
        decreases pat.len() - k,
    {
        assert(i + k < s@.len());
        let idx: usize = i + k;
        if s[idx] != pat[k] {
            assert(s@.subrange(i as int, i + pat@.len())[k as int] != pat@[k as int]);
            return false;
        }
        k = k + 1;
    }
    assert(s@.subrange(i as int, i + pat@.len()) =~= pat@);
    true
}

/// The first position at or after `from` where `pat` occurs in `s`.
pub fn find_from_exec(s: &[char], pat: &[char], from: usize) -> (r: Option<usize>)
    ensures
        r matches Some(k) ==> find_from(s@, pat@, from as int) == Some(k as int),
        r is None ==> find_from(s@, pat@, from as int) is None,
{
    if pat.len() > s.len() || from > s.len() - pat.len() {
        return None;
    }
    let last = s.len() - pat.len();
    let mut i: usize = from;
    while i <= last
        invariant
            from <= i,
            last + pat@.len() == s@.len(),
            find_from(s@, pat@, from as int) == find_from(s@, pat@, i as int),
        decreases last + 1 - i,
    {
        if pat.len() == 0 {
            assert(s@.subrange(i as int, i as int) =~= pat@);
        }
        if matches_at_exec(s, pat, i) {
            return Some(i);
        }
        assert(find_from(s@, pat@, i as int) == find_from(s@, pat@, i + 1));
        if i == last {
            return None;
        }
        i = i + 1;
    }
    None
}

/// The first position where `pat` occurs in `s`.
pub fn find_exec(s: &[char], pat: &[char]) -> (r: Option<usize>)
    ensures
        r matches Some(k) ==> find(s@, pat@) == Some(k as int),
        r is None ==> find(s@, pat@) is None,
{
    find_from_exec(s, pat, 0)
}

/// `s` begins with `pat`.
pub fn starts_with_exec(s: &[char], pat: &[char]) -> (b: bool)
    ensures
        b == starts_with(s@, pat@),
{
    let b = matches_at_exec(s, pat, 0);
    assert(b == starts_with(s@, pat@));
    b
}

/// `s` ends with `pat`.
pub fn ends_with_exec(s: &[char], pat: &[char]) -> (b: bool)
    ensures
        b == ends_with(s@, pat@),
{
    if pat.len() > s.len() {
        return false;
    }
    matches_at_exec(s, pat, s.len() - pat.len())
}

/// `s` begins with the character `c`.
pub open spec fn starts_with_char(s: Seq<char>, c: char) -> bool {
    s.len() > 0 && s[0] == c
}

/// `s` ends with the character `c`.
pub open spec fn ends_with_char(s: Seq<char>, c: char) -> bool {
    s.len() > 0 && s.last() == c
}

// ---------------------------------------------------------------------------
// Splitting
// ---------------------------------------------------------------------------
/// The pieces of `s` between the non-overlapping occurrences of `pat`,
/// found from left to right (`str::split` with a non-empty pattern).
pub open spec fn split(s: Seq<char>, pat: Seq<char>) -> Seq<Seq<char>>
    decreases s.len(),
{
    if pat.len() == 0 {
        seq![s]
    } else {
        match find(s, pat) {
            None => seq![s],
            Some(k) => {
                if 0 <= k && k + pat.len() <= s.len() {
                    seq![s.subrange(0, k)] + split(s.subrange(k + pat.len(), s.len() as int), pat)
                } else {
                    seq![s]
                }
            },
        }
    }
}

/// The pieces of `s` between occurrences of `pat`.
pub fn split_exec<'a>(s: &'a [char], pat: &[char]) -> (r: Vec<&'a [char]>)
    requires
        pat@.len() > 0,
    ensures
        r@.map_values(|x: &[char]| x@) == split(s@, pat@),
{
    let mut out: Vec<&'a [char]> = Vec::new();
    let mut start: usize = 0;
    let n = s.len();
    assert(s@.subrange(0, n as int) =~= s@);
    assert(out@.map_values(|x: &[char]| x@) =~= Seq::<Seq<char>>::empty());
    loop
        invariant
            start <= n,
            n == s@.len(),
            pat@.len() > 0,
            out@.map_values(|x: &[char]| x@) + split(s@.subrange(start as int, n as int), pat@)
                == split(s@, pat@),
        decreases n - start,
    {
        let rest = slice_subrange(s, start, n);
        let f = find_exec(rest, pat);
        proof {
            lemma_find_from_bounds(rest@, pat@, 0);
        }
        match f {
            None => {
                let ghost before = out@.map_values(|x: &[char]| x@);
                out.push(rest);
                assert(out@.map_values(|x: &[char]| x@) =~= before.push(rest@));
                assert(split(rest@, pat@) == seq![rest@]);
                assert(before + seq![rest@] =~= before.push(rest@));
                return out;
            },
            Some(k) => {
                let piece = slice_subrange(rest, 0, k);
                let ghost before = out@.map_values(|x: &[char]| x@);
                out.push(piece);
                assert(out@.map_values(|x: &[char]| x@) =~= before.push(piece@));
                let ghost next_rest = rest@.subrange(k + pat@.len(), rest@.len() as int);
                assert(next_rest =~= s@.subrange(start + k + pat@.len(), n as int));
                assert(split(rest@, pat@) == seq![piece@] + split(next_rest, pat@));
                assert(before + (seq![piece@] + split(next_rest, pat@)) =~= before.push(piece@)
                    + split(next_rest, pat@));
                start = start + k + pat.len();
            },
        }
    }
}

/// `s` without one trailing carriage return.
pub open spec fn strip_cr(s: Seq<char>) -> Seq<char> {
    if s.len() > 0 && s.last() == '\r' {
        s.drop_last()
    } else {
        s
    }
}

/// The lines of `s` (`str::lines`): pieces ended by `\n` or `\r\n`; a final
/// piece without a line ending is a line too, an empty final piece is not.
pub open spec fn lines(s: Seq<char>) -> Seq<Seq<char>>
    decreases s.len(),
{
    if s.len() == 0 {
        seq![]
    } else {
        match find(s, seq!['\n']) {
            None => seq![s],
            Some(k) => {
                if 0 <= k && k < s.len() {
                    seq![strip_cr(s.subrange(0, k))] + lines(s.subrange(k + 1, s.len() as int))
                } else {
                    seq![s]
                }
            },
        }
    }
}

/// The lines of `s`.
pub fn lines_exec<'a>(s: &'a [char]) -> (r: Vec<&'a [char]>)
    ensures
        r@.map_values(|x: &[char]| x@) == lines(s@),
{
    let nl: Vec<char> = vec!['\n'];
    assert(nl@ == seq!['\n']);
    let mut out: Vec<&'a [char]> = Vec::new();
    let mut start: usize = 0;
    let n = s.len();
    assert(s@.subrange(0, n as int) =~= s@);
    assert(out@.map_values(|x: &[char]| x@) =~= Seq::<Seq<char>>::empty());
    while start < n
        invariant
            start <= n,
            n == s@.len(),
            nl@ == seq!['\n'],
            out@.map_values(|x: &[char]| x@) + lines(s@.subrange(start as int, n as int))
                == lines(s@),
        decreases n - start,
    {
        let rest = slice_subrange(s, start, n);
        let f = find_exec(rest, nl.as_slice());
        proof {
            lemma_find_from_bounds(rest@, nl@, 0);
        }
        let ghost before = out@.map_values(|x: &[char]| x@);
        match f {
            None => {
                out.push(rest);
                assert(out@.map_values(|x: &[char]| x@) =~= before.push(rest@));
                assert(lines(rest@) == seq![rest@]);
                assert(before + seq![rest@] =~= before.push(rest@));
                assert(s@.subrange(n as int, n as int) =~= Seq::<char>::empty());
                assert(lines(s@.subrange(n as int, n as int)) =~= Seq::<Seq<char>>::empty());
                start = n;
                assert(out@.map_values(|x: &[char]| x@) + lines(s@.subrange(start as int, n as int))
                    =~= out@.map_values(|x: &[char]| x@));
            },
            Some(k) => {
                let piece = if k > 0 && rest[k - 1] == '\r' {
                    slice_subrange(rest, 0, k - 1)
                } else {
                    slice_subrange(rest, 0, k)
                };
                assert(piece@ =~= strip_cr(rest@.subrange(0, k as int)));
                out.push(piece);
                assert(out@.map_values(|x: &[char]| x@) =~= before.push(piece@));
                let ghost next_rest = rest@.subrange(k + 1, rest@.len() as int);
                assert(next_rest =~= s@.subrange(start + k + 1, n as int));
                assert(lines(rest@) == seq![piece@] + lines(next_rest));
                assert(before + (seq![piece@] + lines(next_rest)) =~= before.push(piece@) + lines(
                    next_rest,
                ));
                start = start + k + 1;
            },
        }
    }
    assert(s@.subrange(n as int, n as int) =~= Seq::<char>::empty());
    assert(lines(s@.subrange(start as int, n as int)) =~= Seq::<Seq<char>>::empty());
    assert(out@.map_values(|x: &[char]| x@) + Seq::<Seq<char>>::empty() =~= out@.map_values(
        |x: &[char]| x@,
    ));
    out
}

} // verus!
