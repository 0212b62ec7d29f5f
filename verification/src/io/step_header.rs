//! The reader recovers what the writer's STEP header states.
use vstd::prelude::*;
use crate::text::{trim, trim_start, trim_end, trim_start_char, trim_end_char, is_ws, find, find_from, matches_at, contains, split, lemma_find_from_bounds, lemma_find_from_skip};
use crate::io::step_model::{StepSchema, header_spec, header_field, quoted_items};
use crate::io::step_write::header_text;

verus! {

// The written header is fixed text around the timestamp, the author and the
// schema name. Where a search runs over fixed text, the proofs below settle it
// position by position: at each position `lemma_mismatch` names a character
// where the text and the searched word differ.

proof fn lemma_mismatch(s: Seq<char>, pat: Seq<char>, j: int, m: int)
    requires
        0 <= m < pat.len(),
        0 <= j,
        j + m < s.len(),
        s[j + m] != pat[m],
    ensures
        !matches_at(s, pat, j),
{
    if matches_at(s, pat, j) {
        assert(s.subrange(j, j + pat.len())[m] == s[j + m]);
    }
}

/// `pat` is found first at `k` when it occurs there and nowhere before.
proof fn lemma_find_at(s: Seq<char>, pat: Seq<char>, k: int)
    requires
        0 <= k,
        k + pat.len() <= s.len(),
        s.subrange(k, k + pat.len()) == pat,
        forall|j: int| 0 <= j < k ==> !#[trigger] matches_at(s, pat, j),
    ensures
        find(s, pat) == Some(k),
{
    lemma_find_from_skip(s, pat, 0, k);
    assert(matches_at(s, pat, k));
}

/// `pat` is not found when it occurs nowhere.
proof fn lemma_find_none(s: Seq<char>, pat: Seq<char>)
    requires
        forall|j: int| 0 <= j <= s.len() - pat.len() ==> !#[trigger] matches_at(s, pat, j),
    ensures
        find(s, pat) is None,
{
    lemma_find_from_bounds(s, pat, 0);
    if find(s, pat) is Some {
        let k = find(s, pat)->0;
        assert(matches_at(s, pat, k));
    }
}

/// A first occurrence inside `l` stays the first one when text follows.
proof fn lemma_find_prefix(l: Seq<char>, x: Seq<char>, pat: Seq<char>)
    requires
        find(l, pat) is Some,
    ensures
        find(l + x, pat) == find(l, pat),
{
    lemma_find_from_bounds(l, pat, 0);
    let k = find(l, pat)->0;
    let s = l + x;
    assert forall|j: int| 0 <= j < k implies !#[trigger] matches_at(s, pat, j) by {
        assert(s.subrange(j, j + pat.len()) =~= l.subrange(j, j + pat.len()));
        assert(!matches_at(l, pat, j));
    }
    assert(s.subrange(k, k + pat.len()) =~= l.subrange(k, k + pat.len()));
    lemma_find_at(s, pat, k);
}

/// An occurrence is found.
proof fn lemma_match_found(s: Seq<char>, pat: Seq<char>, i: int, j: int)
    requires
        0 <= j <= i,
        matches_at(s, pat, i),
    ensures
        find_from(s, pat, j) is Some,
    decreases i - j,
{
    if j < i && !(pat.len() == 0 || matches_at(s, pat, j)) {
        lemma_match_found(s, pat, i, j + 1);
    }
}

/// An occurrence of a pattern without quotes in `l0 + t + "',('" + a + tail`
/// that starts before the tail lies inside `l0`, `t` or `a`, when `l0` ends
/// and the tail begins with a quote.
proof fn lemma_no_early_match(l0: Seq<char>, t: Seq<char>, a: Seq<char>, tail: Seq<char>, w: Seq<char>, upto: int)
    requires
        w.len() >= 4,
        forall|m: int| 0 <= m < w.len() ==> #[trigger] w[m] != '\'',
        l0.len() >= 1,
        l0[l0.len() - 1] == '\'',
        forall|j: int| 0 <= j <= l0.len() - w.len() ==> !#[trigger] matches_at(l0, w, j),
        !contains(t, w),
        !contains(a, w),
        tail.len() >= 1,
        tail[0] == '\'',
        0 <= upto,
        forall|j: int| 0 <= j < upto ==> !#[trigger] matches_at(tail, w, j),
    ensures
        forall|j: int|
            0 <= j < l0.len() + t.len() + 4 + a.len() + upto ==> !#[trigger] matches_at(
                l0 + t + "',('"@ + a + tail,
                w,
                j,
            ),
{
    reveal_strlit("',('");
    let s = l0 + t + "',('"@ + a + tail;
    let ot = l0.len() as int;
    let o1 = ot + t.len();
    let oa = o1 + 4;
    let o2 = oa + a.len();
    assert forall|j: int| 0 <= j < o2 + upto implies !#[trigger] matches_at(s, w, j) by {
        if matches_at(s, w, j) {
            let n = w.len() as int;
            assert forall|m: int| j <= m < j + n implies s[m] != '\'' by {
                assert(s.subrange(j, j + n)[m - j] == s[m]);
                assert(w[m - j] != '\'');
            }
            if j < ot {
                if j + n <= ot {
                    assert(s.subrange(j, j + n) =~= l0.subrange(j, j + n));
                    assert(matches_at(l0, w, j));
                } else {
                    assert(s[ot - 1] == '\'');
                }
            } else if j < o1 {
                if j + n <= o1 {
                    assert(s.subrange(j, j + n) =~= t.subrange(j - ot, j - ot + n));
                    assert(matches_at(t, w, j - ot));
                    lemma_match_found(t, w, j - ot, 0);
                } else {
                    assert(s[o1] == '\'');
                }
            } else if j < oa {
                assert(s[o1 + 3] == '\'');
                if j == o1 {
                    assert(s[o1] == '\'');
                }
            } else if j < o2 {
                if j + n <= o2 {
                    assert(s.subrange(j, j + n) =~= a.subrange(j - oa, j - oa + n));
                    assert(matches_at(a, w, j - oa));
                    lemma_match_found(a, w, j - oa, 0);
                } else {
                    assert(s[o2] == '\'');
                }
            } else {
                assert(s.subrange(j, j + n) =~= tail.subrange(j - o2, j - o2 + n));
                assert(matches_at(tail, w, j - o2));
            }
        }
    }
}

/// The start of a written header, up to the timestamp.
pub open spec fn written_prefix() -> Seq<char> {
    "ISO-10303-21;\nHEADER;\nFILE_DESCRIPTION(('NOVA CAD Model'),'2;1');\n"@ + "FILE_NAME('output.step','"@
}

/// The end of a written header, after the author.
pub open spec fn written_tail(schema: StepSchema) -> Seq<char> {
    "'),('NOVA CAD'),'NOVA CAD','NOVA CAD','');\n"@ + "FILE_SCHEMA(('"@ + schema.identifier_spec() + "'));\n"@ + "ENDSEC;\n"@
}

proof fn lemma_prefix_without_endsec()
    ensures
        forall|j: int| 0 <= j <= written_prefix().len() - "ENDSEC;"@.len() ==> !#[trigger] matches_at(written_prefix(), "ENDSEC;"@, j),
{
    reveal_strlit("ISO-10303-21;\nHEADER;\nFILE_DESCRIPTION(('NOVA CAD Model'),'2;1');\n");
    reveal_strlit("FILE_NAME('output.step','");
    reveal_strlit("ENDSEC;");
    assert forall|j: int| 0 <= j < 85 implies !#[trigger] matches_at(written_prefix(), "ENDSEC;"@, j) by {
        if j == 0 { lemma_mismatch(written_prefix(), "ENDSEC;"@, 0, 0); }
        else if j == 1 { lemma_mismatch(written_prefix(), "ENDSEC;"@, 1, 0); }
        else if j == 2 { lemma_mismatch(written_prefix(), "ENDSEC;"@, 2, 0); }
        else if j == 3 { lemma_mismatch(written_prefix(), "ENDSEC;"@, 3, 0); }
        else if j == 4 { lemma_mismatch(written_prefix(), "ENDSEC;"@, 4, 0); }
        else if j == 5 { lemma_mismatch(written_prefix(), "ENDSEC;"@, 5, 0); }
        else if j == 6 { lemma_mismatch(written_prefix(), "ENDSEC;"@, 6, 0); }
        else if j == 7 { lemma_mismatch(written_prefix(), "ENDSEC;"@, 7, 0); }
        else if j == 8 { lemma_mismatch(written_prefix(), "ENDSEC;"@, 8, 0); }
        else if j == 9 { lemma_mismatch(written_prefix(), "ENDSEC;"@, 9, 0); }
        else if j == 10 { lemma_mismatch(written_prefix(), "ENDSEC;"@, 10, 0); }
        else if j == 11 { lemma_mismatch(written_prefix(), "ENDSEC;"@, 11, 0); }
        else if j == 12 { lemma_mismatch(written_prefix(), "ENDSEC;"@, 12, 0); }
        else if j == 13 { lemma_mismatch(written_prefix(), "ENDSEC;"@, 13, 0); }
        else if j == 14 { lemma_mismatch(written_prefix(), "ENDSEC;"@, 14, 0); }
        else if j == 15 { lemma_mismatch(written_prefix(), "ENDSEC;"@, 15, 1); }
        else if j == 16 { lemma_mismatch(written_prefix(), "ENDSEC;"@, 16, 0); }
        else if j == 17 { lemma_mismatch(written_prefix(), "ENDSEC;"@, 17, 0); }
        else if j == 18 { lemma_mismatch(written_prefix(), "ENDSEC;"@, 18, 1); }
        else if j == 19 { lemma_mismatch(written_prefix(), "ENDSEC;"@, 19, 0); }
        else if j == 20 { lemma_mismatch(written_prefix(), "ENDSEC;"@, 20, 0); }
        else if j == 21 { lemma_mismatch(written_prefix(), "ENDSEC;"@, 21, 0); }
        else if j == 22 { lemma_mismatch(written_prefix(), "ENDSEC;"@, 22, 0); }
        else if j == 23 { lemma_mismatch(written_prefix(), "ENDSEC;"@, 23, 0); }
        else if j == 24 { lemma_mismatch(written_prefix(), "ENDSEC;"@, 24, 0); }
        else if j == 25 { lemma_mismatch(written_prefix(), "ENDSEC;"@, 25, 1); }
        else if j == 26 { lemma_mismatch(written_prefix(), "ENDSEC;"@, 26, 0); }
        else if j == 27 { lemma_mismatch(written_prefix(), "ENDSEC;"@, 27, 0); }
        else if j == 28 { lemma_mismatch(written_prefix(), "ENDSEC;"@, 28, 1); }
        else if j == 29 { lemma_mismatch(written_prefix(), "ENDSEC;"@, 29, 0); }
        else if j == 30 { lemma_mismatch(written_prefix(), "ENDSEC;"@, 30, 0); }
        else if j == 31 { lemma_mismatch(written_prefix(), "ENDSEC;"@, 31, 0); }
        else if j == 32 { lemma_mismatch(written_prefix(), "ENDSEC;"@, 32, 0); }
        else if j == 33 { lemma_mismatch(written_prefix(), "ENDSEC;"@, 33, 0); }
        else if j == 34 { lemma_mismatch(written_prefix(), "ENDSEC;"@, 34, 0); }
        else if j == 35 { lemma_mismatch(written_prefix(), "ENDSEC;"@, 35, 0); }
        else if j == 36 { lemma_mismatch(written_prefix(), "ENDSEC;"@, 36, 0); }
        else if j == 37 { lemma_mismatch(written_prefix(), "ENDSEC;"@, 37, 0); }
        else if j == 38 { lemma_mismatch(written_prefix(), "ENDSEC;"@, 38, 0); }
        else if j == 39 { lemma_mismatch(written_prefix(), "ENDSEC;"@, 39, 0); }
        else if j == 40 { lemma_mismatch(written_prefix(), "ENDSEC;"@, 40, 0); }
        else if j == 41 { lemma_mismatch(written_prefix(), "ENDSEC;"@, 41, 0); }
        else if j == 42 { lemma_mismatch(written_prefix(), "ENDSEC;"@, 42, 0); }
        else if j == 43 { lemma_mismatch(written_prefix(), "ENDSEC;"@, 43, 0); }
        else if j == 44 { lemma_mismatch(written_prefix(), "ENDSEC;"@, 44, 0); }
        else if j == 45 { lemma_mismatch(written_prefix(), "ENDSEC;"@, 45, 0); }
        else if j == 46 { lemma_mismatch(written_prefix(), "ENDSEC;"@, 46, 0); }
        else if j == 47 { lemma_mismatch(written_prefix(), "ENDSEC;"@, 47, 0); }
        else if j == 48 { lemma_mismatch(written_prefix(), "ENDSEC;"@, 48, 0); }
        else if j == 49 { lemma_mismatch(written_prefix(), "ENDSEC;"@, 49, 0); }
        else if j == 50 { lemma_mismatch(written_prefix(), "ENDSEC;"@, 50, 0); }
        else if j == 51 { lemma_mismatch(written_prefix(), "ENDSEC;"@, 51, 0); }
        else if j == 52 { lemma_mismatch(written_prefix(), "ENDSEC;"@, 52, 0); }
        else if j == 53 { lemma_mismatch(written_prefix(), "ENDSEC;"@, 53, 0); }
        else if j == 54 { lemma_mismatch(written_prefix(), "ENDSEC;"@, 54, 0); }
        else if j == 55 { lemma_mismatch(written_prefix(), "ENDSEC;"@, 55, 0); }
        else if j == 56 { lemma_mismatch(written_prefix(), "ENDSEC;"@, 56, 0); }
        else if j == 57 { lemma_mismatch(written_prefix(), "ENDSEC;"@, 57, 0); }
        else if j == 58 { lemma_mismatch(written_prefix(), "ENDSEC;"@, 58, 0); }
        else if j == 59 { lemma_mismatch(written_prefix(), "ENDSEC;"@, 59, 0); }
        else if j == 60 { lemma_mismatch(written_prefix(), "ENDSEC;"@, 60, 0); }
        else if j == 61 { lemma_mismatch(written_prefix(), "ENDSEC;"@, 61, 0); }
        else if j == 62 { lemma_mismatch(written_prefix(), "ENDSEC;"@, 62, 0); }
        else if j == 63 { lemma_mismatch(written_prefix(), "ENDSEC;"@, 63, 0); }
        else if j == 64 { lemma_mismatch(written_prefix(), "ENDSEC;"@, 64, 0); }
        else if j == 65 { lemma_mismatch(written_prefix(), "ENDSEC;"@, 65, 0); }
        else if j == 66 { lemma_mismatch(written_prefix(), "ENDSEC;"@, 66, 0); }
        else if j == 67 { lemma_mismatch(written_prefix(), "ENDSEC;"@, 67, 0); }
        else if j == 68 { lemma_mismatch(written_prefix(), "ENDSEC;"@, 68, 0); }
        else if j == 69 { lemma_mismatch(written_prefix(), "ENDSEC;"@, 69, 1); }
        else if j == 70 { lemma_mismatch(written_prefix(), "ENDSEC;"@, 70, 0); }
        else if j == 71 { lemma_mismatch(written_prefix(), "ENDSEC;"@, 71, 0); }
        else if j == 72 { lemma_mismatch(written_prefix(), "ENDSEC;"@, 72, 0); }
        else if j == 73 { lemma_mismatch(written_prefix(), "ENDSEC;"@, 73, 0); }
        else if j == 74 { lemma_mismatch(written_prefix(), "ENDSEC;"@, 74, 1); }
        else if j == 75 { lemma_mismatch(written_prefix(), "ENDSEC;"@, 75, 0); }
        else if j == 76 { lemma_mismatch(written_prefix(), "ENDSEC;"@, 76, 0); }
        else if j == 77 { lemma_mismatch(written_prefix(), "ENDSEC;"@, 77, 0); }
        else if j == 78 { lemma_mismatch(written_prefix(), "ENDSEC;"@, 78, 0); }
        else if j == 79 { lemma_mismatch(written_prefix(), "ENDSEC;"@, 79, 0); }
        else if j == 80 { lemma_mismatch(written_prefix(), "ENDSEC;"@, 80, 0); }
        else if j == 81 { lemma_mismatch(written_prefix(), "ENDSEC;"@, 81, 0); }
        else if j == 82 { lemma_mismatch(written_prefix(), "ENDSEC;"@, 82, 0); }
        else if j == 83 { lemma_mismatch(written_prefix(), "ENDSEC;"@, 83, 0); }
        else if j == 84 { lemma_mismatch(written_prefix(), "ENDSEC;"@, 84, 0); }
    }
}

proof fn lemma_prefix_without_schema_key()
    ensures
        forall|j: int| 0 <= j <= written_prefix().len() - "FILE_SCHEMA"@.len() ==> !#[trigger] matches_at(written_prefix(), "FILE_SCHEMA"@, j),
{
    reveal_strlit("ISO-10303-21;\nHEADER;\nFILE_DESCRIPTION(('NOVA CAD Model'),'2;1');\n");
    reveal_strlit("FILE_NAME('output.step','");
    reveal_strlit("FILE_SCHEMA");
    assert forall|j: int| 0 <= j < 81 implies !#[trigger] matches_at(written_prefix(), "FILE_SCHEMA"@, j) by {
        if j == 0 { lemma_mismatch(written_prefix(), "FILE_SCHEMA"@, 0, 0); }
        else if j == 1 { lemma_mismatch(written_prefix(), "FILE_SCHEMA"@, 1, 0); }
        else if j == 2 { lemma_mismatch(written_prefix(), "FILE_SCHEMA"@, 2, 0); }
        else if j == 3 { lemma_mismatch(written_prefix(), "FILE_SCHEMA"@, 3, 0); }
        else if j == 4 { lemma_mismatch(written_prefix(), "FILE_SCHEMA"@, 4, 0); }
        else if j == 5 { lemma_mismatch(written_prefix(), "FILE_SCHEMA"@, 5, 0); }
        else if j == 6 { lemma_mismatch(written_prefix(), "FILE_SCHEMA"@, 6, 0); }
        else if j == 7 { lemma_mismatch(written_prefix(), "FILE_SCHEMA"@, 7, 0); }
        else if j == 8 { lemma_mismatch(written_prefix(), "FILE_SCHEMA"@, 8, 0); }
        else if j == 9 { lemma_mismatch(written_prefix(), "FILE_SCHEMA"@, 9, 0); }
        else if j == 10 { lemma_mismatch(written_prefix(), "FILE_SCHEMA"@, 10, 0); }
        else if j == 11 { lemma_mismatch(written_prefix(), "FILE_SCHEMA"@, 11, 0); }
        else if j == 12 { lemma_mismatch(written_prefix(), "FILE_SCHEMA"@, 12, 0); }
        else if j == 13 { lemma_mismatch(written_prefix(), "FILE_SCHEMA"@, 13, 0); }
        else if j == 14 { lemma_mismatch(written_prefix(), "FILE_SCHEMA"@, 14, 0); }
        else if j == 15 { lemma_mismatch(written_prefix(), "FILE_SCHEMA"@, 15, 0); }
        else if j == 16 { lemma_mismatch(written_prefix(), "FILE_SCHEMA"@, 16, 0); }
        else if j == 17 { lemma_mismatch(written_prefix(), "FILE_SCHEMA"@, 17, 0); }
        else if j == 18 { lemma_mismatch(written_prefix(), "FILE_SCHEMA"@, 18, 0); }
        else if j == 19 { lemma_mismatch(written_prefix(), "FILE_SCHEMA"@, 19, 0); }
        else if j == 20 { lemma_mismatch(written_prefix(), "FILE_SCHEMA"@, 20, 0); }
        else if j == 21 { lemma_mismatch(written_prefix(), "FILE_SCHEMA"@, 21, 0); }
        else if j == 22 { lemma_mismatch(written_prefix(), "FILE_SCHEMA"@, 22, 5); }
        else if j == 23 { lemma_mismatch(written_prefix(), "FILE_SCHEMA"@, 23, 0); }
        else if j == 24 { lemma_mismatch(written_prefix(), "FILE_SCHEMA"@, 24, 0); }
        else if j == 25 { lemma_mismatch(written_prefix(), "FILE_SCHEMA"@, 25, 0); }
        else if j == 26 { lemma_mismatch(written_prefix(), "FILE_SCHEMA"@, 26, 0); }
        else if j == 27 { lemma_mismatch(written_prefix(), "FILE_SCHEMA"@, 27, 0); }
        else if j == 28 { lemma_mismatch(written_prefix(), "FILE_SCHEMA"@, 28, 0); }
        else if j == 29 { lemma_mismatch(written_prefix(), "FILE_SCHEMA"@, 29, 0); }
        else if j == 30 { lemma_mismatch(written_prefix(), "FILE_SCHEMA"@, 30, 0); }
        else if j == 31 { lemma_mismatch(written_prefix(), "FILE_SCHEMA"@, 31, 0); }
        else if j == 32 { lemma_mismatch(written_prefix(), "FILE_SCHEMA"@, 32, 0); }
        else if j == 33 { lemma_mismatch(written_prefix(), "FILE_SCHEMA"@, 33, 0); }
        else if j == 34 { lemma_mismatch(written_prefix(), "FILE_SCHEMA"@, 34, 0); }
        else if j == 35 { lemma_mismatch(written_prefix(), "FILE_SCHEMA"@, 35, 0); }
        else if j == 36 { lemma_mismatch(written_prefix(), "FILE_SCHEMA"@, 36, 0); }
        else if j == 37 { lemma_mismatch(written_prefix(), "FILE_SCHEMA"@, 37, 0); }
        else if j == 38 { lemma_mismatch(written_prefix(), "FILE_SCHEMA"@, 38, 0); }
        else if j == 39 { lemma_mismatch(written_prefix(), "FILE_SCHEMA"@, 39, 0); }
        else if j == 40 { lemma_mismatch(written_prefix(), "FILE_SCHEMA"@, 40, 0); }
        else if j == 41 { lemma_mismatch(written_prefix(), "FILE_SCHEMA"@, 41, 0); }
        else if j == 42 { lemma_mismatch(written_prefix(), "FILE_SCHEMA"@, 42, 0); }
        else if j == 43 { lemma_mismatch(written_prefix(), "FILE_SCHEMA"@, 43, 0); }
        else if j == 44 { lemma_mismatch(written_prefix(), "FILE_SCHEMA"@, 44, 0); }
        else if j == 45 { lemma_mismatch(written_prefix(), "FILE_SCHEMA"@, 45, 0); }
        else if j == 46 { lemma_mismatch(written_prefix(), "FILE_SCHEMA"@, 46, 0); }
        else if j == 47 { lemma_mismatch(written_prefix(), "FILE_SCHEMA"@, 47, 0); }
        else if j == 48 { lemma_mismatch(written_prefix(), "FILE_SCHEMA"@, 48, 0); }
        else if j == 49 { lemma_mismatch(written_prefix(), "FILE_SCHEMA"@, 49, 0); }
        else if j == 50 { lemma_mismatch(written_prefix(), "FILE_SCHEMA"@, 50, 0); }
        else if j == 51 { lemma_mismatch(written_prefix(), "FILE_SCHEMA"@, 51, 0); }
        else if j == 52 { lemma_mismatch(written_prefix(), "FILE_SCHEMA"@, 52, 0); }
        else if j == 53 { lemma_mismatch(written_prefix(), "FILE_SCHEMA"@, 53, 0); }
        else if j == 54 { lemma_mismatch(written_prefix(), "FILE_SCHEMA"@, 54, 0); }
        else if j == 55 { lemma_mismatch(written_prefix(), "FILE_SCHEMA"@, 55, 0); }
        else if j == 56 { lemma_mismatch(written_prefix(), "FILE_SCHEMA"@, 56, 0); }
        else if j == 57 { lemma_mismatch(written_prefix(), "FILE_SCHEMA"@, 57, 0); }
        else if j == 58 { lemma_mismatch(written_prefix(), "FILE_SCHEMA"@, 58, 0); }
        else if j == 59 { lemma_mismatch(written_prefix(), "FILE_SCHEMA"@, 59, 0); }
        else if j == 60 { lemma_mismatch(written_prefix(), "FILE_SCHEMA"@, 60, 0); }
        else if j == 61 { lemma_mismatch(written_prefix(), "FILE_SCHEMA"@, 61, 0); }
        else if j == 62 { lemma_mismatch(written_prefix(), "FILE_SCHEMA"@, 62, 0); }
        else if j == 63 { lemma_mismatch(written_prefix(), "FILE_SCHEMA"@, 63, 0); }
        else if j == 64 { lemma_mismatch(written_prefix(), "FILE_SCHEMA"@, 64, 0); }
        else if j == 65 { lemma_mismatch(written_prefix(), "FILE_SCHEMA"@, 65, 0); }
        else if j == 66 { lemma_mismatch(written_prefix(), "FILE_SCHEMA"@, 66, 5); }
        else if j == 67 { lemma_mismatch(written_prefix(), "FILE_SCHEMA"@, 67, 0); }
        else if j == 68 { lemma_mismatch(written_prefix(), "FILE_SCHEMA"@, 68, 0); }
        else if j == 69 { lemma_mismatch(written_prefix(), "FILE_SCHEMA"@, 69, 0); }
        else if j == 70 { lemma_mismatch(written_prefix(), "FILE_SCHEMA"@, 70, 0); }
        else if j == 71 { lemma_mismatch(written_prefix(), "FILE_SCHEMA"@, 71, 0); }
        else if j == 72 { lemma_mismatch(written_prefix(), "FILE_SCHEMA"@, 72, 0); }
        else if j == 73 { lemma_mismatch(written_prefix(), "FILE_SCHEMA"@, 73, 0); }
        else if j == 74 { lemma_mismatch(written_prefix(), "FILE_SCHEMA"@, 74, 0); }
        else if j == 75 { lemma_mismatch(written_prefix(), "FILE_SCHEMA"@, 75, 0); }
        else if j == 76 { lemma_mismatch(written_prefix(), "FILE_SCHEMA"@, 76, 0); }
        else if j == 77 { lemma_mismatch(written_prefix(), "FILE_SCHEMA"@, 77, 0); }
        else if j == 78 { lemma_mismatch(written_prefix(), "FILE_SCHEMA"@, 78, 0); }
        else if j == 79 { lemma_mismatch(written_prefix(), "FILE_SCHEMA"@, 79, 0); }
        else if j == 80 { lemma_mismatch(written_prefix(), "FILE_SCHEMA"@, 80, 0); }
    }
}

proof fn lemma_tail_without_endsec_ap214()
    ensures
        forall|j: int| 0 <= j < 79 ==> !#[trigger] matches_at(written_tail(StepSchema::AP214), "ENDSEC;"@, j),
{
    reveal_strlit("'),('NOVA CAD'),'NOVA CAD','NOVA CAD','');\n");
    reveal_strlit("FILE_SCHEMA(('");
    reveal_strlit("'));\n");
    reveal_strlit("ENDSEC;\n");
    reveal_strlit("ENDSEC;");
    reveal_strlit("AUTOMOTIVE_DESIGN");
    assert forall|j: int| 0 <= j < 79 implies !#[trigger] matches_at(written_tail(StepSchema::AP214), "ENDSEC;"@, j) by {
        if j == 0 { lemma_mismatch(written_tail(StepSchema::AP214), "ENDSEC;"@, 0, 0); }
        else if j == 1 { lemma_mismatch(written_tail(StepSchema::AP214), "ENDSEC;"@, 1, 0); }
        else if j == 2 { lemma_mismatch(written_tail(StepSchema::AP214), "ENDSEC;"@, 2, 0); }
        else if j == 3 { lemma_mismatch(written_tail(StepSchema::AP214), "ENDSEC;"@, 3, 0); }
        else if j == 4 { lemma_mismatch(written_tail(StepSchema::AP214), "ENDSEC;"@, 4, 0); }
        else if j == 5 { lemma_mismatch(written_tail(StepSchema::AP214), "ENDSEC;"@, 5, 0); }
        else if j == 6 { lemma_mismatch(written_tail(StepSchema::AP214), "ENDSEC;"@, 6, 0); }
        else if j == 7 { lemma_mismatch(written_tail(StepSchema::AP214), "ENDSEC;"@, 7, 0); }
        else if j == 8 { lemma_mismatch(written_tail(StepSchema::AP214), "ENDSEC;"@, 8, 0); }
        else if j == 9 { lemma_mismatch(written_tail(StepSchema::AP214), "ENDSEC;"@, 9, 0); }
        else if j == 10 { lemma_mismatch(written_tail(StepSchema::AP214), "ENDSEC;"@, 10, 0); }
        else if j == 11 { lemma_mismatch(written_tail(StepSchema::AP214), "ENDSEC;"@, 11, 0); }
        else if j == 12 { lemma_mismatch(written_tail(StepSchema::AP214), "ENDSEC;"@, 12, 0); }
        else if j == 13 { lemma_mismatch(written_tail(StepSchema::AP214), "ENDSEC;"@, 13, 0); }
        else if j == 14 { lemma_mismatch(written_tail(StepSchema::AP214), "ENDSEC;"@, 14, 0); }
        else if j == 15 { lemma_mismatch(written_tail(StepSchema::AP214), "ENDSEC;"@, 15, 0); }
        else if j == 16 { lemma_mismatch(written_tail(StepSchema::AP214), "ENDSEC;"@, 16, 0); }
        else if j == 17 { lemma_mismatch(written_tail(StepSchema::AP214), "ENDSEC;"@, 17, 0); }
        else if j == 18 { lemma_mismatch(written_tail(StepSchema::AP214), "ENDSEC;"@, 18, 0); }
        else if j == 19 { lemma_mismatch(written_tail(StepSchema::AP214), "ENDSEC;"@, 19, 0); }
        else if j == 20 { lemma_mismatch(written_tail(StepSchema::AP214), "ENDSEC;"@, 20, 0); }
        else if j == 21 { lemma_mismatch(written_tail(StepSchema::AP214), "ENDSEC;"@, 21, 0); }
        else if j == 22 { lemma_mismatch(written_tail(StepSchema::AP214), "ENDSEC;"@, 22, 0); }
        else if j == 23 { lemma_mismatch(written_tail(StepSchema::AP214), "ENDSEC;"@, 23, 0); }
        else if j == 24 { lemma_mismatch(written_tail(StepSchema::AP214), "ENDSEC;"@, 24, 0); }
        else if j == 25 { lemma_mismatch(written_tail(StepSchema::AP214), "ENDSEC;"@, 25, 0); }
        else if j == 26 { lemma_mismatch(written_tail(StepSchema::AP214), "ENDSEC;"@, 26, 0); }
        else if j == 27 { lemma_mismatch(written_tail(StepSchema::AP214), "ENDSEC;"@, 27, 0); }
        else if j == 28 { lemma_mismatch(written_tail(StepSchema::AP214), "ENDSEC;"@, 28, 0); }
        else if j == 29 { lemma_mismatch(written_tail(StepSchema::AP214), "ENDSEC;"@, 29, 0); }
        else if j == 30 { lemma_mismatch(written_tail(StepSchema::AP214), "ENDSEC;"@, 30, 0); }
        else if j == 31 { lemma_mismatch(written_tail(StepSchema::AP214), "ENDSEC;"@, 31, 0); }
        else if j == 32 { lemma_mismatch(written_tail(StepSchema::AP214), "ENDSEC;"@, 32, 0); }
        else if j == 33 { lemma_mismatch(written_tail(StepSchema::AP214), "ENDSEC;"@, 33, 0); }
        else if j == 34 { lemma_mismatch(written_tail(StepSchema::AP214), "ENDSEC;"@, 34, 0); }
        else if j == 35 { lemma_mismatch(written_tail(StepSchema::AP214), "ENDSEC;"@, 35, 0); }
        else if j == 36 { lemma_mismatch(written_tail(StepSchema::AP214), "ENDSEC;"@, 36, 0); }
        else if j == 37 { lemma_mismatch(written_tail(StepSchema::AP214), "ENDSEC;"@, 37, 0); }
        else if j == 38 { lemma_mismatch(written_tail(StepSchema::AP214), "ENDSEC;"@, 38, 0); }
        else if j == 39 { lemma_mismatch(written_tail(StepSchema::AP214), "ENDSEC;"@, 39, 0); }
        else if j == 40 { lemma_mismatch(written_tail(StepSchema::AP214), "ENDSEC;"@, 40, 0); }
        else if j == 41 { lemma_mismatch(written_tail(StepSchema::AP214), "ENDSEC;"@, 41, 0); }
        else if j == 42 { lemma_mismatch(written_tail(StepSchema::AP214), "ENDSEC;"@, 42, 0); }
        else if j == 43 { lemma_mismatch(written_tail(StepSchema::AP214), "ENDSEC;"@, 43, 0); }
        else if j == 44 { lemma_mismatch(written_tail(StepSchema::AP214), "ENDSEC;"@, 44, 0); }
        else if j == 45 { lemma_mismatch(written_tail(StepSchema::AP214), "ENDSEC;"@, 45, 0); }
        else if j == 46 { lemma_mismatch(written_tail(StepSchema::AP214), "ENDSEC;"@, 46, 1); }
        else if j == 47 { lemma_mismatch(written_tail(StepSchema::AP214), "ENDSEC;"@, 47, 0); }
        else if j == 48 { lemma_mismatch(written_tail(StepSchema::AP214), "ENDSEC;"@, 48, 0); }
        else if j == 49 { lemma_mismatch(written_tail(StepSchema::AP214), "ENDSEC;"@, 49, 0); }
        else if j == 50 { lemma_mismatch(written_tail(StepSchema::AP214), "ENDSEC;"@, 50, 0); }
        else if j == 51 { lemma_mismatch(written_tail(StepSchema::AP214), "ENDSEC;"@, 51, 1); }
        else if j == 52 { lemma_mismatch(written_tail(StepSchema::AP214), "ENDSEC;"@, 52, 0); }
        else if j == 53 { lemma_mismatch(written_tail(StepSchema::AP214), "ENDSEC;"@, 53, 0); }
        else if j == 54 { lemma_mismatch(written_tail(StepSchema::AP214), "ENDSEC;"@, 54, 0); }
        else if j == 55 { lemma_mismatch(written_tail(StepSchema::AP214), "ENDSEC;"@, 55, 0); }
        else if j == 56 { lemma_mismatch(written_tail(StepSchema::AP214), "ENDSEC;"@, 56, 0); }
        else if j == 57 { lemma_mismatch(written_tail(StepSchema::AP214), "ENDSEC;"@, 57, 0); }
        else if j == 58 { lemma_mismatch(written_tail(StepSchema::AP214), "ENDSEC;"@, 58, 0); }
        else if j == 59 { lemma_mismatch(written_tail(StepSchema::AP214), "ENDSEC;"@, 59, 0); }
        else if j == 60 { lemma_mismatch(written_tail(StepSchema::AP214), "ENDSEC;"@, 60, 0); }
        else if j == 61 { lemma_mismatch(written_tail(StepSchema::AP214), "ENDSEC;"@, 61, 0); }
        else if j == 62 { lemma_mismatch(written_tail(StepSchema::AP214), "ENDSEC;"@, 62, 0); }
        else if j == 63 { lemma_mismatch(written_tail(StepSchema::AP214), "ENDSEC;"@, 63, 0); }
        else if j == 64 { lemma_mismatch(written_tail(StepSchema::AP214), "ENDSEC;"@, 64, 0); }
        else if j == 65 { lemma_mismatch(written_tail(StepSchema::AP214), "ENDSEC;"@, 65, 0); }
        else if j == 66 { lemma_mismatch(written_tail(StepSchema::AP214), "ENDSEC;"@, 66, 1); }
        else if j == 67 { lemma_mismatch(written_tail(StepSchema::AP214), "ENDSEC;"@, 67, 0); }
        else if j == 68 { lemma_mismatch(written_tail(StepSchema::AP214), "ENDSEC;"@, 68, 0); }
        else if j == 69 { lemma_mismatch(written_tail(StepSchema::AP214), "ENDSEC;"@, 69, 1); }
        else if j == 70 { lemma_mismatch(written_tail(StepSchema::AP214), "ENDSEC;"@, 70, 0); }
        else if j == 71 { lemma_mismatch(written_tail(StepSchema::AP214), "ENDSEC;"@, 71, 0); }
        else if j == 72 { lemma_mismatch(written_tail(StepSchema::AP214), "ENDSEC;"@, 72, 0); }
        else if j == 73 { lemma_mismatch(written_tail(StepSchema::AP214), "ENDSEC;"@, 73, 0); }
        else if j == 74 { lemma_mismatch(written_tail(StepSchema::AP214), "ENDSEC;"@, 74, 0); }
        else if j == 75 { lemma_mismatch(written_tail(StepSchema::AP214), "ENDSEC;"@, 75, 0); }
        else if j == 76 { lemma_mismatch(written_tail(StepSchema::AP214), "ENDSEC;"@, 76, 0); }
        else if j == 77 { lemma_mismatch(written_tail(StepSchema::AP214), "ENDSEC;"@, 77, 0); }
        else if j == 78 { lemma_mismatch(written_tail(StepSchema::AP214), "ENDSEC;"@, 78, 0); }
    }
}

proof fn lemma_tail_without_endsec_ap242()
    ensures
        forall|j: int| 0 <= j < 102 ==> !#[trigger] matches_at(written_tail(StepSchema::AP242), "ENDSEC;"@, j),
{
    reveal_strlit("'),('NOVA CAD'),'NOVA CAD','NOVA CAD','');\n");
    reveal_strlit("FILE_SCHEMA(('");
    reveal_strlit("'));\n");
    reveal_strlit("ENDSEC;\n");
    reveal_strlit("ENDSEC;");
    reveal_strlit("AP242_MANAGED_MODEL_BASED_3D_ENGINEERING");
    assert forall|j: int| 0 <= j < 102 implies !#[trigger] matches_at(written_tail(StepSchema::AP242), "ENDSEC;"@, j) by {
        if j == 0 { lemma_mismatch(written_tail(StepSchema::AP242), "ENDSEC;"@, 0, 0); }
        else if j == 1 { lemma_mismatch(written_tail(StepSchema::AP242), "ENDSEC;"@, 1, 0); }
        else if j == 2 { lemma_mismatch(written_tail(StepSchema::AP242), "ENDSEC;"@, 2, 0); }
        else if j == 3 { lemma_mismatch(written_tail(StepSchema::AP242), "ENDSEC;"@, 3, 0); }
        else if j == 4 { lemma_mismatch(written_tail(StepSchema::AP242), "ENDSEC;"@, 4, 0); }
        else if j == 5 { lemma_mismatch(written_tail(StepSchema::AP242), "ENDSEC;"@, 5, 0); }
        else if j == 6 { lemma_mismatch(written_tail(StepSchema::AP242), "ENDSEC;"@, 6, 0); }
        else if j == 7 { lemma_mismatch(written_tail(StepSchema::AP242), "ENDSEC;"@, 7, 0); }
        else if j == 8 { lemma_mismatch(written_tail(StepSchema::AP242), "ENDSEC;"@, 8, 0); }
        else if j == 9 { lemma_mismatch(written_tail(StepSchema::AP242), "ENDSEC;"@, 9, 0); }
        else if j == 10 { lemma_mismatch(written_tail(StepSchema::AP242), "ENDSEC;"@, 10, 0); }
        else if j == 11 { lemma_mismatch(written_tail(StepSchema::AP242), "ENDSEC;"@, 11, 0); }
        else if j == 12 { lemma_mismatch(written_tail(StepSchema::AP242), "ENDSEC;"@, 12, 0); }
        else if j == 13 { lemma_mismatch(written_tail(StepSchema::AP242), "ENDSEC;"@, 13, 0); }
        else if j == 14 { lemma_mismatch(written_tail(StepSchema::AP242), "ENDSEC;"@, 14, 0); }
        else if j == 15 { lemma_mismatch(written_tail(StepSchema::AP242), "ENDSEC;"@, 15, 0); }
        else if j == 16 { lemma_mismatch(written_tail(StepSchema::AP242), "ENDSEC;"@, 16, 0); }
        else if j == 17 { lemma_mismatch(written_tail(StepSchema::AP242), "ENDSEC;"@, 17, 0); }
        else if j == 18 { lemma_mismatch(written_tail(StepSchema::AP242), "ENDSEC;"@, 18, 0); }
        else if j == 19 { lemma_mismatch(written_tail(StepSchema::AP242), "ENDSEC;"@, 19, 0); }
        else if j == 20 { lemma_mismatch(written_tail(StepSchema::AP242), "ENDSEC;"@, 20, 0); }
        else if j == 21 { lemma_mismatch(written_tail(StepSchema::AP242), "ENDSEC;"@, 21, 0); }
        else if j == 22 { lemma_mismatch(written_tail(StepSchema::AP242), "ENDSEC;"@, 22, 0); }
        else if j == 23 { lemma_mismatch(written_tail(StepSchema::AP242), "ENDSEC;"@, 23, 0); }
        else if j == 24 { lemma_mismatch(written_tail(StepSchema::AP242), "ENDSEC;"@, 24, 0); }
        else if j == 25 { lemma_mismatch(written_tail(StepSchema::AP242), "ENDSEC;"@, 25, 0); }
        else if j == 26 { lemma_mismatch(written_tail(StepSchema::AP242), "ENDSEC;"@, 26, 0); }
        else if j == 27 { lemma_mismatch(written_tail(StepSchema::AP242), "ENDSEC;"@, 27, 0); }
        else if j == 28 { lemma_mismatch(written_tail(StepSchema::AP242), "ENDSEC;"@, 28, 0); }
        else if j == 29 { lemma_mismatch(written_tail(StepSchema::AP242), "ENDSEC;"@, 29, 0); }
        else if j == 30 { lemma_mismatch(written_tail(StepSchema::AP242), "ENDSEC;"@, 30, 0); }
        else if j == 31 { lemma_mismatch(written_tail(StepSchema::AP242), "ENDSEC;"@, 31, 0); }
        else if j == 32 { lemma_mismatch(written_tail(StepSchema::AP242), "ENDSEC;"@, 32, 0); }
        else if j == 33 { lemma_mismatch(written_tail(StepSchema::AP242), "ENDSEC;"@, 33, 0); }
        else if j == 34 { lemma_mismatch(written_tail(StepSchema::AP242), "ENDSEC;"@, 34, 0); }
        else if j == 35 { lemma_mismatch(written_tail(StepSchema::AP242), "ENDSEC;"@, 35, 0); }
        else if j == 36 { lemma_mismatch(written_tail(StepSchema::AP242), "ENDSEC;"@, 36, 0); }
        else if j == 37 { lemma_mismatch(written_tail(StepSchema::AP242), "ENDSEC;"@, 37, 0); }
        else if j == 38 { lemma_mismatch(written_tail(StepSchema::AP242), "ENDSEC;"@, 38, 0); }
        else if j == 39 { lemma_mismatch(written_tail(StepSchema::AP242), "ENDSEC;"@, 39, 0); }
        else if j == 40 { lemma_mismatch(written_tail(StepSchema::AP242), "ENDSEC;"@, 40, 0); }
        else if j == 41 { lemma_mismatch(written_tail(StepSchema::AP242), "ENDSEC;"@, 41, 0); }
        else if j == 42 { lemma_mismatch(written_tail(StepSchema::AP242), "ENDSEC;"@, 42, 0); }
        else if j == 43 { lemma_mismatch(written_tail(StepSchema::AP242), "ENDSEC;"@, 43, 0); }
        else if j == 44 { lemma_mismatch(written_tail(StepSchema::AP242), "ENDSEC;"@, 44, 0); }
        else if j == 45 { lemma_mismatch(written_tail(StepSchema::AP242), "ENDSEC;"@, 45, 0); }
        else if j == 46 { lemma_mismatch(written_tail(StepSchema::AP242), "ENDSEC;"@, 46, 1); }
        else if j == 47 { lemma_mismatch(written_tail(StepSchema::AP242), "ENDSEC;"@, 47, 0); }
        else if j == 48 { lemma_mismatch(written_tail(StepSchema::AP242), "ENDSEC;"@, 48, 0); }
        else if j == 49 { lemma_mismatch(written_tail(StepSchema::AP242), "ENDSEC;"@, 49, 0); }
        else if j == 50 { lemma_mismatch(written_tail(StepSchema::AP242), "ENDSEC;"@, 50, 0); }
        else if j == 51 { lemma_mismatch(written_tail(StepSchema::AP242), "ENDSEC;"@, 51, 1); }
        else if j == 52 { lemma_mismatch(written_tail(StepSchema::AP242), "ENDSEC;"@, 52, 0); }
        else if j == 53 { lemma_mismatch(written_tail(StepSchema::AP242), "ENDSEC;"@, 53, 0); }
        else if j == 54 { lemma_mismatch(written_tail(StepSchema::AP242), "ENDSEC;"@, 54, 0); }
        else if j == 55 { lemma_mismatch(written_tail(StepSchema::AP242), "ENDSEC;"@, 55, 0); }
        else if j == 56 { lemma_mismatch(written_tail(StepSchema::AP242), "ENDSEC;"@, 56, 0); }
        else if j == 57 { lemma_mismatch(written_tail(StepSchema::AP242), "ENDSEC;"@, 57, 0); }
        else if j == 58 { lemma_mismatch(written_tail(StepSchema::AP242), "ENDSEC;"@, 58, 0); }
        else if j == 59 { lemma_mismatch(written_tail(StepSchema::AP242), "ENDSEC;"@, 59, 0); }
        else if j == 60 { lemma_mismatch(written_tail(StepSchema::AP242), "ENDSEC;"@, 60, 0); }
        else if j == 61 { lemma_mismatch(written_tail(StepSchema::AP242), "ENDSEC;"@, 61, 0); }
        else if j == 62 { lemma_mismatch(written_tail(StepSchema::AP242), "ENDSEC;"@, 62, 0); }
        else if j == 63 { lemma_mismatch(written_tail(StepSchema::AP242), "ENDSEC;"@, 63, 0); }
        else if j == 64 { lemma_mismatch(written_tail(StepSchema::AP242), "ENDSEC;"@, 64, 0); }
        else if j == 65 { lemma_mismatch(written_tail(StepSchema::AP242), "ENDSEC;"@, 65, 0); }
        else if j == 66 { lemma_mismatch(written_tail(StepSchema::AP242), "ENDSEC;"@, 66, 0); }
        else if j == 67 { lemma_mismatch(written_tail(StepSchema::AP242), "ENDSEC;"@, 67, 0); }
        else if j == 68 { lemma_mismatch(written_tail(StepSchema::AP242), "ENDSEC;"@, 68, 1); }
        else if j == 69 { lemma_mismatch(written_tail(StepSchema::AP242), "ENDSEC;"@, 69, 0); }
        else if j == 70 { lemma_mismatch(written_tail(StepSchema::AP242), "ENDSEC;"@, 70, 0); }
        else if j == 71 { lemma_mismatch(written_tail(StepSchema::AP242), "ENDSEC;"@, 71, 0); }
        else if j == 72 { lemma_mismatch(written_tail(StepSchema::AP242), "ENDSEC;"@, 72, 0); }
        else if j == 73 { lemma_mismatch(written_tail(StepSchema::AP242), "ENDSEC;"@, 73, 0); }
        else if j == 74 { lemma_mismatch(written_tail(StepSchema::AP242), "ENDSEC;"@, 74, 1); }
        else if j == 75 { lemma_mismatch(written_tail(StepSchema::AP242), "ENDSEC;"@, 75, 0); }
        else if j == 76 { lemma_mismatch(written_tail(StepSchema::AP242), "ENDSEC;"@, 76, 0); }
        else if j == 77 { lemma_mismatch(written_tail(StepSchema::AP242), "ENDSEC;"@, 77, 0); }
        else if j == 78 { lemma_mismatch(written_tail(StepSchema::AP242), "ENDSEC;"@, 78, 0); }
        else if j == 79 { lemma_mismatch(written_tail(StepSchema::AP242), "ENDSEC;"@, 79, 0); }
        else if j == 80 { lemma_mismatch(written_tail(StepSchema::AP242), "ENDSEC;"@, 80, 1); }
        else if j == 81 { lemma_mismatch(written_tail(StepSchema::AP242), "ENDSEC;"@, 81, 0); }
        else if j == 82 { lemma_mismatch(written_tail(StepSchema::AP242), "ENDSEC;"@, 82, 0); }
        else if j == 83 { lemma_mismatch(written_tail(StepSchema::AP242), "ENDSEC;"@, 83, 0); }
        else if j == 84 { lemma_mismatch(written_tail(StepSchema::AP242), "ENDSEC;"@, 84, 0); }
        else if j == 85 { lemma_mismatch(written_tail(StepSchema::AP242), "ENDSEC;"@, 85, 0); }
        else if j == 86 { lemma_mismatch(written_tail(StepSchema::AP242), "ENDSEC;"@, 86, 2); }
        else if j == 87 { lemma_mismatch(written_tail(StepSchema::AP242), "ENDSEC;"@, 87, 0); }
        else if j == 88 { lemma_mismatch(written_tail(StepSchema::AP242), "ENDSEC;"@, 88, 0); }
        else if j == 89 { lemma_mismatch(written_tail(StepSchema::AP242), "ENDSEC;"@, 89, 0); }
        else if j == 90 { lemma_mismatch(written_tail(StepSchema::AP242), "ENDSEC;"@, 90, 0); }
        else if j == 91 { lemma_mismatch(written_tail(StepSchema::AP242), "ENDSEC;"@, 91, 1); }
        else if j == 92 { lemma_mismatch(written_tail(StepSchema::AP242), "ENDSEC;"@, 92, 1); }
        else if j == 93 { lemma_mismatch(written_tail(StepSchema::AP242), "ENDSEC;"@, 93, 0); }
        else if j == 94 { lemma_mismatch(written_tail(StepSchema::AP242), "ENDSEC;"@, 94, 0); }
        else if j == 95 { lemma_mismatch(written_tail(StepSchema::AP242), "ENDSEC;"@, 95, 0); }
        else if j == 96 { lemma_mismatch(written_tail(StepSchema::AP242), "ENDSEC;"@, 96, 0); }
        else if j == 97 { lemma_mismatch(written_tail(StepSchema::AP242), "ENDSEC;"@, 97, 0); }
        else if j == 98 { lemma_mismatch(written_tail(StepSchema::AP242), "ENDSEC;"@, 98, 0); }
        else if j == 99 { lemma_mismatch(written_tail(StepSchema::AP242), "ENDSEC;"@, 99, 0); }
        else if j == 100 { lemma_mismatch(written_tail(StepSchema::AP242), "ENDSEC;"@, 100, 0); }
        else if j == 101 { lemma_mismatch(written_tail(StepSchema::AP242), "ENDSEC;"@, 101, 0); }
    }
}

proof fn lemma_find_prefix_description()
    ensures
        find(written_prefix(), "FILE_DESCRIPTION"@) == Some(22int),
{
    reveal_strlit("ISO-10303-21;\nHEADER;\nFILE_DESCRIPTION(('NOVA CAD Model'),'2;1');\n");
    reveal_strlit("FILE_NAME('output.step','");
    reveal_strlit("FILE_SCHEMA(('");
    reveal_strlit("FILE_DESCRIPTION");
    assert forall|j: int| 0 <= j < 22 implies !#[trigger] matches_at(written_prefix(), "FILE_DESCRIPTION"@, j) by {
        if j == 0 { lemma_mismatch(written_prefix(), "FILE_DESCRIPTION"@, 0, 0); }
        else if j == 1 { lemma_mismatch(written_prefix(), "FILE_DESCRIPTION"@, 1, 0); }
        else if j == 2 { lemma_mismatch(written_prefix(), "FILE_DESCRIPTION"@, 2, 0); }
        else if j == 3 { lemma_mismatch(written_prefix(), "FILE_DESCRIPTION"@, 3, 0); }
        else if j == 4 { lemma_mismatch(written_prefix(), "FILE_DESCRIPTION"@, 4, 0); }
        else if j == 5 { lemma_mismatch(written_prefix(), "FILE_DESCRIPTION"@, 5, 0); }
        else if j == 6 { lemma_mismatch(written_prefix(), "FILE_DESCRIPTION"@, 6, 0); }
        else if j == 7 { lemma_mismatch(written_prefix(), "FILE_DESCRIPTION"@, 7, 0); }
        else if j == 8 { lemma_mismatch(written_prefix(), "FILE_DESCRIPTION"@, 8, 0); }
        else if j == 9 { lemma_mismatch(written_prefix(), "FILE_DESCRIPTION"@, 9, 0); }
        else if j == 10 { lemma_mismatch(written_prefix(), "FILE_DESCRIPTION"@, 10, 0); }
        else if j == 11 { lemma_mismatch(written_prefix(), "FILE_DESCRIPTION"@, 11, 0); }
        else if j == 12 { lemma_mismatch(written_prefix(), "FILE_DESCRIPTION"@, 12, 0); }
        else if j == 13 { lemma_mismatch(written_prefix(), "FILE_DESCRIPTION"@, 13, 0); }
        else if j == 14 { lemma_mismatch(written_prefix(), "FILE_DESCRIPTION"@, 14, 0); }
        else if j == 15 { lemma_mismatch(written_prefix(), "FILE_DESCRIPTION"@, 15, 0); }
        else if j == 16 { lemma_mismatch(written_prefix(), "FILE_DESCRIPTION"@, 16, 0); }
        else if j == 17 { lemma_mismatch(written_prefix(), "FILE_DESCRIPTION"@, 17, 0); }
        else if j == 18 { lemma_mismatch(written_prefix(), "FILE_DESCRIPTION"@, 18, 0); }
        else if j == 19 { lemma_mismatch(written_prefix(), "FILE_DESCRIPTION"@, 19, 0); }
        else if j == 20 { lemma_mismatch(written_prefix(), "FILE_DESCRIPTION"@, 20, 0); }
        else if j == 21 { lemma_mismatch(written_prefix(), "FILE_DESCRIPTION"@, 21, 0); }
    }
    assert(written_prefix().subrange(22, 38) =~= "FILE_DESCRIPTION"@);
    lemma_find_at(written_prefix(), "FILE_DESCRIPTION"@, 22);
}

proof fn lemma_find_prefix_name()
    ensures
        find(written_prefix(), "FILE_NAME"@) == Some(66int),
{
    reveal_strlit("ISO-10303-21;\nHEADER;\nFILE_DESCRIPTION(('NOVA CAD Model'),'2;1');\n");
    reveal_strlit("FILE_NAME('output.step','");
    reveal_strlit("FILE_SCHEMA(('");
    reveal_strlit("FILE_NAME");
    assert forall|j: int| 0 <= j < 66 implies !#[trigger] matches_at(written_prefix(), "FILE_NAME"@, j) by {
        if j == 0 { lemma_mismatch(written_prefix(), "FILE_NAME"@, 0, 0); }
        else if j == 1 { lemma_mismatch(written_prefix(), "FILE_NAME"@, 1, 0); }
        else if j == 2 { lemma_mismatch(written_prefix(), "FILE_NAME"@, 2, 0); }
        else if j == 3 { lemma_mismatch(written_prefix(), "FILE_NAME"@, 3, 0); }
        else if j == 4 { lemma_mismatch(written_prefix(), "FILE_NAME"@, 4, 0); }
        else if j == 5 { lemma_mismatch(written_prefix(), "FILE_NAME"@, 5, 0); }
        else if j == 6 { lemma_mismatch(written_prefix(), "FILE_NAME"@, 6, 0); }
        else if j == 7 { lemma_mismatch(written_prefix(), "FILE_NAME"@, 7, 0); }
        else if j == 8 { lemma_mismatch(written_prefix(), "FILE_NAME"@, 8, 0); }
        else if j == 9 { lemma_mismatch(written_prefix(), "FILE_NAME"@, 9, 0); }
        else if j == 10 { lemma_mismatch(written_prefix(), "FILE_NAME"@, 10, 0); }
        else if j == 11 { lemma_mismatch(written_prefix(), "FILE_NAME"@, 11, 0); }
        else if j == 12 { lemma_mismatch(written_prefix(), "FILE_NAME"@, 12, 0); }
        else if j == 13 { lemma_mismatch(written_prefix(), "FILE_NAME"@, 13, 0); }
        else if j == 14 { lemma_mismatch(written_prefix(), "FILE_NAME"@, 14, 0); }
        else if j == 15 { lemma_mismatch(written_prefix(), "FILE_NAME"@, 15, 0); }
        else if j == 16 { lemma_mismatch(written_prefix(), "FILE_NAME"@, 16, 0); }
        else if j == 17 { lemma_mismatch(written_prefix(), "FILE_NAME"@, 17, 0); }
        else if j == 18 { lemma_mismatch(written_prefix(), "FILE_NAME"@, 18, 0); }
        else if j == 19 { lemma_mismatch(written_prefix(), "FILE_NAME"@, 19, 0); }
        else if j == 20 { lemma_mismatch(written_prefix(), "FILE_NAME"@, 20, 0); }
        else if j == 21 { lemma_mismatch(written_prefix(), "FILE_NAME"@, 21, 0); }
        else if j == 22 { lemma_mismatch(written_prefix(), "FILE_NAME"@, 22, 5); }
        else if j == 23 { lemma_mismatch(written_prefix(), "FILE_NAME"@, 23, 0); }
        else if j == 24 { lemma_mismatch(written_prefix(), "FILE_NAME"@, 24, 0); }
        else if j == 25 { lemma_mismatch(written_prefix(), "FILE_NAME"@, 25, 0); }
        else if j == 26 { lemma_mismatch(written_prefix(), "FILE_NAME"@, 26, 0); }
        else if j == 27 { lemma_mismatch(written_prefix(), "FILE_NAME"@, 27, 0); }
        else if j == 28 { lemma_mismatch(written_prefix(), "FILE_NAME"@, 28, 0); }
        else if j == 29 { lemma_mismatch(written_prefix(), "FILE_NAME"@, 29, 0); }
        else if j == 30 { lemma_mismatch(written_prefix(), "FILE_NAME"@, 30, 0); }
        else if j == 31 { lemma_mismatch(written_prefix(), "FILE_NAME"@, 31, 0); }
        else if j == 32 { lemma_mismatch(written_prefix(), "FILE_NAME"@, 32, 0); }
        else if j == 33 { lemma_mismatch(written_prefix(), "FILE_NAME"@, 33, 0); }
        else if j == 34 { lemma_mismatch(written_prefix(), "FILE_NAME"@, 34, 0); }
        else if j == 35 { lemma_mismatch(written_prefix(), "FILE_NAME"@, 35, 0); }
        else if j == 36 { lemma_mismatch(written_prefix(), "FILE_NAME"@, 36, 0); }
        else if j == 37 { lemma_mismatch(written_prefix(), "FILE_NAME"@, 37, 0); }
        else if j == 38 { lemma_mismatch(written_prefix(), "FILE_NAME"@, 38, 0); }
        else if j == 39 { lemma_mismatch(written_prefix(), "FILE_NAME"@, 39, 0); }
        else if j == 40 { lemma_mismatch(written_prefix(), "FILE_NAME"@, 40, 0); }
        else if j == 41 { lemma_mismatch(written_prefix(), "FILE_NAME"@, 41, 0); }
        else if j == 42 { lemma_mismatch(written_prefix(), "FILE_NAME"@, 42, 0); }
        else if j == 43 { lemma_mismatch(written_prefix(), "FILE_NAME"@, 43, 0); }
        else if j == 44 { lemma_mismatch(written_prefix(), "FILE_NAME"@, 44, 0); }
        else if j == 45 { lemma_mismatch(written_prefix(), "FILE_NAME"@, 45, 0); }
        else if j == 46 { lemma_mismatch(written_prefix(), "FILE_NAME"@, 46, 0); }
        else if j == 47 { lemma_mismatch(written_prefix(), "FILE_NAME"@, 47, 0); }
        else if j == 48 { lemma_mismatch(written_prefix(), "FILE_NAME"@, 48, 0); }
        else if j == 49 { lemma_mismatch(written_prefix(), "FILE_NAME"@, 49, 0); }
        else if j == 50 { lemma_mismatch(written_prefix(), "FILE_NAME"@, 50, 0); }
        else if j == 51 { lemma_mismatch(written_prefix(), "FILE_NAME"@, 51, 0); }
        else if j == 52 { lemma_mismatch(written_prefix(), "FILE_NAME"@, 52, 0); }
        else if j == 53 { lemma_mismatch(written_prefix(), "FILE_NAME"@, 53, 0); }
        else if j == 54 { lemma_mismatch(written_prefix(), "FILE_NAME"@, 54, 0); }
        else if j == 55 { lemma_mismatch(written_prefix(), "FILE_NAME"@, 55, 0); }
        else if j == 56 { lemma_mismatch(written_prefix(), "FILE_NAME"@, 56, 0); }
        else if j == 57 { lemma_mismatch(written_prefix(), "FILE_NAME"@, 57, 0); }
        else if j == 58 { lemma_mismatch(written_prefix(), "FILE_NAME"@, 58, 0); }
        else if j == 59 { lemma_mismatch(written_prefix(), "FILE_NAME"@, 59, 0); }
        else if j == 60 { lemma_mismatch(written_prefix(), "FILE_NAME"@, 60, 0); }
        else if j == 61 { lemma_mismatch(written_prefix(), "FILE_NAME"@, 61, 0); }
        else if j == 62 { lemma_mismatch(written_prefix(), "FILE_NAME"@, 62, 0); }
        else if j == 63 { lemma_mismatch(written_prefix(), "FILE_NAME"@, 63, 0); }
        else if j == 64 { lemma_mismatch(written_prefix(), "FILE_NAME"@, 64, 0); }
        else if j == 65 { lemma_mismatch(written_prefix(), "FILE_NAME"@, 65, 0); }
    }
    assert(written_prefix().subrange(66, 75) =~= "FILE_NAME"@);
    lemma_find_at(written_prefix(), "FILE_NAME"@, 66);
}

proof fn lemma_find_description_open()
    ensures
        find(written_prefix().subrange(22, written_prefix().len() as int), "('"@) == Some(17int),
{
    reveal_strlit("ISO-10303-21;\nHEADER;\nFILE_DESCRIPTION(('NOVA CAD Model'),'2;1');\n");
    reveal_strlit("FILE_NAME('output.step','");
    reveal_strlit("FILE_SCHEMA(('");
    reveal_strlit("('");
    assert forall|j: int| 0 <= j < 17 implies !#[trigger] matches_at(written_prefix().subrange(22, written_prefix().len() as int), "('"@, j) by {
        if j == 0 { lemma_mismatch(written_prefix().subrange(22, written_prefix().len() as int), "('"@, 0, 0); }
        else if j == 1 { lemma_mismatch(written_prefix().subrange(22, written_prefix().len() as int), "('"@, 1, 0); }
        else if j == 2 { lemma_mismatch(written_prefix().subrange(22, written_prefix().len() as int), "('"@, 2, 0); }
        else if j == 3 { lemma_mismatch(written_prefix().subrange(22, written_prefix().len() as int), "('"@, 3, 0); }
        else if j == 4 { lemma_mismatch(written_prefix().subrange(22, written_prefix().len() as int), "('"@, 4, 0); }
        else if j == 5 { lemma_mismatch(written_prefix().subrange(22, written_prefix().len() as int), "('"@, 5, 0); }
        else if j == 6 { lemma_mismatch(written_prefix().subrange(22, written_prefix().len() as int), "('"@, 6, 0); }
        else if j == 7 { lemma_mismatch(written_prefix().subrange(22, written_prefix().len() as int), "('"@, 7, 0); }
        else if j == 8 { lemma_mismatch(written_prefix().subrange(22, written_prefix().len() as int), "('"@, 8, 0); }
        else if j == 9 { lemma_mismatch(written_prefix().subrange(22, written_prefix().len() as int), "('"@, 9, 0); }
        else if j == 10 { lemma_mismatch(written_prefix().subrange(22, written_prefix().len() as int), "('"@, 10, 0); }
        else if j == 11 { lemma_mismatch(written_prefix().subrange(22, written_prefix().len() as int), "('"@, 11, 0); }
        else if j == 12 { lemma_mismatch(written_prefix().subrange(22, written_prefix().len() as int), "('"@, 12, 0); }
        else if j == 13 { lemma_mismatch(written_prefix().subrange(22, written_prefix().len() as int), "('"@, 13, 0); }
        else if j == 14 { lemma_mismatch(written_prefix().subrange(22, written_prefix().len() as int), "('"@, 14, 0); }
        else if j == 15 { lemma_mismatch(written_prefix().subrange(22, written_prefix().len() as int), "('"@, 15, 0); }
        else if j == 16 { lemma_mismatch(written_prefix().subrange(22, written_prefix().len() as int), "('"@, 16, 1); }
    }
    assert(written_prefix().subrange(22, written_prefix().len() as int).subrange(17, 19) =~= "('"@);
    lemma_find_at(written_prefix().subrange(22, written_prefix().len() as int), "('"@, 17);
}

proof fn lemma_find_description_close()
    ensures
        find(written_prefix().subrange(40, written_prefix().len() as int), "')"@) == Some(15int),
{
    reveal_strlit("ISO-10303-21;\nHEADER;\nFILE_DESCRIPTION(('NOVA CAD Model'),'2;1');\n");
    reveal_strlit("FILE_NAME('output.step','");
    reveal_strlit("FILE_SCHEMA(('");
    reveal_strlit("')");
    assert forall|j: int| 0 <= j < 15 implies !#[trigger] matches_at(written_prefix().subrange(40, written_prefix().len() as int), "')"@, j) by {
        if j == 0 { lemma_mismatch(written_prefix().subrange(40, written_prefix().len() as int), "')"@, 0, 1); }
        else if j == 1 { lemma_mismatch(written_prefix().subrange(40, written_prefix().len() as int), "')"@, 1, 0); }
        else if j == 2 { lemma_mismatch(written_prefix().subrange(40, written_prefix().len() as int), "')"@, 2, 0); }
        else if j == 3 { lemma_mismatch(written_prefix().subrange(40, written_prefix().len() as int), "')"@, 3, 0); }
        else if j == 4 { lemma_mismatch(written_prefix().subrange(40, written_prefix().len() as int), "')"@, 4, 0); }
        else if j == 5 { lemma_mismatch(written_prefix().subrange(40, written_prefix().len() as int), "')"@, 5, 0); }
        else if j == 6 { lemma_mismatch(written_prefix().subrange(40, written_prefix().len() as int), "')"@, 6, 0); }
        else if j == 7 { lemma_mismatch(written_prefix().subrange(40, written_prefix().len() as int), "')"@, 7, 0); }
        else if j == 8 { lemma_mismatch(written_prefix().subrange(40, written_prefix().len() as int), "')"@, 8, 0); }
        else if j == 9 { lemma_mismatch(written_prefix().subrange(40, written_prefix().len() as int), "')"@, 9, 0); }
        else if j == 10 { lemma_mismatch(written_prefix().subrange(40, written_prefix().len() as int), "')"@, 10, 0); }
        else if j == 11 { lemma_mismatch(written_prefix().subrange(40, written_prefix().len() as int), "')"@, 11, 0); }
        else if j == 12 { lemma_mismatch(written_prefix().subrange(40, written_prefix().len() as int), "')"@, 12, 0); }
        else if j == 13 { lemma_mismatch(written_prefix().subrange(40, written_prefix().len() as int), "')"@, 13, 0); }
        else if j == 14 { lemma_mismatch(written_prefix().subrange(40, written_prefix().len() as int), "')"@, 14, 0); }
    }
    assert(written_prefix().subrange(40, written_prefix().len() as int).subrange(15, 17) =~= "')"@);
    lemma_find_at(written_prefix().subrange(40, written_prefix().len() as int), "')"@, 15);
}

proof fn lemma_find_name_open()
    ensures
        find(written_prefix().subrange(66, written_prefix().len() as int), "'"@) == Some(10int),
{
    reveal_strlit("ISO-10303-21;\nHEADER;\nFILE_DESCRIPTION(('NOVA CAD Model'),'2;1');\n");
    reveal_strlit("FILE_NAME('output.step','");
    reveal_strlit("FILE_SCHEMA(('");
    reveal_strlit("'");
    assert forall|j: int| 0 <= j < 10 implies !#[trigger] matches_at(written_prefix().subrange(66, written_prefix().len() as int), "'"@, j) by {
        if j == 0 { lemma_mismatch(written_prefix().subrange(66, written_prefix().len() as int), "'"@, 0, 0); }
        else if j == 1 { lemma_mismatch(written_prefix().subrange(66, written_prefix().len() as int), "'"@, 1, 0); }
        else if j == 2 { lemma_mismatch(written_prefix().subrange(66, written_prefix().len() as int), "'"@, 2, 0); }
        else if j == 3 { lemma_mismatch(written_prefix().subrange(66, written_prefix().len() as int), "'"@, 3, 0); }
        else if j == 4 { lemma_mismatch(written_prefix().subrange(66, written_prefix().len() as int), "'"@, 4, 0); }
        else if j == 5 { lemma_mismatch(written_prefix().subrange(66, written_prefix().len() as int), "'"@, 5, 0); }
        else if j == 6 { lemma_mismatch(written_prefix().subrange(66, written_prefix().len() as int), "'"@, 6, 0); }
        else if j == 7 { lemma_mismatch(written_prefix().subrange(66, written_prefix().len() as int), "'"@, 7, 0); }
        else if j == 8 { lemma_mismatch(written_prefix().subrange(66, written_prefix().len() as int), "'"@, 8, 0); }
        else if j == 9 { lemma_mismatch(written_prefix().subrange(66, written_prefix().len() as int), "'"@, 9, 0); }
    }
    assert(written_prefix().subrange(66, written_prefix().len() as int).subrange(10, 11) =~= "'"@);
    lemma_find_at(written_prefix().subrange(66, written_prefix().len() as int), "'"@, 10);
}

proof fn lemma_find_name_close()
    ensures
        find(written_prefix().subrange(77, written_prefix().len() as int), "'"@) == Some(11int),
{
    reveal_strlit("ISO-10303-21;\nHEADER;\nFILE_DESCRIPTION(('NOVA CAD Model'),'2;1');\n");
    reveal_strlit("FILE_NAME('output.step','");
    reveal_strlit("FILE_SCHEMA(('");
    reveal_strlit("'");
    assert forall|j: int| 0 <= j < 11 implies !#[trigger] matches_at(written_prefix().subrange(77, written_prefix().len() as int), "'"@, j) by {
        if j == 0 { lemma_mismatch(written_prefix().subrange(77, written_prefix().len() as int), "'"@, 0, 0); }
        else if j == 1 { lemma_mismatch(written_prefix().subrange(77, written_prefix().len() as int), "'"@, 1, 0); }
        else if j == 2 { lemma_mismatch(written_prefix().subrange(77, written_prefix().len() as int), "'"@, 2, 0); }
        else if j == 3 { lemma_mismatch(written_prefix().subrange(77, written_prefix().len() as int), "'"@, 3, 0); }
        else if j == 4 { lemma_mismatch(written_prefix().subrange(77, written_prefix().len() as int), "'"@, 4, 0); }
        else if j == 5 { lemma_mismatch(written_prefix().subrange(77, written_prefix().len() as int), "'"@, 5, 0); }
        else if j == 6 { lemma_mismatch(written_prefix().subrange(77, written_prefix().len() as int), "'"@, 6, 0); }
        else if j == 7 { lemma_mismatch(written_prefix().subrange(77, written_prefix().len() as int), "'"@, 7, 0); }
        else if j == 8 { lemma_mismatch(written_prefix().subrange(77, written_prefix().len() as int), "'"@, 8, 0); }
        else if j == 9 { lemma_mismatch(written_prefix().subrange(77, written_prefix().len() as int), "'"@, 9, 0); }
        else if j == 10 { lemma_mismatch(written_prefix().subrange(77, written_prefix().len() as int), "'"@, 10, 0); }
    }
    assert(written_prefix().subrange(77, written_prefix().len() as int).subrange(11, 12) =~= "'"@);
    lemma_find_at(written_prefix().subrange(77, written_prefix().len() as int), "'"@, 11);
}

proof fn lemma_find_schema_open()
    ensures
        find("FILE_SCHEMA(('"@, "'"@) == Some(13int),
{
    reveal_strlit("ISO-10303-21;\nHEADER;\nFILE_DESCRIPTION(('NOVA CAD Model'),'2;1');\n");
    reveal_strlit("FILE_NAME('output.step','");
    reveal_strlit("FILE_SCHEMA(('");
    reveal_strlit("'");
    assert forall|j: int| 0 <= j < 13 implies !#[trigger] matches_at("FILE_SCHEMA(('"@, "'"@, j) by {
        if j == 0 { lemma_mismatch("FILE_SCHEMA(('"@, "'"@, 0, 0); }
        else if j == 1 { lemma_mismatch("FILE_SCHEMA(('"@, "'"@, 1, 0); }
        else if j == 2 { lemma_mismatch("FILE_SCHEMA(('"@, "'"@, 2, 0); }
        else if j == 3 { lemma_mismatch("FILE_SCHEMA(('"@, "'"@, 3, 0); }
        else if j == 4 { lemma_mismatch("FILE_SCHEMA(('"@, "'"@, 4, 0); }
        else if j == 5 { lemma_mismatch("FILE_SCHEMA(('"@, "'"@, 5, 0); }
        else if j == 6 { lemma_mismatch("FILE_SCHEMA(('"@, "'"@, 6, 0); }
        else if j == 7 { lemma_mismatch("FILE_SCHEMA(('"@, "'"@, 7, 0); }
        else if j == 8 { lemma_mismatch("FILE_SCHEMA(('"@, "'"@, 8, 0); }
        else if j == 9 { lemma_mismatch("FILE_SCHEMA(('"@, "'"@, 9, 0); }
        else if j == 10 { lemma_mismatch("FILE_SCHEMA(('"@, "'"@, 10, 0); }
        else if j == 11 { lemma_mismatch("FILE_SCHEMA(('"@, "'"@, 11, 0); }
        else if j == 12 { lemma_mismatch("FILE_SCHEMA(('"@, "'"@, 12, 0); }
    }
    assert("FILE_SCHEMA(('"@.subrange(13, 14) =~= "'"@);
    lemma_find_at("FILE_SCHEMA(('"@, "'"@, 13);
}

proof fn lemma_find_schema_close_ap214()
    ensures
        find(StepSchema::AP214.identifier_spec() + "'));"@, "'"@) == Some(17int),
{
    reveal_strlit("AUTOMOTIVE_DESIGN");
    reveal_strlit("'));");
    reveal_strlit("'");
    assert forall|j: int| 0 <= j < 17 implies !#[trigger] matches_at(StepSchema::AP214.identifier_spec() + "'));"@, "'"@, j) by {
        if j == 0 { lemma_mismatch(StepSchema::AP214.identifier_spec() + "'));"@, "'"@, 0, 0); }
        else if j == 1 { lemma_mismatch(StepSchema::AP214.identifier_spec() + "'));"@, "'"@, 1, 0); }
        else if j == 2 { lemma_mismatch(StepSchema::AP214.identifier_spec() + "'));"@, "'"@, 2, 0); }
        else if j == 3 { lemma_mismatch(StepSchema::AP214.identifier_spec() + "'));"@, "'"@, 3, 0); }
        else if j == 4 { lemma_mismatch(StepSchema::AP214.identifier_spec() + "'));"@, "'"@, 4, 0); }
        else if j == 5 { lemma_mismatch(StepSchema::AP214.identifier_spec() + "'));"@, "'"@, 5, 0); }
        else if j == 6 { lemma_mismatch(StepSchema::AP214.identifier_spec() + "'));"@, "'"@, 6, 0); }
        else if j == 7 { lemma_mismatch(StepSchema::AP214.identifier_spec() + "'));"@, "'"@, 7, 0); }
        else if j == 8 { lemma_mismatch(StepSchema::AP214.identifier_spec() + "'));"@, "'"@, 8, 0); }
        else if j == 9 { lemma_mismatch(StepSchema::AP214.identifier_spec() + "'));"@, "'"@, 9, 0); }
        else if j == 10 { lemma_mismatch(StepSchema::AP214.identifier_spec() + "'));"@, "'"@, 10, 0); }
        else if j == 11 { lemma_mismatch(StepSchema::AP214.identifier_spec() + "'));"@, "'"@, 11, 0); }
        else if j == 12 { lemma_mismatch(StepSchema::AP214.identifier_spec() + "'));"@, "'"@, 12, 0); }
        else if j == 13 { lemma_mismatch(StepSchema::AP214.identifier_spec() + "'));"@, "'"@, 13, 0); }
        else if j == 14 { lemma_mismatch(StepSchema::AP214.identifier_spec() + "'));"@, "'"@, 14, 0); }
        else if j == 15 { lemma_mismatch(StepSchema::AP214.identifier_spec() + "'));"@, "'"@, 15, 0); }
        else if j == 16 { lemma_mismatch(StepSchema::AP214.identifier_spec() + "'));"@, "'"@, 16, 0); }
    }
    assert((StepSchema::AP214.identifier_spec() + "'));"@).subrange(17, 18) =~= "'"@);
    lemma_find_at(StepSchema::AP214.identifier_spec() + "'));"@, "'"@, 17);
}

proof fn lemma_schema_one_item_ap214()
    ensures
        find(StepSchema::AP214.identifier_spec(), "','"@) is None,
{
    reveal_strlit("AUTOMOTIVE_DESIGN");
    reveal_strlit("','");
    assert forall|j: int| 0 <= j < 15 implies !#[trigger] matches_at(StepSchema::AP214.identifier_spec(), "','"@, j) by {
        if j == 0 { lemma_mismatch(StepSchema::AP214.identifier_spec(), "','"@, 0, 0); }
        else if j == 1 { lemma_mismatch(StepSchema::AP214.identifier_spec(), "','"@, 1, 0); }
        else if j == 2 { lemma_mismatch(StepSchema::AP214.identifier_spec(), "','"@, 2, 0); }
        else if j == 3 { lemma_mismatch(StepSchema::AP214.identifier_spec(), "','"@, 3, 0); }
        else if j == 4 { lemma_mismatch(StepSchema::AP214.identifier_spec(), "','"@, 4, 0); }
        else if j == 5 { lemma_mismatch(StepSchema::AP214.identifier_spec(), "','"@, 5, 0); }
        else if j == 6 { lemma_mismatch(StepSchema::AP214.identifier_spec(), "','"@, 6, 0); }
        else if j == 7 { lemma_mismatch(StepSchema::AP214.identifier_spec(), "','"@, 7, 0); }
        else if j == 8 { lemma_mismatch(StepSchema::AP214.identifier_spec(), "','"@, 8, 0); }
        else if j == 9 { lemma_mismatch(StepSchema::AP214.identifier_spec(), "','"@, 9, 0); }
        else if j == 10 { lemma_mismatch(StepSchema::AP214.identifier_spec(), "','"@, 10, 0); }
        else if j == 11 { lemma_mismatch(StepSchema::AP214.identifier_spec(), "','"@, 11, 0); }
        else if j == 12 { lemma_mismatch(StepSchema::AP214.identifier_spec(), "','"@, 12, 0); }
        else if j == 13 { lemma_mismatch(StepSchema::AP214.identifier_spec(), "','"@, 13, 0); }
        else if j == 14 { lemma_mismatch(StepSchema::AP214.identifier_spec(), "','"@, 14, 0); }
    }
    lemma_find_none(StepSchema::AP214.identifier_spec(), "','"@);
}

proof fn lemma_find_schema_close_ap242()
    ensures
        find(StepSchema::AP242.identifier_spec() + "'));"@, "'"@) == Some(40int),
{
    reveal_strlit("AP242_MANAGED_MODEL_BASED_3D_ENGINEERING");
    reveal_strlit("'));");
    reveal_strlit("'");
    assert forall|j: int| 0 <= j < 40 implies !#[trigger] matches_at(StepSchema::AP242.identifier_spec() + "'));"@, "'"@, j) by {
        if j == 0 { lemma_mismatch(StepSchema::AP242.identifier_spec() + "'));"@, "'"@, 0, 0); }
        else if j == 1 { lemma_mismatch(StepSchema::AP242.identifier_spec() + "'));"@, "'"@, 1, 0); }
        else if j == 2 { lemma_mismatch(StepSchema::AP242.identifier_spec() + "'));"@, "'"@, 2, 0); }
        else if j == 3 { lemma_mismatch(StepSchema::AP242.identifier_spec() + "'));"@, "'"@, 3, 0); }
        else if j == 4 { lemma_mismatch(StepSchema::AP242.identifier_spec() + "'));"@, "'"@, 4, 0); }
        else if j == 5 { lemma_mismatch(StepSchema::AP242.identifier_spec() + "'));"@, "'"@, 5, 0); }
        else if j == 6 { lemma_mismatch(StepSchema::AP242.identifier_spec() + "'));"@, "'"@, 6, 0); }
        else if j == 7 { lemma_mismatch(StepSchema::AP242.identifier_spec() + "'));"@, "'"@, 7, 0); }
        else if j == 8 { lemma_mismatch(StepSchema::AP242.identifier_spec() + "'));"@, "'"@, 8, 0); }
        else if j == 9 { lemma_mismatch(StepSchema::AP242.identifier_spec() + "'));"@, "'"@, 9, 0); }
        else if j == 10 { lemma_mismatch(StepSchema::AP242.identifier_spec() + "'));"@, "'"@, 10, 0); }
        else if j == 11 { lemma_mismatch(StepSchema::AP242.identifier_spec() + "'));"@, "'"@, 11, 0); }
        else if j == 12 { lemma_mismatch(StepSchema::AP242.identifier_spec() + "'));"@, "'"@, 12, 0); }
        else if j == 13 { lemma_mismatch(StepSchema::AP242.identifier_spec() + "'));"@, "'"@, 13, 0); }
        else if j == 14 { lemma_mismatch(StepSchema::AP242.identifier_spec() + "'));"@, "'"@, 14, 0); }
        else if j == 15 { lemma_mismatch(StepSchema::AP242.identifier_spec() + "'));"@, "'"@, 15, 0); }
        else if j == 16 { lemma_mismatch(StepSchema::AP242.identifier_spec() + "'));"@, "'"@, 16, 0); }
        else if j == 17 { lemma_mismatch(StepSchema::AP242.identifier_spec() + "'));"@, "'"@, 17, 0); }
        else if j == 18 { lemma_mismatch(StepSchema::AP242.identifier_spec() + "'));"@, "'"@, 18, 0); }
        else if j == 19 { lemma_mismatch(StepSchema::AP242.identifier_spec() + "'));"@, "'"@, 19, 0); }
        else if j == 20 { lemma_mismatch(StepSchema::AP242.identifier_spec() + "'));"@, "'"@, 20, 0); }
        else if j == 21 { lemma_mismatch(StepSchema::AP242.identifier_spec() + "'));"@, "'"@, 21, 0); }
        else if j == 22 { lemma_mismatch(StepSchema::AP242.identifier_spec() + "'));"@, "'"@, 22, 0); }
        else if j == 23 { lemma_mismatch(StepSchema::AP242.identifier_spec() + "'));"@, "'"@, 23, 0); }
        else if j == 24 { lemma_mismatch(StepSchema::AP242.identifier_spec() + "'));"@, "'"@, 24, 0); }
        else if j == 25 { lemma_mismatch(StepSchema::AP242.identifier_spec() + "'));"@, "'"@, 25, 0); }
        else if j == 26 { lemma_mismatch(StepSchema::AP242.identifier_spec() + "'));"@, "'"@, 26, 0); }
        else if j == 27 { lemma_mismatch(StepSchema::AP242.identifier_spec() + "'));"@, "'"@, 27, 0); }
        else if j == 28 { lemma_mismatch(StepSchema::AP242.identifier_spec() + "'));"@, "'"@, 28, 0); }
        else if j == 29 { lemma_mismatch(StepSchema::AP242.identifier_spec() + "'));"@, "'"@, 29, 0); }
        else if j == 30 { lemma_mismatch(StepSchema::AP242.identifier_spec() + "'));"@, "'"@, 30, 0); }
        else if j == 31 { lemma_mismatch(StepSchema::AP242.identifier_spec() + "'));"@, "'"@, 31, 0); }
        else if j == 32 { lemma_mismatch(StepSchema::AP242.identifier_spec() + "'));"@, "'"@, 32, 0); }
        else if j == 33 { lemma_mismatch(StepSchema::AP242.identifier_spec() + "'));"@, "'"@, 33, 0); }
        else if j == 34 { lemma_mismatch(StepSchema::AP242.identifier_spec() + "'));"@, "'"@, 34, 0); }
        else if j == 35 { lemma_mismatch(StepSchema::AP242.identifier_spec() + "'));"@, "'"@, 35, 0); }
        else if j == 36 { lemma_mismatch(StepSchema::AP242.identifier_spec() + "'));"@, "'"@, 36, 0); }
        else if j == 37 { lemma_mismatch(StepSchema::AP242.identifier_spec() + "'));"@, "'"@, 37, 0); }
        else if j == 38 { lemma_mismatch(StepSchema::AP242.identifier_spec() + "'));"@, "'"@, 38, 0); }
        else if j == 39 { lemma_mismatch(StepSchema::AP242.identifier_spec() + "'));"@, "'"@, 39, 0); }
    }
    assert((StepSchema::AP242.identifier_spec() + "'));"@).subrange(40, 41) =~= "'"@);
    lemma_find_at(StepSchema::AP242.identifier_spec() + "'));"@, "'"@, 40);
}

proof fn lemma_schema_one_item_ap242()
    ensures
        find(StepSchema::AP242.identifier_spec(), "','"@) is None,
{
    reveal_strlit("AP242_MANAGED_MODEL_BASED_3D_ENGINEERING");
    reveal_strlit("','");
    assert forall|j: int| 0 <= j < 38 implies !#[trigger] matches_at(StepSchema::AP242.identifier_spec(), "','"@, j) by {
        if j == 0 { lemma_mismatch(StepSchema::AP242.identifier_spec(), "','"@, 0, 0); }
        else if j == 1 { lemma_mismatch(StepSchema::AP242.identifier_spec(), "','"@, 1, 0); }
        else if j == 2 { lemma_mismatch(StepSchema::AP242.identifier_spec(), "','"@, 2, 0); }
        else if j == 3 { lemma_mismatch(StepSchema::AP242.identifier_spec(), "','"@, 3, 0); }
        else if j == 4 { lemma_mismatch(StepSchema::AP242.identifier_spec(), "','"@, 4, 0); }
        else if j == 5 { lemma_mismatch(StepSchema::AP242.identifier_spec(), "','"@, 5, 0); }
        else if j == 6 { lemma_mismatch(StepSchema::AP242.identifier_spec(), "','"@, 6, 0); }
        else if j == 7 { lemma_mismatch(StepSchema::AP242.identifier_spec(), "','"@, 7, 0); }
        else if j == 8 { lemma_mismatch(StepSchema::AP242.identifier_spec(), "','"@, 8, 0); }
        else if j == 9 { lemma_mismatch(StepSchema::AP242.identifier_spec(), "','"@, 9, 0); }
        else if j == 10 { lemma_mismatch(StepSchema::AP242.identifier_spec(), "','"@, 10, 0); }
        else if j == 11 { lemma_mismatch(StepSchema::AP242.identifier_spec(), "','"@, 11, 0); }
        else if j == 12 { lemma_mismatch(StepSchema::AP242.identifier_spec(), "','"@, 12, 0); }
        else if j == 13 { lemma_mismatch(StepSchema::AP242.identifier_spec(), "','"@, 13, 0); }
        else if j == 14 { lemma_mismatch(StepSchema::AP242.identifier_spec(), "','"@, 14, 0); }
        else if j == 15 { lemma_mismatch(StepSchema::AP242.identifier_spec(), "','"@, 15, 0); }
        else if j == 16 { lemma_mismatch(StepSchema::AP242.identifier_spec(), "','"@, 16, 0); }
        else if j == 17 { lemma_mismatch(StepSchema::AP242.identifier_spec(), "','"@, 17, 0); }
        else if j == 18 { lemma_mismatch(StepSchema::AP242.identifier_spec(), "','"@, 18, 0); }
        else if j == 19 { lemma_mismatch(StepSchema::AP242.identifier_spec(), "','"@, 19, 0); }
        else if j == 20 { lemma_mismatch(StepSchema::AP242.identifier_spec(), "','"@, 20, 0); }
        else if j == 21 { lemma_mismatch(StepSchema::AP242.identifier_spec(), "','"@, 21, 0); }
        else if j == 22 { lemma_mismatch(StepSchema::AP242.identifier_spec(), "','"@, 22, 0); }
        else if j == 23 { lemma_mismatch(StepSchema::AP242.identifier_spec(), "','"@, 23, 0); }
        else if j == 24 { lemma_mismatch(StepSchema::AP242.identifier_spec(), "','"@, 24, 0); }
        else if j == 25 { lemma_mismatch(StepSchema::AP242.identifier_spec(), "','"@, 25, 0); }
        else if j == 26 { lemma_mismatch(StepSchema::AP242.identifier_spec(), "','"@, 26, 0); }
        else if j == 27 { lemma_mismatch(StepSchema::AP242.identifier_spec(), "','"@, 27, 0); }
        else if j == 28 { lemma_mismatch(StepSchema::AP242.identifier_spec(), "','"@, 28, 0); }
        else if j == 29 { lemma_mismatch(StepSchema::AP242.identifier_spec(), "','"@, 29, 0); }
        else if j == 30 { lemma_mismatch(StepSchema::AP242.identifier_spec(), "','"@, 30, 0); }
        else if j == 31 { lemma_mismatch(StepSchema::AP242.identifier_spec(), "','"@, 31, 0); }
        else if j == 32 { lemma_mismatch(StepSchema::AP242.identifier_spec(), "','"@, 32, 0); }
        else if j == 33 { lemma_mismatch(StepSchema::AP242.identifier_spec(), "','"@, 33, 0); }
        else if j == 34 { lemma_mismatch(StepSchema::AP242.identifier_spec(), "','"@, 34, 0); }
        else if j == 35 { lemma_mismatch(StepSchema::AP242.identifier_spec(), "','"@, 35, 0); }
        else if j == 36 { lemma_mismatch(StepSchema::AP242.identifier_spec(), "','"@, 36, 0); }
        else if j == 37 { lemma_mismatch(StepSchema::AP242.identifier_spec(), "','"@, 37, 0); }
    }
    lemma_find_none(StepSchema::AP242.identifier_spec(), "','"@);
}

proof fn lemma_description_one_item()
    ensures
        find("'NOVA CAD Model"@, "','"@) is None,
{
    reveal_strlit("'NOVA CAD Model");
    reveal_strlit("','");
    assert forall|j: int| 0 <= j < 13 implies !#[trigger] matches_at("'NOVA CAD Model"@, "','"@, j) by {
        if j == 0 { lemma_mismatch("'NOVA CAD Model"@, "','"@, 0, 1); }
        else if j == 1 { lemma_mismatch("'NOVA CAD Model"@, "','"@, 1, 0); }
        else if j == 2 { lemma_mismatch("'NOVA CAD Model"@, "','"@, 2, 0); }
        else if j == 3 { lemma_mismatch("'NOVA CAD Model"@, "','"@, 3, 0); }
        else if j == 4 { lemma_mismatch("'NOVA CAD Model"@, "','"@, 4, 0); }
        else if j == 5 { lemma_mismatch("'NOVA CAD Model"@, "','"@, 5, 0); }
        else if j == 6 { lemma_mismatch("'NOVA CAD Model"@, "','"@, 6, 0); }
        else if j == 7 { lemma_mismatch("'NOVA CAD Model"@, "','"@, 7, 0); }
        else if j == 8 { lemma_mismatch("'NOVA CAD Model"@, "','"@, 8, 0); }
        else if j == 9 { lemma_mismatch("'NOVA CAD Model"@, "','"@, 9, 0); }
        else if j == 10 { lemma_mismatch("'NOVA CAD Model"@, "','"@, 10, 0); }
        else if j == 11 { lemma_mismatch("'NOVA CAD Model"@, "','"@, 11, 0); }
        else if j == 12 { lemma_mismatch("'NOVA CAD Model"@, "','"@, 12, 0); }
    }
    lemma_find_none("'NOVA CAD Model"@, "','"@);
}

proof fn lemma_tail_without_schema_key(schema: StepSchema)
    ensures
        forall|j: int| 0 <= j < 43 ==> !#[trigger] matches_at("'),('NOVA CAD'),'NOVA CAD','NOVA CAD','');\n"@ + "FILE_SCHEMA(('"@ + schema.identifier_spec() + "'));"@, "FILE_SCHEMA"@, j),
{
    reveal_strlit("'),('NOVA CAD'),'NOVA CAD','NOVA CAD','');\n");
    reveal_strlit("FILE_SCHEMA(('");
    reveal_strlit("'));");
    reveal_strlit("FILE_SCHEMA");
    assert forall|j: int| 0 <= j < 43 implies !#[trigger] matches_at(("'),('NOVA CAD'),'NOVA CAD','NOVA CAD','');\n"@ + "FILE_SCHEMA(('"@ + schema.identifier_spec() + "'));"@), "FILE_SCHEMA"@, j) by {
        if j == 0 { lemma_mismatch(("'),('NOVA CAD'),'NOVA CAD','NOVA CAD','');\n"@ + "FILE_SCHEMA(('"@ + schema.identifier_spec() + "'));"@), "FILE_SCHEMA"@, 0, 0); }
        else if j == 1 { lemma_mismatch(("'),('NOVA CAD'),'NOVA CAD','NOVA CAD','');\n"@ + "FILE_SCHEMA(('"@ + schema.identifier_spec() + "'));"@), "FILE_SCHEMA"@, 1, 0); }
        else if j == 2 { lemma_mismatch(("'),('NOVA CAD'),'NOVA CAD','NOVA CAD','');\n"@ + "FILE_SCHEMA(('"@ + schema.identifier_spec() + "'));"@), "FILE_SCHEMA"@, 2, 0); }
        else if j == 3 { lemma_mismatch(("'),('NOVA CAD'),'NOVA CAD','NOVA CAD','');\n"@ + "FILE_SCHEMA(('"@ + schema.identifier_spec() + "'));"@), "FILE_SCHEMA"@, 3, 0); }
        else if j == 4 { lemma_mismatch(("'),('NOVA CAD'),'NOVA CAD','NOVA CAD','');\n"@ + "FILE_SCHEMA(('"@ + schema.identifier_spec() + "'));"@), "FILE_SCHEMA"@, 4, 0); }
        else if j == 5 { lemma_mismatch(("'),('NOVA CAD'),'NOVA CAD','NOVA CAD','');\n"@ + "FILE_SCHEMA(('"@ + schema.identifier_spec() + "'));"@), "FILE_SCHEMA"@, 5, 0); }
        else if j == 6 { lemma_mismatch(("'),('NOVA CAD'),'NOVA CAD','NOVA CAD','');\n"@ + "FILE_SCHEMA(('"@ + schema.identifier_spec() + "'));"@), "FILE_SCHEMA"@, 6, 0); }
        else if j == 7 { lemma_mismatch(("'),('NOVA CAD'),'NOVA CAD','NOVA CAD','');\n"@ + "FILE_SCHEMA(('"@ + schema.identifier_spec() + "'));"@), "FILE_SCHEMA"@, 7, 0); }
        else if j == 8 { lemma_mismatch(("'),('NOVA CAD'),'NOVA CAD','NOVA CAD','');\n"@ + "FILE_SCHEMA(('"@ + schema.identifier_spec() + "'));"@), "FILE_SCHEMA"@, 8, 0); }
        else if j == 9 { lemma_mismatch(("'),('NOVA CAD'),'NOVA CAD','NOVA CAD','');\n"@ + "FILE_SCHEMA(('"@ + schema.identifier_spec() + "'));"@), "FILE_SCHEMA"@, 9, 0); }
        else if j == 10 { lemma_mismatch(("'),('NOVA CAD'),'NOVA CAD','NOVA CAD','');\n"@ + "FILE_SCHEMA(('"@ + schema.identifier_spec() + "'));"@), "FILE_SCHEMA"@, 10, 0); }
        else if j == 11 { lemma_mismatch(("'),('NOVA CAD'),'NOVA CAD','NOVA CAD','');\n"@ + "FILE_SCHEMA(('"@ + schema.identifier_spec() + "'));"@), "FILE_SCHEMA"@, 11, 0); }
        else if j == 12 { lemma_mismatch(("'),('NOVA CAD'),'NOVA CAD','NOVA CAD','');\n"@ + "FILE_SCHEMA(('"@ + schema.identifier_spec() + "'));"@), "FILE_SCHEMA"@, 12, 0); }
        else if j == 13 { lemma_mismatch(("'),('NOVA CAD'),'NOVA CAD','NOVA CAD','');\n"@ + "FILE_SCHEMA(('"@ + schema.identifier_spec() + "'));"@), "FILE_SCHEMA"@, 13, 0); }
        else if j == 14 { lemma_mismatch(("'),('NOVA CAD'),'NOVA CAD','NOVA CAD','');\n"@ + "FILE_SCHEMA(('"@ + schema.identifier_spec() + "'));"@), "FILE_SCHEMA"@, 14, 0); }
        else if j == 15 { lemma_mismatch(("'),('NOVA CAD'),'NOVA CAD','NOVA CAD','');\n"@ + "FILE_SCHEMA(('"@ + schema.identifier_spec() + "'));"@), "FILE_SCHEMA"@, 15, 0); }
        else if j == 16 { lemma_mismatch(("'),('NOVA CAD'),'NOVA CAD','NOVA CAD','');\n"@ + "FILE_SCHEMA(('"@ + schema.identifier_spec() + "'));"@), "FILE_SCHEMA"@, 16, 0); }
        else if j == 17 { lemma_mismatch(("'),('NOVA CAD'),'NOVA CAD','NOVA CAD','');\n"@ + "FILE_SCHEMA(('"@ + schema.identifier_spec() + "'));"@), "FILE_SCHEMA"@, 17, 0); }
        else if j == 18 { lemma_mismatch(("'),('NOVA CAD'),'NOVA CAD','NOVA CAD','');\n"@ + "FILE_SCHEMA(('"@ + schema.identifier_spec() + "'));"@), "FILE_SCHEMA"@, 18, 0); }
        else if j == 19 { lemma_mismatch(("'),('NOVA CAD'),'NOVA CAD','NOVA CAD','');\n"@ + "FILE_SCHEMA(('"@ + schema.identifier_spec() + "'));"@), "FILE_SCHEMA"@, 19, 0); }
        else if j == 20 { lemma_mismatch(("'),('NOVA CAD'),'NOVA CAD','NOVA CAD','');\n"@ + "FILE_SCHEMA(('"@ + schema.identifier_spec() + "'));"@), "FILE_SCHEMA"@, 20, 0); }
        else if j == 21 { lemma_mismatch(("'),('NOVA CAD'),'NOVA CAD','NOVA CAD','');\n"@ + "FILE_SCHEMA(('"@ + schema.identifier_spec() + "'));"@), "FILE_SCHEMA"@, 21, 0); }
        else if j == 22 { lemma_mismatch(("'),('NOVA CAD'),'NOVA CAD','NOVA CAD','');\n"@ + "FILE_SCHEMA(('"@ + schema.identifier_spec() + "'));"@), "FILE_SCHEMA"@, 22, 0); }
        else if j == 23 { lemma_mismatch(("'),('NOVA CAD'),'NOVA CAD','NOVA CAD','');\n"@ + "FILE_SCHEMA(('"@ + schema.identifier_spec() + "'));"@), "FILE_SCHEMA"@, 23, 0); }
        else if j == 24 { lemma_mismatch(("'),('NOVA CAD'),'NOVA CAD','NOVA CAD','');\n"@ + "FILE_SCHEMA(('"@ + schema.identifier_spec() + "'));"@), "FILE_SCHEMA"@, 24, 0); }
        else if j == 25 { lemma_mismatch(("'),('NOVA CAD'),'NOVA CAD','NOVA CAD','');\n"@ + "FILE_SCHEMA(('"@ + schema.identifier_spec() + "'));"@), "FILE_SCHEMA"@, 25, 0); }
        else if j == 26 { lemma_mismatch(("'),('NOVA CAD'),'NOVA CAD','NOVA CAD','');\n"@ + "FILE_SCHEMA(('"@ + schema.identifier_spec() + "'));"@), "FILE_SCHEMA"@, 26, 0); }
        else if j == 27 { lemma_mismatch(("'),('NOVA CAD'),'NOVA CAD','NOVA CAD','');\n"@ + "FILE_SCHEMA(('"@ + schema.identifier_spec() + "'));"@), "FILE_SCHEMA"@, 27, 0); }
        else if j == 28 { lemma_mismatch(("'),('NOVA CAD'),'NOVA CAD','NOVA CAD','');\n"@ + "FILE_SCHEMA(('"@ + schema.identifier_spec() + "'));"@), "FILE_SCHEMA"@, 28, 0); }
        else if j == 29 { lemma_mismatch(("'),('NOVA CAD'),'NOVA CAD','NOVA CAD','');\n"@ + "FILE_SCHEMA(('"@ + schema.identifier_spec() + "'));"@), "FILE_SCHEMA"@, 29, 0); }
        else if j == 30 { lemma_mismatch(("'),('NOVA CAD'),'NOVA CAD','NOVA CAD','');\n"@ + "FILE_SCHEMA(('"@ + schema.identifier_spec() + "'));"@), "FILE_SCHEMA"@, 30, 0); }
        else if j == 31 { lemma_mismatch(("'),('NOVA CAD'),'NOVA CAD','NOVA CAD','');\n"@ + "FILE_SCHEMA(('"@ + schema.identifier_spec() + "'));"@), "FILE_SCHEMA"@, 31, 0); }
        else if j == 32 { lemma_mismatch(("'),('NOVA CAD'),'NOVA CAD','NOVA CAD','');\n"@ + "FILE_SCHEMA(('"@ + schema.identifier_spec() + "'));"@), "FILE_SCHEMA"@, 32, 0); }
        else if j == 33 { lemma_mismatch(("'),('NOVA CAD'),'NOVA CAD','NOVA CAD','');\n"@ + "FILE_SCHEMA(('"@ + schema.identifier_spec() + "'));"@), "FILE_SCHEMA"@, 33, 0); }
        else if j == 34 { lemma_mismatch(("'),('NOVA CAD'),'NOVA CAD','NOVA CAD','');\n"@ + "FILE_SCHEMA(('"@ + schema.identifier_spec() + "'));"@), "FILE_SCHEMA"@, 34, 0); }
        else if j == 35 { lemma_mismatch(("'),('NOVA CAD'),'NOVA CAD','NOVA CAD','');\n"@ + "FILE_SCHEMA(('"@ + schema.identifier_spec() + "'));"@), "FILE_SCHEMA"@, 35, 0); }
        else if j == 36 { lemma_mismatch(("'),('NOVA CAD'),'NOVA CAD','NOVA CAD','');\n"@ + "FILE_SCHEMA(('"@ + schema.identifier_spec() + "'));"@), "FILE_SCHEMA"@, 36, 0); }
        else if j == 37 { lemma_mismatch(("'),('NOVA CAD'),'NOVA CAD','NOVA CAD','');\n"@ + "FILE_SCHEMA(('"@ + schema.identifier_spec() + "'));"@), "FILE_SCHEMA"@, 37, 0); }
        else if j == 38 { lemma_mismatch(("'),('NOVA CAD'),'NOVA CAD','NOVA CAD','');\n"@ + "FILE_SCHEMA(('"@ + schema.identifier_spec() + "'));"@), "FILE_SCHEMA"@, 38, 0); }
        else if j == 39 { lemma_mismatch(("'),('NOVA CAD'),'NOVA CAD','NOVA CAD','');\n"@ + "FILE_SCHEMA(('"@ + schema.identifier_spec() + "'));"@), "FILE_SCHEMA"@, 39, 0); }
        else if j == 40 { lemma_mismatch(("'),('NOVA CAD'),'NOVA CAD','NOVA CAD','');\n"@ + "FILE_SCHEMA(('"@ + schema.identifier_spec() + "'));"@), "FILE_SCHEMA"@, 40, 0); }
        else if j == 41 { lemma_mismatch(("'),('NOVA CAD'),'NOVA CAD','NOVA CAD','');\n"@ + "FILE_SCHEMA(('"@ + schema.identifier_spec() + "'));"@), "FILE_SCHEMA"@, 41, 0); }
        else if j == 42 { lemma_mismatch(("'),('NOVA CAD'),'NOVA CAD','NOVA CAD','');\n"@ + "FILE_SCHEMA(('"@ + schema.identifier_spec() + "'));"@), "FILE_SCHEMA"@, 42, 0); }
    }
}

/// The first section of a written header as the reader sees it: the text
/// before `ENDSEC;`, without its final line break.
pub open spec fn written_section(schema: StepSchema, t: Seq<char>, a: Seq<char>) -> Seq<char> {
    written_prefix() + (t + "',('"@ + a + ("'),('NOVA CAD'),'NOVA CAD','NOVA CAD','');\n"@ + "FILE_SCHEMA(('"@
        + schema.identifier_spec() + "'));"@))
}

#[verifier::rlimit(50)]
proof fn lemma_first_section(schema: StepSchema, t: Seq<char>, a: Seq<char>)
    requires
        !contains(t, "ENDSEC;"@),
        !contains(a, "ENDSEC;"@),
    ensures
        trim(split(header_text(schema, t, a), "ENDSEC;"@)[0]) == written_section(schema, t, a),
{
    reveal_strlit("ISO-10303-21;\nHEADER;\nFILE_DESCRIPTION(('NOVA CAD Model'),'2;1');\n");
    reveal_strlit("FILE_NAME('output.step','");
    reveal_strlit("',('");
    reveal_strlit("'),('NOVA CAD'),'NOVA CAD','NOVA CAD','');\n");
    reveal_strlit("FILE_SCHEMA(('");
    reveal_strlit("'));\n");
    reveal_strlit("'));");
    reveal_strlit("ENDSEC;\n");
    reveal_strlit("ENDSEC;");
    reveal_strlit("AUTOMOTIVE_DESIGN");
    reveal_strlit("AP242_MANAGED_MODEL_BASED_3D_ENGINEERING");
    let l0 = written_prefix();
    let id = schema.identifier_spec();
    let tail = written_tail(schema);
    let h = header_text(schema, t, a);
    assert(h =~= l0 + t + "',('"@ + a + tail);
    let es = "ENDSEC;"@;
    let et: int = 57 + id.len() as int + 5;
    lemma_prefix_without_endsec();
    assert(forall|m: int| 0 <= m < es.len() ==> #[trigger] es[m] != '\'');
    match schema {
        StepSchema::AP214 => lemma_tail_without_endsec_ap214(),
        StepSchema::AP242 => lemma_tail_without_endsec_ap242(),
    }
    lemma_no_early_match(l0, t, a, tail, es, et);
    let e: int = l0.len() as int + t.len() + 4 + a.len() + et;
    assert(h.subrange(e, e + 7) =~= es);
    lemma_find_at(h, es, e);
    let h0 = h.subrange(0, e);
    assert(split(h, es)[0] == h0);
    assert(h0 =~= written_section(schema, t, a).push('\n'));
    assert(!is_ws(h0[0]));
    assert(trim_start(h0) == h0);
    assert(is_ws(h0.last()));
    assert(trim_end(h0) == trim_end(h0.drop_last()));
    assert(h0.drop_last() =~= written_section(schema, t, a));
    assert(!is_ws(h0.drop_last().last()));
    assert(trim_end(h0.drop_last()) == h0.drop_last());
}

proof fn lemma_section_description(schema: StepSchema, t: Seq<char>, a: Seq<char>)
    ensures
        header_field(written_section(schema, t, a), "FILE_DESCRIPTION"@, "('"@, 1, "')"@) == Some("'NOVA CAD Model"@),
        quoted_items("'NOVA CAD Model"@) == seq!["NOVA CAD Model"@],
{
    reveal_strlit("'NOVA CAD Model");
    reveal_strlit("NOVA CAD Model");
    reveal_strlit("ISO-10303-21;\nHEADER;\nFILE_DESCRIPTION(('NOVA CAD Model'),'2;1');\n");
    reveal_strlit("FILE_NAME('output.step','");
    let l0 = written_prefix();
    let sec = written_section(schema, t, a);
    let rest = t + "',('"@ + a + ("'),('NOVA CAD'),'NOVA CAD','NOVA CAD','');\n"@ + "FILE_SCHEMA(('"@
        + schema.identifier_spec() + "'));"@);
    assert(sec == l0 + rest);
    lemma_find_prefix_description();
    lemma_find_prefix(l0, rest, "FILE_DESCRIPTION"@);
    assert(sec.subrange(22, sec.len() as int) =~= l0.subrange(22, l0.len() as int) + rest);
    lemma_find_description_open();
    lemma_find_prefix(l0.subrange(22, l0.len() as int), rest, "('"@);
    assert(sec.subrange(40, sec.len() as int) =~= l0.subrange(40, l0.len() as int) + rest);
    lemma_find_description_close();
    lemma_find_prefix(l0.subrange(40, l0.len() as int), rest, "')"@);
    let d = sec.subrange(40, 55);
    assert(d =~= "'NOVA CAD Model"@);
    lemma_description_one_item();
    assert(split(d, "','"@) == seq![d]);
    assert(trim_start(d) == d);
    assert(trim_end(d) == d);
    assert(trim_start_char(d, '\'') == trim_start_char(d.drop_first(), '\''));
    assert(trim_start_char(d.drop_first(), '\'') == d.drop_first());
    assert(trim_end_char(d.drop_first(), '\'') == d.drop_first());
    assert(d.drop_first() =~= "NOVA CAD Model"@);
    assert(quoted_items(d) =~= seq!["NOVA CAD Model"@]);
}

proof fn lemma_section_name(schema: StepSchema, t: Seq<char>, a: Seq<char>)
    ensures
        header_field(written_section(schema, t, a), "FILE_NAME"@, "'"@, 1, "'"@) == Some("output.step"@),
{
    reveal_strlit("output.step");
    reveal_strlit("ISO-10303-21;\nHEADER;\nFILE_DESCRIPTION(('NOVA CAD Model'),'2;1');\n");
    reveal_strlit("FILE_NAME('output.step','");
    let l0 = written_prefix();
    let sec = written_section(schema, t, a);
    let rest = t + "',('"@ + a + ("'),('NOVA CAD'),'NOVA CAD','NOVA CAD','');\n"@ + "FILE_SCHEMA(('"@
        + schema.identifier_spec() + "'));"@);
    assert(sec == l0 + rest);
    lemma_find_prefix_name();
    lemma_find_prefix(l0, rest, "FILE_NAME"@);
    assert(sec.subrange(66, sec.len() as int) =~= l0.subrange(66, l0.len() as int) + rest);
    lemma_find_name_open();
    lemma_find_prefix(l0.subrange(66, l0.len() as int), rest, "'"@);
    assert(sec.subrange(77, sec.len() as int) =~= l0.subrange(77, l0.len() as int) + rest);
    lemma_find_name_close();
    lemma_find_prefix(l0.subrange(77, l0.len() as int), rest, "'"@);
    assert(sec.subrange(77, 88) =~= "output.step"@);
}

#[verifier::rlimit(50)]
proof fn lemma_section_schema(schema: StepSchema, t: Seq<char>, a: Seq<char>)
    requires
        !contains(t, "FILE_SCHEMA"@),
        !contains(a, "FILE_SCHEMA"@),
    ensures
        header_field(written_section(schema, t, a), "FILE_SCHEMA"@, "'"@, 1, "'"@) == Some(schema.identifier_spec()),
        quoted_items(schema.identifier_spec()) == seq![schema.identifier_spec()],
{
    reveal_strlit("ISO-10303-21;\nHEADER;\nFILE_DESCRIPTION(('NOVA CAD Model'),'2;1');\n");
    reveal_strlit("FILE_NAME('output.step','");
    reveal_strlit("',('");
    reveal_strlit("'),('NOVA CAD'),'NOVA CAD','NOVA CAD','');\n");
    reveal_strlit("FILE_SCHEMA(('");
    reveal_strlit("'));");
    reveal_strlit("FILE_SCHEMA");
    reveal_strlit("AUTOMOTIVE_DESIGN");
    reveal_strlit("AP242_MANAGED_MODEL_BASED_3D_ENGINEERING");
    let l0 = written_prefix();
    let id = schema.identifier_spec();
    let sec = written_section(schema, t, a);
    let fs = "FILE_SCHEMA"@;
    let tail2 = "'),('NOVA CAD'),'NOVA CAD','NOVA CAD','');\n"@ + "FILE_SCHEMA(('"@ + id + "'));"@;
    assert(sec =~= l0 + t + "',('"@ + a + tail2);
    lemma_prefix_without_schema_key();
    lemma_tail_without_schema_key(schema);
    assert(forall|m: int| 0 <= m < fs.len() ==> #[trigger] fs[m] != '\'');
    lemma_no_early_match(l0, t, a, tail2, fs, 43);
    let f: int = l0.len() + t.len() + 4 + a.len() + 43int;
    assert(sec.subrange(f, f + 11) =~= fs);
    lemma_find_at(sec, fs, f);
    let after = id + "'));"@;
    assert(sec.subrange(f, sec.len() as int) =~= "FILE_SCHEMA(('"@ + after);
    lemma_find_schema_open();
    lemma_find_prefix("FILE_SCHEMA(('"@, after, "'"@);
    assert(sec.subrange(f + 14, sec.len() as int) =~= after);
    match schema {
        StepSchema::AP214 => {
            lemma_find_schema_close_ap214();
            lemma_schema_one_item_ap214();
        },
        StepSchema::AP242 => {
            lemma_find_schema_close_ap242();
            lemma_schema_one_item_ap242();
        },
    }
    assert(sec.subrange(f + 14, f + 14 + id.len()) =~= id);
    assert(split(id, "','"@) == seq![id]);
    assert(trim_start(id) == id);
    assert(trim_end(id) == id);
    assert(trim_start_char(id, '\'') == id);
    assert(trim_end_char(id, '\'') == id);
    assert(quoted_items(id) =~= seq![id]);
}

/// The reader recovers what the writer's header states: reading the first
/// section of a written STEP text (everything before the first `ENDSEC;`,
/// trimmed) as a header gives the description "NOVA CAD Model", the file
/// name "output.step" and the schema written, provided the timestamp and the
/// author hold neither `ENDSEC;` nor `FILE_SCHEMA` (the reader searches for
/// those words).
pub proof fn lemma_header_read_back(schema: StepSchema, t: Seq<char>, a: Seq<char>)
    requires
        !contains(t, "ENDSEC;"@),
        !contains(a, "ENDSEC;"@),
        !contains(t, "FILE_SCHEMA"@),
        !contains(a, "FILE_SCHEMA"@),
    ensures
        header_spec(trim(split(header_text(schema, t, a), "ENDSEC;"@)[0])).description == seq!["NOVA CAD Model"@],
        header_spec(trim(split(header_text(schema, t, a), "ENDSEC;"@)[0])).name == "output.step"@,
        header_spec(trim(split(header_text(schema, t, a), "ENDSEC;"@)[0])).schema_names == seq![
            schema.identifier_spec(),
        ],
{
    lemma_first_section(schema, t, a);
    lemma_section_description(schema, t, a);
    lemma_section_name(schema, t, a);
    lemma_section_schema(schema, t, a);
}

} // verus!
