//! A ghost-level reader for the snapshot format, and the proof that it
//! recovers exactly the rows the serializer was given.
//!
//! Rows here are JSON texts with no raw newline (a JSON encoder escapes
//! control characters inside strings), so the format's newline placement
//! identifies every row boundary unambiguously.

use vstd::prelude::*;
use crate::serializer::{spec_join, spec_snapshot};

verus! {

/// Index of the first newline in `s`, or `s.len()` if none occurs.
pub open spec fn spec_find_nl(s: Seq<char>) -> int
    decreases s.len(),
{
    if s.len() == 0 {
        0
    } else if s[0] == '\n' {
        0
    } else {
        1 + spec_find_nl(s.drop_first())
    }
}

/// The row text contains no raw newline.
pub open spec fn newline_free(r: Seq<char>) -> bool {
    forall|i: int| 0 <= i < r.len() ==> r[i] != '\n'
}

/// Every row in the sequence is newline-free.
pub open spec fn all_newline_free(rows: Seq<Seq<char>>) -> bool {
    forall|i: int| 0 <= i < rows.len() ==> newline_free(#[trigger] rows[i])
}

/// In `a + "\n" + b` with `a` newline-free, the first newline sits exactly
/// after `a`.
pub proof fn lemma_find_nl_concat(a: Seq<char>, b: Seq<char>)
    requires
        newline_free(a),
    ensures
        spec_find_nl(a + seq!['\n'] + b) == a.len(),
    decreases a.len(),
{
    let s = a + seq!['\n'] + b;
    if a.len() == 0 {
        assert(s[0] == '\n');
    } else {
        assert(s[0] == a[0]);
        assert(newline_free(a.drop_first()));
        lemma_find_nl_concat(a.drop_first(), b);
        assert(s.drop_first() =~= a.drop_first() + seq!['\n'] + b);
    }
}

/// A newline-free sequence has no newline to find.
pub proof fn lemma_find_nl_none(a: Seq<char>)
    requires
        newline_free(a),
    ensures
        spec_find_nl(a) == a.len(),
    decreases a.len(),
{
    if a.len() > 0 {
        assert(newline_free(a.drop_first()));
        lemma_find_nl_none(a.drop_first());
    }
}

/// Splits an array interior shaped `row ("," newline row)*` back into its
/// rows, or fails where the shape does not fit.
pub open spec fn spec_parse_join(s: Seq<char>) -> Option<Seq<Seq<char>>>
    decreases s.len(),
{
    let k = spec_find_nl(s);
    if k == s.len() {
        Some(seq![s])
    } else if 1 <= k < s.len() && s[k - 1] == ',' {
        match spec_parse_join(s.subrange(k + 1, s.len() as int)) {
            Some(rest) => Some(seq![s.subrange(0, k - 1)] + rest),
            None => None,
        }
    } else {
        None
    }
}

/// Reads a whole snapshot back into its rows: `[`, an interior, `]` and a
/// final newline; the empty array has no interior at all.
pub open spec fn spec_parse(content: Seq<char>) -> Option<Seq<Seq<char>>> {
    let n = content.len() as int;
    if n >= 3 && content[0] == '[' && content[n - 2] == ']' && content[n - 1] == '\n' {
        let body = content.subrange(1, n - 2);
        if body.len() == 0 {
            Some(Seq::empty())
        } else if body.len() >= 2 && body[0] == '\n' && body[body.len() - 1] == '\n' {
            spec_parse_join(body.subrange(1, body.len() - 1))
        } else {
            None
        }
    } else {
        None
    }
}

pub proof fn lemma_parse_join_round_trip(rows: Seq<Seq<char>>)
    requires
        rows.len() >= 1,
        all_newline_free(rows),
    ensures
        spec_parse_join(spec_join(rows)) == Some(rows),
    decreases rows.len(),
{
    if rows.len() == 1 {
        let s = spec_join(rows);
        assert(s == rows[0]);
        assert(newline_free(s));
        lemma_find_nl_none(s);
        assert(spec_parse_join(s) == Some(seq![s]));
        assert(seq![s] =~= rows);
    } else {
        let rest = rows.drop_first();
        let s = spec_join(rows);
        let a = rows[0] + seq![','];
        assert(newline_free(rows[0]));
        assert(newline_free(a)) by {
            assert(forall|i: int| 0 <= i < rows[0].len() ==> a[i] == rows[0][i]);
            assert(a[a.len() - 1] == ',');
        }
        assert(s =~= a + seq!['\n'] + spec_join(rest));
        lemma_find_nl_concat(a, spec_join(rest));
        let k = spec_find_nl(s);
        assert(k == a.len() == rows[0].len() + 1);
        assert(s.len() == k + 1 + spec_join(rest).len());
        assert(s[k - 1] == a[k - 1] == ',');
        assert(s.subrange(0, k - 1) =~= rows[0]);
        assert(s.subrange(k + 1, s.len() as int) =~= spec_join(rest));
        assert(all_newline_free(rest)) by {
            assert(forall|i: int| 0 <= i < rest.len() ==> rest[i] == rows[i + 1]);
        }
        lemma_parse_join_round_trip(rest);
        assert(spec_parse_join(s) == Some(seq![rows[0]] + rest));
        assert(seq![rows[0]] + rest =~= rows);
    }
}

/// Reading a rendered snapshot recovers exactly the rows that were written:
/// the array holds one element per row, each verbatim, in the original
/// order.
pub proof fn lemma_snapshot_round_trip(rows: Seq<Seq<char>>)
    requires
        all_newline_free(rows),
    ensures
        spec_parse(spec_snapshot(rows)) == Some(rows),
{
    let content = spec_snapshot(rows);
    let n = content.len() as int;
    if rows.len() == 0 {
        assert(content == seq!['[', ']', '\n']);
        assert(content[0] == '[' && content[1] == ']' && content[2] == '\n');
        assert(content.subrange(1, 1).len() == 0);
        assert(spec_parse(content) == Some(Seq::<Seq<char>>::empty()));
    } else {
        let j = spec_join(rows);
        assert(content =~= seq!['[', '\n'] + j + seq!['\n', ']', '\n']);
        assert(n == j.len() + 5);
        assert(content[0] == '[');
        assert(content[n - 2] == ']');
        assert(content[n - 1] == '\n');
        let body = content.subrange(1, n - 2);
        assert(body =~= seq!['\n'] + j + seq!['\n']);
        assert(body.len() == j.len() + 2 >= 2);
        assert(body[0] == '\n');
        assert(body[body.len() - 1] == '\n');
        assert(body.subrange(1, body.len() - 1) =~= j);
        lemma_parse_join_round_trip(rows);
    }
}

} // verus!
