//! The streaming serializer: renders a sequence of JSON-text rows as one
//! JSON array, with an exact character-for-character format.
//!
//! The format is: `[`; for each row in order, a `,` before every row except
//! the first, then a newline, then the row's JSON text verbatim; a newline
//! after the last row if there is one; finally `]` and a newline.  Zero rows
//! produce exactly `[]` followed by one newline.

use vstd::prelude::*;

verus! {

/// The interior of the array for a non-empty row sequence: the rows in
/// order, separated by `,` followed by a newline.
pub open spec fn spec_join(rows: Seq<Seq<char>>) -> Seq<char>
    decreases rows.len(),
{
    if rows.len() == 0 {
        Seq::empty()
    } else if rows.len() == 1 {
        rows[0]
    } else {
        rows[0] + seq![',', '\n'] + spec_join(rows.drop_first())
    }
}

/// The complete snapshot content for a row sequence.
pub open spec fn spec_snapshot(rows: Seq<Seq<char>>) -> Seq<char> {
    if rows.len() == 0 {
        seq!['[', ']', '\n']
    } else {
        seq!['[', '\n'] + spec_join(rows) + seq!['\n', ']', '\n']
    }
}

/// What the writer has emitted after the opening bracket, once some rows
/// have been pushed.
pub open spec fn spec_items(rows: Seq<Seq<char>>) -> Seq<char> {
    if rows.len() == 0 {
        Seq::empty()
    } else {
        seq!['\n'] + spec_join(rows)
    }
}

/// Appending a row extends the interior by a separator and the row.
pub proof fn lemma_join_push(rows: Seq<Seq<char>>, row: Seq<char>)
    requires
        rows.len() >= 1,
    ensures
        spec_join(rows.push(row)) == spec_join(rows) + seq![',', '\n'] + row,
    decreases rows.len(),
{
    if rows.len() == 1 {
        let p = rows.push(row);
        assert(p.drop_first() =~= seq![row]);
        assert(spec_join(p.drop_first()) == row);
        assert(spec_join(p) == p[0] + seq![',', '\n'] + row);
        assert(p[0] == rows[0]);
        assert(spec_join(rows) == rows[0]);
    } else {
        let p = rows.push(row);
        assert(p.drop_first() =~= rows.drop_first().push(row));
        lemma_join_push(rows.drop_first(), row);
        assert(spec_join(p) == p[0] + seq![',', '\n'] + spec_join(p.drop_first()));
        assert(p[0] == rows[0]);
        assert(rows[0] + seq![',', '\n'] + (spec_join(rows.drop_first()) + seq![',', '\n'] + row)
            =~= (rows[0] + seq![',', '\n'] + spec_join(rows.drop_first())) + seq![',', '\n'] + row);
    }
}

/// Streams one snapshot: rows are pushed one at a time and the accumulated
/// content never materializes the row sequence, only the output text.
pub struct SnapshotWriter {
    out: String,
    count: usize,
    rows: Ghost<Seq<Seq<char>>>,
}

impl SnapshotWriter {
    /// The rows pushed so far, in order.
    pub closed spec fn rows(self) -> Seq<Seq<char>> {
        self.rows@
    }

    pub closed spec fn wf(self) -> bool {
        &&& self.count == self.rows@.len()
        &&& self.out@ == seq!['['] + spec_items(self.rows@)
    }

    pub fn new() -> (w: Self)
        ensures
            w.wf(),
            w.rows() == Seq::<Seq<char>>::empty(),
    {
        let mut out = String::new();
        out.append("[");
        proof {
            reveal_strlit("[");
            assert(out@ =~= seq!['['] + spec_items(Seq::<Seq<char>>::empty()));
        }
        SnapshotWriter { out, count: 0, rows: Ghost(Seq::empty()) }
    }

    /// The number of rows pushed so far.
    pub fn row_count(&self) -> (c: usize)
        requires
            self.wf(),
        ensures
            c == self.rows().len(),
    {
        self.count
    }

    /// Appends one row's JSON text to the array.
    pub fn push_row(&mut self, row: &str)
        requires
            old(self).wf(),
            old(self).rows().len() < usize::MAX,
        ensures
            final(self).wf(),
            final(self).rows() == old(self).rows().push(row@),
    {
        proof {
            reveal_strlit(",\n");
            reveal_strlit("\n");
        }
        if self.count > 0 {
            self.out.append(",\n");
        } else {
            self.out.append("\n");
        }
        self.out.append(row);
        self.count = self.count + 1;
        proof {
            let prior = self.rows@;
            self.rows@ = self.rows@.push(row@);
            if prior.len() == 0 {
                assert(self.rows@ =~= seq![row@]);
                assert(spec_join(self.rows@) == row@);
                assert(self.out@ =~= seq!['['] + spec_items(self.rows@));
            } else {
                lemma_join_push(prior, row@);
                assert(self.out@ =~= seq!['['] + spec_items(self.rows@));
            }
        }
    }

    /// Closes the array and hands back the full content and the row count.
    pub fn finish(self) -> (r: (String, usize))
        requires
            self.wf(),
        ensures
            r.0@ == spec_snapshot(self.rows()),
            r.1 == self.rows().len(),
    {
        proof {
            reveal_strlit("\n]\n");
            reveal_strlit("]\n");
        }
        let mut out = self.out;
        if self.count > 0 {
            out.append("\n]\n");
        } else {
            out.append("]\n");
        }
        proof {
            assert(out@ =~= spec_snapshot(self.rows@));
        }
        (out, self.count)
    }
}

/// Renders a full snapshot from an already-collected row sequence and
/// reports how many rows were written.
pub fn render_snapshot(rows: &Vec<String>) -> (r: (String, usize))
    ensures
        r.0@ == spec_snapshot(rows.deep_view()),
        r.1 == rows@.len(),
{
    let mut w = SnapshotWriter::new();
    let mut i: usize = 0;
    while i < rows.len()
        invariant
            w.wf(),
            i <= rows@.len(),
            w.rows() == rows.deep_view().take(i as int),
        decreases rows@.len() - i,
    {
        w.push_row(rows[i].as_str());
        proof {
            assert(rows.deep_view().take(i + 1 as int)
                =~= rows.deep_view().take(i as int).push(rows@[i as int]@));
        }
        i = i + 1;
    }
    proof {
        assert(rows.deep_view().take(rows@.len() as int) =~= rows.deep_view());
    }
    w.finish()
}

/// Rendering is a function of the rows alone: two regenerations over
/// unchanged data produce identical snapshot content.
pub proof fn lemma_snapshot_deterministic(rows1: Seq<Seq<char>>, rows2: Seq<Seq<char>>)
    requires
        rows1 == rows2,
    ensures
        spec_snapshot(rows1) == spec_snapshot(rows2),
{
}

/// A zero-row snapshot is exactly `[]` followed by one newline.
pub proof fn lemma_empty_snapshot()
    ensures
        spec_snapshot(Seq::<Seq<char>>::empty()) == seq!['[', ']', '\n'],
{
}

} // verus!
