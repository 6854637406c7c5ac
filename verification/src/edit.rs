use vstd::prelude::*;

verus! {

/// A single text edit against an original source text: replace the
/// `deleted_length` bytes starting at byte offset `position` with
/// `inserted_text`. Offsets always refer to the original text, never to
/// partially rewritten text.
pub struct SourceEdit {
    pub position: usize,
    pub deleted_length: usize,
    pub inserted_text: Vec<u8>,
}

/// The mathematical model of a `SourceEdit`.
pub ghost struct EditView {
    pub position: int,
    pub deleted_length: int,
    pub inserted_text: Seq<u8>,
}

impl View for SourceEdit {
    type V = EditView;

    open spec fn view(&self) -> EditView {
        EditView {
            position: self.position as int,
            deleted_length: self.deleted_length as int,
            inserted_text: self.inserted_text@,
        }
    }
}

impl EditView {
    /// One past the last byte of the original text that this edit removes.
    pub open spec fn end(self) -> int {
        self.position + self.deleted_length
    }
}

/// The model of a whole edit list.
pub open spec fn edits_view(edits: Seq<SourceEdit>) -> Seq<EditView> {
    edits.map_values(|e: SourceEdit| e@)
}

/// The edits start at or after `cursor`, are ascending and pairwise
/// non-overlapping, and stay within a text of `source_len` bytes.
pub open spec fn edits_ok_from(cursor: int, source_len: int, edits: Seq<EditView>) -> bool
    decreases edits.len(),
{
    if edits.len() == 0 {
        cursor <= source_len
    } else {
        &&& 0 <= edits[0].position
        &&& 0 <= edits[0].deleted_length
        &&& cursor <= edits[0].position
        &&& edits[0].end() <= source_len
        &&& edits_ok_from(edits[0].end(), source_len, edits.drop_first())
    }
}

/// Well-formedness of an edit list against a text of `source_len` bytes:
/// each edit lies within the text, and the edits are in ascending order
/// with no two of them overlapping.
pub open spec fn edits_ok(source_len: int, edits: Seq<EditView>) -> bool {
    0 <= source_len && edits_ok_from(0, source_len, edits)
}

/// The reconciled text from `cursor` on: the untouched bytes up to the next
/// edit, then that edit's replacement text, then the rest, recursively.
pub open spec fn reconcile_from(source: Seq<u8>, edits: Seq<EditView>, cursor: int) -> Seq<u8>
    decreases edits.len(),
{
    if edits.len() == 0 {
        source.subrange(cursor, source.len() as int)
    } else {
        source.subrange(cursor, edits[0].position)
            + edits[0].inserted_text
            + reconcile_from(source, edits.drop_first(), edits[0].end())
    }
}

/// The full reconciled text: what the source becomes once every edit of the
/// list has been applied, all offsets read against the original source.
pub open spec fn reconcile_spec(source: Seq<u8>, edits: Seq<EditView>) -> Seq<u8> {
    reconcile_from(source, edits, 0)
}

/// Sum of the deleted lengths of all edits.
pub open spec fn total_deleted(edits: Seq<EditView>) -> int
    decreases edits.len(),
{
    if edits.len() == 0 {
        0
    } else {
        edits[0].deleted_length + total_deleted(edits.drop_first())
    }
}

/// Sum of the lengths of all inserted texts.
pub open spec fn total_inserted(edits: Seq<EditView>) -> int
    decreases edits.len(),
{
    if edits.len() == 0 {
        0
    } else {
        edits[0].inserted_text.len() + total_inserted(edits.drop_first())
    }
}

/// Reconciling with no edits at all gives the original text back unchanged.
pub proof fn lemma_reconcile_empty_identity(source: Seq<u8>)
    ensures
        reconcile_spec(source, Seq::<EditView>::empty()) == source,
{
    assert(reconcile_spec(source, Seq::<EditView>::empty()) =~= source);
}

/// Length law of reconciliation from a cursor: the output holds the tail of
/// the source minus what the edits delete plus what they insert.
proof fn lemma_reconcile_from_len(source: Seq<u8>, edits: Seq<EditView>, cursor: int)
    requires
        0 <= cursor,
        edits_ok_from(cursor, source.len() as int, edits),
    ensures
        reconcile_from(source, edits, cursor).len()
            == source.len() - cursor - total_deleted(edits) + total_inserted(edits),
    decreases edits.len(),
{
    if edits.len() == 0 {
    } else {
        lemma_reconcile_from_len(source, edits.drop_first(), edits[0].end());
    }
}

/// Length law: the reconciled text's length is the source's length minus the
/// total deleted length plus the total inserted length.
pub proof fn lemma_reconcile_len(source: Seq<u8>, edits: Seq<EditView>)
    requires
        edits_ok(source.len() as int, edits),
    ensures
        reconcile_spec(source, edits).len()
            == source.len() - total_deleted(edits) + total_inserted(edits),
{
    lemma_reconcile_from_len(source, edits, 0);
}

/// A single edit at `position`, deleting `deleted_length` bytes and inserting
/// `inserted_text`, yields exactly
/// `source[..position] + inserted_text + source[position + deleted_length..]`.
pub proof fn lemma_reconcile_single(source: Seq<u8>, e: EditView)
    requires
        0 <= e.position,
        0 <= e.deleted_length,
        e.end() <= source.len(),
    ensures
        reconcile_spec(source, seq![e])
            == source.subrange(0, e.position)
                + e.inserted_text
                + source.subrange(e.end(), source.len() as int),
{
    let edits = seq![e];
    assert(edits.drop_first() =~= Seq::<EditView>::empty());
    assert(reconcile_from(source, Seq::<EditView>::empty(), e.end())
        =~= source.subrange(e.end(), source.len() as int));
    assert(reconcile_spec(source, edits)
        =~= source.subrange(0, e.position)
            + e.inserted_text
            + source.subrange(e.end(), source.len() as int));
}

/// Two validated edits splice in one reconciled pass, both offsets read
/// against the original source: the result is
/// `source[..p1] + t1 + source[p1+d1..p2] + t2 + source[p2+d2..]`.
pub proof fn lemma_reconcile_pair(source: Seq<u8>, e1: EditView, e2: EditView)
    requires
        edits_ok(source.len() as int, seq![e1, e2]),
    ensures
        reconcile_spec(source, seq![e1, e2])
            == source.subrange(0, e1.position)
                + e1.inserted_text
                + source.subrange(e1.end(), e2.position)
                + e2.inserted_text
                + source.subrange(e2.end(), source.len() as int),
{
    let edits = seq![e1, e2];
    assert(edits.drop_first() =~= seq![e2]);
    assert(seq![e2].drop_first() =~= Seq::<EditView>::empty());
    assert(reconcile_from(source, Seq::<EditView>::empty(), e2.end())
        =~= source.subrange(e2.end(), source.len() as int));
    assert(reconcile_from(source, seq![e2], e1.end())
        =~= source.subrange(e1.end(), e2.position)
            + e2.inserted_text
            + source.subrange(e2.end(), source.len() as int));
    assert(reconcile_spec(source, edits)
        =~= source.subrange(0, e1.position)
            + e1.inserted_text
            + source.subrange(e1.end(), e2.position)
            + e2.inserted_text
            + source.subrange(e2.end(), source.len() as int));
}

/// Checks that an edit list is well formed against a source of the given
/// length: within bounds, ascending, and non-overlapping.
pub fn edits_are_ok(source_len: usize, edits: &Vec<SourceEdit>) -> (r: bool)
    ensures
        r == edits_ok(source_len as int, edits_view(edits@)),
{
    let ghost evs = edits_view(edits@);
    proof {
        assert(evs.skip(0) =~= evs);
    }
    let mut cursor: usize = 0;
    let mut i: usize = 0;
    while i < edits.len()
        invariant
            0 <= i <= edits.len(),
            evs == edits_view(edits@),
            evs.len() == edits.len(),
            cursor <= source_len,
            edits_ok_from(0, source_len as int, evs)
                == edits_ok_from(cursor as int, source_len as int, evs.skip(i as int)),
        decreases edits.len() - i,
    {
        let e = &edits[i];
        proof {
            assert(evs[i as int] == edits@[i as int]@);
            assert(evs.skip(i as int)[0] == evs[i as int]);
            assert(evs.skip(i as int).drop_first() =~= evs.skip(i as int + 1));
        }
        if e.position < cursor
            || e.deleted_length > source_len
            || e.position > source_len - e.deleted_length
        {
            return false;
        }
        cursor = e.position + e.deleted_length;
        i = i + 1;
    }
    proof {
        assert(evs.skip(i as int) =~= Seq::<EditView>::empty());
    }
    true
}

/// Appends `source[from..to]` to `out`.
fn push_range(out: &mut Vec<u8>, source: &Vec<u8>, from: usize, to: usize)
    requires
        from <= to <= source@.len(),
    ensures
        final(out)@ == old(out)@ + source@.subrange(from as int, to as int),
{
    let mut j: usize = from;
    while j < to
        invariant
            from <= j <= to <= source@.len(),
            out@ == old(out)@ + source@.subrange(from as int, j as int),
        decreases to - j,
    {
        out.push(source[j]);
        proof {
            assert(source@.subrange(from as int, j + 1 as int)
                =~= source@.subrange(from as int, j as int) + seq![source@[j as int]]);
        }
        j = j + 1;
    }
}

/// Appends all of `text` to `out`.
fn push_all(out: &mut Vec<u8>, text: &Vec<u8>)
    ensures
        final(out)@ == old(out)@ + text@,
{
    let mut j: usize = 0;
    while j < text.len()
        invariant
            0 <= j <= text@.len(),
            out@ == old(out)@ + text@.subrange(0, j as int),
        decreases text@.len() - j,
    {
        out.push(text[j]);
        proof {
            assert(text@.subrange(0, j + 1 as int)
                =~= text@.subrange(0, j as int) + seq![text@[j as int]]);
        }
        j = j + 1;
    }
    proof {
        assert(text@.subrange(0, text@.len() as int) =~= text@);
    }
}

/// Turns a source text and a well-formed edit list into the new text: a
/// single linear pass that copies the untouched bytes and splices in each
/// edit's replacement, never reading past the end of the source.
pub fn reconcile(source: &Vec<u8>, edits: &Vec<SourceEdit>) -> (out: Vec<u8>)
    requires
        edits_ok(source@.len() as int, edits_view(edits@)),
    ensures
        out@ == reconcile_spec(source@, edits_view(edits@)),
{
    let ghost evs = edits_view(edits@);
    proof {
        assert(evs.skip(0) =~= evs);
    }
    let n: usize = source.len();
    let mut out: Vec<u8> = Vec::new();
    let mut cursor: usize = 0;
    let mut i: usize = 0;
    while i < edits.len()
        invariant
            0 <= i <= edits.len(),
            n == source@.len(),
            evs == edits_view(edits@),
            evs.len() == edits.len(),
            cursor <= source@.len(),
            edits_ok_from(cursor as int, source@.len() as int, evs.skip(i as int)),
            reconcile_spec(source@, evs)
                == out@ + reconcile_from(source@, evs.skip(i as int), cursor as int),
        decreases edits.len() - i,
    {
        proof {
            assert(evs[i as int] == edits@[i as int]@);
            assert(evs.skip(i as int)[0] == evs[i as int]);
            assert(evs.skip(i as int).drop_first() =~= evs.skip(i as int + 1));
            assert(evs[i as int].end() <= source@.len());
        }
        let e = &edits[i];
        push_range(&mut out, source, cursor, e.position);
        push_all(&mut out, &e.inserted_text);
        cursor = e.position + e.deleted_length;
        i = i + 1;
    }
    proof {
        assert(evs.skip(i as int) =~= Seq::<EditView>::empty());
    }
    push_range(&mut out, source, cursor, source.len());
    out
}

/// Defensive reconciliation: validates the edit list first and applies it
/// only when it is well formed, so a caller need not establish the
/// precondition itself. Returns `None` exactly when the edits are not
/// ascending, overlap, or leave the source's bounds.
pub fn reconcile_checked(source: &Vec<u8>, edits: &Vec<SourceEdit>) -> (out: Option<Vec<u8>>)
    ensures
        match out {
            Some(v) => edits_ok(source@.len() as int, edits_view(edits@))
                && v@ == reconcile_spec(source@, edits_view(edits@)),
            None => !edits_ok(source@.len() as int, edits_view(edits@)),
        },
{
    if edits_are_ok(source.len(), edits) {
        Some(reconcile(source, edits))
    } else {
        None
    }
}

} // verus!
