//! The order in which the entries of one directory are shown.

use vstd::prelude::*;

use crate::file_tree::tree::{entry_views, lemma_entry_views, EntryKind, EntryView, FileTreeEntry};
use crate::text::{
    lemma_lex_le_total, lemma_lex_le_transitive, lex_le, lowercase, str_le, to_lowercase,
};

verus! {

/// Whether `a` is shown before `b` or may stand on either side of it:
/// directories come before files, and within each kind the names decide,
/// compared without regard to case.
pub open spec fn shown_before_or_with(a: EntryView, b: EntryView) -> bool {
    if a.kind != b.kind {
        a.kind == EntryKind::Directory
    } else {
        lex_le(lowercase(a.name), lowercase(b.name))
    }
}

/// `sorted` with `entry` put in behind every entry that is shown before
/// it or with it.
pub open spec fn inserted(sorted: Seq<EntryView>, entry: EntryView) -> Seq<EntryView>
    decreases sorted.len(),
{
    if sorted.len() == 0 {
        seq![entry]
    } else if shown_before_or_with(sorted.last(), entry) {
        sorted.push(entry)
    } else {
        inserted(sorted.drop_last(), entry).push(sorted.last())
    }
}

/// The entries in display order. Entries that the order does not tell
/// apart stay in the order they came in.
pub open spec fn display_order(entries: Seq<EntryView>) -> Seq<EntryView>
    decreases entries.len(),
{
    if entries.len() == 0 {
        Seq::empty()
    } else {
        inserted(display_order(entries.drop_last()), entries.last())
    }
}

/// Whether each entry is shown before or with every later one.
pub open spec fn in_display_order(entries: Seq<EntryView>) -> bool {
    forall|i: int, j: int|
        0 <= i < j < entries.len() ==> shown_before_or_with(
            #[trigger] entries[i],
            #[trigger] entries[j],
        )
}

/// Any two entries can be ordered.
pub proof fn lemma_order_total(a: EntryView, b: EntryView)
    ensures
        shown_before_or_with(a, b) || shown_before_or_with(b, a),
{
    lemma_lex_le_total(lowercase(a.name), lowercase(b.name));
}

/// The order is transitive.
pub proof fn lemma_order_transitive(a: EntryView, b: EntryView, c: EntryView)
    requires
        shown_before_or_with(a, b),
        shown_before_or_with(b, c),
    ensures
        shown_before_or_with(a, c),
{
    if a.kind == b.kind && b.kind == c.kind {
        lemma_lex_le_transitive(lowercase(a.name), lowercase(b.name), lowercase(c.name));
    }
}

/// Putting an entry into an ordered list gives an ordered list with
/// exactly one entry more.
pub proof fn lemma_inserted(sorted: Seq<EntryView>, entry: EntryView)
    requires
        in_display_order(sorted),
    ensures
        in_display_order(inserted(sorted, entry)),
        inserted(sorted, entry).to_multiset() == sorted.to_multiset().insert(entry),
        inserted(sorted, entry).len() == sorted.len() + 1,
    decreases sorted.len(),
{
    broadcast use vstd::seq_lib::group_to_multiset_ensures;

    let out = inserted(sorted, entry);
    if sorted.len() == 0 {
        // a list of one entry is in order
    } else if shown_before_or_with(sorted.last(), entry) {
        assert forall|i: int, j: int| 0 <= i < j < out.len() implies shown_before_or_with(
            #[trigger] out[i],
            #[trigger] out[j],
        ) by {
            if j == sorted.len() {
                if i < sorted.len() - 1 {
                    lemma_order_transitive(sorted[i], sorted.last(), entry);
                }
            }
        }
    } else {
        let front = sorted.drop_last();
        let last = sorted.last();
        lemma_inserted(front, entry);
        let mid = inserted(front, entry);
        lemma_order_total(last, entry);
        // every entry of `mid` is the new one or one of `front`
        assert forall|i: int| 0 <= i < mid.len() implies shown_before_or_with(
            #[trigger] mid[i],
            last,
        ) by {
            assert(mid.to_multiset().count(mid[i]) > 0);
        }
        assert(sorted =~= front.push(last));
    }
}

/// The display order of a list is ordered, and holds the entries of the
/// list, each as often as the list does.
pub proof fn lemma_display_order(entries: Seq<EntryView>)
    ensures
        in_display_order(display_order(entries)),
        display_order(entries).to_multiset() == entries.to_multiset(),
        display_order(entries).len() == entries.len(),
    decreases entries.len(),
{
    broadcast use vstd::seq_lib::group_to_multiset_ensures;

    if entries.len() > 0 {
        lemma_display_order(entries.drop_last());
        lemma_inserted(display_order(entries.drop_last()), entries.last());
        assert(entries =~= entries.drop_last().push(entries.last()));
    }
}

/// Whether `a` is shown before `b` or with it.
pub fn shown_first(a: &FileTreeEntry, b: &FileTreeEntry) -> (first: bool)
    ensures
        first == shown_before_or_with(a@, b@),
{
    match (a.kind, b.kind) {
        (EntryKind::Directory, EntryKind::File) => true,
        (EntryKind::File, EntryKind::Directory) => false,
        _ => {
            let left = to_lowercase(a.name.as_str());
            let right = to_lowercase(b.name.as_str());
            str_le(left.as_str(), right.as_str())
        },
    }
}

/// Puts `entry` into the ordered list `sorted`, behind every entry that is
/// shown before it or with it.
pub fn insert_in_display_order(sorted: &mut Vec<FileTreeEntry>, entry: FileTreeEntry)
    ensures
        entry_views(final(sorted)@) == inserted(entry_views(old(sorted)@), entry@),
{
    let ghost before = entry_views(sorted@);
    proof {
        lemma_entry_views(sorted@);
    }
    let mut pos: usize = sorted.len();
    proof {
        assert(before.take(pos as int) =~= before);
    }
    while pos > 0 && !shown_first(&sorted[pos - 1], &entry)
        invariant
            pos <= sorted@.len(),
            *sorted == *old(sorted),
            before == entry_views(sorted@),
            before.len() == sorted@.len(),
            forall|i: int| 0 <= i < sorted@.len() ==> before[i] == (#[trigger] sorted@[i])@,
            inserted(before, entry@) == inserted(before.take(pos as int), entry@) + before.skip(
                pos as int,
            ),
        decreases pos,
    {
        proof {
            let part = before.take(pos as int);
            assert(part.drop_last() =~= before.take(pos - 1));
        }
        pos -= 1;
    }
    sorted.insert(pos, entry);
    proof {
        lemma_entry_views(sorted@);
        let after = entry_views(sorted@);
        let wanted = before.insert(pos as int, entry@);
        assert forall|j: int| 0 <= j < after.len() implies after[j] == wanted[j] by {
            assert(after[j] == sorted@[j]@);
        }
    }
}

} // verus!
