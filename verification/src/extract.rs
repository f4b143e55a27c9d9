//! Reference extraction: the asset references of a run of feed entries.

use vstd::prelude::*;
use crate::client::{non_empty, PostData};
use crate::text::str_views;

verus! {

/// The asset references of `entries`: entry by entry, and within an entry
/// slot by slot, every slot that is not empty.
pub open spec fn spec_extract(entries: Seq<PostData>) -> Seq<Seq<char>> {
    entries.flat_map(|entry: PostData| entry.spec_paths())
}

/// Every slot of `entries`, empty or not, entry by entry.
pub open spec fn spec_all_slots(entries: Seq<PostData>) -> Seq<Seq<char>> {
    entries.flat_map(|entry: PostData| entry.spec_slots())
}

/// The views of a concatenation are the concatenated views.
proof fn lemma_str_views_add(a: Seq<&str>, b: Seq<&str>)
    ensures
        str_views(a + b) == str_views(a) + str_views(b),
{
    assert(str_views(a + b) =~= str_views(a) + str_views(b));
}

/// Every asset reference of `entries`, in entry order and slot order.
/// Equal references are kept as often as they occur.
pub fn extract<'a>(entries: &'a Vec<PostData>) -> (references: Vec<&'a str>)
    ensures
        str_views(references@) == spec_extract(entries@),
{
    let mut references: Vec<&'a str> = Vec::new();
    let mut i: usize = 0;
    assert(str_views(references@) =~= spec_extract(entries@.take(0)));
    while i < entries.len()
        invariant
            i <= entries.len(),
            str_views(references@) == spec_extract(entries@.take(i as int)),
        decreases entries.len() - i,
    {
        let mut paths = entries[i].paths();
        proof {
            lemma_str_views_add(references@, paths@);
            entries@.take(i as int).lemma_flat_map_push(
                |entry: PostData| entry.spec_paths(),
                entries@[i as int],
            );
            assert(entries@.take(i + 1) =~= entries@.take(i as int).push(entries@[i as int]));
        }
        references.append(&mut paths);
        i = i + 1;
    }
    assert(entries@.take(i as int) =~= entries@);
    references
}

/// Extraction drops the empty slots and nothing else: the references are
/// all slots of all entries, in their order, without the empty ones.
pub proof fn lemma_extract_drops_only_empty_slots(entries: Seq<PostData>)
    ensures
        spec_extract(entries) == non_empty(spec_all_slots(entries)),
    decreases entries.len(),
{
    if entries.len() == 0 {
        assert(spec_extract(entries) =~= Seq::empty());
        assert(spec_all_slots(entries) =~= Seq::empty());
        assert(non_empty(Seq::<Seq<char>>::empty()) =~= Seq::empty()) by {
            reveal(Seq::filter);
        }
    } else {
        let front = entries.drop_last();
        let last = entries.last();
        assert(entries =~= front.push(last));
        lemma_extract_drops_only_empty_slots(front);
        front.lemma_flat_map_push(|entry: PostData| entry.spec_paths(), last);
        front.lemma_flat_map_push(|entry: PostData| entry.spec_slots(), last);
        Seq::filter_distributes_over_add(
            spec_all_slots(front),
            last.spec_slots(),
            |slot: Seq<char>| slot.len() > 0,
        );
    }
}

/// Extraction keeps every reference as often as it occurs: there are as
/// many references as there are non-empty slots.
pub proof fn lemma_extract_len(entries: Seq<PostData>)
    ensures
        spec_extract(entries).len() == non_empty(spec_all_slots(entries)).len(),
        spec_extract(entries).len() <= spec_all_slots(entries).len(),
        spec_all_slots(entries).len() == 4 * entries.len(),
    decreases entries.len(),
{
    lemma_extract_drops_only_empty_slots(entries);
    spec_all_slots(entries).lemma_filter_len(|slot: Seq<char>| slot.len() > 0);
    if entries.len() == 0 {
        assert(spec_all_slots(entries) =~= Seq::empty());
    } else {
        let front = entries.drop_last();
        let last = entries.last();
        assert(entries =~= front.push(last));
        lemma_extract_len(front);
        front.lemma_flat_map_push(|entry: PostData| entry.spec_slots(), last);
    }
}

} // verus!
