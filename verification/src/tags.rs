//! Gives every field of a record its own tag.
//!
//! A tag is the field's position in declaration order, counted from zero. It
//! is part of the type of the field's wrapper, so that two fields of the same
//! type still get wrappers of different types.

use vstd::prelude::*;

verus! {

/// The tags of a record with `count` fields: `0, 1, .., count - 1`.
pub open spec fn ordinal_tags(count: nat) -> Seq<nat> {
    Seq::new(count, |i: int| i as nat)
}

/// The tags of a list, read as numbers.
pub open spec fn tag_values(tags: Seq<usize>) -> Seq<nat> {
    Seq::new(tags.len(), |i: int| tags[i] as nat)
}

/// Assigns the tags of a record with `count` fields, in field order.
pub fn assign_tags(count: usize) -> (tags: Vec<usize>)
    ensures
        tags.len() == count,
        tag_values(tags@) == ordinal_tags(count as nat),
{
    let mut tags: Vec<usize> = Vec::new();
    let mut i: usize = 0;
    while i < count
        invariant
            i <= count,
            tags.len() == i,
            forall|k: int| 0 <= k < i ==> #[trigger] tags[k] == k,
        decreases count - i,
    {
        tags.push(i);
        i += 1;
    }
    assert(tag_values(tags@) =~= ordinal_tags(count as nat));
    tags
}

/// Tag assignment is a bijection between the fields' positions and the tags
/// `0 .. count`: no two positions share a tag, and every tag below `count` is
/// the tag of a position, namely of the position that it counts.
pub proof fn lemma_tags_bijective(count: nat)
    ensures
        ordinal_tags(count).len() == count,
        forall|i: int, j: int|
            0 <= i < count && 0 <= j < count && i != j ==> #[trigger] ordinal_tags(count)[i]
                != #[trigger] ordinal_tags(count)[j],
        forall|t: int| 0 <= t < count ==> #[trigger] ordinal_tags(count)[t] == t,
{
}

} // verus!
