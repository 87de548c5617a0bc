//! Resolving the tag identifiers of a thread against the forum's catalogue.

use vstd::prelude::*;
use crate::model::{Tag, TagView};

verus! {

/// The name given to a tag whose identifier the catalogue does not hold.
pub const UNRESOLVED_NAME: &'static str = "errored";

/// The name under which `catalogue` lists `id`: that of the first entry with
/// this identifier, and [`UNRESOLVED_NAME`] where there is none.
pub open spec fn name_of(catalogue: Seq<TagView>, id: u64) -> Seq<char>
    decreases catalogue.len(),
{
    if catalogue.len() == 0 {
        UNRESOLVED_NAME@
    } else if catalogue.first().id == id {
        catalogue.first().name
    } else {
        name_of(catalogue.drop_first(), id)
    }
}

/// The tag that `id` resolves to.
pub open spec fn resolved(catalogue: Seq<TagView>, id: u64) -> TagView {
    TagView { id, name: name_of(catalogue, id) }
}

/// The tags that `ids` resolve to, one for each identifier, in their order.
pub open spec fn resolved_all(catalogue: Seq<TagView>, ids: Seq<u64>) -> Seq<TagView> {
    Seq::new(ids.len(), |i: int| resolved(catalogue, ids[i]))
}

/// Whether each of `tags` is what its identifier resolves to in `catalogue`:
/// it has the name that the catalogue lists for it, or [`UNRESOLVED_NAME`]
/// where the catalogue does not hold it.
pub open spec fn all_resolved(catalogue: Seq<TagView>, tags: Seq<TagView>) -> bool {
    forall|j: int| 0 <= j < tags.len() ==> #[trigger] tags[j] == resolved(catalogue, tags[j].id)
}

/// Whether `catalogue` holds an entry with the identifier `id`.
pub open spec fn lists(catalogue: Seq<TagView>, id: u64) -> bool {
    exists|j: int| 0 <= j < catalogue.len() && (#[trigger] catalogue[j]).id == id
}

/// An identifier that the catalogue does not hold resolves to a tag with that
/// identifier and the name [`UNRESOLVED_NAME`].
pub proof fn lemma_unlisted_is_unresolved(catalogue: Seq<TagView>, id: u64)
    requires
        !lists(catalogue, id),
    ensures
        resolved(catalogue, id) == (TagView { id, name: UNRESOLVED_NAME@ }),
    decreases catalogue.len(),
{
    if catalogue.len() > 0 {
        assert(catalogue[0].id != id);
        let rest = catalogue.drop_first();
        assert forall|j: int| 0 <= j < rest.len() implies (#[trigger] rest[j]).id != id by {
            assert(rest[j] == catalogue[j + 1]);
        }
        lemma_unlisted_is_unresolved(rest, id);
    }
}

/// An identifier that the catalogue holds resolves to the name of the first
/// entry that has it.
pub proof fn lemma_listed_takes_first_name(catalogue: Seq<TagView>, id: u64, j: int)
    requires
        0 <= j < catalogue.len(),
        catalogue[j].id == id,
        forall|k: int| 0 <= k < j ==> (#[trigger] catalogue[k]).id != id,
    ensures
        resolved(catalogue, id) == (TagView { id, name: catalogue[j].name }),
    decreases j,
{
    if j > 0 {
        assert(catalogue[0].id != id);
        let rest = catalogue.drop_first();
        assert forall|k: int| 0 <= k < j - 1 implies (#[trigger] rest[k]).id != id by {
            assert(rest[k] == catalogue[k + 1]);
        }
        lemma_listed_takes_first_name(rest, id, j - 1);
    }
}

/// Resolving keeps the number and the order of the identifiers: the tag at
/// each place has the identifier that stood there.
pub proof fn lemma_resolved_all_keeps_ids(catalogue: Seq<TagView>, ids: Seq<u64>)
    ensures
        resolved_all(catalogue, ids).len() == ids.len(),
        forall|i: int| 0 <= i < ids.len() ==> (#[trigger] resolved_all(catalogue, ids)[i]).id == ids[i],
{
}

/// What resolving gives is resolved: each tag has the name that the catalogue
/// lists for its identifier.
pub proof fn lemma_resolved_all_is_resolved(catalogue: Seq<TagView>, ids: Seq<u64>)
    ensures
        all_resolved(catalogue, resolved_all(catalogue, ids)),
{
}

/// Resolves one identifier against the catalogue.
pub fn resolve_tag(catalogue: &Vec<Tag>, id: u64) -> (tag: Tag)
    ensures
        tag@ == resolved(catalogue.deep_view(), id),
{
    let ghost full = catalogue.deep_view();
    let mut i: usize = 0;
    assert(full.skip(0) =~= full);
    while i < catalogue.len()
        invariant
            i <= catalogue.len(),
            full == catalogue.deep_view(),
            name_of(full, id) == name_of(full.skip(i as int), id),
        decreases catalogue.len() - i,
    {
        assert(full.skip(i as int).drop_first() =~= full.skip(i + 1));
        if catalogue[i].id == id {
            return Tag { id, name: catalogue[i].name.clone() };
        }
        i += 1;
    }
    Tag { id, name: UNRESOLVED_NAME.to_string() }
}

/// Resolves the tag identifiers of a thread against the catalogue. A tag is
/// returned for every identifier, in the order of the identifiers; one that
/// the catalogue does not hold gets the name [`UNRESOLVED_NAME`].
pub fn resolve_tags(catalogue: &Vec<Tag>, ids: &Vec<u64>) -> (tags: Vec<Tag>)
    ensures
        tags.deep_view() == resolved_all(catalogue.deep_view(), ids@),
{
    let mut tags: Vec<Tag> = Vec::new();
    let mut i: usize = 0;
    while i < ids.len()
        invariant
            i <= ids.len(),
            tags.len() == i,
            forall|k: int| 0 <= k < i ==> (#[trigger] tags[k])@ == resolved(catalogue.deep_view(), ids[k]),
        decreases ids.len() - i,
    {
        let tag = resolve_tag(catalogue, ids[i]);
        tags.push(tag);
        i += 1;
    }
    tags
}

} // verus!
