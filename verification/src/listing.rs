//! Which threads take part in a refresh.
//!
//! The platform lists the archived threads of the forum and the active
//! threads of the whole guild. The threads of a refresh are the union of the
//! two: the archived ones, then the active ones that hang under the forum,
//! with no thread twice.

use vstd::prelude::*;
use crate::forum::{Thread, ThreadView};

verus! {

/// Whether a thread hangs under the forum `forum_id`.
pub open spec fn belongs_to(thread: ThreadView, forum_id: u64) -> bool {
    thread.parent_id == Some(forum_id)
}

/// The two listings as one: the archived threads of the forum, then those of
/// the guild's active threads that hang under it.
pub open spec fn listed(
    archived: Seq<ThreadView>,
    active: Seq<ThreadView>,
    forum_id: u64,
) -> Seq<ThreadView> {
    archived + active.filter(|t: ThreadView| belongs_to(t, forum_id))
}

/// Whether an earlier thread of the list has the identifier of the thread at
/// place `i`.
pub open spec fn listed_before(threads: Seq<ThreadView>, i: int) -> bool {
    exists|k: int| 0 <= k < i && (#[trigger] threads[k]).id == threads[i].id
}

/// The list with each thread once: a thread stays where no earlier thread of
/// the list has its identifier, and the threads that stay keep their order.
pub open spec fn deduplicated(threads: Seq<ThreadView>) -> Seq<ThreadView>
    decreases threads.len(),
{
    if threads.len() == 0 {
        Seq::empty()
    } else {
        let earlier = deduplicated(threads.drop_last());
        if listed_before(threads, threads.len() - 1) {
            earlier
        } else {
            earlier.push(threads.last())
        }
    }
}

/// The threads that take part in a refresh: the union of the two listings,
/// each thread once.
pub open spec fn eligible(
    archived: Seq<ThreadView>,
    active: Seq<ThreadView>,
    forum_id: u64,
) -> Seq<ThreadView> {
    deduplicated(listed(archived, active, forum_id))
}

/// Every thread that is left after the repeated ones are gone was on the
/// list.
pub proof fn lemma_deduplicated_from_list(threads: Seq<ThreadView>, j: int)
    requires
        0 <= j < deduplicated(threads).len(),
    ensures
        exists|i: int| 0 <= i < threads.len() && #[trigger] threads[i] == deduplicated(threads)[j],
    decreases threads.len(),
{
    let earlier = threads.drop_last();
    if j < deduplicated(earlier).len() {
        lemma_deduplicated_from_list(earlier, j);
        let i = choose|i: int| 0 <= i < earlier.len() && #[trigger] earlier[i] == deduplicated(earlier)[j];
        assert(threads[i] == deduplicated(threads)[j]);
    } else {
        assert(threads[threads.len() - 1] == deduplicated(threads)[j]);
    }
}

/// No two threads that are left share an identifier.
pub proof fn lemma_deduplicated_is_distinct(threads: Seq<ThreadView>, a: int, b: int)
    requires
        0 <= a < b < deduplicated(threads).len(),
    ensures
        deduplicated(threads)[a].id != deduplicated(threads)[b].id,
    decreases threads.len(),
{
    let earlier = threads.drop_last();
    if b < deduplicated(earlier).len() {
        lemma_deduplicated_is_distinct(earlier, a, b);
    } else {
        lemma_deduplicated_from_list(earlier, a);
        let i = choose|i: int| 0 <= i < earlier.len() && #[trigger] earlier[i] == deduplicated(earlier)[a];
        assert(threads[i].id == deduplicated(threads)[a].id);
    }
}

/// Every identifier on the list is still there after the repeated threads are
/// gone.
pub proof fn lemma_deduplicated_keeps_ids(threads: Seq<ThreadView>, i: int)
    requires
        0 <= i < threads.len(),
    ensures
        exists|j: int|
            0 <= j < deduplicated(threads).len() && (#[trigger] deduplicated(threads)[j]).id
                == threads[i].id,
    decreases threads.len(),
{
    let earlier = threads.drop_last();
    let last = threads.len() - 1;
    if i < last {
        lemma_deduplicated_keeps_ids(earlier, i);
        let j = choose|j: int|
            0 <= j < deduplicated(earlier).len() && (#[trigger] deduplicated(earlier)[j]).id
                == earlier[i].id;
        assert(deduplicated(threads)[j].id == threads[i].id);
    } else if listed_before(threads, last) {
        let k = choose|k: int| 0 <= k < last && (#[trigger] threads[k]).id == threads[last].id;
        lemma_deduplicated_keeps_ids(earlier, k);
        let j = choose|j: int|
            0 <= j < deduplicated(earlier).len() && (#[trigger] deduplicated(earlier)[j]).id
                == earlier[k].id;
        assert(deduplicated(threads)[j].id == threads[i].id);
    } else {
        assert(deduplicated(threads)[deduplicated(earlier).len() as int].id == threads[i].id);
    }
}

/// A list on which no identifier occurs twice, as one made of disjoint
/// listings is, stays as it is.
pub proof fn lemma_distinct_list_is_unchanged(threads: Seq<ThreadView>)
    requires
        forall|a: int, b: int|
            0 <= a < b < threads.len() ==> (#[trigger] threads[a]).id != (#[trigger] threads[b]).id,
    ensures
        deduplicated(threads) == threads,
    decreases threads.len(),
{
    if threads.len() > 0 {
        let earlier = threads.drop_last();
        assert forall|a: int, b: int| 0 <= a < b < earlier.len() implies (#[trigger] earlier[a]).id != (
        #[trigger] earlier[b]).id by {
            assert(earlier[a] == threads[a]);
            assert(earlier[b] == threads[b]);
        }
        lemma_distinct_list_is_unchanged(earlier);
        assert(earlier.push(threads.last()) =~= threads);
    }
}

/// Where the two listings are disjoint and neither names a thread twice, the
/// eligible threads are simply the archived ones followed by the active ones
/// of the forum.
pub proof fn lemma_disjoint_listings_are_joined(
    archived: Seq<ThreadView>,
    active: Seq<ThreadView>,
    forum_id: u64,
)
    requires
        forall|a: int, b: int|
            0 <= a < b < listed(archived, active, forum_id).len() ==> (#[trigger] listed(
                archived,
                active,
                forum_id,
            )[a]).id != (#[trigger] listed(archived, active, forum_id)[b]).id,
    ensures
        eligible(archived, active, forum_id) == listed(archived, active, forum_id),
{
    lemma_distinct_list_is_unchanged(listed(archived, active, forum_id));
}

/// Whether a thread hangs under the forum `forum_id`.
pub fn thread_belongs_to(thread: &Thread, forum_id: u64) -> (out: bool)
    ensures
        out == belongs_to(thread@, forum_id),
{
    match thread.parent_id {
        Some(parent) => parent == forum_id,
        None => false,
    }
}

/// Puts the two listings together: every archived thread of the forum, then
/// each active thread of the guild whose parent is the forum, both in the
/// order given.
pub fn list_threads(archived: &Vec<Thread>, active: &Vec<Thread>, forum_id: u64) -> (threads: Vec<
    Thread,
>)
    ensures
        threads.deep_view() == listed(archived.deep_view(), active.deep_view(), forum_id),
{
    let mut threads = archived.clone();
    let mut i: usize = 0;
    assert(active.deep_view().take(0).filter(|t: ThreadView| belongs_to(t, forum_id))
        =~= Seq::empty()) by {
        reveal(Seq::filter);
    }
    while i < active.len()
        invariant
            i <= active.len(),
            threads.deep_view() == listed(
                archived.deep_view(),
                active.deep_view().take(i as int),
                forum_id,
            ),
        decreases active.len() - i,
    {
        let ghost before = threads.deep_view();
        let ghost belongs = |t: ThreadView| belongs_to(t, forum_id);
        proof {
            let seen = active.deep_view().take(i as int);
            active.deep_view().lemma_take_succ_push(i as int);
            seen.lemma_filter_push(active[i as int]@, belongs);
        }
        if thread_belongs_to(&active[i], forum_id) {
            threads.push(active[i].clone());
            assert(threads.deep_view() =~= before.push(active[i as int]@));
        }
        i += 1;
    }
    assert(active.deep_view().take(i as int) =~= active.deep_view());
    threads
}

/// Removes the threads that a list holds more than once, as it may where a
/// thread was listed both as archived and as active. Of the threads with one
/// identifier the first stays; the threads that stay keep their order.
pub fn dedup_threads(threads: &Vec<Thread>) -> (kept: Vec<Thread>)
    ensures
        kept.deep_view() == deduplicated(threads.deep_view()),
{
    let ghost all = threads.deep_view();
    let mut kept: Vec<Thread> = Vec::new();
    let mut i: usize = 0;
    while i < threads.len()
        invariant
            i <= threads.len(),
            all == threads.deep_view(),
            kept.deep_view() == deduplicated(all.take(i as int)),
        decreases threads.len() - i,
    {
        let mut repeated = false;
        let mut k: usize = 0;
        while k < i
            invariant
                k <= i,
                i < threads.len(),
                all == threads.deep_view(),
                repeated <==> exists|e: int| 0 <= e < k && (#[trigger] all[e]).id == all[i as int].id,
            decreases i - k,
        {
            if threads[k].id == threads[i].id {
                assert(all[k as int].id == all[i as int].id);
                repeated = true;
            }
            k += 1;
        }
        proof {
            let seen = all.take(i as int + 1);
            assert(seen.drop_last() =~= all.take(i as int));
            if repeated {
                let e = choose|e: int| 0 <= e < i && (#[trigger] all[e]).id == all[i as int].id;
                assert(seen[e].id == seen[i as int].id);
            }
            if listed_before(seen, i as int) {
                let e = choose|e: int| 0 <= e < i && (#[trigger] seen[e]).id == seen[i as int].id;
                assert(all[e].id == all[i as int].id);
            }
        }
        if !repeated {
            kept.push(threads[i].clone());
        }
        i += 1;
    }
    assert(all.take(i as int) =~= all);
    kept
}

/// Names the threads that take part in a refresh: the archived threads of the
/// forum and the active threads of the guild whose parent is the forum, in
/// that order, each thread once. A thread that both listings name, as one
/// that is archived between the two fetches may be, counts where it comes
/// first.
pub fn eligible_threads(archived: &Vec<Thread>, active: &Vec<Thread>, forum_id: u64) -> (threads:
    Vec<Thread>)
    ensures
        threads.deep_view() == eligible(archived.deep_view(), active.deep_view(), forum_id),
{
    let all = list_threads(archived, active, forum_id);
    dedup_threads(&all)
}

} // verus!
