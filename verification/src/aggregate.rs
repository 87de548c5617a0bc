//! Putting one refresh together: what each thread yields, and the snapshot
//! that results.
//!
//! What was fetched comes in as a [`Harvest`]; [`aggregate`] makes the
//! snapshot of it.

use vstd::prelude::*;
use crate::classify::{Probe, ProbeView};
use crate::error::{ExtractionError, UpstreamFetchError};
use crate::extract::{extracted, gen_post, post_of};
use crate::forum::{Message, MessageView, Thread, ThreadView};
use crate::model::{Cache, CacheView, Media, MediaView, Post, PostView, Tag, TagView};
use crate::tags::{all_resolved, lemma_resolved_all_is_resolved};

verus! {

/// What fetching one thread brought: the thread, its messages or the reason
/// why there are none, and what probing its surviving attachments found.
#[derive(Debug, PartialEq, Eq)]
pub struct ThreadHarvest {
    pub thread: Thread,
    pub messages: Result<Vec<Message>, ExtractionError>,
    pub probes: Vec<Probe>,
}

/// What a [`ThreadHarvest`] is in contracts.
#[verifier::ext_equal]
pub struct ThreadHarvestView {
    pub thread: ThreadView,
    pub messages: Result<Seq<MessageView>, ExtractionError>,
    pub probes: Seq<ProbeView>,
}

impl View for ThreadHarvest {
    type V = ThreadHarvestView;

    open spec fn view(&self) -> ThreadHarvestView {
        ThreadHarvestView {
            thread: self.thread@,
            messages: match self.messages {
                Ok(messages) => Ok(messages.deep_view()),
                Err(e) => Err(e),
            },
            probes: self.probes.deep_view(),
        }
    }
}

impl DeepView for ThreadHarvest {
    type V = ThreadHarvestView;

    open spec fn deep_view(&self) -> ThreadHarvestView {
        self@
    }
}

/// What one refresh fetched: the forum's tag catalogue, and the harvest of
/// each eligible thread in the order in which the threads were listed.
#[derive(Debug, PartialEq, Eq)]
pub struct Harvest {
    pub catalogue: Vec<Tag>,
    pub threads: Vec<ThreadHarvest>,
}

/// What a [`Harvest`] is in contracts.
#[verifier::ext_equal]
pub struct HarvestView {
    pub catalogue: Seq<TagView>,
    pub threads: Seq<ThreadHarvestView>,
}

impl View for Harvest {
    type V = HarvestView;

    open spec fn view(&self) -> HarvestView {
        HarvestView { catalogue: self.catalogue.deep_view(), threads: self.threads.deep_view() }
    }
}

impl DeepView for Harvest {
    type V = HarvestView;

    open spec fn deep_view(&self) -> HarvestView {
        self@
    }
}

/// The post of a thread whose messages were fetched, and nothing for one
/// whose messages were not.
pub open spec fn post_if_fetched(catalogue: Seq<TagView>, harvest: ThreadHarvestView) -> Option<
    PostView,
> {
    match harvest.messages {
        Ok(messages) => Some(post_of(harvest.thread, messages, harvest.probes, catalogue)),
        Err(_) => None,
    }
}

/// The posts of the threads whose messages were fetched, in thread order.
pub open spec fn posts_of(catalogue: Seq<TagView>, harvests: Seq<ThreadHarvestView>) -> Seq<
    PostView,
> {
    harvests.filter_map(|h: ThreadHarvestView| post_if_fetched(catalogue, h))
}

/// Whether a post holds any media.
pub open spec fn has_media(post: PostView) -> bool {
    post.medias.len() > 0
}

/// The posts of a refresh: those of [`posts_of`], without the ones that hold
/// no media where `drop_empty` asks for that.
pub open spec fn response(
    catalogue: Seq<TagView>,
    harvests: Seq<ThreadHarvestView>,
    drop_empty: bool,
) -> Seq<PostView> {
    if drop_empty {
        posts_of(catalogue, harvests).filter(|p: PostView| has_media(p))
    } else {
        posts_of(catalogue, harvests)
    }
}

/// The media of the posts: those of the first post in their order, then those
/// of the second, and so on.
pub open spec fn flattened(posts: Seq<PostView>) -> Seq<MediaView> {
    posts.flat_map(|p: PostView| p.medias)
}

/// What a thread contributes to the snapshot: the media extracted from its
/// messages, and nothing where its messages could not be fetched.
pub open spec fn contribution(catalogue: Seq<TagView>, harvest: ThreadHarvestView) -> Seq<
    MediaView,
> {
    match harvest.messages {
        Ok(messages) => extracted(harvest.thread, messages, harvest.probes, catalogue),
        Err(_) => Seq::empty(),
    }
}

/// The snapshot that a harvest amounts to: the catalogue as it was fetched,
/// and what each thread contributes, thread after thread.
pub open spec fn aggregated(harvest: HarvestView) -> CacheView {
    CacheView {
        tags: harvest.catalogue,
        items: harvest.threads.flat_map(
            |h: ThreadHarvestView| contribution(harvest.catalogue, h),
        ),
    }
}

/// What a refresh comes to: the snapshot of what was fetched, or the error
/// that stopped the fetching.
pub open spec fn aggregation(outcome: Result<Harvest, UpstreamFetchError>) -> Result<
    CacheView,
    UpstreamFetchError,
> {
    match outcome {
        Ok(harvest) => Ok(aggregated(harvest@)),
        Err(e) => Err(e),
    }
}

/// Whether the tags of every media are resolved against `catalogue`.
pub open spec fn media_resolved(catalogue: Seq<TagView>, medias: Seq<MediaView>) -> bool {
    forall|k: int| 0 <= k < medias.len() ==> all_resolved(catalogue, (#[trigger] medias[k]).tags)
}

/// Whether a snapshot is consistent: the tags of each of its media are
/// resolved against its own catalogue, so that no media names a tag otherwise
/// than the catalogue of the same refresh does.
pub open spec fn consistent(cache: CacheView) -> bool {
    media_resolved(cache.tags, cache.items)
}

/// One more post adds its media behind those of the earlier posts.
pub proof fn lemma_flattened_push(posts: Seq<PostView>, post: PostView)
    ensures
        flattened(posts.push(post)) == flattened(posts) + post.medias,
{
    posts.lemma_flat_map_push(|p: PostView| p.medias, post);
}

/// Dropping the posts that hold no media changes nothing in the media that
/// the posts hold together: the snapshot is the same under either policy.
pub proof fn lemma_dropping_empty_posts_keeps_media(posts: Seq<PostView>)
    ensures
        flattened(posts.filter(|p: PostView| has_media(p))) == flattened(posts),
    decreases posts.len(),
{
    let keep = |p: PostView| has_media(p);
    if posts.len() == 0 {
        assert(posts.filter(keep) =~= posts) by {
            reveal(Seq::filter);
        }
    } else {
        let earlier = posts.drop_last();
        let last = posts.last();
        assert(posts =~= earlier.push(last));
        lemma_dropping_empty_posts_keeps_media(earlier);
        earlier.lemma_filter_push(last, keep);
        lemma_flattened_push(earlier, last);
        if has_media(last) {
            lemma_flattened_push(earlier.filter(keep), last);
        }
    }
}

/// The snapshot does not depend on whether posts without media are dropped:
/// under either policy the posts of a harvest hold, together, the items of
/// its snapshot.
pub proof fn lemma_policy_keeps_media(harvest: HarvestView, drop_empty: bool)
    ensures
        flattened(response(harvest.catalogue, harvest.threads, drop_empty)) == aggregated(
            harvest,
        ).items,
{
    lemma_dropping_empty_posts_keeps_media(posts_of(harvest.catalogue, harvest.threads));
    lemma_posts_hold_the_contributions(harvest.catalogue, harvest.threads);
}

/// A thread whose messages could not be fetched contributes nothing, and takes
/// nothing away from what the threads before it contributed.
pub proof fn lemma_failed_thread_is_skipped(
    catalogue: Seq<TagView>,
    harvests: Seq<ThreadHarvestView>,
    failed: ThreadHarvestView,
)
    requires
        failed.messages is Err,
    ensures
        posts_of(catalogue, harvests.push(failed)) == posts_of(catalogue, harvests),
{
    assert(harvests.push(failed).drop_last() =~= harvests);
}

/// A thread whose messages were fetched contributes its post behind those of
/// the threads before it.
pub proof fn lemma_fetched_thread_adds_post(
    catalogue: Seq<TagView>,
    harvests: Seq<ThreadHarvestView>,
    fetched: ThreadHarvestView,
)
    requires
        fetched.messages is Ok,
    ensures
        posts_of(catalogue, harvests.push(fetched)) == posts_of(catalogue, harvests).push(
            post_of(fetched.thread, fetched.messages->Ok_0, fetched.probes, catalogue),
        ),
{
    assert(harvests.push(fetched).drop_last() =~= harvests);
}

/// The media that the posts of a refresh hold together are what the threads
/// contribute, thread after thread: a thread whose messages could not be
/// fetched adds nothing, and every other adds the media extracted from it.
pub proof fn lemma_posts_hold_the_contributions(
    catalogue: Seq<TagView>,
    harvests: Seq<ThreadHarvestView>,
)
    ensures
        flattened(posts_of(catalogue, harvests)) == harvests.flat_map(
            |h: ThreadHarvestView| contribution(catalogue, h),
        ),
    decreases harvests.len(),
{
    let contribute = |h: ThreadHarvestView| contribution(catalogue, h);
    if harvests.len() > 0 {
        let earlier = harvests.drop_last();
        let last = harvests.last();
        assert(harvests =~= earlier.push(last));
        lemma_posts_hold_the_contributions(catalogue, earlier);
        earlier.lemma_flat_map_push(contribute, last);
        if last.messages is Ok {
            lemma_fetched_thread_adds_post(catalogue, earlier, last);
            lemma_flattened_push(
                posts_of(catalogue, earlier),
                post_of(last.thread, last.messages->Ok_0, last.probes, catalogue),
            );
        } else {
            lemma_failed_thread_is_skipped(catalogue, earlier, last);
        }
    }
}

/// The media of every post of a refresh carry tags that are resolved against
/// the catalogue of that refresh.
pub proof fn lemma_posts_are_resolved(
    catalogue: Seq<TagView>,
    harvests: Seq<ThreadHarvestView>,
    j: int,
)
    requires
        0 <= j < posts_of(catalogue, harvests).len(),
    ensures
        media_resolved(catalogue, posts_of(catalogue, harvests)[j].medias),
    decreases harvests.len(),
{
    let earlier = harvests.drop_last();
    let last = harvests.last();
    if j < posts_of(catalogue, earlier).len() {
        lemma_posts_are_resolved(catalogue, earlier, j);
    } else {
        lemma_resolved_all_is_resolved(catalogue, last.thread.applied_tags);
    }
}

/// Putting posts together keeps their media resolved.
pub proof fn lemma_flattened_is_resolved(catalogue: Seq<TagView>, posts: Seq<PostView>)
    requires
        forall|j: int| 0 <= j < posts.len() ==> media_resolved(catalogue, (#[trigger] posts[j]).medias),
    ensures
        media_resolved(catalogue, flattened(posts)),
    decreases posts.len(),
{
    if posts.len() > 0 {
        let earlier = posts.drop_last();
        assert(posts =~= earlier.push(posts.last()));
        lemma_flattened_is_resolved(catalogue, earlier);
        lemma_flattened_push(earlier, posts.last());
    }
}

/// The snapshot of any harvest is consistent.
pub proof fn lemma_aggregated_is_consistent(harvest: HarvestView)
    ensures
        consistent(aggregated(harvest)),
{
    let posts = posts_of(harvest.catalogue, harvest.threads);
    assert forall|j: int| 0 <= j < posts.len() implies media_resolved(
        harvest.catalogue,
        (#[trigger] posts[j]).medias,
    ) by {
        lemma_posts_are_resolved(harvest.catalogue, harvest.threads, j);
    }
    lemma_flattened_is_resolved(harvest.catalogue, posts);
    lemma_posts_hold_the_contributions(harvest.catalogue, harvest.threads);
}

/// Builds the posts of a refresh, one for each thread whose messages were
/// fetched, in thread order. A thread whose messages could not be fetched is
/// left out. Where `drop_empty` is set, so are the posts without media.
pub fn gen_response(catalogue: &Vec<Tag>, harvests: &Vec<ThreadHarvest>, drop_empty: bool) -> (posts:
    Vec<Post>)
    ensures
        posts.deep_view() == response(catalogue.deep_view(), harvests.deep_view(), drop_empty),
{
    let ghost tags = catalogue.deep_view();
    let ghost all = harvests.deep_view();
    let mut posts: Vec<Post> = Vec::new();
    let mut i: usize = 0;
    proof {
        assert(Seq::<PostView>::empty().filter(|p: PostView| has_media(p)) =~= Seq::empty()) by {
            reveal(Seq::filter);
        }
    }
    while i < harvests.len()
        invariant
            i <= harvests.len(),
            tags == catalogue.deep_view(),
            all == harvests.deep_view(),
            posts.deep_view() == response(tags, all.take(i as int), drop_empty),
        decreases harvests.len() - i,
    {
        let harvest = &harvests[i];
        let ghost keep = |p: PostView| has_media(p);
        let ghost make = |h: ThreadHarvestView| post_if_fetched(tags, h);
        proof {
            all.lemma_filter_map_take_succ(make, i as int);
        }
        match &harvest.messages {
            Ok(messages) => {
                let post = gen_post(&harvest.thread, messages, &harvest.probes, catalogue);
                proof {
                    let earlier = all.take(i as int).filter_map(make);
                    assert(earlier + seq![post@] =~= earlier.push(post@));
                    earlier.lemma_filter_push(post@, keep);
                }
                if !(drop_empty && post.medias.len() == 0) {
                    posts.push(post);
                }
            },
            Err(_) => {},
        }
        i += 1;
    }
    assert(all.take(i as int) =~= all);
    posts
}

/// Collects the media of the posts into one list: post by post, and within a
/// post in its own order.
pub fn flatten_posts(posts: &Vec<Post>) -> (items: Vec<Media>)
    ensures
        items.deep_view() == flattened(posts.deep_view()),
{
    let ghost all = posts.deep_view();
    let mut items: Vec<Media> = Vec::new();
    let mut i: usize = 0;
    while i < posts.len()
        invariant
            i <= posts.len(),
            all == posts.deep_view(),
            items.deep_view() == flattened(all.take(i as int)),
        decreases posts.len() - i,
    {
        let post = &posts[i];
        let ghost before = items.deep_view();
        proof {
            all.lemma_flat_map_take_append(|p: PostView| p.medias, i as int);
        }
        let mut j: usize = 0;
        while j < post.medias.len()
            invariant
                j <= post.medias.len(),
                items.deep_view() == before + post@.medias.take(j as int),
            decreases post.medias.len() - j,
        {
            let ghost so_far = items.deep_view();
            items.push(post.medias[j].clone());
            assert(items.deep_view() =~= so_far.push(post@.medias[j as int]));
            j += 1;
        }
        i += 1;
    }
    assert(all.take(i as int) =~= all);
    items
}

/// Makes the snapshot of one refresh.
///
/// Where the fetching was stopped by an error, that error is handed on and no
/// snapshot is made. Otherwise the snapshot holds the catalogue as it was
/// fetched and the media of every thread whose messages were fetched, in
/// thread order and, within a thread, in the order of its attachments.
pub fn aggregate(outcome: &Result<Harvest, UpstreamFetchError>) -> (result: Result<
    Cache,
    UpstreamFetchError,
>)
    ensures
        match result {
            Ok(cache) => aggregation(*outcome) == Ok::<CacheView, UpstreamFetchError>(cache@)
                && consistent(cache@),
            Err(e) => aggregation(*outcome) == Err::<CacheView, UpstreamFetchError>(e),
        },
{
    match outcome {
        Ok(harvest) => {
            let posts = gen_response(&harvest.catalogue, &harvest.threads, false);
            let items = flatten_posts(&posts);
            let tags = harvest.catalogue.clone();
            proof {
                lemma_posts_hold_the_contributions(harvest@.catalogue, harvest@.threads);
                lemma_aggregated_is_consistent(harvest@);
            }
            Ok(Cache { tags, items })
        },
        Err(e) => Err(*e),
    }
}

} // verus!
