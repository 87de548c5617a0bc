//! Extracting the media of one thread from its messages.
//!
//! A message that carries the moderation mark is dropped whole; the
//! attachments of the others are collected in message order, and each becomes
//! a [`Media`] with the tags of the thread and its own classification.

use vstd::prelude::*;
use crate::classify::{classify, media_type_of, Probe, ProbeView, UNKNOWN_MEDIA_TYPE};
use crate::forum::{Message, MessageView, Reaction, ReactionView, Thread, ThreadView};
use crate::model::{Media, MediaView, Post, PostView, Tag, TagView};
use crate::tags::{resolve_tags, resolved_all};

verus! {

/// The reaction by which moderators mark a message as rejected or superseded:
/// a standard emoji with exactly these characters. It excludes the message
/// that it stands on.
pub const MODERATION_EMOJI: &'static str = "\u{e2}\u{2013}\u{aa}\u{fe0f}";

/// Whether a reaction is the moderation mark.
pub open spec fn is_moderation_mark(reaction: ReactionView) -> bool {
    reaction == ReactionView::Unicode(MODERATION_EMOJI@)
}

/// Whether a message is excluded: one of its reactions is the moderation mark.
pub open spec fn excluded(message: MessageView) -> bool {
    exists|i: int|
        0 <= i < message.reactions.len() && is_moderation_mark(#[trigger] message.reactions[i])
}

/// The attachments that a message contributes: all of them, or none where the
/// message is excluded.
pub open spec fn kept_attachments(message: MessageView) -> Seq<Seq<char>> {
    if excluded(message) {
        Seq::empty()
    } else {
        message.attachments
    }
}

/// The attachments that a thread contributes: those of its messages that are
/// not excluded, in message order.
pub open spec fn surviving(messages: Seq<MessageView>) -> Seq<Seq<char>> {
    messages.flat_map(|m: MessageView| kept_attachments(m))
}

/// The classification of the attachment at place `i` among the surviving ones:
/// what its probe leads to, and [`UNKNOWN_MEDIA_TYPE`] where it was not probed.
pub open spec fn media_type_at(probes: Seq<ProbeView>, i: int) -> Seq<char> {
    if 0 <= i < probes.len() {
        media_type_of(probes[i])
    } else {
        UNKNOWN_MEDIA_TYPE@
    }
}

/// The media of a thread: one for each surviving attachment, in their order,
/// each with the thread's resolved tags and the classification of its probe.
pub open spec fn extracted(
    thread: ThreadView,
    messages: Seq<MessageView>,
    probes: Seq<ProbeView>,
    catalogue: Seq<TagView>,
) -> Seq<MediaView> {
    let sources = surviving(messages);
    Seq::new(
        sources.len(),
        |i: int|
            MediaView {
                source: sources[i],
                tags: resolved_all(catalogue, thread.applied_tags),
                media_type: media_type_at(probes, i),
            },
    )
}

/// The author of a thread: who wrote the last message of the list, and nobody
/// where the list is empty.
pub open spec fn author_of(messages: Seq<MessageView>) -> Seq<char> {
    if messages.len() == 0 {
        Seq::empty()
    } else {
        messages.last().author
    }
}

/// The post that a thread yields.
pub open spec fn post_of(
    thread: ThreadView,
    messages: Seq<MessageView>,
    probes: Seq<ProbeView>,
    catalogue: Seq<TagView>,
) -> PostView {
    PostView {
        title: thread.name,
        author: author_of(messages),
        medias: extracted(thread, messages, probes, catalogue),
        tags: resolved_all(catalogue, thread.applied_tags),
    }
}

/// One more message adds what it contributes behind what the earlier ones did.
pub proof fn lemma_surviving_push(messages: Seq<MessageView>, message: MessageView)
    ensures
        surviving(messages.push(message)) == surviving(messages) + kept_attachments(message),
{
    messages.lemma_flat_map_push(|m: MessageView| kept_attachments(m), message);
}

/// A thread whose messages all carry the moderation mark, and so one whose
/// only message does, contributes no media.
pub proof fn lemma_excluded_messages_yield_nothing(
    thread: ThreadView,
    messages: Seq<MessageView>,
    probes: Seq<ProbeView>,
    catalogue: Seq<TagView>,
)
    requires
        forall|i: int| 0 <= i < messages.len() ==> excluded(#[trigger] messages[i]),
    ensures
        surviving(messages).len() == 0,
        extracted(thread, messages, probes, catalogue).len() == 0,
    decreases messages.len(),
{
    if messages.len() > 0 {
        let earlier = messages.drop_last();
        assert(messages =~= earlier.push(messages.last()));
        assert forall|i: int| 0 <= i < earlier.len() implies excluded(#[trigger] earlier[i]) by {
            assert(earlier[i] == messages[i]);
        }
        lemma_excluded_messages_yield_nothing(thread, earlier, probes, catalogue);
        lemma_surviving_push(earlier, messages.last());
    }
}

/// A thread none of whose messages carries the moderation mark contributes all
/// of its attachments, in message order: the media are as many as the
/// attachments, and their sources are the attachments of the first message,
/// then those of the second, and so on.
pub proof fn lemma_unmarked_messages_yield_all(
    thread: ThreadView,
    messages: Seq<MessageView>,
    probes: Seq<ProbeView>,
    catalogue: Seq<TagView>,
)
    requires
        forall|i: int| 0 <= i < messages.len() ==> !excluded(#[trigger] messages[i]),
    ensures
        surviving(messages) == messages.flat_map(|m: MessageView| m.attachments),
        extracted(thread, messages, probes, catalogue).len() == surviving(messages).len(),
        forall|k: int|
            0 <= k < surviving(messages).len() ==> (#[trigger] extracted(
                thread,
                messages,
                probes,
                catalogue,
            )[k]).source == messages.flat_map(|m: MessageView| m.attachments)[k],
{
    assert(messages.map_values(|m: MessageView| kept_attachments(m)) =~= messages.map_values(
        |m: MessageView| m.attachments,
    ));
}

/// Whether a reaction is the emoji `mark`.
fn is_emoji(reaction: &Reaction, mark: &String) -> (same: bool)
    ensures
        same == (reaction@ == ReactionView::Unicode(mark@)),
{
    match reaction {
        Reaction::Unicode(emoji) => *emoji == *mark,
        Reaction::Custom { .. } => false,
    }
}

/// Whether a message carries the emoji `mark` among its reactions.
fn carries(message: &Message, mark: &String) -> (found: bool)
    ensures
        found == exists|i: int|
            0 <= i < message@.reactions.len() && #[trigger] message@.reactions[i]
                == ReactionView::Unicode(mark@),
{
    let mut i: usize = 0;
    while i < message.reactions.len()
        invariant
            i <= message.reactions.len(),
            forall|k: int|
                0 <= k < i ==> #[trigger] message@.reactions[k] != ReactionView::Unicode(mark@),
        decreases message.reactions.len() - i,
    {
        if is_emoji(&message.reactions[i], mark) {
            assert(message@.reactions[i as int] == ReactionView::Unicode(mark@));
            return true;
        }
        i += 1;
    }
    false
}

/// Whether a reaction is the moderation mark.
pub fn is_moderation_reaction(reaction: &Reaction) -> (marked: bool)
    ensures
        marked == is_moderation_mark(reaction@),
{
    let mark = MODERATION_EMOJI.to_string();
    is_emoji(reaction, &mark)
}

/// Whether a message is excluded from aggregation: it carries the moderation
/// mark among its reactions.
pub fn is_excluded(message: &Message) -> (out: bool)
    ensures
        out == excluded(message@),
{
    let mark = MODERATION_EMOJI.to_string();
    carries(message, &mark)
}

/// The locations of the attachments that a thread contributes: those of the
/// messages that are not excluded, in message order. These are what is to be
/// probed, one probe for each, in this order.
pub fn surviving_attachments(messages: &Vec<Message>) -> (sources: Vec<String>)
    ensures
        sources.deep_view() == surviving(messages.deep_view()),
{
    let ghost all = messages.deep_view();
    let mark = MODERATION_EMOJI.to_string();
    let mut sources: Vec<String> = Vec::new();
    let mut i: usize = 0;
    while i < messages.len()
        invariant
            i <= messages.len(),
            all == messages.deep_view(),
            mark@ == MODERATION_EMOJI@,
            sources.deep_view() == surviving(all.take(i as int)),
        decreases messages.len() - i,
    {
        let message = &messages[i];
        let ghost before = sources.deep_view();
        proof {
            all.lemma_flat_map_take_append(|m: MessageView| kept_attachments(m), i as int);
        }
        if !carries(message, &mark) {
            let mut j: usize = 0;
            while j < message.attachments.len()
                invariant
                    j <= message.attachments.len(),
                    sources.deep_view() == before + message@.attachments.take(j as int),
                decreases message.attachments.len() - j,
            {
                let ghost so_far = sources.deep_view();
                sources.push(message.attachments[j].clone());
                assert(sources.deep_view() =~= so_far.push(message@.attachments[j as int]));
                j += 1;
            }
        }
        i += 1;
    }
    assert(all.take(i as int) =~= all);
    sources
}

/// Extracts the media of one thread.
///
/// `messages` are the messages of the thread and `probes` what probing its
/// surviving attachments found, one for each in the order of
/// [`surviving_attachments`]. The result holds one media for each surviving
/// attachment, in that order, with the thread's tags resolved against
/// `catalogue`. An attachment without a probe is classified as
/// [`UNKNOWN_MEDIA_TYPE`]; a thread without surviving attachments yields
/// nothing.
pub fn extract(
    thread: &Thread,
    messages: &Vec<Message>,
    probes: &Vec<Probe>,
    catalogue: &Vec<Tag>,
) -> (medias: Vec<Media>)
    ensures
        medias.deep_view() == extracted(
            thread@,
            messages.deep_view(),
            probes.deep_view(),
            catalogue.deep_view(),
        ),
{
    let sources = surviving_attachments(messages);
    let tags = resolve_tags(catalogue, &thread.applied_tags);
    let mut medias: Vec<Media> = Vec::new();
    let mut i: usize = 0;
    while i < sources.len()
        invariant
            i <= sources.len(),
            medias.len() == i,
            sources.deep_view() == surviving(messages.deep_view()),
            tags.deep_view() == resolved_all(catalogue.deep_view(), thread@.applied_tags),
            forall|k: int|
                0 <= k < i ==> (#[trigger] medias[k])@ == (MediaView {
                    source: sources[k]@,
                    tags: resolved_all(catalogue.deep_view(), thread@.applied_tags),
                    media_type: media_type_at(probes.deep_view(), k),
                }),
        decreases sources.len() - i,
    {
        let media_type = if i < probes.len() {
            classify(&probes[i])
        } else {
            UNKNOWN_MEDIA_TYPE.to_string()
        };
        let own_tags = tags.clone();
        medias.push(Media { source: sources[i].clone(), tags: own_tags, media_type });
        i += 1;
    }
    medias
}

/// Builds the post of one thread: its title, its author, its media as
/// [`extract`] finds them, and its tags resolved against `catalogue`.
pub fn gen_post(
    thread: &Thread,
    messages: &Vec<Message>,
    probes: &Vec<Probe>,
    catalogue: &Vec<Tag>,
) -> (post: Post)
    ensures
        post@ == post_of(
            thread@,
            messages.deep_view(),
            probes.deep_view(),
            catalogue.deep_view(),
        ),
{
    let medias = extract(thread, messages, probes, catalogue);
    let author = if messages.len() == 0 {
        String::new()
    } else {
        messages[messages.len() - 1].author.clone()
    };
    let tags = resolve_tags(catalogue, &thread.applied_tags);
    Post { title: thread.name.clone(), author, medias, tags }
}

} // verus!
