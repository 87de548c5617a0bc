use gal::extract::{
    extract, gen_post, is_excluded, is_moderation_reaction, surviving_attachments,
    MODERATION_EMOJI,
};
use gal::{Media, Message, Post, Probe, Reaction, Tag, Thread};

fn mark() -> Reaction {
    Reaction::Unicode(MODERATION_EMOJI.to_string())
}

fn emoji(text: &str) -> Reaction {
    Reaction::Unicode(text.to_string())
}

fn message(author: &str, reactions: Vec<Reaction>, attachments: &[&str]) -> Message {
    Message {
        id: 0,
        author: author.to_string(),
        reactions,
        attachments: attachments.iter().map(|a| a.to_string()).collect(),
    }
}

fn thread_with_tags(applied_tags: Vec<u64>) -> Thread {
    Thread { id: 10, parent_id: Some(77), name: "sketches".to_string(), applied_tags }
}

fn art_catalogue() -> Vec<Tag> {
    vec![Tag { id: 1, name: "art".to_string() }]
}

fn png() -> Probe {
    Probe::ContentType(b"image/png".to_vec())
}

fn media(source: &str, tags: Vec<Tag>, media_type: &str) -> Media {
    Media { source: source.to_string(), tags, media_type: media_type.to_string() }
}

#[test]
fn moderation_emoji_has_its_four_characters() {
    let chars: Vec<u32> = MODERATION_EMOJI.chars().map(|c| c as u32).collect();
    assert_eq!(chars, vec![0xe2, 0x2013, 0xaa, 0xfe0f]);
}

#[test]
fn only_the_exact_emoji_is_the_mark() {
    assert!(is_moderation_reaction(&mark()));
    assert!(!is_moderation_reaction(&emoji("\u{2b50}")));
    assert!(!is_moderation_reaction(&emoji("")));
    assert!(!is_moderation_reaction(&emoji("\u{e2}\u{2013}\u{aa}")));
    assert!(!is_moderation_reaction(&emoji("\u{e2}\u{2013}\u{aa}\u{fe0f}\u{fe0f}")));
    assert!(!is_moderation_reaction(&Reaction::Custom { id: 5 }));
}

#[test]
fn message_is_excluded_by_a_mark_anywhere_among_its_reactions() {
    assert!(is_excluded(&message("a", vec![mark()], &["x.png"])));
    assert!(is_excluded(&message("a", vec![emoji("\u{2b50}"), mark()], &[])));
    assert!(is_excluded(&message("a", vec![mark(), Reaction::Custom { id: 1 }], &[])));
}

#[test]
fn message_without_the_mark_is_kept() {
    assert!(!is_excluded(&message("a", vec![], &["x.png"])));
    assert!(!is_excluded(&message("a", vec![emoji("\u{2b50}"), Reaction::Custom { id: 1 }], &[])));
}

#[test]
fn two_messages_one_marked_yield_the_media_of_the_other() {
    let thread = thread_with_tags(vec![1]);
    let messages = vec![
        message("ann", vec![], &["a.png"]),
        message("bob", vec![mark()], &["b.png"]),
    ];
    assert_eq!(surviving_attachments(&messages), vec!["a.png".to_string()]);
    let medias = extract(&thread, &messages, &vec![png()], &art_catalogue());
    assert_eq!(medias, vec![media("a.png", art_catalogue(), "image/png")]);
}

#[test]
fn thread_whose_only_message_is_marked_yields_nothing() {
    let thread = thread_with_tags(vec![1]);
    let messages = vec![message("ann", vec![mark()], &["a.png", "b.png"])];
    assert_eq!(surviving_attachments(&messages), Vec::<String>::new());
    assert_eq!(extract(&thread, &messages, &vec![png()], &art_catalogue()), Vec::<Media>::new());
}

#[test]
fn thread_without_messages_yields_nothing() {
    let thread = thread_with_tags(vec![1]);
    assert_eq!(surviving_attachments(&vec![]), Vec::<String>::new());
    assert_eq!(extract(&thread, &vec![], &vec![], &art_catalogue()), Vec::<Media>::new());
}

#[test]
fn unmarked_messages_contribute_every_attachment_in_message_order() {
    let thread = thread_with_tags(vec![]);
    let messages = vec![
        message("ann", vec![], &["a1", "a2"]),
        message("bob", vec![emoji("\u{2b50}")], &[]),
        message("cyd", vec![Reaction::Custom { id: 3 }], &["c1"]),
    ];
    assert_eq!(
        surviving_attachments(&messages),
        vec!["a1".to_string(), "a2".to_string(), "c1".to_string()]
    );
    let probes = vec![png(), Probe::ContentType(b"video/mp4".to_vec()), Probe::TimedOut];
    let medias = extract(&thread, &messages, &probes, &vec![]);
    assert_eq!(
        medias,
        vec![
            media("a1", vec![], "image/png"),
            media("a2", vec![], "video/mp4"),
            media("c1", vec![], "unknown"),
        ]
    );
}

#[test]
fn marked_message_in_the_middle_is_dropped_whole() {
    let messages = vec![
        message("ann", vec![], &["a1"]),
        message("bob", vec![mark()], &["b1", "b2"]),
        message("cyd", vec![], &["c1"]),
    ];
    assert_eq!(surviving_attachments(&messages), vec!["a1".to_string(), "c1".to_string()]);
}

#[test]
fn every_media_carries_the_tags_of_its_thread() {
    let thread = thread_with_tags(vec![1, 4]);
    let messages = vec![message("ann", vec![], &["a1", "a2"])];
    let medias = extract(&thread, &messages, &vec![png(), png()], &art_catalogue());
    let tags = vec![
        Tag { id: 1, name: "art".to_string() },
        Tag { id: 4, name: "errored".to_string() },
    ];
    assert_eq!(
        medias,
        vec![media("a1", tags.clone(), "image/png"), media("a2", tags, "image/png")]
    );
}

#[test]
fn attachment_without_a_probe_is_unknown() {
    let thread = thread_with_tags(vec![]);
    let messages = vec![message("ann", vec![], &["a1", "a2"])];
    let medias = extract(&thread, &messages, &vec![png()], &vec![]);
    assert_eq!(medias, vec![media("a1", vec![], "image/png"), media("a2", vec![], "unknown")]);
}

#[test]
fn probes_beyond_the_attachments_are_ignored() {
    let thread = thread_with_tags(vec![]);
    let messages = vec![message("ann", vec![], &["a1"])];
    let medias = extract(&thread, &messages, &vec![png(), png(), png()], &vec![]);
    assert_eq!(medias, vec![media("a1", vec![], "image/png")]);
}

#[test]
fn probe_with_a_malformed_header_is_unknown() {
    let thread = thread_with_tags(vec![]);
    let messages = vec![message("ann", vec![], &["a1"])];
    let probes = vec![Probe::ContentType(vec![0xff])];
    assert_eq!(extract(&thread, &messages, &probes, &vec![]), vec![media("a1", vec![], "unknown")]);
}

#[test]
fn post_has_title_author_media_and_tags() {
    let thread = thread_with_tags(vec![1]);
    let messages = vec![
        message("ann", vec![], &["a.png"]),
        message("bob", vec![mark()], &["b.png"]),
    ];
    let post = gen_post(&thread, &messages, &vec![png()], &art_catalogue());
    assert_eq!(
        post,
        Post {
            title: "sketches".to_string(),
            author: "bob".to_string(),
            medias: vec![media("a.png", art_catalogue(), "image/png")],
            tags: art_catalogue(),
        }
    );
}

#[test]
fn post_of_a_thread_without_messages_has_no_author() {
    let thread = thread_with_tags(vec![2]);
    let post = gen_post(&thread, &vec![], &vec![], &art_catalogue());
    assert_eq!(
        post,
        Post {
            title: "sketches".to_string(),
            author: String::new(),
            medias: vec![],
            tags: vec![Tag { id: 2, name: "errored".to_string() }],
        }
    );
}
