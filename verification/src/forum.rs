//! What the chat platform reports of a forum channel: its threads, their
//! messages, and the reactions those messages carry.

use vstd::prelude::*;

verus! {

/// A reaction that a message carries.
#[derive(Debug, PartialEq, Eq)]
pub enum Reaction {
    /// A standard emoji, by its characters.
    Unicode(String),
    /// An emoji that belongs to a guild, by its identifier.
    Custom { id: u64 },
}

/// What a [`Reaction`] is in contracts.
#[verifier::ext_equal]
pub enum ReactionView {
    Unicode(Seq<char>),
    Custom { id: u64 },
}

impl View for Reaction {
    type V = ReactionView;

    open spec fn view(&self) -> ReactionView {
        match self {
            Reaction::Unicode(emoji) => ReactionView::Unicode(emoji@),
            Reaction::Custom { id } => ReactionView::Custom { id: *id },
        }
    }
}

impl DeepView for Reaction {
    type V = ReactionView;

    open spec fn deep_view(&self) -> ReactionView {
        self@
    }
}

/// A message of a thread: its identifier, who wrote it, the reactions it
/// carries, and the locations of its attachments.
#[derive(Debug, PartialEq, Eq)]
pub struct Message {
    pub id: u64,
    pub author: String,
    pub reactions: Vec<Reaction>,
    pub attachments: Vec<String>,
}

/// What a [`Message`] is in contracts.
#[verifier::ext_equal]
pub struct MessageView {
    pub id: u64,
    pub author: Seq<char>,
    pub reactions: Seq<ReactionView>,
    pub attachments: Seq<Seq<char>>,
}

impl View for Message {
    type V = MessageView;

    open spec fn view(&self) -> MessageView {
        MessageView {
            id: self.id,
            author: self.author@,
            reactions: self.reactions.deep_view(),
            attachments: self.attachments.deep_view(),
        }
    }
}

impl DeepView for Message {
    type V = MessageView;

    open spec fn deep_view(&self) -> MessageView {
        self@
    }
}

/// A thread: its identifier, the channel it hangs under, its title, and the
/// identifiers of the tags applied to it.
#[derive(Debug, PartialEq, Eq)]
pub struct Thread {
    pub id: u64,
    pub parent_id: Option<u64>,
    pub name: String,
    pub applied_tags: Vec<u64>,
}

/// What a [`Thread`] is in contracts.
#[verifier::ext_equal]
pub struct ThreadView {
    pub id: u64,
    pub parent_id: Option<u64>,
    pub name: Seq<char>,
    pub applied_tags: Seq<u64>,
}

impl View for Thread {
    type V = ThreadView;

    open spec fn view(&self) -> ThreadView {
        ThreadView {
            id: self.id,
            parent_id: self.parent_id,
            name: self.name@,
            applied_tags: self.applied_tags@,
        }
    }
}

impl DeepView for Thread {
    type V = ThreadView;

    open spec fn deep_view(&self) -> ThreadView {
        self@
    }
}

impl Clone for Thread {
    fn clone(&self) -> (r: Self)
        ensures
            r@ == self@,
    {
        let applied_tags = self.applied_tags.clone();
        Thread { id: self.id, parent_id: self.parent_id, name: self.name.clone(), applied_tags }
    }
}

} // verus!
