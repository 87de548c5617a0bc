//! The served data: tags, media, posts and the snapshot that holds them.
//!
//! Every type has a view made of mathematical values (`Seq<char>` for text,
//! `Seq` for lists); contracts throughout the crate are stated over the views.

use vstd::prelude::*;

verus! {

/// A tag of the forum's catalogue: a stable identifier and its current name.
#[derive(Debug, PartialEq, Eq)]
pub struct Tag {
    pub id: u64,
    pub name: String,
}

/// What a [`Tag`] is in contracts.
#[verifier::ext_equal]
pub struct TagView {
    pub id: u64,
    pub name: Seq<char>,
}

impl View for Tag {
    type V = TagView;

    open spec fn view(&self) -> TagView {
        TagView { id: self.id, name: self.name@ }
    }
}

impl DeepView for Tag {
    type V = TagView;

    open spec fn deep_view(&self) -> TagView {
        self@
    }
}

impl Clone for Tag {
    fn clone(&self) -> (r: Self)
        ensures
            r == *self,
    {
        Tag { id: self.id, name: self.name.clone() }
    }
}

/// One attachment of a thread: where it lives, the tags of the thread it was
/// posted in, and its classification.
#[derive(Debug, PartialEq, Eq)]
pub struct Media {
    pub source: String,
    pub tags: Vec<Tag>,
    pub media_type: String,
}

/// What a [`Media`] is in contracts.
#[verifier::ext_equal]
pub struct MediaView {
    pub source: Seq<char>,
    pub tags: Seq<TagView>,
    pub media_type: Seq<char>,
}

impl View for Media {
    type V = MediaView;

    open spec fn view(&self) -> MediaView {
        MediaView {
            source: self.source@,
            tags: self.tags.deep_view(),
            media_type: self.media_type@,
        }
    }
}

impl DeepView for Media {
    type V = MediaView;

    open spec fn deep_view(&self) -> MediaView {
        self@
    }
}

impl Clone for Media {
    fn clone(&self) -> (r: Self)
        ensures
            r@ == self@,
    {
        let tags = self.tags.clone();
        Media { source: self.source.clone(), tags, media_type: self.media_type.clone() }
    }
}

/// What one thread yielded: its title, its author, its media and its tags.
#[derive(Debug, PartialEq, Eq)]
pub struct Post {
    pub title: String,
    pub author: String,
    pub medias: Vec<Media>,
    pub tags: Vec<Tag>,
}

/// What a [`Post`] is in contracts.
#[verifier::ext_equal]
pub struct PostView {
    pub title: Seq<char>,
    pub author: Seq<char>,
    pub medias: Seq<MediaView>,
    pub tags: Seq<TagView>,
}

impl View for Post {
    type V = PostView;

    open spec fn view(&self) -> PostView {
        PostView {
            title: self.title@,
            author: self.author@,
            medias: self.medias.deep_view(),
            tags: self.tags.deep_view(),
        }
    }
}

impl DeepView for Post {
    type V = PostView;

    open spec fn deep_view(&self) -> PostView {
        self@
    }
}

impl Clone for Post {
    fn clone(&self) -> (r: Self)
        ensures
            r@ == self@,
    {
        let medias = self.medias.clone();
        let tags = self.tags.clone();
        Post { title: self.title.clone(), author: self.author.clone(), medias, tags }
    }
}

/// The served snapshot: the tag catalogue and every media of every thread, as
/// one refresh found them.
#[derive(Debug, PartialEq, Eq)]
pub struct Cache {
    pub tags: Vec<Tag>,
    pub items: Vec<Media>,
}

/// What a [`Cache`] is in contracts.
#[verifier::ext_equal]
pub struct CacheView {
    pub tags: Seq<TagView>,
    pub items: Seq<MediaView>,
}

impl View for Cache {
    type V = CacheView;

    open spec fn view(&self) -> CacheView {
        CacheView { tags: self.tags.deep_view(), items: self.items.deep_view() }
    }
}

impl DeepView for Cache {
    type V = CacheView;

    open spec fn deep_view(&self) -> CacheView {
        self@
    }
}

impl Clone for Cache {
    fn clone(&self) -> (r: Self)
        ensures
            r@ == self@,
    {
        let tags = self.tags.clone();
        let items = self.items.clone();
        Cache { tags, items }
    }
}

impl Cache {
    /// The snapshot that holds nothing.
    pub fn empty() -> (c: Cache)
        ensures
            c@ == (CacheView { tags: Seq::empty(), items: Seq::empty() }),
    {
        let c = Cache { tags: Vec::new(), items: Vec::new() };
        c
    }
}

} // verus!
