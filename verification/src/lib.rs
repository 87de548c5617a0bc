//! Aggregation of the media posted in the threads of a forum channel, and the
//! time-guarded cache that serves the result.
//!
//! The crate decides and leaves every fetch to its caller. A refresh is a
//! [`cycle::Cycle`]: it says what to fetch next and takes in what came back,
//! until it ends with a [`Harvest`] or with the listing that failed. The
//! harvest becomes a snapshot ([`aggregate::aggregate`]): the threads that
//! take part ([`listing::eligible_threads`]), the attachments of each that
//! survive moderation ([`extract::surviving_attachments`]), tagged and
//! classified ([`extract::extract`]). The cache entry ([`DB`]) says when a
//! refresh is due, takes the outcome in, and serves the last good snapshot.

pub mod aggregate;
pub mod classify;
pub mod cycle;
pub mod error;
pub mod extract;
pub mod forum;
pub mod listing;
pub mod model;
pub mod store;
pub mod tags;

pub use aggregate::{Harvest, ThreadHarvest};
pub use classify::Probe;
pub use cycle::{Action, Cycle, Event, Step};
pub use error::{ClassificationError, ExtractionError, UpstreamFetchError};
pub use forum::{Message, Reaction, Thread};
pub use model::{Cache, Media, Post, Tag};
pub use store::DB;
