//! Classifying an attachment by the content type that its resource declares.
//!
//! Probing the resource is the caller's work; what the probe found comes in as
//! a [`Probe`]. A probe that learned no content type never fails anything: the
//! attachment is classified as [`UNKNOWN_MEDIA_TYPE`].

use vstd::prelude::*;
use crate::error::ClassificationError;

verus! {

/// The classification of an attachment whose content type could not be
/// learned.
pub const UNKNOWN_MEDIA_TYPE: &'static str = "unknown";

/// What probing the resource of one attachment found.
#[derive(Debug, PartialEq, Eq)]
pub enum Probe {
    /// The resource answered and declared a content type: the bytes of that
    /// header.
    ContentType(Vec<u8>),
    /// The resource answered without declaring a content type.
    Undeclared,
    /// The resource could not be reached.
    Unreachable,
    /// The resource did not answer in time.
    TimedOut,
}

/// What a [`Probe`] is in contracts.
#[verifier::ext_equal]
pub enum ProbeView {
    ContentType(Seq<u8>),
    Undeclared,
    Unreachable,
    TimedOut,
}

impl View for Probe {
    type V = ProbeView;

    open spec fn view(&self) -> ProbeView {
        match self {
            Probe::ContentType(raw) => ProbeView::ContentType(raw@),
            Probe::Undeclared => ProbeView::Undeclared,
            Probe::Unreachable => ProbeView::Unreachable,
            Probe::TimedOut => ProbeView::TimedOut,
        }
    }
}

impl DeepView for Probe {
    type V = ProbeView;

    open spec fn deep_view(&self) -> ProbeView {
        self@
    }
}

/// Whether a byte of a header value is text: visible ASCII, a space or a tab.
pub open spec fn is_text_byte(b: u8) -> bool {
    (32 <= b && b < 127) || b == 9
}

/// Whether every byte of a header value is text.
pub open spec fn is_header_text(raw: Seq<u8>) -> bool {
    forall|i: int| 0 <= i < raw.len() ==> is_text_byte(#[trigger] raw[i])
}

/// The characters of a header value, one for each byte.
pub open spec fn header_chars(raw: Seq<u8>) -> Seq<char> {
    Seq::new(raw.len(), |i: int| raw[i] as char)
}

/// The content type that a probe learned, or why it learned none.
pub open spec fn declared_type(probe: ProbeView) -> Result<Seq<char>, ClassificationError> {
    match probe {
        ProbeView::ContentType(raw) => if is_header_text(raw) {
            Ok(header_chars(raw))
        } else {
            Err(ClassificationError::MalformedContentType)
        },
        ProbeView::Undeclared => Err(ClassificationError::MissingContentType),
        ProbeView::Unreachable => Err(ClassificationError::Unreachable),
        ProbeView::TimedOut => Err(ClassificationError::TimedOut),
    }
}

/// The classification that a probe leads to.
pub open spec fn media_type_of(probe: ProbeView) -> Seq<char> {
    match declared_type(probe) {
        Ok(declared) => declared,
        Err(_) => UNKNOWN_MEDIA_TYPE@,
    }
}

/// Reads a header value as text, by `HeaderValue::to_str` of the `http` crate
/// (reached as `reqwest::header`) on the value that `HeaderValue::from_bytes`
/// makes of `raw`.
///
/// Not proved, but taken from that crate: `from_bytes` accepts the bytes from
/// 32 up, but for 127, and the tab; `to_str` then succeeds exactly when every
/// byte is below 127 as well, and hands the bytes back unchanged as a string,
/// so each character is the byte that stood in its place.
#[verifier::external_body]
fn header_text(raw: &Vec<u8>) -> (text: Option<String>)
    ensures
        text is Some <==> is_header_text(raw@),
        text matches Some(t) ==> t@ == header_chars(raw@),
{
    match reqwest::header::HeaderValue::from_bytes(raw.as_slice()) {
        Ok(value) => match value.to_str() {
            Ok(t) => Some(t.to_string()),
            Err(_) => None,
        },
        Err(_) => None,
    }
}

/// The content type that a probe learned, as text, or the reason why there is
/// none.
pub fn content_type(probe: &Probe) -> (declared: Result<String, ClassificationError>)
    ensures
        match declared {
            Ok(text) => declared_type(probe@) == Ok::<Seq<char>, ClassificationError>(text@),
            Err(e) => declared_type(probe@) == Err::<Seq<char>, ClassificationError>(e),
        },
{
    match probe {
        Probe::ContentType(raw) => match header_text(raw) {
            Some(t) => Ok(t),
            None => Err(ClassificationError::MalformedContentType),
        },
        Probe::Undeclared => Err(ClassificationError::MissingContentType),
        Probe::Unreachable => Err(ClassificationError::Unreachable),
        Probe::TimedOut => Err(ClassificationError::TimedOut),
    }
}

/// Classifies an attachment from what probing its resource found: the
/// declared content type, and [`UNKNOWN_MEDIA_TYPE`] where the probe learned
/// none.
pub fn classify(probe: &Probe) -> (media_type: String)
    ensures
        media_type@ == media_type_of(probe@),
{
    match content_type(probe) {
        Ok(declared) => declared,
        Err(_) => UNKNOWN_MEDIA_TYPE.to_string(),
    }
}

} // verus!
