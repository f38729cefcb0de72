//! Error taxonomy of the pipeline. Every error is scoped to one item (one
//! media kind, one attachment, one endpoint) and never aborts sibling work.

use vstd::prelude::*;

verus! {

/// Why one media kind of an inbound message produced no attachment.
#[derive(Clone, Copy, Debug, PartialEq, Eq, Structural)]
pub enum ClassificationError {
    /// The kind carried no MIME type, or the MIME type is not in the table.
    UnknownMimeType,
    /// The kind is recognised but deliberately not handled
    /// (animated stickers).
    UnsupportedAttachmentKind,
}

/// Why one attachment's byte fetch produced no bytes.
#[derive(Clone, Copy, Debug, PartialEq, Eq, Structural)]
pub enum FetchError {
    /// The file id did not resolve to a downloadable path.
    NotFound,
    /// The download itself failed.
    NetworkFailure,
}

/// Why one endpoint send failed. A failure here never stops the sends to the
/// remaining endpoints of the route.
#[derive(Clone, Copy, Debug, PartialEq, Eq, Structural)]
pub enum DispatchError {
    /// The endpoint could not be reached.
    Unreachable,
    /// The endpoint answered but refused the message.
    Rejected,
}

/// The media kinds an inbound message can populate, used to say which kind
/// a recorded classification error belongs to.
#[derive(Clone, Copy, Debug, PartialEq, Eq, Structural)]
pub enum MediaKind {
    /// Photo variants.
    Photo,
    /// Audio.
    Audio,
    /// Generic file.
    File,
    /// Sticker.
    Sticker,
    /// Video.
    Video,
    /// Animation.
    Gif,
}

/// One classification failure, recorded against the media kind it degraded.
#[derive(Clone, Copy, Debug, PartialEq, Eq, Structural)]
pub struct RecordedError {
    /// The media kind that produced no attachment.
    pub kind: MediaKind,
    /// Why it produced none.
    pub error: ClassificationError,
}

/// The recorded result of one endpoint send attempt.
#[derive(Clone, Copy, Debug, PartialEq, Eq, Structural)]
pub enum SendOutcome {
    /// The endpoint accepted the message.
    Delivered,
    /// The send failed; the error says how.
    Failed(DispatchError),
}

} // verus!
