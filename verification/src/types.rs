//! Data model of the pipeline: the inbound message with its media fields,
//! the uniform attachment produced by classification, the fetch state each
//! attachment moves through, and the assembled outbound message.

use vstd::prelude::*;

use crate::errors::FetchError;

verus! {

/// One resolution variant of an inbound photo. The platform lists variants
/// in ascending resolution order; classification keeps only the last.
pub struct PhotoSizeInfo {
    /// Stable id of the variant, used to derive the filename.
    pub file_unique_id: String,
    /// Id handed to the file-fetch collaborator.
    pub file_id: String,
    /// Declared byte size, when the platform supplied one.
    pub file_size: Option<u32>,
}

/// The audio field of an inbound message.
pub struct AudioInfo {
    /// Stable id, used to derive the filename.
    pub file_unique_id: String,
    /// Id handed to the file-fetch collaborator.
    pub file_id: String,
    /// MIME type as `type/subtype`, when the platform supplied one.
    pub mime_type: Option<String>,
    /// Declared byte size, when the platform supplied one.
    pub file_size: Option<u32>,
}

/// The generic-file field of an inbound message.
pub struct DocumentInfo {
    /// Stable id, used to derive the filename when no name was supplied.
    pub file_unique_id: String,
    /// Id handed to the file-fetch collaborator.
    pub file_id: String,
    /// Filename the platform supplied, if any.
    pub file_name: Option<String>,
    /// MIME type as `type/subtype`, when the platform supplied one.
    pub mime_type: Option<String>,
    /// Declared byte size, when the platform supplied one.
    pub file_size: Option<u32>,
}

/// The sticker field of an inbound message. Stickers carry no MIME type;
/// the extension is inferred from the two flags.
pub struct StickerInfo {
    /// Stable id, used to derive the filename.
    pub file_unique_id: String,
    /// Id handed to the file-fetch collaborator.
    pub file_id: String,
    /// Animated sticker: deliberately unsupported.
    pub is_animated: bool,
    /// Video sticker: named with a `.webm` extension.
    pub is_video: bool,
    /// Declared byte size, when the platform supplied one.
    pub file_size: Option<u32>,
}

/// The video field of an inbound message.
pub struct VideoInfo {
    /// Stable id, used to derive the filename when no name was supplied.
    pub file_unique_id: String,
    /// Id handed to the file-fetch collaborator.
    pub file_id: String,
    /// Filename the platform supplied, if any.
    pub file_name: Option<String>,
    /// MIME type as `type/subtype`, when the platform supplied one.
    pub mime_type: Option<String>,
    /// Declared byte size, when the platform supplied one.
    pub file_size: Option<u32>,
}

/// The animation field of an inbound message; named like a video.
pub struct AnimationInfo {
    /// Stable id, used to derive the filename when no name was supplied.
    pub file_unique_id: String,
    /// Id handed to the file-fetch collaborator.
    pub file_id: String,
    /// Filename the platform supplied, if any.
    pub file_name: Option<String>,
    /// MIME type as `type/subtype`, when the platform supplied one.
    pub mime_type: Option<String>,
    /// Declared byte size, when the platform supplied one.
    pub file_size: Option<u32>,
}

/// Everything one inbound message carries that the pipeline reads: the text
/// (or caption) and at most one populated media field per kind.
pub struct TelegramMessageData {
    /// Caption or text of the message.
    pub text: Option<String>,
    /// Photo variants in ascending resolution order.
    pub photos: Option<Vec<PhotoSizeInfo>>,
    /// The audio field, if populated.
    pub audio: Option<AudioInfo>,
    /// The generic-file field, if populated.
    pub file: Option<DocumentInfo>,
    /// The sticker field, if populated.
    pub sticker: Option<StickerInfo>,
    /// The video field, if populated.
    pub video: Option<VideoInfo>,
    /// The animation field, if populated.
    pub gif: Option<AnimationInfo>,
}

/// Where one attachment's byte retrieval stands. The retrieval itself runs
/// outside this crate; callers drive the state along
/// `Scheduled -> Fetching -> Resolved | Failed` and the contracts refuse
/// starting the same fetch twice.
#[derive(Debug)]
pub enum FetchState {
    /// Created; the fetch has not been started.
    Scheduled,
    /// The fetch is running.
    Fetching,
    /// The fetch finished and these are the bytes.
    Resolved(Vec<u8>),
    /// The fetch finished without bytes.
    Failed(FetchError),
}

/// One classified attachment: the derived filename, the ids the fetch needs,
/// the declared size used for ordering, and the state of its byte fetch.
#[derive(Debug)]
pub struct Attachment {
    /// Filename derived by classification.
    pub file_name: String,
    /// Id handed to the file-fetch collaborator.
    pub file_id: String,
    /// In-flight or completed byte fetch.
    pub file_data: FetchState,
    /// Declared byte size, when the platform supplied one.
    pub file_size: Option<u32>,
}

/// A filename/bytes pair ready to be handed to an endpoint send.
pub struct OutboundFile {
    /// Filename the endpoint will show.
    pub file_name: String,
    /// The fetched bytes.
    pub bytes: Vec<u8>,
}

/// The assembled outbound message: the preserved text and the attachments,
/// ordered ascending by declared size.
pub struct UnifiedMessage {
    /// The attachments, with their fetch handles.
    pub attachments: Vec<Attachment>,
    /// Text carried over verbatim; absent stays absent.
    pub message_text: Option<String>,
}

impl FetchState {
    /// The fetch has finished, one way or the other.
    pub open spec fn is_done(self) -> bool {
        self is Resolved || self is Failed
    }
}

impl Attachment {
    /// Create a new attachment with its fetch not yet started. Starting the
    /// retrieval is a separate step, so a caller can gate how many fetches
    /// run at once without changing call sites.
    pub fn new(file_name: String, file_id: String, file_size: Option<u32>) -> (r: Self)
        ensures
            r.file_name == file_name,
            r.file_id == file_id,
            r.file_size == file_size,
            r.file_data is Scheduled,
    {
        Self { file_name, file_id, file_size, file_data: FetchState::Scheduled }
    }

    /// Mark the byte retrieval as started. A fetch is started at most once:
    /// this step is only open to an attachment still in `Scheduled`.
    pub fn start_fetch(&mut self)
        requires
            old(self).file_data is Scheduled,
        ensures
            final(self).file_data is Fetching,
            final(self).file_name == old(self).file_name,
            final(self).file_id == old(self).file_id,
            final(self).file_size == old(self).file_size,
    {
        self.file_data = FetchState::Fetching;
    }

    /// Record that the running fetch delivered these bytes.
    pub fn resolve_fetch(&mut self, bytes: Vec<u8>)
        requires
            old(self).file_data is Fetching,
        ensures
            final(self).file_data == FetchState::Resolved(bytes),
            final(self).file_name == old(self).file_name,
            final(self).file_id == old(self).file_id,
            final(self).file_size == old(self).file_size,
    {
        self.file_data = FetchState::Resolved(bytes);
    }

    /// Record that the running fetch failed.
    pub fn fail_fetch(&mut self, err: FetchError)
        requires
            old(self).file_data is Fetching,
        ensures
            final(self).file_data == FetchState::Failed(err),
            final(self).file_name == old(self).file_name,
            final(self).file_id == old(self).file_id,
            final(self).file_size == old(self).file_size,
    {
        self.file_data = FetchState::Failed(err);
    }

    /// Whether the fetch has finished, one way or the other.
    pub fn fetch_done(&self) -> (r: bool)
        ensures
            r == self.file_data.is_done(),
    {
        match &self.file_data {
            FetchState::Resolved(_) => true,
            FetchState::Failed(_) => true,
            _ => false,
        }
    }

    /// Hand out the fetched bytes, or the error the fetch ended with. The
    /// waiting itself happens outside this crate; this consumes a finished
    /// fetch, and the outcome is exactly what was recorded.
    pub fn get_file_or_wait(self) -> (r: Result<Vec<u8>, FetchError>)
        requires
            self.file_data.is_done(),
        ensures
            self.file_data matches FetchState::Resolved(b) ==> r == Ok::<Vec<u8>, FetchError>(b),
            self.file_data matches FetchState::Failed(e) ==> r == Err::<Vec<u8>, FetchError>(e),
    {
        match self.file_data {
            FetchState::Resolved(bytes) => Ok(bytes),
            FetchState::Failed(err) => Err(err),
            FetchState::Scheduled => Err(FetchError::NotFound),
            FetchState::Fetching => Err(FetchError::NotFound),
        }
    }

    /// Turn a finished attachment into the filename/bytes pair an endpoint
    /// send takes, or the error its fetch ended with.
    pub fn to_discord_attachment(self) -> (r: Result<OutboundFile, FetchError>)
        requires
            self.file_data.is_done(),
        ensures
            self.file_data matches FetchState::Resolved(b) ==> r matches Ok(f)
                && f.file_name == self.file_name && f.bytes == b,
            self.file_data matches FetchState::Failed(e) ==> r == Err::<OutboundFile, FetchError>(e),
    {
        let Attachment { file_name, file_id: _, file_data, file_size: _ } = self;
        match file_data {
            FetchState::Resolved(bytes) => Ok(OutboundFile { file_name, bytes }),
            FetchState::Failed(err) => Err(err),
            FetchState::Scheduled => Err(FetchError::NotFound),
            FetchState::Fetching => Err(FetchError::NotFound),
        }
    }
}

} // verus!
