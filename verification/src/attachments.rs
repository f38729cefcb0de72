//! Classification: turning the populated media fields of one inbound message
//! into uniform attachments, one sub-rule per kind. The kinds are evaluated
//! independently: a failure in one kind is recorded and degrades that kind
//! only, never the others.

use vstd::prelude::*;

use crate::errors::ClassificationError;
use crate::errors::MediaKind;
use crate::errors::RecordedError;
use crate::mime::resolve_mime;
use crate::mime::resolved_ext;
use crate::types::AnimationInfo;
use crate::types::Attachment;
use crate::types::DocumentInfo;
use crate::types::AudioInfo;
use crate::types::PhotoSizeInfo;
use crate::types::StickerInfo;
use crate::types::VideoInfo;
use crate::types::TelegramMessageData;
use vstd::string::StringExecFns;

verus! {

/// A freshly classified attachment: the given filename, ids and size, with
/// its fetch not yet started.
pub open spec fn fresh_ref(att: Attachment, name: Seq<char>, id: Seq<char>, size: Option<u32>) -> bool {
    &&& att.file_name@ == name
    &&& att.file_id@ == id
    &&& att.file_size == size
    &&& att.file_data is Scheduled
}

/// The audio kind classifies: it carries a MIME type the table resolves.
pub open spec fn audio_yields(a: AudioInfo) -> bool {
    a.mime_type matches Some(m) && resolved_ext(m@) is Some
}

/// The attachment the audio kind produces: named unique id + extension.
pub open spec fn is_audio_ref(a: AudioInfo, att: Attachment) -> bool
    recommends
        audio_yields(a),
{
    fresh_ref(
        att,
        a.file_unique_id@ + resolved_ext((a.mime_type->0)@)->0,
        a.file_id@,
        a.file_size,
    )
}

/// A kind that may carry its own filename (generic file, video, animation)
/// classifies: either a name was supplied, or the MIME type resolves.
pub open spec fn named_yields(name: Option<String>, mime: Option<String>) -> bool {
    name is Some || (mime matches Some(m) && resolved_ext(m@) is Some)
}

/// The filename such a kind gets: the supplied name when there is one,
/// otherwise unique id + extension.
pub open spec fn named_name(name: Option<String>, uid: Seq<char>, mime: Option<String>) -> Seq<char>
    recommends
        named_yields(name, mime),
{
    if name is Some {
        (name->0)@
    } else {
        uid + resolved_ext((mime->0)@)->0
    }
}

/// The sticker kind classifies: animated stickers are deliberately not
/// handled, every other sticker is.
pub open spec fn sticker_yields(s: StickerInfo) -> bool {
    !s.is_animated
}

/// The filename a sticker gets, inferred from its flags: `.webm` for a video
/// sticker, `.png` otherwise.
pub open spec fn sticker_name(s: StickerInfo) -> Seq<char>
    recommends
        sticker_yields(s),
{
    s.file_unique_id@ + (if s.is_video {
        ".webm"@
    } else {
        ".png"@
    })
}

/// The attachment the sticker kind produces.
pub open spec fn is_sticker_ref(s: StickerInfo, att: Attachment) -> bool
    recommends
        sticker_yields(s),
{
    fresh_ref(att, sticker_name(s), s.file_id@, s.file_size)
}

/// The photo kind classifies: the variant list is present and non-empty.
pub open spec fn photo_yields(photos: Option<Vec<PhotoSizeInfo>>) -> bool {
    photos matches Some(v) && v@.len() > 0
}

/// The variant classification keeps: the last of the ascending-resolution
/// list, the highest resolution. All other variants are discarded.
pub open spec fn chosen_photo(photos: Option<Vec<PhotoSizeInfo>>) -> PhotoSizeInfo
    recommends
        photo_yields(photos),
{
    (photos->0)@.last()
}

/// The attachment the photo kind produces: the chosen variant, named
/// unique id + `.jpg`.
pub open spec fn is_photo_ref(photos: Option<Vec<PhotoSizeInfo>>, att: Attachment) -> bool
    recommends
        photo_yields(photos),
{
    fresh_ref(
        att,
        chosen_photo(photos).file_unique_id@ + ".jpg"@,
        chosen_photo(photos).file_id@,
        chosen_photo(photos).file_size,
    )
}

/// The audio kind is populated and classifies.
pub open spec fn audio_classifies(msg: TelegramMessageData) -> bool {
    msg.audio matches Some(a) && audio_yields(a)
}

/// The audio kind is populated and fails.
pub open spec fn audio_fails(msg: TelegramMessageData) -> bool {
    msg.audio matches Some(a) && !audio_yields(a)
}

/// The generic-file kind is populated and classifies.
pub open spec fn file_classifies(msg: TelegramMessageData) -> bool {
    msg.file matches Some(f) && named_yields(f.file_name, f.mime_type)
}

/// The generic-file kind is populated and fails.
pub open spec fn file_fails(msg: TelegramMessageData) -> bool {
    msg.file matches Some(f) && !named_yields(f.file_name, f.mime_type)
}

/// The sticker kind is populated and classifies.
pub open spec fn sticker_classifies(msg: TelegramMessageData) -> bool {
    msg.sticker matches Some(s) && sticker_yields(s)
}

/// The sticker kind is populated and fails (an animated sticker).
pub open spec fn sticker_fails(msg: TelegramMessageData) -> bool {
    msg.sticker matches Some(s) && !sticker_yields(s)
}

/// The video kind is populated and classifies.
pub open spec fn video_classifies(msg: TelegramMessageData) -> bool {
    msg.video matches Some(f) && named_yields(f.file_name, f.mime_type)
}

/// The video kind is populated and fails.
pub open spec fn video_fails(msg: TelegramMessageData) -> bool {
    msg.video matches Some(f) && !named_yields(f.file_name, f.mime_type)
}

/// The animation kind is populated and classifies.
pub open spec fn gif_classifies(msg: TelegramMessageData) -> bool {
    msg.gif matches Some(f) && named_yields(f.file_name, f.mime_type)
}

/// The animation kind is populated and fails.
pub open spec fn gif_fails(msg: TelegramMessageData) -> bool {
    msg.gif matches Some(f) && !named_yields(f.file_name, f.mime_type)
}

/// The attachment the generic-file kind produces.
pub open spec fn is_file_ref(f: DocumentInfo, att: Attachment) -> bool
    recommends
        named_yields(f.file_name, f.mime_type),
{
    fresh_ref(
        att,
        named_name(f.file_name, f.file_unique_id@, f.mime_type),
        f.file_id@,
        f.file_size,
    )
}

/// The attachment the video kind produces.
pub open spec fn is_video_ref(f: VideoInfo, att: Attachment) -> bool
    recommends
        named_yields(f.file_name, f.mime_type),
{
    fresh_ref(
        att,
        named_name(f.file_name, f.file_unique_id@, f.mime_type),
        f.file_id@,
        f.file_size,
    )
}

/// The attachment the animation kind produces.
pub open spec fn is_gif_ref(f: AnimationInfo, att: Attachment) -> bool
    recommends
        named_yields(f.file_name, f.mime_type),
{
    fresh_ref(
        att,
        named_name(f.file_name, f.file_unique_id@, f.mime_type),
        f.file_id@,
        f.file_size,
    )
}

/// Classify the audio field: one attachment named unique id + extension.
/// Fails exactly when the MIME type is missing or the table cannot resolve
/// it; an absent field yields nothing.
pub fn get_audio_attachments(message_data: &TelegramMessageData) -> (r: Result<
    Vec<Attachment>,
    ClassificationError,
>)
    ensures
        message_data.audio is None ==> (r matches Ok(v) && v@.len() == 0),
        audio_classifies(*message_data) ==> (r matches Ok(v) && v@.len() == 1 && is_audio_ref(
            message_data.audio->0,
            v@[0],
        )),
        audio_fails(*message_data) ==> r == Err::<Vec<Attachment>, ClassificationError>(
            ClassificationError::UnknownMimeType,
        ),
{
    let mut attachments: Vec<Attachment> = Vec::new();

    if let Some(audio) = &message_data.audio {
        let ext = match &audio.mime_type {
            Some(mime) => match resolve_mime(mime.as_str()) {
                Ok(ext) => ext,
                Err(err) => {
                    return Err(err);
                },
            },
            None => {
                return Err(ClassificationError::UnknownMimeType);
            },
        };

        let filename = String::from_str(audio.file_unique_id.as_str()).concat(ext.as_str());
        attachments.push(Attachment::new(filename, audio.file_id.clone(), audio.file_size));
    }
    Ok(attachments)
}

/// Classify the generic-file field: the supplied filename when there is
/// one, otherwise unique id + extension. Fails exactly when no name was
/// supplied and the MIME type is missing or unresolvable.
pub fn get_file_attachments(message_data: &TelegramMessageData) -> (r: Result<
    Vec<Attachment>,
    ClassificationError,
>)
    ensures
        message_data.file is None ==> (r matches Ok(v) && v@.len() == 0),
        file_classifies(*message_data) ==> (r matches Ok(v) && v@.len() == 1 && is_file_ref(
            message_data.file->0,
            v@[0],
        )),
        file_fails(*message_data) ==> r == Err::<Vec<Attachment>, ClassificationError>(
            ClassificationError::UnknownMimeType,
        ),
{
    let mut attachments: Vec<Attachment> = Vec::new();

    if let Some(file) = &message_data.file {
        let filename = match &file.file_name {
            Some(name) => name.clone(),
            None => {
                let ext = match &file.mime_type {
                    Some(mime) => match resolve_mime(mime.as_str()) {
                        Ok(ext) => ext,
                        Err(err) => {
                            return Err(err);
                        },
                    },
                    None => {
                        return Err(ClassificationError::UnknownMimeType);
                    },
                };
                String::from_str(file.file_unique_id.as_str()).concat(ext.as_str())
            },
        };
        attachments.push(Attachment::new(filename, file.file_id.clone(), file.file_size));
    }
    Ok(attachments)
}

/// Classify the sticker field. Stickers carry no MIME type, so the
/// extension is inferred from the flags: animated stickers are deliberately
/// unsupported, video stickers become `.webm`, all others `.png`.
pub fn get_sticker_attachments(message_data: &TelegramMessageData) -> (r: Result<
    Vec<Attachment>,
    ClassificationError,
>)
    ensures
        message_data.sticker is None ==> (r matches Ok(v) && v@.len() == 0),
        sticker_classifies(*message_data) ==> (r matches Ok(v) && v@.len() == 1 && is_sticker_ref(
            message_data.sticker->0,
            v@[0],
        )),
        sticker_fails(*message_data) ==> r == Err::<Vec<Attachment>, ClassificationError>(
            ClassificationError::UnsupportedAttachmentKind,
        ),
{
    let mut attachments: Vec<Attachment> = Vec::new();

    if let Some(sticker) = &message_data.sticker {
        let filename = if sticker.is_animated {
            return Err(ClassificationError::UnsupportedAttachmentKind);
        } else if sticker.is_video {
            String::from_str(sticker.file_unique_id.as_str()).concat(".webm")
        } else {
            String::from_str(sticker.file_unique_id.as_str()).concat(".png")
        };
        attachments.push(Attachment::new(filename, sticker.file_id.clone(), sticker.file_size));
    }
    Ok(attachments)
}

/// Classify the video field: the supplied filename when there is one,
/// otherwise unique id + extension, with the same failure rule as the
/// generic file.
pub fn get_video_attachments(message_data: &TelegramMessageData) -> (r: Result<
    Vec<Attachment>,
    ClassificationError,
>)
    ensures
        message_data.video is None ==> (r matches Ok(v) && v@.len() == 0),
        video_classifies(*message_data) ==> (r matches Ok(v) && v@.len() == 1 && is_video_ref(
            message_data.video->0,
            v@[0],
        )),
        video_fails(*message_data) ==> r == Err::<Vec<Attachment>, ClassificationError>(
            ClassificationError::UnknownMimeType,
        ),
{
    let mut attachments: Vec<Attachment> = Vec::new();

    if let Some(video) = &message_data.video {
        let filename = match &video.file_name {
            Some(name) => name.clone(),
            None => {
                let ext = match &video.mime_type {
                    Some(mime) => match resolve_mime(mime.as_str()) {
                        Ok(ext) => ext,
                        Err(err) => {
                            return Err(err);
                        },
                    },
                    None => {
                        return Err(ClassificationError::UnknownMimeType);
                    },
                };
                String::from_str(video.file_unique_id.as_str()).concat(ext.as_str())
            },
        };
        attachments.push(Attachment::new(filename, video.file_id.clone(), video.file_size));
    }
    Ok(attachments)
}

/// Classify the animation field, named exactly like a video.
pub fn get_gif_attachments(message_data: &TelegramMessageData) -> (r: Result<
    Vec<Attachment>,
    ClassificationError,
>)
    ensures
        message_data.gif is None ==> (r matches Ok(v) && v@.len() == 0),
        gif_classifies(*message_data) ==> (r matches Ok(v) && v@.len() == 1 && is_gif_ref(
            message_data.gif->0,
            v@[0],
        )),
        gif_fails(*message_data) ==> r == Err::<Vec<Attachment>, ClassificationError>(
            ClassificationError::UnknownMimeType,
        ),
{
    let mut attachments: Vec<Attachment> = Vec::new();

    if let Some(gif) = &message_data.gif {
        let filename = match &gif.file_name {
            Some(name) => name.clone(),
            None => {
                let ext = match &gif.mime_type {
                    Some(mime) => match resolve_mime(mime.as_str()) {
                        Ok(ext) => ext,
                        Err(err) => {
                            return Err(err);
                        },
                    },
                    None => {
                        return Err(ClassificationError::UnknownMimeType);
                    },
                };
                String::from_str(gif.file_unique_id.as_str()).concat(ext.as_str())
            },
        };
        attachments.push(Attachment::new(filename, gif.file_id.clone(), gif.file_size));
    }
    Ok(attachments)
}

/// Classify the photo field: keep only the last (highest-resolution)
/// variant, named unique id + `.jpg`. Yields nothing when the variant list
/// is absent or empty; this kind cannot fail.
pub fn get_photo_attachments(message_data: &TelegramMessageData) -> (r: Option<Vec<Attachment>>)
    ensures
        r is Some <==> photo_yields(message_data.photos),
        r matches Some(v) ==> v@.len() == 1 && is_photo_ref(message_data.photos, v@[0]),
{
    if let Some(photos) = &message_data.photos {
        if photos.len() > 0 {
            let photo = &photos[photos.len() - 1];
            let mut attachments: Vec<Attachment> = Vec::new();

            let filename = String::from_str(photo.file_unique_id.as_str()).concat(".jpg");
            attachments.push(Attachment::new(filename, photo.file_id.clone(), photo.file_size));
            return Some(attachments);
        }
    }
    None
}

/// One where a condition holds, zero where it does not; used to add up how
/// many kinds yielded an attachment or recorded an error.
pub open spec fn b2i(b: bool) -> int {
    if b {
        1
    } else {
        0
    }
}

/// How many attachments the photo kind contributes.
pub open spec fn photo_n(msg: TelegramMessageData) -> int {
    b2i(photo_yields(msg.photos))
}

/// How many attachments the audio kind contributes.
pub open spec fn audio_n(msg: TelegramMessageData) -> int {
    b2i(audio_classifies(msg))
}

/// How many attachments the generic-file kind contributes.
pub open spec fn file_n(msg: TelegramMessageData) -> int {
    b2i(file_classifies(msg))
}

/// How many attachments the sticker kind contributes.
pub open spec fn sticker_n(msg: TelegramMessageData) -> int {
    b2i(sticker_classifies(msg))
}

/// How many attachments the video kind contributes.
pub open spec fn video_n(msg: TelegramMessageData) -> int {
    b2i(video_classifies(msg))
}

/// How many attachments the animation kind contributes.
pub open spec fn gif_n(msg: TelegramMessageData) -> int {
    b2i(gif_classifies(msg))
}

/// How many attachments classification of the whole message yields.
pub open spec fn refs_total(msg: TelegramMessageData) -> int {
    photo_n(msg) + audio_n(msg) + file_n(msg) + sticker_n(msg) + video_n(msg) + gif_n(msg)
}

/// How many classification errors the whole message records.
pub open spec fn errs_total(msg: TelegramMessageData) -> int {
    b2i(audio_fails(msg)) + b2i(file_fails(msg)) + b2i(sticker_fails(msg)) + b2i(video_fails(msg))
        + b2i(gif_fails(msg))
}

/// How many media kinds the message populates. A photo field with an empty
/// variant list counts as absent, as classification treats it.
pub open spec fn populated_count(msg: TelegramMessageData) -> int {
    b2i(photo_yields(msg.photos)) + b2i(msg.audio is Some) + b2i(msg.file is Some) + b2i(
        msg.sticker is Some,
    ) + b2i(msg.video is Some) + b2i(msg.gif is Some)
}

/// What classification of a whole message produces: one attachment per kind
/// that classifies, in the fixed kind order photo, audio, file, sticker,
/// video, animation; and one recorded error per kind that fails, in the same
/// order. A failing kind degrades that kind only.
pub open spec fn classification_of(
    msg: TelegramMessageData,
    atts: Seq<Attachment>,
    errs: Seq<RecordedError>,
) -> bool {
    &&& atts.len() == refs_total(msg)
    &&& photo_yields(msg.photos) ==> is_photo_ref(msg.photos, atts[0])
    &&& audio_classifies(msg) ==> is_audio_ref(msg.audio->0, atts[photo_n(msg)])
    &&& file_classifies(msg) ==> is_file_ref(msg.file->0, atts[photo_n(msg) + audio_n(msg)])
    &&& sticker_classifies(msg) ==> is_sticker_ref(
        msg.sticker->0,
        atts[photo_n(msg) + audio_n(msg) + file_n(msg)],
    )
    &&& video_classifies(msg) ==> is_video_ref(
        msg.video->0,
        atts[photo_n(msg) + audio_n(msg) + file_n(msg) + sticker_n(msg)],
    )
    &&& gif_classifies(msg) ==> is_gif_ref(
        msg.gif->0,
        atts[photo_n(msg) + audio_n(msg) + file_n(msg) + sticker_n(msg) + video_n(msg)],
    )
    &&& errs.len() == errs_total(msg)
    &&& audio_fails(msg) ==> errs[0] == (RecordedError {
        kind: MediaKind::Audio,
        error: ClassificationError::UnknownMimeType,
    })
    &&& file_fails(msg) ==> errs[b2i(audio_fails(msg))] == (RecordedError {
        kind: MediaKind::File,
        error: ClassificationError::UnknownMimeType,
    })
    &&& sticker_fails(msg) ==> errs[b2i(audio_fails(msg)) + b2i(file_fails(msg))]
        == (RecordedError {
        kind: MediaKind::Sticker,
        error: ClassificationError::UnsupportedAttachmentKind,
    })
    &&& video_fails(msg) ==> errs[b2i(audio_fails(msg)) + b2i(file_fails(msg)) + b2i(
        sticker_fails(msg),
    )] == (RecordedError { kind: MediaKind::Video, error: ClassificationError::UnknownMimeType })
    &&& gif_fails(msg) ==> errs[b2i(audio_fails(msg)) + b2i(file_fails(msg)) + b2i(
        sticker_fails(msg),
    ) + b2i(video_fails(msg))] == (RecordedError {
        kind: MediaKind::Gif,
        error: ClassificationError::UnknownMimeType,
    })
}

fn step_photo(message_data: &TelegramMessageData, attachments: &mut Vec<Attachment>)
    ensures
        photo_yields(message_data.photos) ==> final(attachments)@ == old(attachments)@.push(
            final(attachments)@.last(),
        ) && is_photo_ref(message_data.photos, final(attachments)@.last()),
        !photo_yields(message_data.photos) ==> final(attachments)@ == old(attachments)@,
{
    if let Some(mut photo_attachments) = get_photo_attachments(message_data) {
        attachments.append(&mut photo_attachments);
        assert(attachments@ =~= old(attachments)@.push(attachments@.last()));
    }
}

fn step_audio(
    message_data: &TelegramMessageData,
    attachments: &mut Vec<Attachment>,
    errors: &mut Vec<RecordedError>,
)
    ensures
        audio_classifies(*message_data) ==> final(attachments)@ == old(attachments)@.push(
            final(attachments)@.last(),
        ) && is_audio_ref(message_data.audio->0, final(attachments)@.last()),
        !audio_classifies(*message_data) ==> final(attachments)@ == old(attachments)@,
        audio_fails(*message_data) ==> final(errors)@ == old(errors)@.push(
            (RecordedError { kind: MediaKind::Audio, error: ClassificationError::UnknownMimeType }),
        ),
        !audio_fails(*message_data) ==> final(errors)@ == old(errors)@,
{
    match get_audio_attachments(message_data) {
        Ok(mut audio_attachments) => {
            attachments.append(&mut audio_attachments);
            assert(audio_classifies(*message_data) ==> attachments@ =~= old(attachments)@.push(
                attachments@.last(),
            ));
            assert(!audio_classifies(*message_data) ==> attachments@ =~= old(attachments)@);
        },
        Err(error) => errors.push(RecordedError { kind: MediaKind::Audio, error }),
    }
}

fn step_file(
    message_data: &TelegramMessageData,
    attachments: &mut Vec<Attachment>,
    errors: &mut Vec<RecordedError>,
)
    ensures
        file_classifies(*message_data) ==> final(attachments)@ == old(attachments)@.push(
            final(attachments)@.last(),
        ) && is_file_ref(message_data.file->0, final(attachments)@.last()),
        !file_classifies(*message_data) ==> final(attachments)@ == old(attachments)@,
        file_fails(*message_data) ==> final(errors)@ == old(errors)@.push(
            (RecordedError { kind: MediaKind::File, error: ClassificationError::UnknownMimeType }),
        ),
        !file_fails(*message_data) ==> final(errors)@ == old(errors)@,
{
    match get_file_attachments(message_data) {
        Ok(mut file_attachments) => {
            attachments.append(&mut file_attachments);
            assert(file_classifies(*message_data) ==> attachments@ =~= old(attachments)@.push(
                attachments@.last(),
            ));
            assert(!file_classifies(*message_data) ==> attachments@ =~= old(attachments)@);
        },
        Err(error) => errors.push(RecordedError { kind: MediaKind::File, error }),
    }
}

fn step_sticker(
    message_data: &TelegramMessageData,
    attachments: &mut Vec<Attachment>,
    errors: &mut Vec<RecordedError>,
)
    ensures
        sticker_classifies(*message_data) ==> final(attachments)@ == old(attachments)@.push(
            final(attachments)@.last(),
        ) && is_sticker_ref(message_data.sticker->0, final(attachments)@.last()),
        !sticker_classifies(*message_data) ==> final(attachments)@ == old(attachments)@,
        sticker_fails(*message_data) ==> final(errors)@ == old(errors)@.push(
            (RecordedError {
                kind: MediaKind::Sticker,
                error: ClassificationError::UnsupportedAttachmentKind,
            }),
        ),
        !sticker_fails(*message_data) ==> final(errors)@ == old(errors)@,
{
    match get_sticker_attachments(message_data) {
        Ok(mut sticker_attachments) => {
            attachments.append(&mut sticker_attachments);
            assert(sticker_classifies(*message_data) ==> attachments@ =~= old(attachments)@.push(
                attachments@.last(),
            ));
            assert(!sticker_classifies(*message_data) ==> attachments@ =~= old(attachments)@);
        },
        Err(error) => errors.push(RecordedError { kind: MediaKind::Sticker, error }),
    }
}

fn step_video(
    message_data: &TelegramMessageData,
    attachments: &mut Vec<Attachment>,
    errors: &mut Vec<RecordedError>,
)
    ensures
        video_classifies(*message_data) ==> final(attachments)@ == old(attachments)@.push(
            final(attachments)@.last(),
        ) && is_video_ref(message_data.video->0, final(attachments)@.last()),
        !video_classifies(*message_data) ==> final(attachments)@ == old(attachments)@,
        video_fails(*message_data) ==> final(errors)@ == old(errors)@.push(
            (RecordedError { kind: MediaKind::Video, error: ClassificationError::UnknownMimeType }),
        ),
        !video_fails(*message_data) ==> final(errors)@ == old(errors)@,
{
    match get_video_attachments(message_data) {
        Ok(mut video_attachments) => {
            attachments.append(&mut video_attachments);
            assert(video_classifies(*message_data) ==> attachments@ =~= old(attachments)@.push(
                attachments@.last(),
            ));
            assert(!video_classifies(*message_data) ==> attachments@ =~= old(attachments)@);
        },
        Err(error) => errors.push(RecordedError { kind: MediaKind::Video, error }),
    }
}

fn step_gif(
    message_data: &TelegramMessageData,
    attachments: &mut Vec<Attachment>,
    errors: &mut Vec<RecordedError>,
)
    ensures
        gif_classifies(*message_data) ==> final(attachments)@ == old(attachments)@.push(
            final(attachments)@.last(),
        ) && is_gif_ref(message_data.gif->0, final(attachments)@.last()),
        !gif_classifies(*message_data) ==> final(attachments)@ == old(attachments)@,
        gif_fails(*message_data) ==> final(errors)@ == old(errors)@.push(
            (RecordedError { kind: MediaKind::Gif, error: ClassificationError::UnknownMimeType }),
        ),
        !gif_fails(*message_data) ==> final(errors)@ == old(errors)@,
{
    match get_gif_attachments(message_data) {
        Ok(mut gif_attachments) => {
            attachments.append(&mut gif_attachments);
            assert(gif_classifies(*message_data) ==> attachments@ =~= old(attachments)@.push(
                attachments@.last(),
            ));
            assert(!gif_classifies(*message_data) ==> attachments@ =~= old(attachments)@);
        },
        Err(error) => errors.push(RecordedError { kind: MediaKind::Gif, error }),
    }
}

/// Classify every populated media kind of one message independently: the
/// attachments of the kinds that classify, and one recorded error per kind
/// that fails. No failure stops the remaining kinds.
#[verifier::rlimit(100)]
#[verifier::spinoff_prover]
pub fn classify_attachments(message_data: &TelegramMessageData) -> (r: (
    Vec<Attachment>,
    Vec<RecordedError>,
))
    ensures
        classification_of(*message_data, r.0@, r.1@),
{
    let mut attachments: Vec<Attachment> = Vec::new();
    let mut errors: Vec<RecordedError> = Vec::new();

    step_photo(message_data, &mut attachments);
    step_audio(message_data, &mut attachments, &mut errors);
    step_file(message_data, &mut attachments, &mut errors);
    step_sticker(message_data, &mut attachments, &mut errors);
    step_video(message_data, &mut attachments, &mut errors);
    step_gif(message_data, &mut attachments, &mut errors);

    (attachments, errors)
}

/// Law: a message with exactly one populated media kind, and that kind
/// classifies, yields exactly one attachment and records no error. Which
/// attachment it is, and its filename, is fixed per kind by
/// [`classification_of`].
pub proof fn lemma_single_kind_single_ref(
    msg: TelegramMessageData,
    atts: Seq<Attachment>,
    errs: Seq<RecordedError>,
)
    requires
        classification_of(msg, atts, errs),
        populated_count(msg) == 1,
        refs_total(msg) == 1,
    ensures
        atts.len() == 1,
        errs.len() == 0,
{
}

/// Law: an animated sticker yields no attachment of its own, records exactly
/// one error, of the unsupported kind, against the sticker kind, and every
/// other kind still contributes as if the sticker were absent.
pub proof fn lemma_animated_sticker_recorded(
    msg: TelegramMessageData,
    atts: Seq<Attachment>,
    errs: Seq<RecordedError>,
)
    requires
        classification_of(msg, atts, errs),
        msg.sticker matches Some(s) && s.is_animated,
    ensures
        atts.len() == photo_n(msg) + audio_n(msg) + file_n(msg) + video_n(msg) + gif_n(msg),
        exists|i: int|
            0 <= i < errs.len() && errs[i] == (RecordedError {
                kind: MediaKind::Sticker,
                error: ClassificationError::UnsupportedAttachmentKind,
            }),
{
    assert(sticker_fails(msg));
    let i = b2i(audio_fails(msg)) + b2i(file_fails(msg));
    assert(0 <= i < errs.len() && errs[i] == (RecordedError {
        kind: MediaKind::Sticker,
        error: ClassificationError::UnsupportedAttachmentKind,
    }));
}

} // verus!
