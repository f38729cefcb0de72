//! Classification behaviour on concrete messages, with the real MIME table.

use mirror_core::attachments::classify_attachments;
use mirror_core::attachments::get_audio_attachments;
use mirror_core::attachments::get_file_attachments;
use mirror_core::attachments::get_photo_attachments;
use mirror_core::attachments::get_sticker_attachments;
use mirror_core::attachments::get_video_attachments;
use mirror_core::errors::ClassificationError;
use mirror_core::errors::MediaKind;
use mirror_core::mime::resolve_mime;
use mirror_core::types::AudioInfo;
use mirror_core::types::DocumentInfo;
use mirror_core::types::PhotoSizeInfo;
use mirror_core::types::StickerInfo;
use mirror_core::types::TelegramMessageData;
use mirror_core::types::VideoInfo;

fn empty_message() -> TelegramMessageData {
    TelegramMessageData {
        text: None,
        photos: None,
        audio: None,
        file: None,
        sticker: None,
        video: None,
        gif: None,
    }
}

#[test]
fn resolve_mime_known_and_unknown() {
    assert_eq!(resolve_mime("audio/mpeg").unwrap(), ".mp3");
    assert_eq!(resolve_mime("image/png").unwrap(), ".png");
    assert_eq!(
        resolve_mime("foo/bar").unwrap_err(),
        ClassificationError::UnknownMimeType
    );
}

#[test]
fn audio_round_trip_mp3() {
    let mut msg = empty_message();
    msg.audio = Some(AudioInfo {
        file_unique_id: "abc".to_string(),
        file_id: "fid-audio".to_string(),
        mime_type: Some("audio/mpeg".to_string()),
        file_size: Some(512),
    });
    let refs = get_audio_attachments(&msg).unwrap();
    assert_eq!(refs.len(), 1);
    assert_eq!(refs[0].file_name, "abc.mp3");
    assert_eq!(refs[0].file_id, "fid-audio");
    assert_eq!(refs[0].file_size, Some(512));
}

#[test]
fn audio_without_mime_fails() {
    let mut msg = empty_message();
    msg.audio = Some(AudioInfo {
        file_unique_id: "abc".to_string(),
        file_id: "fid".to_string(),
        mime_type: None,
        file_size: None,
    });
    assert_eq!(
        get_audio_attachments(&msg).unwrap_err(),
        ClassificationError::UnknownMimeType
    );
}

#[test]
fn audio_with_unknown_mime_fails() {
    let mut msg = empty_message();
    msg.audio = Some(AudioInfo {
        file_unique_id: "abc".to_string(),
        file_id: "fid".to_string(),
        mime_type: Some("foo/bar".to_string()),
        file_size: None,
    });
    assert_eq!(
        get_audio_attachments(&msg).unwrap_err(),
        ClassificationError::UnknownMimeType
    );
}

#[test]
fn file_uses_supplied_name() {
    let mut msg = empty_message();
    msg.file = Some(DocumentInfo {
        file_unique_id: "doc1".to_string(),
        file_id: "fid-doc".to_string(),
        file_name: Some("report.pdf".to_string()),
        mime_type: None,
        file_size: Some(2048),
    });
    let refs = get_file_attachments(&msg).unwrap();
    assert_eq!(refs.len(), 1);
    assert_eq!(refs[0].file_name, "report.pdf");
}

#[test]
fn file_without_name_derives_from_mime() {
    let mut msg = empty_message();
    msg.file = Some(DocumentInfo {
        file_unique_id: "doc2".to_string(),
        file_id: "fid-doc2".to_string(),
        file_name: None,
        mime_type: Some("application/pdf".to_string()),
        file_size: None,
    });
    let refs = get_file_attachments(&msg).unwrap();
    assert_eq!(refs.len(), 1);
    assert_eq!(refs[0].file_name, "doc2.pdf");
}

#[test]
fn file_without_name_and_mime_fails() {
    let mut msg = empty_message();
    msg.file = Some(DocumentInfo {
        file_unique_id: "doc3".to_string(),
        file_id: "fid-doc3".to_string(),
        file_name: None,
        mime_type: None,
        file_size: None,
    });
    assert_eq!(
        get_file_attachments(&msg).unwrap_err(),
        ClassificationError::UnknownMimeType
    );
}

#[test]
fn video_without_name_derives_from_mime() {
    let mut msg = empty_message();
    msg.video = Some(VideoInfo {
        file_unique_id: "vid1".to_string(),
        file_id: "fid-vid".to_string(),
        file_name: None,
        mime_type: Some("video/mp4".to_string()),
        file_size: Some(9000),
    });
    let refs = get_video_attachments(&msg).unwrap();
    assert_eq!(refs.len(), 1);
    assert_eq!(refs[0].file_name, "vid1.mp4");
}

#[test]
fn photo_keeps_highest_resolution_variant() {
    let mut msg = empty_message();
    msg.photos = Some(vec![
        PhotoSizeInfo {
            file_unique_id: "small".to_string(),
            file_id: "fid-s".to_string(),
            file_size: Some(10),
        },
        PhotoSizeInfo {
            file_unique_id: "mid".to_string(),
            file_id: "fid-m".to_string(),
            file_size: Some(40),
        },
        PhotoSizeInfo {
            file_unique_id: "big".to_string(),
            file_id: "fid-b".to_string(),
            file_size: Some(100),
        },
    ]);
    let refs = get_photo_attachments(&msg).unwrap();
    assert_eq!(refs.len(), 1);
    assert_eq!(refs[0].file_name, "big.jpg");
    assert_eq!(refs[0].file_id, "fid-b");
    assert_eq!(refs[0].file_size, Some(100));
}

#[test]
fn photo_empty_variant_list_yields_nothing() {
    let mut msg = empty_message();
    msg.photos = Some(Vec::new());
    assert!(get_photo_attachments(&msg).is_none());
}

#[test]
fn animated_sticker_is_unsupported() {
    let mut msg = empty_message();
    msg.sticker = Some(StickerInfo {
        file_unique_id: "stick".to_string(),
        file_id: "fid-st".to_string(),
        is_animated: true,
        is_video: false,
        file_size: None,
    });
    assert_eq!(
        get_sticker_attachments(&msg).unwrap_err(),
        ClassificationError::UnsupportedAttachmentKind
    );
}

#[test]
fn video_sticker_named_webm() {
    let mut msg = empty_message();
    msg.sticker = Some(StickerInfo {
        file_unique_id: "stick2".to_string(),
        file_id: "fid-st2".to_string(),
        is_animated: false,
        is_video: true,
        file_size: Some(77),
    });
    let refs = get_sticker_attachments(&msg).unwrap();
    assert_eq!(refs.len(), 1);
    assert_eq!(refs[0].file_name, "stick2.webm");
}

#[test]
fn plain_sticker_named_png() {
    let mut msg = empty_message();
    msg.sticker = Some(StickerInfo {
        file_unique_id: "stick3".to_string(),
        file_id: "fid-st3".to_string(),
        is_animated: false,
        is_video: false,
        file_size: None,
    });
    let refs = get_sticker_attachments(&msg).unwrap();
    assert_eq!(refs.len(), 1);
    assert_eq!(refs[0].file_name, "stick3.png");
}

#[test]
fn animated_sticker_degrades_only_its_kind() {
    let mut msg = empty_message();
    msg.sticker = Some(StickerInfo {
        file_unique_id: "stick".to_string(),
        file_id: "fid-st".to_string(),
        is_animated: true,
        is_video: false,
        file_size: None,
    });
    msg.audio = Some(AudioInfo {
        file_unique_id: "abc".to_string(),
        file_id: "fid-audio".to_string(),
        mime_type: Some("audio/mpeg".to_string()),
        file_size: None,
    });
    let (refs, errs) = classify_attachments(&msg);
    assert_eq!(refs.len(), 1);
    assert_eq!(refs[0].file_name, "abc.mp3");
    assert_eq!(errs.len(), 1);
    assert_eq!(errs[0].kind, MediaKind::Sticker);
    assert_eq!(errs[0].error, ClassificationError::UnsupportedAttachmentKind);
}

#[test]
fn animated_sticker_alone_yields_nothing_but_one_error() {
    let mut msg = empty_message();
    msg.sticker = Some(StickerInfo {
        file_unique_id: "stick".to_string(),
        file_id: "fid-st".to_string(),
        is_animated: true,
        is_video: false,
        file_size: None,
    });
    let (refs, errs) = classify_attachments(&msg);
    assert_eq!(refs.len(), 0);
    assert_eq!(errs.len(), 1);
    assert_eq!(errs[0].kind, MediaKind::Sticker);
}

#[test]
fn classification_order_is_kind_order() {
    let mut msg = empty_message();
    msg.photos = Some(vec![PhotoSizeInfo {
        file_unique_id: "p".to_string(),
        file_id: "fid-p".to_string(),
        file_size: Some(3),
    }]);
    msg.video = Some(VideoInfo {
        file_unique_id: "v".to_string(),
        file_id: "fid-v".to_string(),
        file_name: Some("clip.mp4".to_string()),
        mime_type: None,
        file_size: Some(5),
    });
    let (refs, errs) = classify_attachments(&msg);
    assert_eq!(refs.len(), 2);
    assert_eq!(refs[0].file_name, "p.jpg");
    assert_eq!(refs[1].file_name, "clip.mp4");
    assert!(errs.is_empty());
}
