use yt_fetch::meta::{
    collect_formats, decode_video_info, format_from_fields, metadata_failure_message,
    RawFormatFields,
};

fn raw(
    format_id: Option<&str>,
    ext: Option<&str>,
    quality: Option<u64>,
    vcodec: Option<&str>,
    acodec: Option<&str>,
) -> RawFormatFields {
    RawFormatFields {
        format_id: format_id.map(|s| s.to_string()),
        ext: ext.map(|s| s.to_string()),
        quality,
        filesize: None,
        vcodec: vcodec.map(|s| s.to_string()),
        acodec: acodec.map(|s| s.to_string()),
    }
}

#[test]
fn decodes_document_with_title_and_formats() {
    let doc = r#"{
        "title": "A Video",
        "formats": [
            {"format_id": "22", "ext": "mp4", "quality": 720, "vcodec": "avc1", "acodec": "mp4a"},
            {"format_id": "140", "ext": "m4a", "quality": 129, "vcodec": "none", "acodec": "mp4a"}
        ]
    }"#;
    let info = decode_video_info(doc).expect("document should decode");
    assert_eq!(info.title, "A Video");
    assert_eq!(info.formats.len(), 2);
    assert_eq!(info.formats[0].format_id, "22");
    assert_eq!(info.formats[0].quality, 720);
    assert!(info.formats[0].has_video);
    assert!(info.formats[0].has_audio);
    assert!(!info.formats[1].has_video);
    assert!(info.formats[1].has_audio);
}

#[test]
fn missing_title_fails_decode() {
    let doc = r#"{"formats": []}"#;
    assert!(decode_video_info(doc).is_none());
}

#[test]
fn missing_formats_fails_decode() {
    let doc = r#"{"title": "A Video"}"#;
    assert!(decode_video_info(doc).is_none());
}

#[test]
fn unparseable_text_fails_decode() {
    assert!(decode_video_info("this is not json").is_none());
}

#[test]
fn defective_entries_are_dropped() {
    let doc = r#"{
        "title": "T",
        "formats": [
            {"ext": "mp4", "vcodec": "avc1", "acodec": "mp4a"},
            {"format_id": "sb0", "ext": "mhtml", "vcodec": "none", "acodec": "none"},
            {"format_id": "18", "ext": "mp4", "quality": 360, "vcodec": "avc1", "acodec": "mp4a"}
        ]
    }"#;
    let info = decode_video_info(doc).expect("document should decode");
    assert_eq!(info.formats.len(), 1);
    assert_eq!(info.formats[0].format_id, "18");
}

#[test]
fn fields_build_a_descriptor() {
    let f = format_from_fields(raw(Some("22"), Some("mp4"), Some(720), Some("avc1"), Some("mp4a")))
        .expect("complete fields build a descriptor");
    assert_eq!(f.format_id, "22");
    assert_eq!(f.ext, "mp4");
    assert_eq!(f.quality, 720);
    assert!(f.has_video && f.has_audio);
}

#[test]
fn missing_id_or_ext_is_rejected() {
    assert!(format_from_fields(raw(None, Some("mp4"), None, None, None)).is_none());
    assert!(format_from_fields(raw(Some("22"), None, None, None, None)).is_none());
}

#[test]
fn both_codecs_none_is_rejected() {
    assert!(format_from_fields(raw(Some("sb"), Some("mhtml"), None, Some("none"), Some("none")))
        .is_none());
}

#[test]
fn missing_quality_ranks_lowest() {
    let f = format_from_fields(raw(Some("x"), Some("mp4"), None, None, None)).unwrap();
    assert_eq!(f.quality, 0);
}

#[test]
fn missing_codec_fields_count_as_present_tracks() {
    let f = format_from_fields(raw(Some("x"), Some("mp4"), None, None, None)).unwrap();
    assert!(f.has_video && f.has_audio);
}

#[test]
fn collection_keeps_order_and_drops_defects() {
    let raws = vec![
        raw(Some("a"), Some("mp4"), Some(3), None, None),
        raw(None, Some("mp4"), None, None, None),
        raw(Some("b"), Some("mp4"), Some(1), None, None),
    ];
    let formats = collect_formats(&raws);
    assert_eq!(formats.len(), 2);
    assert_eq!(formats[0].format_id, "a");
    assert_eq!(formats[1].format_id, "b");
}

#[test]
fn failure_message_carries_both_streams() {
    let m = metadata_failure_message(&"E".to_string(), &"O".to_string());
    assert_eq!(m, "Failed to get video info: E\nOutput: O");
}
