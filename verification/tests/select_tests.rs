use yt_fetch::format::Format;
use yt_fetch::select::select_best;

fn fmt(id: &str, quality: u64, has_video: bool, has_audio: bool) -> Format {
    Format {
        format_id: id.to_string(),
        ext: "mp4".to_string(),
        quality,
        filesize: None,
        has_video,
        has_audio,
    }
}

#[test]
fn picks_maximal_muxed_entry() {
    let catalog = vec![
        fmt("video-only", 2160, true, false),
        fmt("muxed-720", 720, true, true),
        fmt("muxed-1080", 1080, true, true),
        fmt("audio-only", 999999, false, true),
    ];
    assert_eq!(select_best(&catalog, false), Some(2));
}

#[test]
fn tie_resolves_to_earliest() {
    let catalog = vec![
        fmt("first", 1080, true, true),
        fmt("second", 1080, true, true),
        fmt("third", 720, true, true),
    ];
    assert_eq!(select_best(&catalog, false), Some(0));
}

#[test]
fn no_audio_only_entry_yields_none() {
    let catalog = vec![
        fmt("muxed", 1080, true, true),
        fmt("video-only", 2160, true, false),
    ];
    assert_eq!(select_best(&catalog, true), None);
}

#[test]
fn audio_only_picks_highest_bitrate() {
    let catalog = vec![
        fmt("audio-128", 128, false, true),
        fmt("audio-256", 256, false, true),
        fmt("muxed", 1080, true, true),
    ];
    assert_eq!(select_best(&catalog, true), Some(1));
}

#[test]
fn empty_catalog_yields_none() {
    let catalog: Vec<Format> = Vec::new();
    assert_eq!(select_best(&catalog, false), None);
}
