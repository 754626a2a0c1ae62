use yt_fetch::strutil::{sanitize_filename, str_eq, str_starts_with};

#[test]
fn sanitize_keeps_alphanumerics_and_dots() {
    assert_eq!(sanitize_filename("My Video.mp4"), "MyVideo.mp4");
    assert_eq!(sanitize_filename("a-b_c!d"), "abcd");
    assert_eq!(sanitize_filename("Track 01: Intro"), "Track01Intro");
}

#[test]
fn sanitize_of_empty_is_empty() {
    assert_eq!(sanitize_filename(""), "");
}

#[test]
fn sanitize_drops_non_ascii() {
    assert_eq!(sanitize_filename("café ß 2024"), "caf2024");
}

#[test]
fn str_eq_compares_contents() {
    assert!(str_eq("abc", "abc"));
    assert!(!str_eq("abc", "abd"));
    assert!(!str_eq("abc", "ab"));
    assert!(str_eq("", ""));
}

#[test]
fn starts_with_checks_prefix() {
    assert!(str_starts_with("[download] 45%", "[download]"));
    assert!(!str_starts_with("[down", "[download]"));
    assert!(!str_starts_with("x[download]", "[download]"));
    assert!(str_starts_with("anything", ""));
}
