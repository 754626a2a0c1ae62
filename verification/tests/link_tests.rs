use yt_fetch::link::{is_valid_link, validate, LinkClass};

#[test]
fn shortlink_single_segment_is_valid() {
    match validate("https://youtu.be/xRBAsdx9Ve0") {
        LinkClass::Valid(v) => assert_eq!(v.id(), "xRBAsdx9Ve0"),
        _ => panic!("shortlink should be valid"),
    }
}

#[test]
fn shortlink_any_host_is_valid() {
    match validate("https://host/abc") {
        LinkClass::Valid(v) => assert_eq!(v.id(), "abc"),
        _ => panic!("single-segment shortlink should be valid"),
    }
}

#[test]
fn watch_url_is_valid_and_extracts_id() {
    match validate("https://www.youtube.com/watch?v=abc123") {
        LinkClass::Valid(v) => assert_eq!(v.id(), "abc123"),
        _ => panic!("watch URL should be valid"),
    }
}

#[test]
fn playlist_key_wins_over_valid_shape() {
    match validate("https://host/watch?v=abc&list=PL123") {
        LinkClass::IsPlaylist => {}
        _ => panic!("a URL with a list key is a playlist"),
    }
}

#[test]
fn playlist_key_on_shortlink_is_playlist() {
    match validate("https://youtu.be/abc?list=PL99") {
        LinkClass::IsPlaylist => {}
        _ => panic!("a shortlink with a list key is a playlist"),
    }
}

#[test]
fn malformed_url_is_invalid() {
    match validate("not a url at all") {
        LinkClass::InvalidFormat => {}
        _ => panic!("unparseable text is invalid"),
    }
}

#[test]
fn two_segments_are_invalid() {
    match validate("https://host/a/b") {
        LinkClass::InvalidFormat => {}
        _ => panic!("two path segments fit no accepted shape"),
    }
}

#[test]
fn is_valid_link_agrees_with_validate() {
    assert!(is_valid_link("https://www.youtube.com/watch?v=abc123"));
    assert!(is_valid_link("https://youtu.be/abc"));
    assert!(!is_valid_link("https://host/watch?v=abc&list=PL123"));
    assert!(!is_valid_link("::::"));
}

#[test]
fn watch_takes_first_v_value() {
    match validate("https://host/watch?x=1&v=first&v=second") {
        LinkClass::Valid(v) => assert_eq!(v.id(), "first"),
        _ => panic!("watch URL should be valid"),
    }
}
