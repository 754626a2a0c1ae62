use yt_fetch::progress::{is_blank, parse_progress, Monitor};

#[test]
fn blank_text_is_recognized() {
    assert!(is_blank(""));
    assert!(is_blank("  \t\r\n"));
    assert!(!is_blank(" {} "));
}

#[test]
fn parses_plain_percent_line() {
    assert_eq!(parse_progress("[download] 45.2%"), Some(4520));
}

#[test]
fn parses_whole_percent() {
    assert_eq!(parse_progress("[download] 100.0%"), Some(10000));
    assert_eq!(parse_progress("[download] 7%"), Some(700));
}

#[test]
fn truncates_past_hundredths() {
    assert_eq!(parse_progress("[download] 45.267%"), Some(4526));
}

#[test]
fn tolerates_extra_whitespace() {
    assert_eq!(parse_progress("[download]   45.2%  "), Some(4520));
}

#[test]
fn rejects_wrong_field_count() {
    assert_eq!(parse_progress("[download] 45.2% of 10MiB"), None);
    assert_eq!(parse_progress("[download]"), None);
    assert_eq!(parse_progress(""), None);
}

#[test]
fn rejects_non_numeric_field() {
    assert_eq!(parse_progress("[download] abc%"), None);
    assert_eq!(parse_progress("[download] %"), None);
    assert_eq!(parse_progress("[download] 4a.2%"), None);
}

#[test]
fn bare_and_leading_dot_numerals_parse() {
    assert_eq!(parse_progress("[download] 45.%"), Some(4500));
    assert_eq!(parse_progress("[download] .5%"), Some(50));
    assert_eq!(parse_progress("[download] 45.2%%%"), Some(4520));
}

#[test]
fn oversized_integer_part_is_rejected() {
    assert_eq!(parse_progress("[download] 99999999999999999%"), Some(9999999999999999900));
    assert_eq!(parse_progress("[download] 123456789012345678%"), None);
}

#[test]
fn monitor_updates_on_recognized_line() {
    let mut m = Monitor::new();
    m.on_line("[download] 45.2%");
    assert_eq!(m.state.percent_hundredths, 4520);
}

#[test]
fn monitor_ignores_unparseable_line() {
    let mut m = Monitor::new();
    m.on_line("[download] 45.2%");
    m.on_line("[info] writing metadata");
    m.on_line("[download] nonsense%");
    assert_eq!(m.state.percent_hundredths, 4520);
}

#[test]
fn monitor_ignores_line_without_marker() {
    let mut m = Monitor::new();
    m.on_line("45.2%");
    assert_eq!(m.state.percent_hundredths, 0);
}

#[test]
fn duplicate_line_is_idempotent() {
    let mut m = Monitor::new();
    m.on_line("[download] 10.0%");
    m.on_line("[download] 10.0%");
    assert_eq!(m.state.percent_hundredths, 1000);
}

#[test]
fn repeated_or_out_of_order_values_set_absolute_position() {
    let mut m = Monitor::new();
    m.on_line("[download] 80.0%");
    m.on_line("[download] 20.5%");
    assert_eq!(m.state.percent_hundredths, 2050);
}
