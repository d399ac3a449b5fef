use taupe::display::{row_title, text_or, track_number};
use taupe::timefmt::{decimal_string, duration_label, format_time, hz_label, kbps_label};

#[test]
fn format_time_under_a_minute() {
    assert_eq!(format_time(0), "0:00");
    assert_eq!(format_time(7), "0:07");
    assert_eq!(format_time(59), "0:59");
}

#[test]
fn format_time_minutes() {
    assert_eq!(format_time(60), "1:00");
    assert_eq!(format_time(75), "1:15");
    assert_eq!(format_time(3599), "59:59");
}

#[test]
fn format_time_hours() {
    assert_eq!(format_time(3600), "1:00:00");
    assert_eq!(format_time(3661), "1:01:01");
    assert_eq!(format_time(36000 + 59 * 60 + 9), "10:59:09");
}

#[test]
fn format_time_largest_input() {
    // 4294967295 s = 1193046 h 28 min 15 s
    assert_eq!(format_time(u32::MAX), "1193046:28:15");
}

#[test]
fn decimal_numerals() {
    assert_eq!(decimal_string(0), "0");
    assert_eq!(decimal_string(10), "10");
    assert_eq!(decimal_string(44100), "44100");
    assert_eq!(decimal_string(u32::MAX), "4294967295");
}

#[test]
fn rate_labels() {
    assert_eq!(kbps_label(Some(320)), "320 kbps");
    assert_eq!(kbps_label(None), "0 kbps");
    assert_eq!(hz_label(Some(48000)), "48000 Hz");
    assert_eq!(hz_label(None), "0 Hz");
}

#[test]
fn duration_labels() {
    assert_eq!(duration_label(Some(245)), "4:05");
    assert_eq!(duration_label(None), "\u{2014}");
}

#[test]
fn placeholders() {
    let title = Some(String::from("Song"));
    let none: Option<String> = None;
    assert_eq!(text_or(&title, "<no title>"), "Song");
    assert_eq!(text_or(&none, "<no title>"), "<no title>");
}

#[test]
fn track_numbers() {
    assert_eq!(track_number(4, Some(9)), 9);
    assert_eq!(track_number(4, None), 5);
    assert_eq!(track_number(0, None), 1);
}

#[test]
fn row_titles() {
    assert_eq!(row_title(Some("T".to_string()), Some("file".to_string())), "T");
    assert_eq!(row_title(None, Some("file".to_string())), "file");
    assert_eq!(row_title(None, None), "?");
}
