use video_player::media_info::{
    format_bitrate, format_duration, ExtractError, MediaInfoWindow, ProbeData,
};
use video_player::numerals::{decimal_string, two_digits};
use video_player::tags::{normalize_key, normalize_tags};

fn probe(
    format: &str,
    duration_us: i64,
    bit_rate: i64,
    tags: &[(&str, &str)],
) -> ProbeData {
    ProbeData {
        format: Some(String::from(format)),
        duration_us,
        bit_rate,
        tags: tags
            .iter()
            .map(|(k, v)| (String::from(*k), String::from(*v)))
            .collect(),
    }
}

#[test]
fn digits_render_zero_padded() {
    assert_eq!(two_digits(0), "00");
    assert_eq!(two_digits(5), "05");
    assert_eq!(two_digits(59), "59");
}

#[test]
fn decimal_rendering_is_plain() {
    assert_eq!(decimal_string(0), "0");
    assert_eq!(decimal_string(7), "7");
    assert_eq!(decimal_string(1234567), "1234567");
}

#[test]
fn duration_formats_hours_minutes_seconds() {
    assert_eq!(format_duration(3661_000_000), "01:01:01");
    assert_eq!(format_duration(0), "00:00:00");
}

#[test]
fn duration_of_two_minutes_five_seconds() {
    assert_eq!(format_duration(125_000_000), "00:02:05");
}

#[test]
fn duration_hours_wrap_at_sixty() {
    // 61 hours of playback: the hour field is taken modulo sixty.
    assert_eq!(format_duration(61 * 3600 * 1_000_000), "01:00:00");
}

#[test]
fn duration_clamps_unknown_readings() {
    assert_eq!(format_duration(-1), "00:00:00");
    assert_eq!(format_duration(i64::MIN), "00:00:00");
}

#[test]
fn bitrate_formats_megabits_with_two_decimals() {
    assert_eq!(format_bitrate(1_500_000), "1.50 Mbps");
    assert_eq!(format_bitrate(2_000_000), "2.00 Mbps");
    assert_eq!(format_bitrate(0), "0.00 Mbps");
}

#[test]
fn bitrate_rounds_to_the_nearest_hundredth() {
    assert_eq!(format_bitrate(1_234_567), "1.23 Mbps");
    assert_eq!(format_bitrate(1_235_000), "1.24 Mbps");
    assert_eq!(format_bitrate(999_999_999), "1000.00 Mbps");
}

#[test]
fn bitrate_keeps_the_sign() {
    assert_eq!(format_bitrate(-1_500_000), "-1.50 Mbps");
}

#[test]
fn keys_are_normalized_for_display() {
    assert_eq!(normalize_key("ARTIST"), "Artist");
    assert_eq!(normalize_key("title"), "Title");
    assert_eq!(normalize_key(""), "");
}

#[test]
fn key_normalization_handles_odd_first_characters() {
    // A non-alphabetic first character has no uppercase mapping.
    assert_eq!(normalize_key("1TRACK"), "1track");
    // A first character whose uppercase mapping is two characters long.
    assert_eq!(normalize_key("\u{df}tra\u{df}e"), "SStra\u{df}e");
}

#[test]
fn tag_tables_keep_order_and_duplicates() {
    let tags = vec![
        (String::from("ARTIST"), String::from("X")),
        (String::from("artist"), String::from("Y")),
        (String::from("ALBUM"), String::from("Z")),
    ];
    let rows = normalize_tags(tags);
    assert_eq!(
        rows,
        vec![
            (String::from("Artist"), String::from("X")),
            (String::from("Artist"), String::from("Y")),
            (String::from("Album"), String::from("Z")),
        ]
    );
}

#[test]
fn a_successful_probe_fills_the_record() {
    let mut w = MediaInfoWindow::new();
    assert_eq!(w.format, None);
    assert_eq!(w.duration, None);
    assert_eq!(w.bitrate, None);
    assert!(w.metadata.is_empty());

    let r = w.apply_probe(Ok(probe(
        "Matroska / WebM",
        125_000_000,
        2_000_000,
        &[("ARTIST", "X")],
    )));
    assert!(r.is_ok());
    assert_eq!(w.format, Some(String::from("Matroska / WebM")));
    assert_eq!(w.duration, Some(String::from("00:02:05")));
    assert_eq!(w.bitrate, Some(String::from("2.00 Mbps")));
    assert_eq!(w.metadata, vec![(String::from("Artist"), String::from("X"))]);
}

#[test]
fn a_second_probe_replaces_the_whole_record() {
    let mut w = MediaInfoWindow::new();
    w.apply_probe(Ok(probe(
        "Matroska / WebM",
        125_000_000,
        2_000_000,
        &[("ARTIST", "X")],
    )))
    .unwrap();
    w.apply_probe(Ok(probe(
        "QuickTime / MOV",
        3661_000_000,
        1_500_000,
        &[("TITLE", "B"), ("encoder", "E")],
    )))
    .unwrap();
    assert_eq!(w.format, Some(String::from("QuickTime / MOV")));
    assert_eq!(w.duration, Some(String::from("01:01:01")));
    assert_eq!(w.bitrate, Some(String::from("1.50 Mbps")));
    assert_eq!(
        w.metadata,
        vec![
            (String::from("Title"), String::from("B")),
            (String::from("Encoder"), String::from("E")),
        ]
    );
}

#[test]
fn probing_the_same_values_twice_gives_identical_records() {
    let mut w1 = MediaInfoWindow::new();
    let mut w2 = MediaInfoWindow::new();
    w1.apply_probe(Ok(probe(
        "Matroska / WebM",
        125_000_000,
        2_000_000,
        &[("ARTIST", "X"), ("artist", "Y")],
    )))
    .unwrap();
    w2.apply_probe(Ok(probe(
        "Matroska / WebM",
        125_000_000,
        2_000_000,
        &[("ARTIST", "X"), ("artist", "Y")],
    )))
    .unwrap();
    assert_eq!(w1.format, w2.format);
    assert_eq!(w1.duration, w2.duration);
    assert_eq!(w1.bitrate, w2.bitrate);
    assert_eq!(w1.metadata, w2.metadata);
}

#[test]
fn a_failed_probe_keeps_the_previous_record() {
    let mut w = MediaInfoWindow::new();
    w.apply_probe(Ok(probe(
        "Matroska / WebM",
        125_000_000,
        2_000_000,
        &[("ARTIST", "X")],
    )))
    .unwrap();
    let r = w.apply_probe(Err(ExtractError::UnreadableContainer {
        path: String::from("/videos/broken.mkv"),
        cause: String::from("invalid data found"),
    }));
    let err = r.unwrap_err();
    let ExtractError::UnreadableContainer { path, cause } = &err;
    assert_eq!(path, "/videos/broken.mkv");
    assert_eq!(cause, "invalid data found");
    assert_eq!(
        err.message(),
        "could not read container /videos/broken.mkv: invalid data found"
    );
    assert_eq!(w.format, Some(String::from("Matroska / WebM")));
    assert_eq!(w.duration, Some(String::from("00:02:05")));
    assert_eq!(w.bitrate, Some(String::from("2.00 Mbps")));
    assert_eq!(w.metadata, vec![(String::from("Artist"), String::from("X"))]);
}
