use bwmp::text::{chars_of, cut_string, format_time, has_extension, push_decimal, string_of};

#[test]
fn cut_string_drops_the_extension() {
    assert_eq!(cut_string("song.mp3".to_string(), 80), "song");
    assert_eq!(cut_string("song".to_string(), 80), "song");
    assert_eq!(cut_string(".mp3".to_string(), 80), "");
    assert_eq!(cut_string("mp3".to_string(), 80), "mp3");
}

#[test]
fn cut_string_drops_the_extension_at_the_end_only() {
    assert_eq!(cut_string("a.mp3.mp3".to_string(), 80), "a.mp3");
    assert_eq!(cut_string("my.mp3song.mp3".to_string(), 80), "my.mp3song");
    assert_eq!(cut_string("my.mp3song".to_string(), 80), "my.mp3song");
}

#[test]
fn cut_string_cuts_to_the_limit() {
    assert_eq!(cut_string("abcdefgh.mp3".to_string(), 3), "abc");
    assert_eq!(cut_string("abcdefgh.mp3".to_string(), 8), "abcdefgh");
    assert_eq!(cut_string("abcdefgh.mp3".to_string(), 9), "abcdefgh");
    assert_eq!(cut_string("abcdefgh.mp3".to_string(), 0), "");
    assert_eq!(cut_string(String::new(), 5), "");
}

#[test]
fn cut_string_strips_before_it_cuts() {
    // The name is counted without its extension: four characters fit the limit of four.
    assert_eq!(cut_string("abcd.mp3".to_string(), 4), "abcd");
    assert_eq!(cut_string("abcd.mp3".to_string(), 6), "abcd");
}

#[test]
fn cut_string_never_splits_a_character() {
    // Each of these characters takes three bytes; the cut comes after the first
    // character with which the limit is filled.
    let name = "\u{3042}\u{3044}\u{3046}\u{3048}.mp3".to_string();
    assert_eq!(cut_string(name.clone(), 1), "\u{3042}");
    assert_eq!(cut_string(name.clone(), 3), "\u{3042}");
    assert_eq!(cut_string(name.clone(), 4), "\u{3042}\u{3044}");
    assert_eq!(cut_string(name.clone(), 6), "\u{3042}\u{3044}");
    assert_eq!(cut_string(name.clone(), 7), "\u{3042}\u{3044}\u{3046}");
    assert_eq!(cut_string(name.clone(), 12), "\u{3042}\u{3044}\u{3046}\u{3048}");
    assert_eq!(cut_string(name, 100), "\u{3042}\u{3044}\u{3046}\u{3048}");
}

#[test]
fn cut_string_counts_bytes_of_mixed_text() {
    // 'a' takes one byte, U+00E9 two, U+1F3B5 four.
    let name = "a\u{e9}\u{1f3b5}b".to_string();
    assert_eq!(cut_string(name.clone(), 1), "a");
    assert_eq!(cut_string(name.clone(), 2), "a\u{e9}");
    assert_eq!(cut_string(name.clone(), 3), "a\u{e9}");
    assert_eq!(cut_string(name.clone(), 4), "a\u{e9}\u{1f3b5}");
    assert_eq!(cut_string(name.clone(), 7), "a\u{e9}\u{1f3b5}");
    assert_eq!(cut_string(name, 8), "a\u{e9}\u{1f3b5}b");
}

#[test]
fn format_time_without_hours() {
    assert_eq!(format_time(0), "0:00");
    assert_eq!(format_time(5), "0:05");
    assert_eq!(format_time(59), "0:59");
    assert_eq!(format_time(60), "1:00");
    assert_eq!(format_time(65), "1:05");
    assert_eq!(format_time(600), "10:00");
    assert_eq!(format_time(3599), "59:59");
}

#[test]
fn format_time_with_hours() {
    assert_eq!(format_time(3600), "1:00:00");
    assert_eq!(format_time(3725), "1:02:05");
    assert_eq!(format_time(36_000 + 11 * 60 + 12), "10:11:12");
    assert_eq!(format_time(59 * 3600 + 59 * 60 + 59), "59:59:59");
}

#[test]
fn format_time_wraps_hours_at_sixty() {
    assert_eq!(format_time(60 * 3600), "0:00");
    assert_eq!(format_time(61 * 3600 + 61), "1:01:01");
}

#[test]
fn push_decimal_appends_the_number() {
    let mut s = String::from("n=");
    push_decimal(&mut s, 0);
    assert_eq!(s, "n=0");
    push_decimal(&mut s, 7);
    push_decimal(&mut s, 10);
    push_decimal(&mut s, 65535);
    assert_eq!(s, "n=071065535");
    let mut s = String::new();
    push_decimal(&mut s, u64::MAX);
    assert_eq!(s, "18446744073709551615");
}

#[test]
fn chars_and_strings_convert_both_ways() {
    let v = chars_of("h\u{e9}llo");
    assert_eq!(v, vec!['h', '\u{e9}', 'l', 'l', 'o']);
    assert_eq!(string_of(&v, 0, 5), "h\u{e9}llo");
    assert_eq!(string_of(&v, 1, 3), "\u{e9}l");
    assert_eq!(string_of(&v, 2, 2), "");
    assert_eq!(chars_of(""), Vec::<char>::new());
}

#[test]
fn the_extension_stands_at_the_end() {
    assert!(has_extension(&chars_of("a.mp3")));
    assert!(has_extension(&chars_of(".mp3")));
    assert!(has_extension(&chars_of("a.mp3.mp3")));
    assert!(!has_extension(&chars_of("mp3")));
    assert!(!has_extension(&chars_of("a.mp3 ")));
    assert!(!has_extension(&chars_of("a.MP3")));
    assert!(!has_extension(&chars_of("a.mp4")));
    assert!(!has_extension(&chars_of("")));
}
