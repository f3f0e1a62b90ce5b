use cursor_speed_pin::notify::{notify, INFO_LENGTH, TITLE_LENGTH};
use cursor_speed_pin::wide::{encode_char, encode_string_wide, leading_units, WIDE_LIMIT};

/// The field as the standard library's encoder would fill it.
fn expected_field(text: &str, length: usize) -> Vec<u16> {
    let mut field: Vec<u16> = text.encode_utf16().take(64).collect();
    field.truncate(length);
    field.resize(length, 0);
    field
}

#[test]
fn the_limit_is_sixty_four_code_units() {
    assert_eq!(WIDE_LIMIT, 64);
}

#[test]
fn code_units_of_single_characters() {
    assert_eq!(encode_char('A'), (0x41, None));
    assert_eq!(encode_char('\0'), (0, None));
    assert_eq!(encode_char('é'), (0xE9, None));
    assert_eq!(encode_char('€'), (0x20AC, None));
    assert_eq!(encode_char('\u{D7FF}'), (0xD7FF, None));
    assert_eq!(encode_char('\u{E000}'), (0xE000, None));
    assert_eq!(encode_char('\u{FFFF}'), (0xFFFF, None));
    assert_eq!(encode_char('\u{10000}'), (0xD800, Some(0xDC00)));
    assert_eq!(encode_char('\u{1F600}'), (0xD83D, Some(0xDE00)));
    assert_eq!(encode_char('\u{10FFFF}'), (0xDBFF, Some(0xDFFF)));
}

#[test]
fn code_units_agree_with_the_standard_library() {
    for c in ['a', 'ß', 'λ', '中', '\u{FFFD}', '\u{10000}', '\u{1D11E}', '\u{10FFFF}'] {
        let mut buffer = [0u16; 2];
        let expected = c.encode_utf16(&mut buffer);
        let (first, second) = encode_char(c);
        let mut units = vec![first];
        units.extend(second);
        assert_eq!(units.as_slice(), &*expected);
    }
}

#[test]
fn short_text_is_followed_by_zeros() {
    assert_eq!(encode_string_wide("ab", 4), vec![0x61, 0x62, 0, 0]);
    assert_eq!(encode_string_wide("", 3), vec![0, 0, 0]);
    assert_eq!(encode_string_wide("abc", 0), Vec::<u16>::new());
}

#[test]
fn text_longer_than_the_field_is_cut() {
    assert_eq!(encode_string_wide("abcdef", 4), vec![0x61, 0x62, 0x63, 0x64]);
}

#[test]
fn text_longer_than_the_limit_is_cut_at_the_limit() {
    let text = "x".repeat(100);
    let field = encode_string_wide(&text, 256);
    assert_eq!(field.len(), 256);
    assert!(field[..64].iter().all(|&unit| unit == 0x78));
    assert!(field[64..].iter().all(|&unit| unit == 0));
}

#[test]
fn a_character_across_the_limit_leaves_its_high_surrogate() {
    let text = format!("{}{}", "x".repeat(63), '\u{1F600}');
    let field = encode_string_wide(&text, 256);
    assert_eq!(field[62], 0x78);
    assert_eq!(field[63], 0xD83D);
    assert_eq!(field[64], 0);
    assert_eq!(field, expected_field(&text, 256));
}

#[test]
fn fields_agree_with_the_standard_library() {
    let samples = [
        "",
        "CursorSpeedPin",
        "Speed was set to 7, resetting to desired speed 10",
        "Failed to get current cursor speed, see the logfile for more.",
        "Zeiger: schnell → langsam",
        "速度が変更されました",
        "😀😀😀😀😀😀😀😀😀😀😀😀😀😀😀😀😀😀😀😀😀😀😀😀😀😀😀😀😀😀😀😀😀",
        "a😀😀😀😀😀😀😀😀😀😀😀😀😀😀😀😀😀😀😀😀😀😀😀😀😀😀😀😀😀😀😀😀😀",
    ];
    for text in samples {
        for length in [0, 1, 63, 64, 65, 256] {
            assert_eq!(encode_string_wide(text, length), expected_field(text, length));
        }
    }
}

#[test]
fn leading_units_stop_at_the_limit() {
    assert_eq!(leading_units("abc", 2), vec![0x61, 0x62]);
    assert_eq!(leading_units("abc", 3), vec![0x61, 0x62, 0x63]);
    assert_eq!(leading_units("abc", 10), vec![0x61, 0x62, 0x63]);
    assert_eq!(leading_units("abc", 0), Vec::<u16>::new());
    assert_eq!(leading_units("a\u{1F600}", 2), vec![0x61, 0xD83D]);
    assert_eq!(leading_units("a\u{1F600}", 3), vec![0x61, 0xD83D, 0xDE00]);
}

#[test]
fn a_notification_carries_the_title_and_the_message() {
    let notification = notify("Unpinned cursor speed");
    assert_eq!(TITLE_LENGTH, 64);
    assert_eq!(INFO_LENGTH, 256);
    assert_eq!(notification.title, expected_field("CursorSpeedPin", 64));
    assert_eq!(notification.info, expected_field("Unpinned cursor speed", 256));
    assert_eq!(notification.title[13], 0x6E);
    assert_eq!(notification.title[14], 0);
}

#[test]
fn a_long_message_is_cut_and_still_ends_in_zeros() {
    let message = "The pointer speed was changed by something else, and more than once at that.";
    let notification = notify(message);
    assert_eq!(notification.info.len(), 256);
    assert_eq!(notification.info, expected_field(message, 256));
    assert_ne!(notification.info[63], 0);
    assert!(notification.info[64..].iter().all(|&unit| unit == 0));
}
