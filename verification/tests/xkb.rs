use xkbcommon::xkb::ffi::{
    xkb_key_direction, xkb_keycode_is_legal_ext, xkb_keycode_is_legal_x11, xkb_log_level,
    XKB_KEYCODE_INVALID, XKB_KEYCODE_MAX, XKB_STATE_LEDS, XKB_STATE_MATCH_NON_EXCLUSIVE,
    XKB_STATE_MODS_EFFECTIVE,
};
use xkbcommon::xkb::{
    answered_nonzero, answered_yes, keycode_is_legal_ext, keycode_is_legal_x11, mapped_text_len,
    IndexCursor, KeyDirection, KeymapLayouts, KeymapLeds, KeymapMods, LogLevel, RuleNames,
    ContextIncludePaths, CONTEXT_NO_DEFAULT_INCLUDES, CONTEXT_NO_ENVIRONMENT_NAMES,
    KEYCODE_INVALID, KEYCODE_MAX, KEYMAP_FORMAT_TEXT_V1, KEYMAP_FORMAT_USE_ORIGINAL,
    KEYSYM_CASE_INSENSITIVE, KEYSYM_NAME_SIZE, KEYSYM_UTF8_SIZE, KEY_UTF8_SIZE, LED_NAME_CAPS,
    MOD_NAME_SHIFT, STATE_LAYOUT_DEPRESSED, STATE_LAYOUT_EFFECTIVE, STATE_LAYOUT_LATCHED,
    STATE_LAYOUT_LOCKED, STATE_LEDS, STATE_MATCH_ALL, STATE_MATCH_ANY,
    STATE_MATCH_NON_EXCLUSIVE, STATE_MODS_DEPRESSED, STATE_MODS_EFFECTIVE, STATE_MODS_LATCHED,
    STATE_MODS_LOCKED,
};

#[test]
fn every_keycode_but_the_sentinel_is_legal_ext() {
    assert!(keycode_is_legal_ext(0));
    assert!(keycode_is_legal_ext(38));
    assert!(keycode_is_legal_ext(256));
    assert!(keycode_is_legal_ext(KEYCODE_MAX));
    assert!(!keycode_is_legal_ext(KEYCODE_INVALID));
    assert!(xkb_keycode_is_legal_ext(0));
    assert!(xkb_keycode_is_legal_ext(XKB_KEYCODE_MAX));
    assert!(!xkb_keycode_is_legal_ext(XKB_KEYCODE_INVALID));
}

#[test]
fn x11_keycodes_are_8_to_255() {
    assert!(!keycode_is_legal_x11(0));
    assert!(!keycode_is_legal_x11(7));
    assert!(keycode_is_legal_x11(8));
    assert!(keycode_is_legal_x11(38));
    assert!(keycode_is_legal_x11(255));
    assert!(!keycode_is_legal_x11(256));
    assert!(!keycode_is_legal_x11(KEYCODE_INVALID));
    assert!(!xkb_keycode_is_legal_x11(7));
    assert!(xkb_keycode_is_legal_x11(8));
    assert!(xkb_keycode_is_legal_x11(255));
    assert!(!xkb_keycode_is_legal_x11(256));
}

#[test]
fn the_two_vocabularies_agree_on_keycodes() {
    for key in [0u32, 7, 8, 9, 254, 255, 256, 0xffff_fffe, 0xffff_ffff] {
        assert_eq!(keycode_is_legal_ext(key), xkb_keycode_is_legal_ext(key));
        assert_eq!(keycode_is_legal_x11(key), xkb_keycode_is_legal_x11(key));
    }
}

#[test]
fn the_flags_have_the_engines_bits() {
    assert_eq!(CONTEXT_NO_DEFAULT_INCLUDES, 1);
    assert_eq!(CONTEXT_NO_ENVIRONMENT_NAMES, 2);
    assert_eq!(KEYSYM_CASE_INSENSITIVE, 1);
    assert_eq!(KEYMAP_FORMAT_TEXT_V1, 1);
    assert_eq!(KEYMAP_FORMAT_USE_ORIGINAL, 0xffff_ffff);
    assert_eq!(STATE_MODS_DEPRESSED, 1);
    assert_eq!(STATE_MODS_LATCHED, 2);
    assert_eq!(STATE_MODS_LOCKED, 4);
    assert_eq!(STATE_MODS_EFFECTIVE, 8);
    assert_eq!(STATE_LAYOUT_DEPRESSED, 16);
    assert_eq!(STATE_LAYOUT_LATCHED, 32);
    assert_eq!(STATE_LAYOUT_LOCKED, 64);
    assert_eq!(STATE_LAYOUT_EFFECTIVE, 128);
    assert_eq!(STATE_LEDS, 256);
    assert_eq!(STATE_MATCH_ANY, 1);
    assert_eq!(STATE_MATCH_ALL, 2);
    assert_eq!(STATE_MATCH_NON_EXCLUSIVE, 65536);
    assert_eq!(XKB_STATE_MODS_EFFECTIVE, STATE_MODS_EFFECTIVE);
    assert_eq!(XKB_STATE_LEDS, STATE_LEDS);
    assert_eq!(XKB_STATE_MATCH_NON_EXCLUSIVE, STATE_MATCH_NON_EXCLUSIVE);
    assert_eq!(MOD_NAME_SHIFT, "Shift");
    assert_eq!(LED_NAME_CAPS, "Caps Lock");
}

#[test]
fn the_buffers_have_the_documented_sizes() {
    assert_eq!(KEYSYM_NAME_SIZE, 64);
    assert_eq!(KEYSYM_UTF8_SIZE, 8);
    assert_eq!(KEY_UTF8_SIZE, 64);
}

#[test]
fn log_levels_have_the_engines_numbers() {
    assert_eq!(LogLevel::Critical.to_ffi().value(), 10);
    assert_eq!(LogLevel::Error.to_ffi().value(), 20);
    assert_eq!(LogLevel::Warning.to_ffi().value(), 30);
    assert_eq!(LogLevel::Info.to_ffi().value(), 40);
    assert_eq!(LogLevel::Debug.to_ffi().value(), 50);
    assert_eq!(LogLevel::Error.to_ffi(), xkb_log_level::ERROR);
}

#[test]
fn log_levels_come_back_from_their_numbers() {
    assert_eq!(LogLevel::from_value(10), Some(LogLevel::Critical));
    assert_eq!(LogLevel::from_value(20), Some(LogLevel::Error));
    assert_eq!(LogLevel::from_value(30), Some(LogLevel::Warning));
    assert_eq!(LogLevel::from_value(40), Some(LogLevel::Info));
    assert_eq!(LogLevel::from_value(50), Some(LogLevel::Debug));
    assert_eq!(xkb_log_level::from_value(30), Some(xkb_log_level::WARNING));
    assert_eq!(LogLevel::from_ffi(xkb_log_level::DEBUG), LogLevel::Debug);
    for level in [
        LogLevel::Critical,
        LogLevel::Error,
        LogLevel::Warning,
        LogLevel::Info,
        LogLevel::Debug,
    ] {
        assert_eq!(LogLevel::from_ffi(level.to_ffi()), level);
        assert_eq!(LogLevel::from_value(level.to_ffi().value()), Some(level));
    }
}

#[test]
fn other_numbers_are_no_log_level() {
    for value in [0, 1, 9, 11, 15, 25, 45, 51, 60, -10, i32::MIN, i32::MAX] {
        assert_eq!(LogLevel::from_value(value), None);
        assert_eq!(xkb_log_level::from_value(value), None);
    }
}

#[test]
fn key_directions_have_the_engines_numbers() {
    assert_eq!(KeyDirection::Up.to_ffi(), xkb_key_direction::UP);
    assert_eq!(KeyDirection::Down.to_ffi(), xkb_key_direction::DOWN);
    assert_eq!(KeyDirection::Up.to_ffi().value(), 0);
    assert_eq!(KeyDirection::Down.to_ffi().value(), 1);
}

#[test]
fn only_one_is_yes() {
    assert!(answered_yes(1));
    assert!(!answered_yes(0));
    assert!(!answered_yes(-1));
    assert!(!answered_yes(2));
}

#[test]
fn anything_but_zero_is_nonzero() {
    assert!(answered_nonzero(1));
    assert!(answered_nonzero(-1));
    assert!(answered_nonzero(2));
    assert!(!answered_nonzero(0));
}

#[test]
fn a_mapping_holds_text_and_terminator() {
    assert_eq!(mapped_text_len(0), None);
    assert_eq!(mapped_text_len(1), Some(0));
    assert_eq!(mapped_text_len(4096), Some(4095));
    assert_eq!(mapped_text_len(usize::MAX), Some(usize::MAX - 1));
}

#[test]
fn rule_names_for_a_us_keyboard() {
    let names = RuleNames::new("", "pc105", "us", "", None).unwrap();
    assert_eq!(names.rules, vec![0u8]);
    assert_eq!(names.model, b"pc105\0".to_vec());
    assert_eq!(names.layout, b"us\0".to_vec());
    assert_eq!(names.variant, vec![0u8]);
    assert_eq!(names.options, None);
}

#[test]
fn rule_names_tell_empty_options_from_none() {
    let names = RuleNames::new("evdev", "pc104", "de,us", "nodeadkeys,", Some(String::new()))
        .unwrap();
    assert_eq!(names.rules, b"evdev\0".to_vec());
    assert_eq!(names.variant, b"nodeadkeys,\0".to_vec());
    assert_eq!(names.options, Some(vec![0u8]));
}

#[test]
fn rule_names_terminate_the_options() {
    let names =
        RuleNames::new("", "", "us", "", Some("ctrl:nocaps,compose:ralt".to_string())).unwrap();
    assert_eq!(names.options, Some(b"ctrl:nocaps,compose:ralt\0".to_vec()));
}

#[test]
fn rule_names_refuse_a_zero_byte_in_the_options() {
    assert_eq!(RuleNames::new("", "", "us", "", Some("ctrl:nocaps\0x".to_string())), None);
    assert_eq!(
        RuleNames::new("evdev", "pc105", "us", "", Some("ctrl:nocaps\0grp:bogus".to_string())),
        None
    );
    assert_eq!(RuleNames::new("", "", "us", "", Some("\0".to_string())), None);
    assert_eq!(RuleNames::new("", "", "us", "", Some("compose:ralt\0".to_string())), None);
}

#[test]
fn rule_names_encode_text_as_utf8() {
    let names = RuleNames::new("", "", "\u{e9}", "", None).unwrap();
    assert_eq!(names.layout, vec![0xc3, 0xa9, 0]);
}

#[test]
fn rule_names_refuse_a_zero_byte() {
    assert_eq!(RuleNames::new("ev\0dev", "pc105", "us", "", None), None);
    assert_eq!(RuleNames::new("", "pc\0105", "us", "", None), None);
    assert_eq!(RuleNames::new("", "pc105", "us\0", "", None), None);
    assert_eq!(RuleNames::new("", "pc105", "us", "\0", None), None);
    assert_eq!(RuleNames::new("", "pc105", "us", "\0", Some("x".to_string())), None);
}

#[test]
fn a_cursor_hands_out_each_index_once() {
    let mut cursor = IndexCursor::new(3);
    assert_eq!(cursor.next_index(), Some(0));
    assert_eq!(cursor.next_index(), Some(1));
    assert_eq!(cursor.next_index(), Some(2));
    assert_eq!(cursor.next_index(), None);
    assert_eq!(cursor.next_index(), None);
}

#[test]
fn a_cursor_over_nothing_is_done() {
    let mut cursor = IndexCursor::new(0);
    assert_eq!(cursor.next_index(), None);
    assert_eq!(cursor.next_index(), None);
}

#[test]
fn a_cursor_reaches_the_last_index() {
    let mut cursor = IndexCursor::new(u32::MAX);
    assert_eq!(cursor.next_index(), Some(0));
    let mut last: u32 = 0;
    let mut count: u32 = 1;
    while count < 1000 {
        last = cursor.next_index().unwrap();
        count += 1;
    }
    assert_eq!(last, 999);
}

#[test]
fn a_cursor_starts_anew_when_made_anew() {
    let mut first = KeymapMods::new(2);
    assert_eq!(first.next_index(), Some(0));
    let mut second = KeymapMods::new(2);
    assert_eq!(second.next_index(), Some(0));
    assert_eq!(first.next_index(), Some(1));
}

#[test]
fn the_lists_share_the_cursor() {
    let mut paths = ContextIncludePaths::new(1);
    assert_eq!(paths.next_index(), Some(0));
    assert_eq!(paths.next_index(), None);
    let mut layouts = KeymapLayouts::new(1);
    assert_eq!(layouts.next_index(), Some(0));
    assert_eq!(layouts.next_index(), None);
    let mut leds = KeymapLeds::new(2);
    assert_eq!(leds.next_index(), Some(0));
    assert_eq!(leds.next_index(), Some(1));
    assert_eq!(leds.next_index(), None);
}
