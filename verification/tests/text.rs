use ultor::utils::ExtraEntry;
use ultor::utils::ExtraValue;
use ultor::utils::capitalize_key;
use ultor::utils::format_extra_data;
use ultor::utils::i64_to_string;
use ultor::utils::parse_u64;
use ultor::utils::str_eq;
use ultor::utils::u64_to_string;

#[test]
fn u64_rendering_is_exact() {
    assert_eq!(u64_to_string(0), "0");
    assert_eq!(u64_to_string(42), "42");
    assert_eq!(u64_to_string(1000), "1000");
    assert_eq!(u64_to_string(u64::MAX), "18446744073709551615");
}

#[test]
fn i64_rendering_is_exact() {
    assert_eq!(i64_to_string(0), "0");
    assert_eq!(i64_to_string(-3), "-3");
    assert_eq!(i64_to_string(1234), "1234");
    assert_eq!(i64_to_string(i64::MIN), "-9223372036854775808");
}

#[test]
fn parsing_accepts_exactly_decimal_digit_strings() {
    assert_eq!(parse_u64("0"), Some(0));
    assert_eq!(parse_u64("007"), Some(7));
    assert_eq!(parse_u64("18446744073709551615"), Some(u64::MAX));
    assert_eq!(parse_u64("18446744073709551616"), None);
    assert_eq!(parse_u64(""), None);
    assert_eq!(parse_u64("12a"), None);
    assert_eq!(parse_u64("-1"), None);
    assert_eq!(parse_u64(" 1"), None);
}

#[test]
fn keys_are_capitalized_per_underscore_part() {
    // Relies on the real uppercase conversion: an identity conversion
    // would leave the first letters lower-case.
    assert_eq!(capitalize_key("foo_bar"), "Foo Bar");
    assert_eq!(capitalize_key("user_name"), "User Name");
    assert_eq!(capitalize_key("a__b"), "A  B");
    assert_eq!(capitalize_key("_x"), " X");
    assert_eq!(capitalize_key(""), "");
}

#[test]
fn extra_data_formats_one_line_per_reported_entry() {
    let entries = vec![
        ExtraEntry { key: "user_name".to_string(), value: ExtraValue::Str("gordon".to_string()) },
        ExtraEntry { key: "play_time".to_string(), value: ExtraValue::UInt(128) },
        ExtraEntry { key: "balance".to_string(), value: ExtraValue::Int(-5) },
        ExtraEntry { key: "flags".to_string(), value: ExtraValue::Other },
    ];
    let formatted = format_extra_data(&entries);
    assert_eq!(formatted, "User Name: gordon\nPlay Time: 128\nBalance: -5\n");
}

#[test]
fn extra_data_without_reported_entries_gives_the_fixed_notice() {
    assert_eq!(format_extra_data(&Vec::new()), "No extra data found.");
    let skipped = vec![ExtraEntry { key: "flags".to_string(), value: ExtraValue::Other }];
    assert_eq!(format_extra_data(&skipped), "No extra data found.");
}

#[test]
fn str_eq_compares_by_characters() {
    assert!(str_eq("login", "login"));
    assert!(!str_eq("login", "Login"));
    assert!(!str_eq("", "a"));
    assert!(str_eq("", ""));
}
