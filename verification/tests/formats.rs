use data_package::api_gateway::rest_api_entry_text;
use data_package::text::{decimal_string, join_with_newlines, owned, push_hex_lower, same_text};
use data_package::timefmt::{reformat_display_text, reformat_utc};
use data_package::UtcTime;

#[test]
fn decimal_rendering() {
    assert_eq!(decimal_string(0), "0");
    assert_eq!(decimal_string(9), "9");
    assert_eq!(decimal_string(10), "10");
    assert_eq!(decimal_string(170016057719975295), "170016057719975295");
    assert_eq!(decimal_string(u128::MAX), u128::MAX.to_string());
}

#[test]
fn hex_rendering_of_bytes() {
    let mut s = owned("x");
    push_hex_lower(&mut s, &[0x00, 0x0f, 0xa0, 0xff]);
    assert_eq!(s, "x000fa0ff");
}

#[test]
fn comparing_texts() {
    assert!(same_text("Binance", "Binance"));
    assert!(!same_text("Houbi", "Huobi"));
    assert!(!same_text("Binance", "Binanc"));
    assert!(same_text("", ""));
}

#[test]
fn joining_lines() {
    assert_eq!(join_with_newlines(&vec![]), "");
    assert_eq!(join_with_newlines(&vec!["a".to_string()]), "a");
    assert_eq!(join_with_newlines(&vec!["a".to_string(), String::new(), "c".to_string()]), "a\n\nc");
}

#[test]
fn validity_of_times() {
    assert!(UtcTime { secs: 0, nanos: 0 }.is_valid());
    assert!(UtcTime { secs: 8210266876799, nanos: 999_999_999 }.is_valid());
    assert!(!UtcTime { secs: 8210266876800, nanos: 0 }.is_valid());
    assert!(UtcTime { secs: -8334601228800, nanos: 0 }.is_valid());
    assert!(!UtcTime { secs: -8334601228801, nanos: 0 }.is_valid());
    assert!(UtcTime { secs: 59, nanos: 1_500_000_000 }.is_valid());
    assert!(!UtcTime { secs: 58, nanos: 1_500_000_000 }.is_valid());
    assert!(UtcTime { secs: -1, nanos: 1_500_000_000 }.is_valid());
    assert!(!UtcTime { secs: -2, nanos: 1_500_000_000 }.is_valid());
    assert!(!UtcTime { secs: 59, nanos: 2_000_000_000 }.is_valid());
}

#[test]
fn reformatting_a_time() {
    assert_eq!(
        reformat_utc(UtcTime { secs: 1_700_000_000, nanos: 123_456_789 }).unwrap(),
        "2023-11-14T22:13:20.123456Z"
    );
    assert_eq!(reformat_utc(UtcTime { secs: 0, nanos: 0 }).unwrap(), "1970-01-01T00:00:00.000000Z");
    assert_eq!(
        reformat_utc(UtcTime { secs: 1_700_000_039, nanos: 1_500_000_000 }).unwrap(),
        "2023-11-14T22:13:60.500000Z"
    );
    assert_eq!(reformat_utc(UtcTime { secs: 253402300800, nanos: 0 }).unwrap(), "+10000-01-01T00:00:00.000000Z");
    assert_eq!(
        reformat_utc(UtcTime { secs: -8334601228800, nanos: 0 }).unwrap(),
        "-262143-01-01T00:00:00.000000Z"
    );
    assert_eq!(
        reformat_utc(UtcTime { secs: 8210266876799, nanos: 999_999_999 }).unwrap(),
        "+262142-12-31T23:59:59.999999Z"
    );
}

#[test]
fn reading_back_display_texts() {
    assert_eq!(
        reformat_display_text("2023-11-14 22:13:20.123456789 UTC").unwrap(),
        "2023-11-14T22:13:20.123456Z"
    );
    assert!(reformat_display_text("not a time").is_err());
    assert!(!reformat_display_text("2023-13-14 22:13:20 UTC").unwrap_err().message.is_empty());
}

#[test]
fn rest_api_listing() {
    assert_eq!(
        rest_api_entry_text(Some("abc"), Some("pets"), None, Some("1")),
        "ID:          abc\nName:        pets\nDescription: \nVersion:     1\n\n"
    );
    assert_eq!(
        rest_api_entry_text(None, None, None, None),
        "ID:          \nName:        \nDescription: \nVersion:     \n\n"
    );
}
