use heos_lib::attrs::{decode_message, Attributes};
use heos_lib::text::{find, parse_u16, same_text, trim};

#[test]
fn message_round_trip_recovers_pairs() {
    let pairs = [("pid", "5"), ("state", "play"), ("level", "a=b")];
    let message = pairs.iter().map(|(k, v)| format!("{}={}", k, v)).collect::<Vec<_>>().join("&");
    let attrs = decode_message(&message);
    for (k, v) in pairs.iter() {
        assert_eq!(attrs.get(k).unwrap(), v);
    }
    assert!(attrs.get("other").is_none());
}

#[test]
fn message_drops_segments_without_equals_and_later_keys_win() {
    let attrs = decode_message("flag&a=1&&a=2&=empty");
    assert!(attrs.get("flag").is_none());
    assert_eq!(attrs.get("a").unwrap(), "2");
    assert_eq!(attrs.get("").unwrap(), "empty");
    assert!(!decode_message("").contains_key(""));
}

#[test]
fn attributes_insert_replaces() {
    let mut a = Attributes::new();
    a.insert("k".to_string(), "1".to_string());
    a.insert("k".to_string(), "2".to_string());
    assert_eq!(a.get("k").unwrap(), "2");
    assert!(a.contains_key("k"));
    assert!(!a.contains_key("j"));
}

#[test]
fn decimal_reading_follows_u16_from_str() {
    assert_eq!(parse_u16("0"), Some(0));
    assert_eq!(parse_u16("150"), Some(150));
    assert_eq!(parse_u16("+42"), Some(42));
    assert_eq!(parse_u16("0065535"), Some(65535));
    assert_eq!(parse_u16("65536"), None);
    assert_eq!(parse_u16("99999999999"), None);
    assert_eq!(parse_u16(""), None);
    assert_eq!(parse_u16("+"), None);
    assert_eq!(parse_u16("-1"), None);
    assert_eq!(parse_u16(" 1"), None);
    for s in ["0", "7", "+8", "65535", "65536", "x", "1x", "+", ""] {
        assert_eq!(parse_u16(s), s.parse::<u16>().ok());
    }
}

#[test]
fn trim_matches_std() {
    for s in ["  a b  ", "\t\r\nx\u{3000}", "", "   ", "\u{85}y\u{a0}", "z"] {
        assert_eq!(trim(s), s.trim());
    }
}

#[test]
fn find_gives_leftmost_match() {
    assert_eq!(find("a&b&c", "&"), Some(1));
    assert_eq!(find("abc", "d"), None);
    assert_eq!(find("ab", "abc"), None);
    assert_eq!(find("xyz", ""), Some(0));
    assert_eq!(find("ääb", "b"), Some(2));
    assert!(same_text("heos", "heos"));
    assert!(!same_text("heos", "heo"));
}
