use gateway_bot::channel::{applicant_from_channel_name, verification_channel_name};
use gateway_bot::text::{parse_decimal_u64, push_decimal, push_signed_decimal};

fn decimal(n: u64) -> String {
    let mut s = String::new();
    push_decimal(&mut s, n);
    s
}

#[test]
fn decimal_renders_like_display() {
    for n in [0u64, 7, 10, 99, 100, 1234567890, u64::MAX] {
        assert_eq!(decimal(n), n.to_string());
    }
}

#[test]
fn signed_decimal_renders_negative_values() {
    for n in [0i64, 5, -5, 1700000000, i64::MIN, i64::MAX] {
        let mut s = String::from("x");
        push_signed_decimal(&mut s, n);
        assert_eq!(s, format!("x{}", n));
    }
}

#[test]
fn parse_accepts_what_std_accepts() {
    for s in ["0", "42", "+42", "007", "18446744073709551615"] {
        assert_eq!(parse_decimal_u64(s), s.parse::<u64>().ok());
    }
    assert_eq!(parse_decimal_u64("+42"), Some(42));
}

#[test]
fn parse_rejects_what_std_rejects() {
    for s in ["", "+", "-", "-1", "4a", " 4", "18446744073709551616", "99999999999999999999", "١٢"] {
        assert_eq!(parse_decimal_u64(s), None, "{s:?}");
        assert_eq!(s.parse::<u64>().ok(), None);
    }
}

#[test]
fn channel_name_joins_name_and_id() {
    assert_eq!(verification_channel_name("alice", 123456789012345678), "alice-123456789012345678");
    assert_eq!(verification_channel_name("", 5), "-5");
}

#[test]
fn applicant_is_read_after_last_dash() {
    assert_eq!(applicant_from_channel_name("alice-42"), Some(42));
    assert_eq!(applicant_from_channel_name("bob-the-builder-7"), Some(7));
    assert_eq!(applicant_from_channel_name("999"), Some(999));
    assert_eq!(applicant_from_channel_name("alice-"), None);
    assert_eq!(applicant_from_channel_name("alice-x1"), None);
    assert_eq!(applicant_from_channel_name("жора-15"), Some(15));
}

#[test]
fn channel_name_round_trip() {
    for (name, id) in [("alice", 1u64), ("a-b-c", 1234), ("ник", u64::MAX), ("x-", 0)] {
        let channel = verification_channel_name(name, id);
        assert_eq!(applicant_from_channel_name(&channel), Some(id));
    }
}
