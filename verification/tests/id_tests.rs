use snowflake_perms::id::{AnswerId, DeserializeError, GuildId, ParseError, ShardId, UserId};
use snowflake_perms::numeric::WireValue;

#[test]
fn test_created_at() {
    // The id is from the platform's snowflake documentation.
    let id = GuildId::new(175928847299117063);
    assert_eq!(id.created_at().unix_timestamp(), 1462015105);
    assert_eq!(id.created_at().to_display_string(), "2016-04-30T11:18:25.796Z");
}

#[test]
fn test_id_serde() {
    let id = GuildId::new(175928847299117063);
    assert_eq!(id.to_wire_string(), "175928847299117063");

    let from_text =
        GuildId::try_from_wire(&WireValue::Text(String::from("175928847299117063"))).unwrap();
    assert_eq!(from_text, id);

    let from_number = GuildId::try_from_wire(&WireValue::Unsigned(175928847299117063)).unwrap();
    assert_eq!(from_number, id);

    let from_signed = GuildId::try_from_wire(&WireValue::Signed(175928847299117063)).unwrap();
    assert_eq!(from_signed, id);
}

#[test]
fn new_then_get_returns_value() {
    assert_eq!(UserId::new(1).get(), 1);
    assert_eq!(UserId::new(42).get(), 42);
    assert_eq!(UserId::new(u64::MAX).get(), u64::MAX);
}

#[test]
fn wire_round_trip_various_values() {
    for v in [1u64, 9, 10, 4096, 2u64.pow(53) + 1, u64::MAX] {
        let id = GuildId::new(v);
        let wire = id.to_wire_string();
        assert!(wire.chars().all(|c| c.is_ascii_digit()));
        assert!(!wire.is_empty());
        let back = GuildId::try_from_wire(&WireValue::Text(wire)).unwrap();
        assert_eq!(back, id);
    }
}

#[test]
fn try_from_wire_rejects_zero() {
    assert_eq!(
        GuildId::try_from_wire(&WireValue::Unsigned(0)),
        Err(DeserializeError::Zero)
    );
    assert_eq!(
        GuildId::try_from_wire(&WireValue::Signed(0)),
        Err(DeserializeError::Zero)
    );
    assert_eq!(
        GuildId::try_from_wire(&WireValue::Text(String::from("0"))),
        Err(DeserializeError::Zero)
    );
}

#[test]
fn try_from_wire_rejects_negative() {
    assert_eq!(
        GuildId::try_from_wire(&WireValue::Signed(-1)),
        Err(DeserializeError::Range)
    );
}

#[test]
fn try_from_wire_rejects_non_numerals() {
    for bad in ["", "abc", "12a", "-5", "+5", " 7", "18446744073709551616"] {
        assert_eq!(
            GuildId::try_from_wire(&WireValue::Text(String::from(bad))),
            Err(DeserializeError::Parse),
            "input {bad:?}"
        );
    }
}

#[test]
fn parse_text_identifiers() {
    let id: UserId = UserId::parse("175928847299117063").unwrap();
    assert_eq!(id.get(), 175928847299117063);
    assert_eq!(UserId::parse("0"), Err(ParseError::Zero));
    assert_eq!(UserId::parse("notanumber"), Err(ParseError::NotNumeral));
    assert_eq!(UserId::parse(""), Err(ParseError::NotNumeral));
    assert_eq!(
        UserId::parse("99999999999999999999"),
        Err(ParseError::NotNumeral)
    );
}

#[test]
fn identifiers_order_by_value() {
    let older = GuildId::new(175928847299117063);
    let newer = GuildId::new(175928847299117064);
    assert!(older < newer);
    assert!(newer > older);
    assert_eq!(older.partial_cmp(&older), Some(std::cmp::Ordering::Equal));
}

#[test]
fn default_identifier_is_smallest_valid() {
    assert_eq!(GuildId::default().get(), 1);
}

#[test]
fn shard_id_get() {
    assert_eq!(ShardId(7).get(), 7);
    assert_eq!(ShardId(0).get(), 0);
}

#[test]
fn answer_id_get() {
    assert_eq!(AnswerId::new(3).get(), 3);
    assert_eq!(AnswerId::new(255).get(), 255);
}
