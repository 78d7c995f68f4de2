use snowflake_perms::numeric::{NumericError, WireValue};
use snowflake_perms::permissions::{
    Permissions, ADD_REACTIONS, ALL_PERMISSION_BITS, ATTACH_FILES, DM_PERMISSION_BITS,
    MANAGE_EMOJIS_AND_STICKERS, MANAGE_GUILD, MANAGE_GUILD_EXPRESSIONS, MANAGE_ROLES,
    PRESET_GENERAL_BITS, PRESET_TEXT_BITS, PRESET_VOICE_BITS, SEND_TTS_MESSAGES, SPEAK, STREAM,
};

#[test]
fn permissions_serde() {
    let value = Permissions::from_bits_truncate(MANAGE_GUILD | MANAGE_ROLES);
    assert_eq!(value.to_wire_string(), "268435488");
    let back = Permissions::from_wire(&WireValue::Text(String::from("268435488"))).unwrap();
    assert_eq!(back, value);
}

#[test]
fn truncation_drops_undeclared_bits() {
    // Bits 47, 51..=63 are outside the declared table.
    let raw = (1u64 << 47) | (1u64 << 51) | (1u64 << 63) | MANAGE_GUILD;
    let set = Permissions::from_bits_truncate(raw);
    assert_eq!(set.bits(), MANAGE_GUILD);
    assert_eq!(set.bits() & !ALL_PERMISSION_BITS, 0);

    let everything = Permissions::from_bits_truncate(u64::MAX);
    assert_eq!(everything.bits(), ALL_PERMISSION_BITS);
    assert_eq!(ALL_PERMISSION_BITS, 0x7_7FFF_FFFF_FFFF);
    assert_eq!(everything, Permissions::all());
}

#[test]
fn algebra_never_reintroduces_truncated_bits() {
    let a = Permissions::from_bits_truncate(u64::MAX);
    let b = Permissions::from_bits_truncate(1u64 << 63 | SPEAK);
    assert_eq!(a.union(b).bits() & !ALL_PERMISSION_BITS, 0);
    assert_eq!(a.intersection(b), b);
    assert_eq!(b.difference(a).bits(), 0);
    let mut c = a;
    c.toggle(b);
    assert_eq!(c.bits() & !ALL_PERMISSION_BITS, 0);
    assert_eq!(c.bits(), ALL_PERMISSION_BITS ^ SPEAK);
    assert!(a.contains(b));
    assert!(!b.contains(a));
}

#[test]
fn deprecated_alias_shares_bit_but_not_name() {
    assert_eq!(MANAGE_EMOJIS_AND_STICKERS, MANAGE_GUILD_EXPRESSIONS);
    let set = Permissions::from_bits_truncate(MANAGE_GUILD_EXPRESSIONS);
    // The legacy predicate still works...
    assert!(set.manage_emojis_and_stickers());
    assert!(set.manage_guild_expressions());
    // ...but only the canonical label is enumerated, and only once.
    let names = set.get_permission_names();
    assert_eq!(names, vec!["Manage Guild Expressions"]);
    assert!(!names.contains(&"Manage Emojis and Stickers"));
}

#[test]
fn names_come_in_declaration_order() {
    let set = Permissions::from_bits_truncate(MANAGE_ROLES | MANAGE_GUILD);
    assert_eq!(set.get_permission_names(), vec!["Manage Guild", "Manage Roles"]);
}

#[test]
fn integer_and_string_wire_shapes_agree() {
    let from_number = Permissions::from_wire(&WireValue::Unsigned(268435488)).unwrap();
    let from_text = Permissions::from_wire(&WireValue::Text(String::from("268435488"))).unwrap();
    assert_eq!(from_number, from_text);
    let from_signed = Permissions::from_wire(&WireValue::Signed(268435488)).unwrap();
    assert_eq!(from_signed, from_text);
}

#[test]
fn wire_rejects_only_non_numeric_shapes() {
    assert_eq!(
        Permissions::from_wire(&WireValue::Text(String::from("not a number"))),
        Err(NumericError::Parse)
    );
    assert_eq!(
        Permissions::from_wire(&WireValue::Signed(-1)),
        Err(NumericError::Range)
    );
    // Undeclared bits are truncated, never rejected.
    let set = Permissions::from_wire(&WireValue::Unsigned(u64::MAX)).unwrap();
    assert_eq!(set.bits(), ALL_PERMISSION_BITS);
}

#[test]
fn renders_with_commas_and_final_conjunction() {
    let set = Permissions::from_bits_truncate(ADD_REACTIONS | ATTACH_FILES | STREAM);
    assert_eq!(
        set.to_display_string(),
        "Add Reactions, Attach Files and Stream"
    );
}

#[test]
fn renders_single_name_and_empty_set() {
    let one = Permissions::from_bits_truncate(SEND_TTS_MESSAGES);
    assert_eq!(one.to_display_string(), "Send TTS Messages");
    assert_eq!(Permissions::empty().to_display_string(), "");
    assert_eq!(Permissions::default(), Permissions::empty());
}

#[test]
fn two_names_render_with_conjunction_only() {
    let set = Permissions::from_bits_truncate(MANAGE_GUILD | MANAGE_ROLES);
    assert_eq!(set.to_display_string(), "Manage Guild and Manage Roles");
}

#[test]
fn dm_permissions_bits() {
    let dm = Permissions::dm_permissions();
    assert_eq!(dm.bits(), DM_PERMISSION_BITS);
    assert_eq!(dm.bits(), 1759358228094528);
    assert!(dm.add_reactions());
    assert!(dm.send_polls());
    assert!(!dm.administrator());
    assert!(!dm.kick_members());
}

#[test]
fn preset_bits_are_fixed_unions() {
    assert_eq!(Permissions::preset_general().bits(), PRESET_GENERAL_BITS);
    assert_eq!(Permissions::preset_text().bits(), PRESET_TEXT_BITS);
    assert_eq!(Permissions::preset_voice().bits(), PRESET_VOICE_BITS);
    assert_eq!(PRESET_GENERAL_BITS, 104324161);
    assert_eq!(PRESET_TEXT_BITS, 67624001);
    assert_eq!(PRESET_VOICE_BITS, 36700160);
    // The presets stay within the declared table.
    assert!(Permissions::all().contains(Permissions::preset_general()));
    assert!(Permissions::preset_general().contains(Permissions::preset_voice()));
    assert!(Permissions::preset_general().contains(Permissions::preset_text()));
}

#[test]
fn per_flag_predicates_match_contains() {
    let set = Permissions::from_bits_truncate(MANAGE_GUILD | SPEAK);
    assert!(set.manage_guild());
    assert!(set.speak());
    assert!(!set.manage_roles());
    assert!(set.contains(Permissions::from_bits_truncate(MANAGE_GUILD)));
    assert!(!set.contains(Permissions::from_bits_truncate(MANAGE_ROLES)));
}

#[test]
fn permission_wire_round_trip() {
    for bits in [0u64, MANAGE_GUILD, DM_PERMISSION_BITS, ALL_PERMISSION_BITS] {
        let set = Permissions::from_bits_truncate(bits);
        let wire = set.to_wire_string();
        assert!(wire.chars().all(|c| c.is_ascii_digit()));
        let back = Permissions::from_wire(&WireValue::Text(wire)).unwrap();
        assert_eq!(back, set);
    }
}
