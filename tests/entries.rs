use elytra_conf::entry::{
    action, bytes, config, info, integer, is_valid_name, option, secret, section, status,
    ActionVariant, Constraints, EntryDesc, EntryVariant, ExtraFlags, OptionValueProvider,
    OptionValues, HAS_HELP, HAS_ICON, READ_ONLY,
};
use elytra_conf::values::ValueType;

#[test]
fn flags_round_trip_all_combinations() {
    for bits in 0u8..8 {
        let ro = bits & 1 != 0;
        let help = if bits & 2 != 0 { Some("help") } else { None };
        let icon = if bits & 4 != 0 { Some("icon") } else { None };
        let d = EntryDesc::new("Name", EntryVariant::Section, ro, Constraints::Unconstrained, help, icon);
        let f = d.flags();
        assert_eq!(bits, f.bits());
        assert_eq!(ro, f.contains(READ_ONLY));
        assert_eq!(help.is_some(), f.contains(HAS_HELP));
        assert_eq!(icon.is_some(), f.contains(HAS_ICON));
    }
}

#[test]
fn extra_flags_set_and_clear() {
    let mut f = ExtraFlags::empty();
    f.set(HAS_ICON, true);
    f.set(READ_ONLY, true);
    assert_eq!(5, f.bits());
    f.set(READ_ONLY, false);
    assert_eq!(4, f.bits());
}

#[test]
fn name_length_bounds() {
    assert!(!is_valid_name(""));
    assert!(is_valid_name("a"));
    assert!(is_valid_name(&"a".repeat(54)));
    assert!(!is_valid_name(&"a".repeat(55)));
    // 27 two-byte characters are 54 bytes
    assert!(is_valid_name(&"é".repeat(27)));
    assert!(!is_valid_name(&"é".repeat(28)));
    let d = EntryDesc::new(
        "é".repeat(27).leak(),
        EntryVariant::Section,
        true,
        Constraints::Unconstrained,
        None,
        None,
    );
    assert_eq!(54, d.name.len());
}

#[test]
fn variant_bits() {
    assert_eq!(0, EntryVariant::Section.bits());
    assert_eq!(b'm', EntryVariant::Action(ActionVariant::Main).bits());
    assert_eq!(b'l', EntryVariant::Action(ActionVariant::Purple).bits());
    assert_eq!(b'y', EntryVariant::Action(ActionVariant::Yellow).bits());
    assert_eq!(b't', EntryVariant::Field(ValueType::Text).bits());
    assert_eq!(b'c', EntryVariant::Field(ValueType::Status).bits());
    assert_eq!(b'x', EntryVariant::Field(ValueType::Toggle).bits());
    assert_eq!(Some(ValueType::Options), ValueType::from_code(b'o'));
    assert_eq!(None, ValueType::from_code(b'z'));
    assert!(ValueType::Options.is_options());
    assert!(!ValueType::Toggle.is_options());
}

#[test]
fn constraint_bits() {
    assert_eq!([0u8; 8], Constraints::Unconstrained.bits());
    assert_eq!([0xfe, 0xff, 0xff, 0xff, 10, 0, 0, 0], Constraints::Range(-2..10).bits());
    assert_eq!([0x34, 0x12, 0, 0, 0, 0, 0, 0], Constraints::Length(0x1234).bits());
    let v = OptionValues { values: vec!["a", "b", "c"] };
    assert_eq!([3, 0, 0, 0, 0, 0, 0, 0], Constraints::Values(v).bits());
}

#[test]
fn option_values_provider() {
    let v = OptionValues { values: vec!["low", "high"] };
    assert_eq!(2, v.len());
    assert_eq!(Some("high"), v.get(1));
    assert_eq!(None, v.get(2));
}

#[test]
fn entry_frame_layout() {
    let d = integer("Temp").readonly().with_range(-5..40).with_help("deg").as_entry();
    let f = d.to_frame();
    assert_eq!(READ_ONLY | HAS_HELP, f[0]);
    assert_eq!(b'i', f[1]);
    assert_eq!(&[0xfb, 0xff, 0xff, 0xff, 40, 0, 0, 0], &f[2..10]);
    assert_eq!(b"Temp", &f[10..14]);
    assert!(f[14..].iter().all(|&b| b == 0));
}

#[test]
fn builders_set_their_parts() {
    let s = section("S").with_icon("i").with_help("h");
    assert_eq!(Some("i"), s.icon);
    assert_eq!(Some("h"), s.help);
    let d = s.as_entry();
    assert!(d.readonly);
    assert_eq!(EntryVariant::Section, d.variant);

    let a = action("Go").with_icon("play");
    let d = a.as_entry();
    assert_eq!(EntryVariant::Action(ActionVariant::Normal), d.variant);
    assert_eq!(HAS_ICON | READ_ONLY, d.flags().bits());

    assert_eq!(Some(true), bytes("B", 4).readonly);
    assert!(matches!(bytes("B", 4).constraints, Constraints::Length(4)));
    assert_eq!(Some(false), secret("S").readonly);
    assert_eq!(ValueType::Secret, secret("S").value_type);
    assert_eq!(Some(true), status("S").readonly);
    assert_eq!(None, integer("I").readonly);
    assert_eq!(Some(false), integer("I").writable().readonly);
    assert_eq!(Some(true), info("I").readonly);
    assert_eq!(Some(false), config("C").readonly);
    assert_eq!(ValueType::Bytes, config("C").with_type(ValueType::Bytes).value_type);
    let o = option("O", OptionValues { values: vec!["a"] });
    assert_eq!(ValueType::Options, o.value_type);
    assert!(!o.as_entry().readonly);
}
