use elytra_conf::entry::{action, config, info, section, status, Constraints, OptionValues};
use elytra_conf::proto::{Field, Proto, SchemaError, Section};

#[test]
fn test_empty() {
    let proto = Proto::new(vec![], vec![], vec![], vec![], vec![]).unwrap();
    assert_eq!(0, proto.info_fields.len());
    assert_eq!(0, proto.config_fields.len());
    assert_eq!(0, proto.sections.len());
    assert_eq!(0, proto.actions.len());
    assert_eq!(0, proto.layout.len());
}

#[test]
fn test_some_entries() {
    let mut proto = Proto::empty();
    let foo = proto.add_info(info("Foo").as_entry()).unwrap();
    let one = proto.add_config(config("One").as_entry()).unwrap();
    let two = proto.add_config(config("Two").as_entry()).unwrap();
    let top = proto.add_section(section("Top").as_entry()).unwrap();
    let mid = proto.add_section(section("Mid").as_entry()).unwrap();
    let bot = proto.add_section(section("Bot").as_entry()).unwrap();
    proto.add_action(action("Being").as_entry()).unwrap();
    proto.add_action(action("End").as_entry()).unwrap();
    proto.add_layout(top, Field::Info(foo)).unwrap();
    proto.add_layout(mid, Field::Conf(one)).unwrap();
    proto.add_layout(bot, Field::Conf(two)).unwrap();

    assert_eq!(1, proto.info_fields.len());
    assert_eq!(2, proto.config_fields.len());
    assert_eq!(3, proto.sections.len());
    assert_eq!(2, proto.actions.len());
    assert_eq!(
        vec![
            (top, Field::Info(foo)),
            (mid, Field::Conf(one)),
            (bot, Field::Conf(two)),
        ],
        proto.layout
    );
}

#[test]
fn compiled_schema_without_info_fields() {
    let sections = vec![
        section("Top").as_entry(),
        section("Mid").as_entry(),
        section("Bot").as_entry(),
    ];
    let configs = vec![config("One").as_entry(), config("Two").as_entry()];
    let actions = vec![action("Begin").as_entry(), action("End").as_entry()];
    let layout = vec![
        (Section(1), Field::Conf(elytra_conf::proto::ConfigField(0))),
        (Section(2), Field::Conf(elytra_conf::proto::ConfigField(1))),
    ];
    let proto = Proto::new(sections, configs, vec![], actions, layout.clone()).unwrap();
    assert_eq!(0, proto.info_fields.len());
    assert_eq!(2, proto.config_fields.len());
    assert_eq!(3, proto.sections.len());
    assert_eq!(2, proto.actions.len());
    assert_eq!(layout, proto.layout);
    assert_eq!("Mid", proto.sections[1].name);
}

#[test]
fn empty_schema_from_builder() {
    let proto = Proto::empty();
    assert_eq!(0, proto.sections.len());
    assert_eq!(0, proto.config_fields.len());
    assert_eq!(0, proto.info_fields.len());
    assert_eq!(0, proto.actions.len());
    assert_eq!(0, proto.layout.len());
}

#[test]
fn indices_follow_declaration_order() {
    let mut proto = Proto::empty();
    for (i, name) in ["A", "B", "C"].iter().enumerate() {
        let s = proto.add_section(section(name).as_entry()).unwrap();
        assert_eq!(Section(i as u8), s);
    }
}

#[test]
fn layout_naming_undeclared_field_is_refused() {
    let mut proto = Proto::empty();
    let top = proto.add_section(section("Top").as_entry()).unwrap();
    let r = proto.add_layout(top, Field::Info(elytra_conf::proto::InfoField(0)));
    assert_eq!(Err(SchemaError::UnknownEntry), r);
    assert_eq!(0, proto.layout.len());
    let r = Proto::new(
        vec![],
        vec![],
        vec![],
        vec![],
        vec![(Section(0), Field::Conf(elytra_conf::proto::ConfigField(0)))],
    );
    assert_eq!(Some(SchemaError::UnknownEntry), r.err());
}

#[test]
fn invalid_entry_is_refused() {
    let mut proto = Proto::empty();
    let mut e = section("Top").as_entry();
    e.name = "";
    assert_eq!(Err(SchemaError::InvalidEntry), proto.add_section(e));
    let long = "x".repeat(55).leak();
    let mut e = section("Top").as_entry();
    e.name = long;
    assert_eq!(Some(SchemaError::InvalidEntry), Proto::new(vec![e], vec![], vec![], vec![], vec![]).err());
}

#[test]
fn too_many_entries_are_refused() {
    let mut proto = Proto::empty();
    for _ in 0..256 {
        proto.add_action(action("Go").as_entry()).unwrap();
    }
    assert_eq!(Err(SchemaError::TooManyEntries), proto.add_action(action("Go").as_entry()));
    assert_eq!(256, proto.actions.len());
}

#[test]
fn mismatched_constraints_are_refused() {
    let mut proto = Proto::empty();
    let mut e = status("S").as_entry();
    e.constraints = Constraints::Range(0..5);
    assert_eq!(Err(SchemaError::InvalidEntry), proto.add_info(e));
    let mut e = config("C").as_entry();
    e.constraints = Constraints::Values(OptionValues { values: vec!["a"] });
    assert_eq!(Err(SchemaError::InvalidEntry), proto.add_config(e));
    let mut e = section("S").as_entry();
    e.constraints = Constraints::Length(3);
    assert_eq!(Err(SchemaError::InvalidEntry), proto.add_section(e));
    let mut e = config("C").as_entry();
    e.constraints = Constraints::Range(5..1);
    assert_eq!(Err(SchemaError::InvalidEntry), proto.add_config(e));
    assert_eq!(0, proto.config_fields.len());
}
