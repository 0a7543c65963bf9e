use elytra_conf::entry::{config, integer, option, secret, status, Constraints, OptionValues};
use elytra_conf::field::{FieldError, FieldValue};

#[test]
fn integer_is_clamped_to_range() {
    let d = integer("I").writable().with_range(-10..20).as_entry();
    let mut v = FieldValue::new(&d);
    for (input, expected) in [(-100i64, -10i64), (-10, -10), (5, 5), (20, 20), (21, 20), (i64::MAX, 20), (i64::MIN, -10)] {
        v.set_integer(input);
        assert_eq!(expected, v.get_integer());
    }
}

#[test]
fn integer_without_range_is_kept() {
    let d = integer("I").writable().as_entry();
    let v = FieldValue::new(&d).with_integer(-123456789012);
    assert_eq!(-123456789012, v.get_integer());
    let bytes = v.into_store_bytes();
    assert_eq!((-123456789012i64).to_le_bytes(), bytes[1..9]);
}

#[test]
fn option_is_held_below_count() {
    let d = option("O", OptionValues { values: vec!["a", "b", "c"] }).as_entry();
    let mut v = FieldValue::new(&d);
    assert_eq!(Ok(()), v.set_option(1));
    assert_eq!(1, v.get_option());
    assert_eq!(Ok(()), v.set_option(3));
    assert_eq!(2, v.get_option());
    assert_eq!(Ok(()), v.set_option(u64::MAX));
    assert_eq!(2, v.get_option());
}

#[test]
fn option_without_values_fails() {
    let d = integer("I").writable().as_entry();
    let mut v = FieldValue::from_store(&d, [7u8; 64]);
    assert_eq!(Err(FieldError::NotOptions), v.set_option(1));
    assert_eq!([7u8; 64], v.into_store_bytes());
}

#[test]
fn option_with_no_values_selects_zero() {
    let d = option("O", OptionValues { values: vec![] }).as_entry();
    let mut v = FieldValue::new(&d);
    assert_eq!(Ok(()), v.set_option(5));
    assert_eq!(0, v.get_option());
}

#[test]
fn text_is_cut_on_char_boundary() {
    let d = config("T").with_range(0..4).as_entry();
    let mut v = FieldValue::new(&d);
    // "aé" is 3 bytes, "aéé" 5: a cut at 4 would split the second é
    v.set_text("aéé");
    assert_eq!("aé", v.get_text());
    let bytes = v.into_store_bytes();
    assert_eq!(&"aé".as_bytes()[..], &bytes[1..4]);
    assert_eq!(0, bytes[4]);
}

#[test]
fn text_fits_its_length() {
    let d = config("T").as_entry();
    let mut v = FieldValue::from_store(&d, [b'z'; 64]);
    v.set_text("hello");
    assert_eq!("hello", v.get_text());
    v.set_text(&"x".repeat(100));
    assert_eq!("x".repeat(63), v.get_text());
}

#[test]
fn text_cut_by_length_constraint() {
    let mut d = config("T").as_entry();
    d.constraints = Constraints::Length(2);
    let mut v = FieldValue::new(&d);
    v.set_text("€uro");
    assert_eq!("", v.get_text());
    v.set_text("abc");
    assert_eq!("ab", v.get_text());
}

#[test]
fn invalid_stored_text_reads_empty() {
    let d = config("T").as_entry();
    let mut data = [0u8; 64];
    data[1] = 0xff;
    let v = FieldValue::from_store(&d, data);
    assert_eq!("", v.get_text());
}

#[test]
fn secret_is_masked_in_message() {
    let d = secret("P").as_entry();
    let v = FieldValue::from_message(&d, b"hunter2");
    let m = v.into_message_bytes();
    assert_eq!(1, m[0]);
    assert_eq!(&[b'*'; 7], &m[1..8]);
    assert_eq!(0, m[8]);
}

#[test]
fn secret_with_large_length_is_masked_to_frame_end() {
    let d = secret("P").as_entry();
    let mut data = [b'a'; 64];
    data[0] = 200;
    let m = FieldValue::from_store(&d, data).into_message_bytes();
    assert_eq!(1, m[0]);
    assert!(m[1..].iter().all(|&b| b == b'*'));
}

#[test]
fn non_secret_message_passes_bytes() {
    let d = status("S").as_entry();
    let mut data = [9u8; 64];
    data[0] = 30;
    let m = FieldValue::from_store(&d, data).into_message_bytes();
    assert_eq!(1, m[0]);
    assert_eq!(&[9u8; 63], &m[1..]);
}

#[test]
fn from_message_clamps_integer() {
    let d = integer("I").writable().with_range(0..100).as_entry();
    let v = FieldValue::from_message(&d, &500i64.to_le_bytes());
    assert_eq!(100, v.get_integer());
    assert_eq!(8, v.into_store_bytes()[0]);
}

#[test]
fn clamp_twice_changes_nothing_more() {
    let di = integer("I").writable().with_range(-3..3).as_entry();
    let dt = config("T").with_range(0..5).as_entry();
    let ds = secret("S").as_entry();
    let payloads: [&[u8]; 4] = [b"", &(-9i64).to_le_bytes(), "héllo wörld".as_bytes(), &[0xc3, 0xa9, 0xff, 1]];
    for d in [&di, &dt, &ds] {
        for p in payloads {
            let mut v = FieldValue::from_message(d, p);
            let once = v.data;
            v.clamp();
            assert_eq!(once, v.data);
        }
    }
    let mut v = FieldValue::from_message(&dt, "héllo".as_bytes());
    assert_eq!("héll", v.get_text());
    v.clamp();
    assert_eq!("héll", v.get_text());
}
