use elytra_conf::command::{
    decode_request, dispatch, CommandError, CommandHandler, DispatchError, Request, ERROR_MARK,
    OP_ACTION, OP_DESCRIBE, OP_LAYOUT, OP_NOOP, OP_READ, OP_WRITE,
};
use elytra_conf::device::{frame_from_words, pack64, DeviceError};
use elytra_conf::entry::{action, config, info, integer, section, secret};
use elytra_conf::field::FieldValue;
use elytra_conf::mock::MockHandler;
use elytra_conf::proto::{Action, ConfigField, EntryType, Field, InfoField, Proto, ENTRY_ACTION, ENTRY_CONFIG, ENTRY_INFO, ENTRY_SECTION};

fn schema() -> Proto {
    let mut p = Proto::empty();
    let s = p.add_section(section("Main").as_entry()).unwrap();
    let c = p.add_config(config("Name").as_entry()).unwrap();
    p.add_config(integer("Level").writable().with_range(0..10).as_entry()).unwrap();
    p.add_config(secret("Key").as_entry()).unwrap();
    p.add_info(info("Version").as_entry()).unwrap();
    p.add_action(action("Reboot").as_entry()).unwrap();
    p.add_layout(s, Field::Conf(c)).unwrap();
    p
}

fn frame(head: &[u8]) -> [u8; 64] {
    let mut f = [0u8; 64];
    f[..head.len()].copy_from_slice(head);
    f
}

/// Records every call, to show which requests reach it.
#[derive(Default)]
struct Recorder {
    calls: Vec<String>,
    written: Vec<[u8; 64]>,
}

impl CommandHandler for Recorder {
    fn noop(&mut self) {
        self.calls.push("noop".into());
    }
    fn read_config<'p>(&mut self, proto: &'p Proto, field: ConfigField) -> Result<FieldValue<'p>, CommandError> {
        self.calls.push(format!("read_config {}", field.0));
        let mut data = [0u8; 64];
        data[0] = 3;
        data[1..4].copy_from_slice(b"abc");
        Ok(FieldValue::from_store(proto.config_field(field), data))
    }
    fn write_config(&mut self, field: ConfigField, value: FieldValue) -> Result<(), CommandError> {
        self.calls.push(format!("write_config {}", field.0));
        self.written.push(value.into_store_bytes());
        Ok(())
    }
    fn read_info<'p>(&mut self, _proto: &'p Proto, field: InfoField) -> Result<FieldValue<'p>, CommandError> {
        self.calls.push(format!("read_info {}", field.0));
        Err(CommandError { code: 7 })
    }
    fn write_info(&mut self, field: InfoField, _value: FieldValue) -> Result<(), CommandError> {
        self.calls.push(format!("write_info {}", field.0));
        Ok(())
    }
    fn do_action(&mut self, a: Action) -> Result<(), CommandError> {
        self.calls.push(format!("action {}", a.0));
        Ok(())
    }
}

#[test]
fn out_of_range_index_never_reaches_handler() {
    let p = schema();
    let mut h = Recorder::default();
    for f in [
        frame(&[OP_READ, ENTRY_CONFIG, 3]),
        frame(&[OP_READ, ENTRY_CONFIG, 255]),
        frame(&[OP_WRITE, ENTRY_INFO, 1, 0]),
        frame(&[OP_ACTION, ENTRY_ACTION, 1]),
    ] {
        let r = dispatch(&mut h, &p, &f);
        assert_eq!(ERROR_MARK, r[0]);
        assert_eq!(3, r[1]);
        assert_eq!(Err(DispatchError::UnknownIndex), decode_request(&p, &f));
    }
    assert!(h.calls.is_empty());
}

#[test]
fn decode_errors() {
    let p = schema();
    assert_eq!(Err(DispatchError::UnknownCommand), decode_request(&p, &frame(&[0])));
    assert_eq!(Err(DispatchError::UnknownEntryType), decode_request(&p, &frame(&[OP_READ, ENTRY_SECTION, 0])));
    assert_eq!(Err(DispatchError::PayloadTooLong), decode_request(&p, &frame(&[OP_WRITE, ENTRY_CONFIG, 0, 61])));
    assert_eq!(Ok(Request::WriteConfig(ConfigField(0), 60)), decode_request(&p, &frame(&[OP_WRITE, ENTRY_CONFIG, 0, 60])));
    assert_eq!(Ok(Request::Describe(EntryType::Action, 0)), decode_request(&p, &frame(&[OP_DESCRIBE, ENTRY_ACTION, 0])));
}

#[test]
fn valid_requests_reach_handler() {
    let p = schema();
    let mut h = Recorder::default();
    let r = dispatch(&mut h, &p, &frame(&[OP_NOOP]));
    assert_eq!(1, r[0]);
    let r = dispatch(&mut h, &p, &frame(&[OP_READ, ENTRY_CONFIG, 0]));
    assert_eq!(&[1, b'a', b'b', b'c'], &r[..4]);
    let r = dispatch(&mut h, &p, &frame(&[OP_READ, ENTRY_INFO, 0]));
    assert_eq!(&[ERROR_MARK, 5, 7], &r[..3]);
    let r = dispatch(&mut h, &p, &frame(&[OP_WRITE, ENTRY_CONFIG, 1, 8, 50, 0, 0, 0, 0, 0, 0, 0]));
    assert_eq!(1, r[0]);
    // the integer is clamped to its range before the handler sees it
    assert_eq!(&[8, 10, 0, 0, 0, 0, 0, 0, 0], &h.written[0][..9]);
    let r = dispatch(&mut h, &p, &frame(&[OP_ACTION, ENTRY_ACTION, 0]));
    assert_eq!(1, r[0]);
    assert_eq!(vec!["noop", "read_config 0", "read_info 0", "write_config 1", "action 0"], h.calls);
}

#[test]
fn describe_and_layout_answer_from_schema() {
    let p = schema();
    let mut h = MockHandler::new();
    let r = dispatch(&mut h, &p, &frame(&[OP_DESCRIBE, ENTRY_CONFIG, 1]));
    assert_eq!(p.config_fields[1].to_frame(), r);
    assert_eq!(b'i', r[1]);
    assert_eq!(b"Level", &r[10..15]);
    let r = dispatch(&mut h, &p, &frame(&[OP_LAYOUT, 0, 0]));
    assert_eq!(&[1, 0, ENTRY_CONFIG, 0, 0], &r[..5]);
    let r = dispatch(&mut h, &p, &frame(&[OP_LAYOUT, 0, 1]));
    assert_eq!(&[ERROR_MARK, 3], &r[..2]);
}

#[test]
fn mock_handler_reads_zeros() {
    let p = schema();
    let mut h = MockHandler::new();
    let r = dispatch(&mut h, &p, &frame(&[OP_READ, ENTRY_CONFIG, 2]));
    assert_eq!(1, r[0]);
    assert!(r[1..].iter().all(|&b| b == 0));
    let r = dispatch(&mut h, &p, &frame(&[OP_WRITE, ENTRY_INFO, 0, 2, b'h', b'i']));
    assert_eq!(1, r[0]);
}

#[test]
fn request_words_pack_little_endian() {
    let mut f = [0u8; 64];
    for (i, b) in f.iter_mut().enumerate() {
        *b = i as u8;
    }
    let w = pack64(&f);
    assert_eq!(0x0706050403020100, w[0]);
    assert_eq!(0x3f3e3d3c3b3a3938, w[7]);
    let back: Vec<u64> = w.iter().map(|x| x.swap_bytes()).collect();
    assert_eq!(Ok(f), frame_from_words(&back));
}

#[test]
fn device_response_words() {
    assert_eq!(Err(DeviceError::NoResponse), frame_from_words(&[]));
    let f = frame_from_words(&[0x0102030405060708]).unwrap();
    assert_eq!(&[1, 2, 3, 4, 5, 6, 7, 8], &f[..8]);
    assert!(f[8..].iter().all(|&b| b == 0));
    let many = [u64::MAX; 10];
    assert_eq!(Ok([0xffu8; 64]), frame_from_words(&many));
}
