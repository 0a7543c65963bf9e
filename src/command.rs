use vstd::prelude::*;

use crate::entry::EntryDesc;
use crate::field::{message_bytes, FieldValue};
use crate::proto::{
    entry_type_of, Action, ConfigField, EntryType, Field, InfoField, Proto, Section, ENTRY_CONFIG,
    ENTRY_INFO,
};

verus! {

// A request frame is 64 bytes: byte 0 is the command, byte 1 the entry
// category, byte 2 the entry's index; a write puts its payload length at
// byte 3 and the payload from byte 4 on.
/// Heartbeat.
pub const OP_NOOP: u8 = 110;

/// Reads a config or info field.
pub const OP_READ: u8 = 114;

/// Writes a config or info field.
pub const OP_WRITE: u8 = 119;

/// Runs an action.
pub const OP_ACTION: u8 = 97;

/// Asks for an entry's descriptor frame.
pub const OP_DESCRIBE: u8 = 100;

/// Asks for one pair of the layout.
pub const OP_LAYOUT: u8 = 108;

/// Offset of a write's payload in the request frame.
pub const PAYLOAD_OFFSET: usize = 4;

/// Longest payload of a write.
pub const MAX_PAYLOAD: u8 = 60;

/// First byte of a response that reports a failure.
pub const ERROR_MARK: u8 = 255;

/// First byte of a response that acknowledges a command with nothing to return.
pub const ACK_MARK: u8 = 1;

/// A failure reported by a device for a valid command.
#[derive(Copy, Clone, Debug, PartialEq, Eq, Structural)]
pub struct CommandError {
    pub code: u8,
}

/// Why a request was not carried out.
#[derive(Copy, Clone, Debug, PartialEq, Eq, Structural)]
pub enum DispatchError {
    UnknownCommand,
    UnknownEntryType,
    UnknownIndex,
    PayloadTooLong,
    Handler(CommandError),
}

impl DispatchError {
    pub open spec fn spec_code(self) -> u8 {
        match self {
            DispatchError::UnknownCommand => 1,
            DispatchError::UnknownEntryType => 2,
            DispatchError::UnknownIndex => 3,
            DispatchError::PayloadTooLong => 4,
            DispatchError::Handler(_) => 5,
        }
    }

    pub open spec fn spec_detail(self) -> u8 {
        match self {
            DispatchError::Handler(e) => e.code,
            _ => 0,
        }
    }
}

/// A decoded request, its indices checked against the schema.
#[derive(Copy, Clone, Debug, PartialEq, Eq, Structural)]
pub enum Request {
    Noop,
    ReadConfig(ConfigField),
    ReadInfo(InfoField),
    /// The field and the payload's length.
    WriteConfig(ConfigField, u8),
    WriteInfo(InfoField, u8),
    DoAction(Action),
    Describe(EntryType, u8),
    Layout(u8),
}

/// How many entries of category `t` the schema declares.
pub open spec fn count_of(p: &Proto, t: EntryType) -> nat {
    p.category(t).len()
}

/// The request that frame `f` carries under schema `p`, or why it is refused.
pub open spec fn decoded_request(p: &Proto, f: Seq<u8>) -> Result<Request, DispatchError> {
    let op = f[0];
    let t = f[1];
    let i = f[2];
    let n = f[3];
    if op == OP_NOOP {
        Ok(Request::Noop)
    } else if op == OP_READ || op == OP_WRITE {
        if t == ENTRY_CONFIG {
            if (i as nat) >= p.config_fields@.len() {
                Err(DispatchError::UnknownIndex)
            } else if op == OP_READ {
                Ok(Request::ReadConfig(ConfigField(i)))
            } else if n > MAX_PAYLOAD {
                Err(DispatchError::PayloadTooLong)
            } else {
                Ok(Request::WriteConfig(ConfigField(i), n))
            }
        } else if t == ENTRY_INFO {
            if (i as nat) >= p.info_fields@.len() {
                Err(DispatchError::UnknownIndex)
            } else if op == OP_READ {
                Ok(Request::ReadInfo(InfoField(i)))
            } else if n > MAX_PAYLOAD {
                Err(DispatchError::PayloadTooLong)
            } else {
                Ok(Request::WriteInfo(InfoField(i), n))
            }
        } else {
            Err(DispatchError::UnknownEntryType)
        }
    } else if op == OP_ACTION {
        if (i as nat) < p.actions@.len() {
            Ok(Request::DoAction(Action(i)))
        } else {
            Err(DispatchError::UnknownIndex)
        }
    } else if op == OP_DESCRIBE {
        match entry_type_of(t) {
            Some(c) => if (i as nat) < count_of(p, c) {
                Ok(Request::Describe(c, i))
            } else {
                Err(DispatchError::UnknownIndex)
            },
            None => Err(DispatchError::UnknownEntryType),
        }
    } else if op == OP_LAYOUT {
        if (i as nat) < p.layout@.len() {
            Ok(Request::Layout(i))
        } else {
            Err(DispatchError::UnknownIndex)
        }
    } else {
        Err(DispatchError::UnknownCommand)
    }
}

/// Decodes a request frame; an index at or past its category's count is refused.
pub fn decode_request(proto: &Proto, frame: &[u8; 64]) -> (r: Result<Request, DispatchError>)
    ensures
        r == decoded_request(proto, frame@),
{
    let op = frame[0];
    let t = frame[1];
    let i = frame[2];
    let n = frame[3];
    if op == OP_NOOP {
        Ok(Request::Noop)
    } else if op == OP_READ || op == OP_WRITE {
        if t == ENTRY_CONFIG {
            if (i as usize) >= proto.config_fields.len() {
                Err(DispatchError::UnknownIndex)
            } else if op == OP_READ {
                Ok(Request::ReadConfig(ConfigField(i)))
            } else if n > MAX_PAYLOAD {
                Err(DispatchError::PayloadTooLong)
            } else {
                Ok(Request::WriteConfig(ConfigField(i), n))
            }
        } else if t == ENTRY_INFO {
            if (i as usize) >= proto.info_fields.len() {
                Err(DispatchError::UnknownIndex)
            } else if op == OP_READ {
                Ok(Request::ReadInfo(InfoField(i)))
            } else if n > MAX_PAYLOAD {
                Err(DispatchError::PayloadTooLong)
            } else {
                Ok(Request::WriteInfo(InfoField(i), n))
            }
        } else {
            Err(DispatchError::UnknownEntryType)
        }
    } else if op == OP_ACTION {
        if (i as usize) < proto.actions.len() {
            Ok(Request::DoAction(Action(i)))
        } else {
            Err(DispatchError::UnknownIndex)
        }
    } else if op == OP_DESCRIBE {
        match EntryType::from_code(t) {
            Some(c) => {
                let count = match c {
                    EntryType::Section => proto.sections.len(),
                    EntryType::Config => proto.config_fields.len(),
                    EntryType::Info => proto.info_fields.len(),
                    EntryType::Action => proto.actions.len(),
                };
                if (i as usize) < count {
                    Ok(Request::Describe(c, i))
                } else {
                    Err(DispatchError::UnknownIndex)
                }
            },
            None => Err(DispatchError::UnknownEntryType),
        }
    } else if op == OP_LAYOUT {
        if (i as usize) < proto.layout.len() {
            Ok(Request::Layout(i))
        } else {
            Err(DispatchError::UnknownIndex)
        }
    } else {
        Err(DispatchError::UnknownCommand)
    }
}

/// The response reporting `e`: the error mark, the error's code, then its detail.
pub open spec fn error_frame(e: DispatchError) -> Seq<u8> {
    Seq::new(
        64,
        |i: int|
            if i == 0 {
                ERROR_MARK
            } else if i == 1 {
                e.spec_code()
            } else if i == 2 {
                e.spec_detail()
            } else {
                0u8
            },
    )
}

/// What a response to a request carried out by the handler looks like: the
/// handler's error, else the field's message (leading byte 1) for a read, or an
/// ack for anything else.
pub open spec fn handled_frame(q: Request, f: Seq<u8>) -> bool {
    match q {
        Request::ReadConfig(_) | Request::ReadInfo(_) => f[0] == ACK_MARK || (f[0] == ERROR_MARK
            && f[1] == 5),
        Request::WriteConfig(_, _) | Request::WriteInfo(_, _) | Request::DoAction(_) => f
            == ack_frame() || (f[0] == ERROR_MARK && f[1] == 5),
        _ => true,
    }
}

/// The response acknowledging a command that returns nothing.
pub open spec fn ack_frame() -> Seq<u8> {
    Seq::new(64, |i: int| if i == 0 { ACK_MARK } else { 0u8 })
}

/// The response carrying a layout pair: the ack mark, the section's index, then the field's bits.
pub open spec fn layout_frame(pair: (Section, Field)) -> Seq<u8> {
    let head = seq![ACK_MARK, pair.0.0] + pair.1.spec_bits();
    Seq::new(64, |i: int| if i < head.len() { head[i] } else { 0u8 })
}

pub fn error_response(e: DispatchError) -> (r: [u8; 64])
    ensures
        r@ == error_frame(e),
{
    let mut r = [0u8; 64];
    r[0] = ERROR_MARK;
    r[1] = match e {
        DispatchError::UnknownCommand => 1,
        DispatchError::UnknownEntryType => 2,
        DispatchError::UnknownIndex => 3,
        DispatchError::PayloadTooLong => 4,
        DispatchError::Handler(_) => 5,
    };
    r[2] = match e {
        DispatchError::Handler(c) => c.code,
        _ => 0,
    };
    assert(r@ =~= error_frame(e));
    r
}

pub fn ack_response() -> (r: [u8; 64])
    ensures
        r@ == ack_frame(),
{
    let mut r = [0u8; 64];
    r[0] = ACK_MARK;
    assert(r@ =~= ack_frame());
    r
}

pub fn layout_response(pair: (Section, Field)) -> (r: [u8; 64])
    ensures
        r@ == layout_frame(pair),
{
    let mut r = [0u8; 64];
    let bits = pair.1.bits();
    r[0] = ACK_MARK;
    r[1] = (pair.0).0;
    r[2] = bits[0];
    r[3] = bits[1];
    assert(r@ =~= layout_frame(pair));
    r
}

/// The response to a read: the value's message form, or the handler's error.
pub fn read_response(result: Result<FieldValue, CommandError>) -> (r: [u8; 64])
    ensures
        match result {
            Ok(v) => r@ == message_bytes(v.desc, v.data@),
            Err(e) => r@ == error_frame(DispatchError::Handler(e)),
        },
{
    match result {
        Ok(v) => v.into_message_bytes(),
        Err(e) => error_response(DispatchError::Handler(e)),
    }
}

/// The response to a write or an action: an ack, or the handler's error.
pub fn done_response(result: Result<(), CommandError>) -> (r: [u8; 64])
    ensures
        match result {
            Ok(_) => r@ == ack_frame(),
            Err(e) => r@ == error_frame(DispatchError::Handler(e)),
        },
{
    match result {
        Ok(_) => ack_response(),
        Err(e) => error_response(DispatchError::Handler(e)),
    }
}

/// What a device does for each command. The dispatcher checks every index
/// against the schema before it calls a method.
pub trait CommandHandler {
    fn noop(&mut self);

    fn read_config<'p>(&mut self, proto: &'p Proto, field: ConfigField) -> (r: Result<
        FieldValue<'p>,
        CommandError,
    >)
        requires
            (field.0 as nat) < proto.config_fields@.len(),
    ;

    fn write_config(&mut self, field: ConfigField, value: FieldValue) -> (r: Result<(), CommandError>);

    fn read_info<'p>(&mut self, proto: &'p Proto, field: InfoField) -> (r: Result<
        FieldValue<'p>,
        CommandError,
    >)
        requires
            (field.0 as nat) < proto.info_fields@.len(),
    ;

    fn write_info(&mut self, field: InfoField, value: FieldValue) -> (r: Result<(), CommandError>);

    fn do_action(&mut self, action: Action) -> (r: Result<(), CommandError>);
}

/// The payload of a write: `len` bytes from offset 4 of the frame.
fn payload_of(frame: &[u8; 64], len: u8) -> (r: Vec<u8>)
    requires
        len <= MAX_PAYLOAD,
    ensures
        r@ == frame@.subrange(PAYLOAD_OFFSET as int, PAYLOAD_OFFSET + len),
{
    let mut r: Vec<u8> = Vec::new();
    let mut i: usize = 0;
    while i < len as usize
        invariant
            i <= len,
            len <= MAX_PAYLOAD,
            r@ == frame@.subrange(PAYLOAD_OFFSET as int, PAYLOAD_OFFSET + i),
        decreases len - i,
    {
        r.push(frame[PAYLOAD_OFFSET + i]);
        i = i + 1;
        assert(r@ =~= frame@.subrange(PAYLOAD_OFFSET as int, PAYLOAD_OFFSET + i));
    }
    r
}

/// The response frame to a request frame. A request that does not decode is
/// answered with its error and never reaches the handler; descriptor and layout
/// requests are answered from the schema alone.
pub fn dispatch<H: CommandHandler>(handler: &mut H, proto: &Proto, frame: &[u8; 64]) -> (r: [u8; 64])
    requires
        proto.wf(),
    ensures
        decoded_request(proto, frame@) matches Err(e) ==> r@ == error_frame(e) && *final(handler)
            == *old(handler),
        decoded_request(proto, frame@) matches Ok(Request::Describe(t, i)) ==> r@ == proto.category(
            t,
        )[i as int].spec_frame() && *final(handler) == *old(handler),
        decoded_request(proto, frame@) matches Ok(Request::Layout(i)) ==> r@ == layout_frame(
            proto.layout@[i as int],
        ) && *final(handler) == *old(handler),
        decoded_request(proto, frame@) == Ok::<Request, DispatchError>(Request::Noop) ==> r@
            == ack_frame(),
        decoded_request(proto, frame@) matches Ok(q) ==> handled_frame(q, r@),
{
    match decode_request(proto, frame) {
        Err(e) => error_response(e),
        Ok(Request::Noop) => {
            handler.noop();
            ack_response()
        },
        Ok(Request::ReadConfig(f)) => read_response(handler.read_config(proto, f)),
        Ok(Request::ReadInfo(f)) => read_response(handler.read_info(proto, f)),
        Ok(Request::WriteConfig(f, n)) => {
            let payload = payload_of(frame, n);
            let value = FieldValue::from_message(proto.config_field(f), payload.as_slice());
            done_response(handler.write_config(f, value))
        },
        Ok(Request::WriteInfo(f, n)) => {
            let payload = payload_of(frame, n);
            let value = FieldValue::from_message(proto.info_field(f), payload.as_slice());
            done_response(handler.write_info(f, value))
        },
        Ok(Request::DoAction(a)) => done_response(handler.do_action(a)),
        Ok(Request::Describe(t, i)) => {
            let desc: &EntryDesc = match t {
                EntryType::Section => proto.section(Section(i)),
                EntryType::Config => proto.config_field(ConfigField(i)),
                EntryType::Info => proto.info_field(InfoField(i)),
                EntryType::Action => proto.action(Action(i)),
            };
            desc.to_frame()
        },
        Ok(Request::Layout(i)) => layout_response(proto.layout[i as usize]),
    }
}

/// A field or action index byte at or past its category's declared count is
/// refused as an unknown index, so such a request never reaches the handler.
pub proof fn lemma_index_out_of_range_rejected(p: &Proto, f: Seq<u8>)
    requires
        f.len() == 64,
        f[0] == OP_READ || f[0] == OP_WRITE || f[0] == OP_ACTION,
        f[0] == OP_ACTION || f[1] == ENTRY_CONFIG || f[1] == ENTRY_INFO,
        f[0] == OP_ACTION ==> (f[2] as nat) >= p.actions@.len(),
        f[0] != OP_ACTION && f[1] == ENTRY_CONFIG ==> (f[2] as nat) >= p.config_fields@.len(),
        f[0] != OP_ACTION && f[1] == ENTRY_INFO ==> (f[2] as nat) >= p.info_fields@.len(),
    ensures
        decoded_request(p, f) == Err::<Request, DispatchError>(DispatchError::UnknownIndex),
{
}

} // verus!