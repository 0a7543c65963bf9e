use vstd::prelude::*;

use crate::command::{CommandError, CommandHandler};
use crate::field::FieldValue;
use crate::proto::{Action, ConfigField, InfoField, Proto};

verus! {

/// A device that holds nothing: every read gives zero bytes, every write and
/// action succeeds.
#[derive(Copy, Clone, Debug, PartialEq, Eq, Structural)]
pub struct MockHandler {}

impl MockHandler {
    pub fn new() -> (r: MockHandler)
        ensures
            r == (MockHandler {}),
    {
        MockHandler {}
    }
}

impl CommandHandler for MockHandler {
    fn noop(&mut self) {
    }

    fn read_config<'p>(&mut self, proto: &'p Proto, field: ConfigField) -> (r: Result<
        FieldValue<'p>,
        CommandError,
    >) {
        Ok(FieldValue::from_store(proto.config_field(field), [0u8; 64]))
    }

    fn write_config(&mut self, field: ConfigField, value: FieldValue) -> (r: Result<(), CommandError>) {
        Ok(())
    }

    fn read_info<'p>(&mut self, proto: &'p Proto, field: InfoField) -> (r: Result<
        FieldValue<'p>,
        CommandError,
    >) {
        Ok(FieldValue::from_store(proto.info_field(field), [0u8; 64]))
    }

    fn write_info(&mut self, field: InfoField, value: FieldValue) -> (r: Result<(), CommandError>) {
        Ok(())
    }

    fn do_action(&mut self, action: Action) -> (r: Result<(), CommandError>) {
        Ok(())
    }
}

} // verus!
