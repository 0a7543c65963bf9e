use vstd::prelude::*;

pub mod codec;
pub mod device;
pub mod command;
pub mod entry;
pub mod field;
pub mod mock;
pub mod proto;
pub mod values;

verus! {

/// Size in bytes of every frame exchanged with a device.
pub const MESSAGE_LENGTH: usize = 64;

} // verus!
