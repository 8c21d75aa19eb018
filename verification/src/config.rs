//! Addresses and communication parameters shared by host and nodes.

use vstd::prelude::*;

verus! {

/// Address that every node listens to.
pub const BROADCAST_ADDRESS: u16 = 0x0000;

/// Address of the host controller.
pub const ARM_DEVICE_ID: u16 = 0x0001;

/// First address handed to a joint.
pub const JOINT_ID_OFFSET: u16 = 0x0010;

/// Default time budget of one request, in milliseconds.
pub const REQUEST_TIMEOUT_MS: u64 = 100;

/// Number of attempts a caller may make before it gives up.
pub const MAX_RETRIES: u32 = 3;

/// Entity type of a CLN17 joint.
pub const ENTITY_TYPE_JOINT_CLN17: u16 = 0x1001;

} // verus!
