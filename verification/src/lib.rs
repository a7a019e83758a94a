//! A verified model of a minimal BLE peripheral core: the GATT attribute
//! table, the read/write event dispatcher, the advertising payload encoder,
//! and the advertising/connection lifecycle state machine.

pub mod adv;
pub mod link;
pub mod schema;
pub mod server;
pub mod table;
pub mod uuid;

use vstd::prelude::*;

verus! {

/// Greatest number of attributes the table may hold.
pub const MAX_ATTRIBUTES: usize = 32;

/// Greatest length in bytes of one characteristic value.
pub const MAX_VALUE_LEN: usize = 32;

} // verus!
