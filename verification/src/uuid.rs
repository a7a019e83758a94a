//! UUIDs identifying GATT services and characteristics: either a 16-bit
//! assigned number or a full 128-bit value, both kept as little-endian bytes.

use vstd::prelude::*;

verus! {

/// A service or characteristic identifier, as its little-endian wire bytes.
#[derive(Clone, Copy, Debug)]
pub enum Uuid {
    /// A 16-bit assigned UUID, two bytes little-endian.
    Uuid16([u8; 2]),
    /// A full 128-bit UUID, sixteen bytes little-endian.
    Uuid128([u8; 16]),
}

impl Uuid {
    /// The wire bytes of this identifier: two for a 16-bit UUID, sixteen
    /// for a 128-bit one.
    pub open spec fn bytes(self) -> Seq<u8> {
        match self {
            Uuid::Uuid16(b) => b@,
            Uuid::Uuid128(b) => b@,
        }
    }
}

} // verus!
