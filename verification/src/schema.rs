//! The fixed GATT schema of the peripheral: Generic Access, Generic
//! Attribute, Battery, and the application service, assembled in that order
//! before any networking starts. The builder returns the attribute table
//! together with the handles that the dispatcher and the notifier use.

use vstd::prelude::*;

use crate::table::char_model;
use crate::table::has_service;
use crate::table::is_char_handle;
use crate::table::service_model;
use crate::table::value_at;
use crate::table::AttrModel;
use crate::table::AttributeTable;
use crate::uuid::Uuid;
use crate::MAX_ATTRIBUTES;
use crate::MAX_VALUE_LEN;

verus! {

/// The stable handles that the rest of the system keeps after construction.
#[derive(Clone, Copy, Debug, PartialEq, Eq, Structural)]
pub struct ServerHandles {
    /// Device-name characteristic of the Generic Access service.
    pub device_name: u16,
    /// Appearance characteristic of the Generic Access service.
    pub appearance: u16,
    /// Battery Level characteristic; notifications go out on this handle.
    pub battery_level: u16,
    /// The application's read/write byte characteristic.
    pub app_byte: u16,
}

/// The ASCII bytes of the device name, "Pico W Bluetooth".
pub open spec fn device_name_bytes() -> Seq<u8> {
    seq![
        0x50u8, 0x69, 0x63, 0x6f, 0x20, 0x57, 0x20, 0x42, 0x6c, 0x75, 0x65, 0x74, 0x6f, 0x6f,
        0x74, 0x68,
    ]
}

/// The full attribute table the builder produces, in order: the Generic
/// Access service (name and appearance, read-only), the empty Generic
/// Attribute service, the Battery service (level, read + notify), and the
/// application service (one byte, read + write-without-response).
pub open spec fn fixed_schema() -> Seq<AttrModel> {
    seq![
        service_model(Uuid::Uuid16([0x00, 0x18])),
        char_model(Uuid::Uuid16([0x00, 0x2a]), device_name_bytes(), true, false, false),
        char_model(Uuid::Uuid16([0x01, 0x2a]), seq![0x80u8, 0x07u8], true, false, false),
        service_model(Uuid::Uuid16([0x01, 0x18])),
        service_model(Uuid::Uuid16([0x0f, 0x18])),
        char_model(Uuid::Uuid16([0x19, 0x2a]), seq![0x00u8], true, false, true),
        service_model(Uuid::Uuid128(app_service_uuid())),
        char_model(Uuid::Uuid128(app_service_uuid()), seq![0x00u8], true, true, false),
    ]
}

/// The 128-bit UUID of the application service and its characteristic: the
/// ASCII bytes of "michaels mansion".
pub open spec fn app_service_uuid() -> [u8; 16] {
    [0x6d, 0x69, 0x63, 0x68, 0x61, 0x65, 0x6c, 0x73, 0x20, 0x6d, 0x61, 0x6e, 0x73, 0x69, 0x6f,
        0x6e]
}

/// Append a service declaration to a table known to have room.
fn push_service(t: &mut AttributeTable, uuid: Uuid) -> (h: u16)
    requires
        old(t).wf(),
        old(t)@.len() < MAX_ATTRIBUTES,
    ensures
        final(t).wf(),
        final(t)@ == old(t)@.push(service_model(uuid)),
        h == old(t)@.len(),
{
    match t.add_service(uuid) {
        Ok(h) => h,
        Err(_) => {
            proof {
                assert(false);
            }
            0
        },
    }
}

/// Append a characteristic to a table known to have room and a service.
fn push_characteristic(
    t: &mut AttributeTable,
    uuid: Uuid,
    value: Vec<u8>,
    readable: bool,
    writable: bool,
    notifiable: bool,
) -> (h: u16)
    requires
        old(t).wf(),
        old(t)@.len() < MAX_ATTRIBUTES,
        has_service(old(t)@),
        value@.len() <= MAX_VALUE_LEN,
    ensures
        final(t).wf(),
        final(t)@ == old(t)@.push(char_model(uuid, value@, readable, writable, notifiable)),
        h == old(t)@.len(),
{
    match t.add_characteristic(uuid, value, readable, writable, notifiable) {
        Ok(h) => h,
        Err(_) => {
            proof {
                assert(false);
            }
            0
        },
    }
}

/// Build the fixed schema. The result is exactly `fixed_schema()`; in
/// particular construction cannot overflow the table's capacity. The
/// returned handles name the four characteristics, with the battery-level
/// and application slots holding one zero byte each.
pub fn build() -> (r: (AttributeTable, ServerHandles))
    ensures
        r.0.wf(),
        r.0@ == fixed_schema(),
        r.1 == (ServerHandles { device_name: 1, appearance: 2, battery_level: 5, app_byte: 7 }),
        is_char_handle(r.0@, r.1.device_name),
        is_char_handle(r.0@, r.1.appearance),
        is_char_handle(r.0@, r.1.battery_level),
        is_char_handle(r.0@, r.1.app_byte),
        value_at(r.0@, r.1.battery_level) == seq![0x00u8],
        value_at(r.0@, r.1.app_byte) == seq![0x00u8],
{
    let mut t = AttributeTable::new();

    // Generic Access service (mandatory): device name and appearance.
    let _ga = push_service(&mut t, Uuid::Uuid16([0x00, 0x18]));
    proof {
        assert(has_service(t@)) by {
            assert(t@[0].is_service);
        }
    }
    let device_name = push_characteristic(
        &mut t,
        Uuid::Uuid16([0x00, 0x2a]),
        device_name_vec(),
        true,
        false,
        false,
    );
    proof {
        assert(has_service(t@)) by {
            assert(t@[0].is_service);
        }
    }
    let appearance = push_characteristic(
        &mut t,
        Uuid::Uuid16([0x01, 0x2a]),
        appearance_vec(),
        true,
        false,
        false,
    );

    // Generic Attribute service (mandatory, declaration only).
    let _gatt = push_service(&mut t, Uuid::Uuid16([0x01, 0x18]));

    // Battery service: one read + notify level byte.
    let _batt = push_service(&mut t, Uuid::Uuid16([0x0f, 0x18]));
    proof {
        assert(has_service(t@)) by {
            assert(t@[0].is_service);
        }
    }
    let battery_level = push_characteristic(
        &mut t,
        Uuid::Uuid16([0x19, 0x2a]),
        zero_byte_vec(),
        true,
        false,
        true,
    );

    // Application service: one read + write-without-response byte.
    let _app = push_service(&mut t, Uuid::Uuid128(app_uuid_bytes()));
    proof {
        assert(has_service(t@)) by {
            assert(t@[0].is_service);
        }
    }
    let app_byte = push_characteristic(
        &mut t,
        Uuid::Uuid128(app_uuid_bytes()),
        zero_byte_vec(),
        true,
        true,
        false,
    );

    proof {
        assert(t@ =~= fixed_schema());
    }
    let handles = ServerHandles { device_name, appearance, battery_level, app_byte };
    (t, handles)
}

/// The device name as a fresh byte vector.
fn device_name_vec() -> (r: Vec<u8>)
    ensures
        r@ == device_name_bytes(),
{
    let r: Vec<u8> = vec![
        0x50, 0x69, 0x63, 0x6f, 0x20, 0x57, 0x20, 0x42, 0x6c, 0x75, 0x65, 0x74, 0x6f, 0x6f,
        0x74, 0x68,
    ];
    proof {
        assert(r@ =~= device_name_bytes());
    }
    r
}

/// The appearance value, a generic display, as its two little-endian bytes.
fn appearance_vec() -> (r: Vec<u8>)
    ensures
        r@ == seq![0x80u8, 0x07u8],
{
    let r: Vec<u8> = vec![0x80, 0x07];
    proof {
        assert(r@ =~= seq![0x80u8, 0x07u8]);
    }
    r
}

/// A single zero byte, the initial value of the mutable characteristics.
fn zero_byte_vec() -> (r: Vec<u8>)
    ensures
        r@ == seq![0x00u8],
{
    let r: Vec<u8> = vec![0x00];
    proof {
        assert(r@ =~= seq![0x00u8]);
    }
    r
}

/// The application UUID bytes as an array value.
fn app_uuid_bytes() -> (r: [u8; 16])
    ensures
        r == app_service_uuid(),
{
    [0x6d, 0x69, 0x63, 0x68, 0x61, 0x65, 0x6c, 0x73, 0x20, 0x6d, 0x61, 0x6e, 0x73, 0x69, 0x6f,
        0x6e]
}

} // verus!
