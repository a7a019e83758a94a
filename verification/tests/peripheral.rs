use ble_peripheral::adv::{build_adv_data, encode_adv_data, AdStructure, EncodeError};
use ble_peripheral::link::{initial, step, LinkAction, LinkEvent, LinkState};
use ble_peripheral::schema;
use ble_peripheral::server::{dispatch, DispatchOutcome, GattEvent};
use ble_peripheral::table::{AttributeTable, TableError};
use ble_peripheral::uuid::Uuid;

#[test]
fn schema_build_returns_expected_handles() {
    let (table, handles) = schema::build();
    assert_eq!(handles.device_name, 1);
    assert_eq!(handles.appearance, 2);
    assert_eq!(handles.battery_level, 5);
    assert_eq!(handles.app_byte, 7);
    assert_eq!(table.read_value(handles.device_name).unwrap(), b"Pico W Bluetooth".to_vec());
    assert_eq!(table.read_value(handles.appearance).unwrap(), vec![0x80, 0x07]);
    assert_eq!(table.read_value(handles.battery_level).unwrap(), vec![0x00]);
    assert_eq!(table.read_value(handles.app_byte).unwrap(), vec![0x00]);
}

#[test]
fn schema_service_handles_have_no_value() {
    let (table, _) = schema::build();
    for service_handle in [0u16, 3, 4, 6] {
        assert_eq!(table.read_value(service_handle), Err(TableError::InvalidHandle));
    }
}

#[test]
fn table_capacity_is_enforced() {
    let mut table = AttributeTable::new();
    for i in 0..32u16 {
        let handle = table.add_service(Uuid::Uuid16([i as u8, 0x18])).unwrap();
        assert_eq!(handle, i);
    }
    assert_eq!(
        table.add_service(Uuid::Uuid16([0xff, 0x18])),
        Err(TableError::CapacityExceeded)
    );
    assert_eq!(
        table.add_characteristic(Uuid::Uuid16([0x00, 0x2a]), vec![0], true, false, false),
        Err(TableError::CapacityExceeded)
    );
}

#[test]
fn characteristic_needs_enclosing_service() {
    let mut table = AttributeTable::new();
    assert_eq!(
        table.add_characteristic(Uuid::Uuid16([0x00, 0x2a]), vec![0], true, false, false),
        Err(TableError::NoEnclosingService)
    );
}

#[test]
fn oversized_values_are_rejected() {
    let mut table = AttributeTable::new();
    table.add_service(Uuid::Uuid16([0x00, 0x18])).unwrap();
    assert_eq!(
        table.add_characteristic(Uuid::Uuid16([0x00, 0x2a]), vec![0u8; 33], true, false, false),
        Err(TableError::ValueTooLong)
    );
    let handle = table
        .add_characteristic(Uuid::Uuid16([0x00, 0x2a]), vec![0], true, true, false)
        .unwrap();
    assert_eq!(table.write_value(handle, vec![0u8; 33]), Err(TableError::ValueTooLong));
    assert_eq!(table.read_value(handle).unwrap(), vec![0]);
}

#[test]
fn write_then_read_roundtrip() {
    let (mut table, handles) = schema::build();
    table.write_value(handles.app_byte, vec![0x5a]).unwrap();
    assert_eq!(table.read_value(handles.app_byte).unwrap(), vec![0x5a]);
    assert_eq!(table.write_value(99, vec![0]), Err(TableError::InvalidHandle));
    assert_eq!(table.write_value(4, vec![0]), Err(TableError::InvalidHandle));
}

#[test]
fn non_app_handles_take_generic_paths() {
    let (table, handles) = schema::build();
    let write = dispatch(&table, handles.app_byte, GattEvent::Write { handle: handles.battery_level });
    assert_eq!(write, DispatchOutcome::GenericWrite { handle: handles.battery_level });
    let read = dispatch(&table, handles.app_byte, GattEvent::Read { handle: handles.battery_level });
    assert_eq!(read, DispatchOutcome::GenericRead { handle: handles.battery_level });
    let name_read = dispatch(&table, handles.app_byte, GattEvent::Read { handle: handles.device_name });
    assert_eq!(name_read, DispatchOutcome::GenericRead { handle: handles.device_name });
}

#[test]
fn app_writes_always_take_app_path() {
    let (mut table, handles) = schema::build();
    for byte in [0x00u8, 0xff] {
        table.write_value(handles.app_byte, vec![byte]).unwrap();
        let outcome = dispatch(&table, handles.app_byte, GattEvent::Write { handle: handles.app_byte });
        assert_eq!(outcome, DispatchOutcome::AppWrite { value: vec![byte] });
    }
}

#[test]
fn lookup_failures_are_reported_not_fatal() {
    let (table, handles) = schema::build();
    let unknown_write = dispatch(&table, handles.app_byte, GattEvent::Write { handle: 99 });
    assert_eq!(unknown_write, DispatchOutcome::LookupFailed { handle: 99 });
    let service_write = dispatch(&table, handles.app_byte, GattEvent::Write { handle: 4 });
    assert_eq!(service_write, DispatchOutcome::LookupFailed { handle: 4 });
    let bad_app_read = dispatch(&table, 4, GattEvent::Read { handle: 4 });
    assert_eq!(bad_app_read, DispatchOutcome::LookupFailed { handle: 4 });
}

#[test]
fn notify_counter_wraps_without_skipping() {
    let (state, action) = step(
        LinkState::Connected { tick: 255 },
        LinkEvent::Polled { connected: true },
    );
    assert_eq!(state, LinkState::Connected { tick: 0 });
    assert_eq!(action, LinkAction::WaitThenNotify { value: 0 });
    let (state, action) = step(state, LinkEvent::NotifySent { delivered: true });
    assert_eq!(state, LinkState::Connected { tick: 0 });
    assert_eq!(action, LinkAction::Poll);
    let (state, action) = step(state, LinkEvent::Polled { connected: true });
    assert_eq!(state, LinkState::Connected { tick: 1 });
    assert_eq!(action, LinkAction::WaitThenNotify { value: 1 });
}

#[test]
fn no_notify_while_disconnected() {
    let (state, action) = initial();
    assert_eq!(state, LinkState::Advertising);
    assert_eq!(action, LinkAction::StartAdvertising);
    let (state, action) = step(
        LinkState::Connected { tick: 9 },
        LinkEvent::Polled { connected: false },
    );
    assert_eq!(state, LinkState::Advertising);
    assert_eq!(action, LinkAction::StartAdvertising);
    let (_, action) = step(state, LinkEvent::NotifySent { delivered: true });
    assert_eq!(action, LinkAction::StartAdvertising);
}

#[test]
fn failed_notify_keeps_the_loop_alive() {
    let (state, action) = step(
        LinkState::Connected { tick: 3 },
        LinkEvent::NotifySent { delivered: false },
    );
    assert_eq!(state, LinkState::Connected { tick: 3 });
    assert_eq!(action, LinkAction::Poll);
    let (state, action) = step(state, LinkEvent::Polled { connected: true });
    assert_eq!(state, LinkState::Connected { tick: 4 });
    assert_eq!(action, LinkAction::WaitThenNotify { value: 4 });
}

#[test]
fn fixed_adv_payload_fits_budget() {
    let data = build_adv_data();
    assert_eq!(
        data,
        vec![
            0x02, 0x01, 0x06, // Flags: general discoverable, no BR/EDR
            0x03, 0x03, 0x0f, 0x18, // Complete 16-bit UUID list: 0x180f
            0x08, 0x09, b'T', b'r', b'o', b'u', b'b', b'l', b'e', // Name
        ]
    );
    assert!(data.len() <= 31);
}

#[test]
fn adv_encoding_fails_cleanly_over_budget() {
    let fits = vec![
        AdStructure::Flags(0x06),
        AdStructure::ServiceUuids16(vec![[0x0f, 0x18]]),
        AdStructure::CompleteLocalName(vec![b'x'; 22]),
    ];
    let encoded = encode_adv_data(&fits).unwrap();
    assert_eq!(encoded.len(), 31);

    let over = vec![
        AdStructure::Flags(0x06),
        AdStructure::ServiceUuids16(vec![[0x0f, 0x18]]),
        AdStructure::CompleteLocalName(vec![b'x'; 23]),
    ];
    assert_eq!(encode_adv_data(&over), Err(EncodeError::InsufficientSpace));
}

#[test]
fn empty_adv_payload_encodes_empty() {
    let encoded = encode_adv_data(&Vec::new()).unwrap();
    assert!(encoded.is_empty());
}

#[test]
fn connect_write_notify_disconnect_scenario() {
    // Startup: the schema is built and advertising begins.
    let (mut table, handles) = schema::build();
    let (state, action) = initial();
    assert_eq!(action, LinkAction::StartAdvertising);

    // A central completes the accept handshake.
    let (state, action) = step(state, LinkEvent::Accepted);
    assert_eq!(state, LinkState::Connected { tick: 0 });
    assert_eq!(action, LinkAction::Poll);

    // The central writes 0x2a to the application characteristic; the host
    // stores the value, then the server dispatches the event.
    table.write_value(handles.app_byte, vec![0x2a]).unwrap();
    let outcome = dispatch(&table, handles.app_byte, GattEvent::Write { handle: handles.app_byte });
    assert_eq!(outcome, DispatchOutcome::AppWrite { value: vec![0x2a] });

    // The first live poll requests one notification of counter value 1
    // after the two-second interval.
    let (state, action) = step(state, LinkEvent::Polled { connected: true });
    assert_eq!(action, LinkAction::WaitThenNotify { value: 1 });
    let (state, _) = step(state, LinkEvent::NotifySent { delivered: true });

    // The central disconnects; advertising resumes automatically.
    let (state, action) = step(state, LinkEvent::Polled { connected: false });
    assert_eq!(state, LinkState::Advertising);
    assert_eq!(action, LinkAction::StartAdvertising);
}

#[test]
fn consecutive_reads_return_last_written_value() {
    let (mut table, handles) = schema::build();
    table.write_value(handles.app_byte, vec![0x77]).unwrap();
    let first = dispatch(&table, handles.app_byte, GattEvent::Read { handle: handles.app_byte });
    let second = dispatch(&table, handles.app_byte, GattEvent::Read { handle: handles.app_byte });
    assert_eq!(first, DispatchOutcome::AppRead { value: vec![0x77] });
    assert_eq!(second, DispatchOutcome::AppRead { value: vec![0x77] });
}
