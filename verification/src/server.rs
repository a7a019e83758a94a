//! The attribute server's dispatch step: one Read or Write event arriving
//! from a connected central is resolved against the attribute table to the
//! outcome the serving loop reports. Events on the application handle take
//! the application path; every other handle takes the generic path; a
//! failed lookup is reported, never fatal, on both paths.

use vstd::prelude::*;

use crate::table::is_char_handle;
use crate::table::value_at;
use crate::table::AttrModel;
use crate::table::AttributeTable;

verus! {

/// One GATT event on a characteristic handle, as handed up by the host.
#[derive(Clone, Copy, Debug, PartialEq, Eq, Structural)]
pub enum GattEvent {
    /// A central read the value at `handle`.
    Read { handle: u16 },
    /// A central wrote the value at `handle` (write without response; the
    /// host stores the value before reporting the event).
    Write { handle: u16 },
}

/// What one dispatched event amounts to. Each variant names one log path
/// of the serving loop; the application variants carry the current value.
#[derive(Debug, PartialEq, Eq)]
pub enum DispatchOutcome {
    /// A write on the application characteristic, with the value now there.
    AppWrite { value: Vec<u8> },
    /// A write on any other characteristic.
    GenericWrite { handle: u16 },
    /// A read of the application characteristic, with the value read.
    AppRead { value: Vec<u8> },
    /// A read of any other handle.
    GenericRead { handle: u16 },
    /// The handle had no value to look up; reported and serving goes on.
    LookupFailed { handle: u16 },
}

/// The mathematical model of a dispatch outcome.
#[verifier::ext_equal]
pub ghost enum OutcomeModel {
    AppWrite { value: Seq<u8> },
    GenericWrite { handle: u16 },
    AppRead { value: Seq<u8> },
    GenericRead { handle: u16 },
    LookupFailed { handle: u16 },
}

impl View for DispatchOutcome {
    type V = OutcomeModel;

    open spec fn view(&self) -> OutcomeModel {
        match self {
            DispatchOutcome::AppWrite { value } => OutcomeModel::AppWrite { value: value@ },
            DispatchOutcome::GenericWrite { handle } => OutcomeModel::GenericWrite {
                handle: *handle,
            },
            DispatchOutcome::AppRead { value } => OutcomeModel::AppRead { value: value@ },
            DispatchOutcome::GenericRead { handle } => OutcomeModel::GenericRead {
                handle: *handle,
            },
            DispatchOutcome::LookupFailed { handle } => OutcomeModel::LookupFailed {
                handle: *handle,
            },
        }
    }
}

/// The outcome one event must produce against table model `t` when the
/// application characteristic sits at `app_handle`. A write is looked up
/// first and falls to the generic path on any other handle; a read on
/// another handle takes the generic path without a lookup.
pub open spec fn dispatch_spec(t: Seq<AttrModel>, app_handle: u16, ev: GattEvent) -> OutcomeModel {
    match ev {
        GattEvent::Write { handle } => if is_char_handle(t, handle) {
            if handle == app_handle {
                OutcomeModel::AppWrite { value: value_at(t, handle) }
            } else {
                OutcomeModel::GenericWrite { handle }
            }
        } else {
            OutcomeModel::LookupFailed { handle }
        },
        GattEvent::Read { handle } => if handle == app_handle {
            if is_char_handle(t, handle) {
                OutcomeModel::AppRead { value: value_at(t, handle) }
            } else {
                OutcomeModel::LookupFailed { handle }
            }
        } else {
            OutcomeModel::GenericRead { handle }
        },
    }
}

/// Dispatch one event against the table: exactly `dispatch_spec` on the
/// table's model.
pub fn dispatch(table: &AttributeTable, app_handle: u16, event: GattEvent) -> (r: DispatchOutcome)
    ensures
        r@ == dispatch_spec(table@, app_handle, event),
{
    match event {
        GattEvent::Write { handle } => match table.read_value(handle) {
            Ok(value) => {
                if handle == app_handle {
                    DispatchOutcome::AppWrite { value }
                } else {
                    DispatchOutcome::GenericWrite { handle }
                }
            },
            Err(_) => DispatchOutcome::LookupFailed { handle },
        },
        GattEvent::Read { handle } => {
            if handle == app_handle {
                match table.read_value(handle) {
                    Ok(value) => DispatchOutcome::AppRead { value },
                    Err(_) => DispatchOutcome::LookupFailed { handle },
                }
            } else {
                DispatchOutcome::GenericRead { handle }
            }
        },
    }
}

/// An event on any handle other than the application handle never takes an
/// application path, whatever the table holds.
pub proof fn lemma_non_app_handle_is_generic(t: Seq<AttrModel>, app_handle: u16, ev: GattEvent)
    requires
        ev matches GattEvent::Write { handle } ==> handle != app_handle,
        ev matches GattEvent::Read { handle } ==> handle != app_handle,
    ensures
        !(dispatch_spec(t, app_handle, ev) is AppWrite),
        !(dispatch_spec(t, app_handle, ev) is AppRead),
{
}

/// A write on the application handle always takes the application write
/// path and reports the value now stored there, whatever that byte is.
pub proof fn lemma_app_write_takes_app_path(t: Seq<AttrModel>, app_handle: u16)
    requires
        is_char_handle(t, app_handle),
    ensures
        dispatch_spec(t, app_handle, GattEvent::Write { handle: app_handle })
            == (OutcomeModel::AppWrite { value: value_at(t, app_handle) }),
{
}

/// Reads do not change the table, so two reads of the application handle
/// with no write between them report the same value.
pub proof fn lemma_repeated_read_same_value(t: Seq<AttrModel>, app_handle: u16)
    requires
        is_char_handle(t, app_handle),
    ensures
        dispatch_spec(t, app_handle, GattEvent::Read { handle: app_handle })
            == (OutcomeModel::AppRead { value: value_at(t, app_handle) }),
{
}

} // verus!
