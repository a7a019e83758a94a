//! The GATT attribute table: an ordered sequence of service declarations and
//! characteristic value slots, built once at startup. Its shape is fixed
//! after construction; only characteristic values change. A handle is the
//! index of an attribute in this sequence.

use vstd::prelude::*;

use crate::uuid::Uuid;
use crate::MAX_ATTRIBUTES;
use crate::MAX_VALUE_LEN;

verus! {

/// One entry of the attribute table: a service declaration, or a
/// characteristic with its current value and access permissions.
#[derive(Debug)]
pub enum Attribute {
    /// Declares a service; the characteristics that follow it belong to it.
    Service { uuid: Uuid },
    /// A characteristic value slot with its access permissions.
    Characteristic {
        uuid: Uuid,
        value: Vec<u8>,
        readable: bool,
        writable: bool,
        notifiable: bool,
    },
}

/// The mathematical model of one attribute.
#[verifier::ext_equal]
pub ghost struct AttrModel {
    pub is_service: bool,
    pub uuid: Seq<u8>,
    pub value: Seq<u8>,
    pub readable: bool,
    pub writable: bool,
    pub notifiable: bool,
}

/// The model of a service declaration for `uuid`.
pub open spec fn service_model(uuid: Uuid) -> AttrModel {
    AttrModel {
        is_service: true,
        uuid: uuid.bytes(),
        value: Seq::empty(),
        readable: false,
        writable: false,
        notifiable: false,
    }
}

/// The model of a characteristic with the given value and permissions.
pub open spec fn char_model(
    uuid: Uuid,
    value: Seq<u8>,
    readable: bool,
    writable: bool,
    notifiable: bool,
) -> AttrModel {
    AttrModel { is_service: false, uuid: uuid.bytes(), value, readable, writable, notifiable }
}

/// The model of an attribute table entry.
pub open spec fn attr_model(a: Attribute) -> AttrModel {
    match a {
        Attribute::Service { uuid } => service_model(uuid),
        Attribute::Characteristic { uuid, value, readable, writable, notifiable } => char_model(
            uuid,
            value@,
            readable,
            writable,
            notifiable,
        ),
    }
}

/// Some attribute of `t` is a service declaration.
pub open spec fn has_service(t: Seq<AttrModel>) -> bool {
    exists|j: int| 0 <= j < t.len() && t[j].is_service
}

/// `h` is a valid handle of `t` and names a characteristic, not a service
/// declaration. Only such handles have a value to read or write.
pub open spec fn is_char_handle(t: Seq<AttrModel>, h: u16) -> bool {
    h < t.len() && !t[h as int].is_service
}

/// The current value stored at handle `h` of `t`.
pub open spec fn value_at(t: Seq<AttrModel>, h: u16) -> Seq<u8> {
    t[h as int].value
}

/// The table invariant over its model: it fits the fixed capacity, every
/// characteristic value fits its slot, and every characteristic is preceded
/// by the service declaration it belongs to.
pub open spec fn wf_table(t: Seq<AttrModel>) -> bool {
    &&& t.len() <= MAX_ATTRIBUTES
    &&& forall|i: int| 0 <= i < t.len() && !t[i].is_service ==> t[i].value.len() <= MAX_VALUE_LEN
    &&& forall|i: int|
        0 <= i < t.len() && !t[i].is_service ==> exists|j: int| 0 <= j < i && t[j].is_service
}

/// Appending a service declaration, or a characteristic whose value fits
/// after some service stands, keeps the table invariant.
pub proof fn lemma_wf_push(t: Seq<AttrModel>, m: AttrModel)
    requires
        wf_table(t),
        t.len() < MAX_ATTRIBUTES,
        !m.is_service ==> m.value.len() <= MAX_VALUE_LEN && has_service(t),
    ensures
        wf_table(t.push(m)),
{
    let u = t.push(m);
    assert forall|i: int| 0 <= i < u.len() && !u[i].is_service implies u[i].value.len()
        <= MAX_VALUE_LEN by {
        if i < t.len() {
            assert(u[i] == t[i]);
        }
    }
    assert forall|i: int| 0 <= i < u.len() && !u[i].is_service implies exists|j: int|
        0 <= j < i && u[j].is_service by {
        if i < t.len() {
            let j0 = choose|j: int| 0 <= j < i && t[j].is_service;
            assert(u[j0].is_service);
        } else {
            let j0 = choose|j: int| 0 <= j < t.len() && t[j].is_service;
            assert(u[j0].is_service);
        }
    }
}

/// Replacing the value at a characteristic handle with one that fits keeps
/// the table invariant.
pub proof fn lemma_wf_update_value(t: Seq<AttrModel>, h: u16, v: Seq<u8>)
    requires
        wf_table(t),
        is_char_handle(t, h),
        v.len() <= MAX_VALUE_LEN,
    ensures
        wf_table(t.update(h as int, AttrModel { value: v, ..t[h as int] })),
{
    let u = t.update(h as int, AttrModel { value: v, ..t[h as int] });
    assert forall|i: int| 0 <= i < u.len() && !u[i].is_service implies u[i].value.len()
        <= MAX_VALUE_LEN by {
        if i != h {
            assert(u[i] == t[i]);
        }
    }
    assert forall|i: int| 0 <= i < u.len() && !u[i].is_service implies exists|j: int|
        0 <= j < i && u[j].is_service by {
        assert(!t[i].is_service);
        let j0 = choose|j: int| 0 <= j < i && t[j].is_service;
        assert(u[j0].is_service);
    }
}

/// Errors of table construction and of value access by handle.
#[derive(Clone, Copy, Debug, PartialEq, Eq, Structural)]
pub enum TableError {
    /// Adding the attribute would exceed `MAX_ATTRIBUTES`; fatal at startup.
    CapacityExceeded,
    /// A characteristic was added before any service declaration.
    NoEnclosingService,
    /// The value is longer than `MAX_VALUE_LEN` bytes.
    ValueTooLong,
    /// The handle is out of range or names a service declaration.
    InvalidHandle,
}

/// The GATT attribute table. Built by `add_service` / `add_characteristic`,
/// then queried and updated by handle.
#[derive(Debug)]
pub struct AttributeTable {
    attrs: Vec<Attribute>,
}

impl View for AttributeTable {
    type V = Seq<AttrModel>;

    closed spec fn view(&self) -> Seq<AttrModel> {
        self.attrs@.map_values(|a: Attribute| attr_model(a))
    }
}

impl AttributeTable {
    /// The table's construction invariant; see `wf_table`.
    pub open spec fn wf(self) -> bool {
        wf_table(self@)
    }

    /// An empty table.
    pub fn new() -> (r: AttributeTable)
        ensures
            r.wf(),
            r@ == Seq::<AttrModel>::empty(),
    {
        let r = AttributeTable { attrs: Vec::new() };
        proof {
            assert(r@ =~= Seq::<AttrModel>::empty());
        }
        r
    }

    /// Append a service declaration. Returns its stable handle, or
    /// `CapacityExceeded` when the table is full, leaving it unchanged.
    pub fn add_service(&mut self, uuid: Uuid) -> (r: Result<u16, TableError>)
        requires
            old(self).wf(),
        ensures
            final(self).wf(),
            old(self)@.len() < MAX_ATTRIBUTES ==> {
                &&& r == Ok::<u16, TableError>(old(self)@.len() as u16)
                &&& final(self)@ == old(self)@.push(service_model(uuid))
            },
            old(self)@.len() >= MAX_ATTRIBUTES ==> {
                &&& r == Err::<u16, TableError>(TableError::CapacityExceeded)
                &&& final(self)@ == old(self)@
            },
    {
        if self.attrs.len() >= MAX_ATTRIBUTES {
            return Err(TableError::CapacityExceeded);
        }
        let handle = self.attrs.len() as u16;
        self.attrs.push(Attribute::Service { uuid });
        proof {
            assert(self@ =~= old(self)@.push(service_model(uuid)));
            lemma_wf_push(old(self)@, service_model(uuid));
        }
        Ok(handle)
    }

    /// Append a characteristic with an initial value and its permissions.
    /// Returns its stable handle; fails, leaving the table unchanged, when
    /// the value is too long, no service has been declared yet, or the
    /// table is full — in that order of checks.
    pub fn add_characteristic(
        &mut self,
        uuid: Uuid,
        value: Vec<u8>,
        readable: bool,
        writable: bool,
        notifiable: bool,
    ) -> (r: Result<u16, TableError>)
        requires
            old(self).wf(),
        ensures
            final(self).wf(),
            value@.len() > MAX_VALUE_LEN ==> {
                &&& r == Err::<u16, TableError>(TableError::ValueTooLong)
                &&& final(self)@ == old(self)@
            },
            value@.len() <= MAX_VALUE_LEN && !has_service(old(self)@) ==> {
                &&& r == Err::<u16, TableError>(TableError::NoEnclosingService)
                &&& final(self)@ == old(self)@
            },
            value@.len() <= MAX_VALUE_LEN && has_service(old(self)@) && old(self)@.len()
                >= MAX_ATTRIBUTES ==> {
                &&& r == Err::<u16, TableError>(TableError::CapacityExceeded)
                &&& final(self)@ == old(self)@
            },
            value@.len() <= MAX_VALUE_LEN && has_service(old(self)@) && old(self)@.len()
                < MAX_ATTRIBUTES ==> {
                &&& r == Ok::<u16, TableError>(old(self)@.len() as u16)
                &&& final(self)@ == old(self)@.push(
                    char_model(uuid, value@, readable, writable, notifiable),
                )
            },
    {
        if value.len() > MAX_VALUE_LEN {
            return Err(TableError::ValueTooLong);
        }
        if !self.contains_service() {
            return Err(TableError::NoEnclosingService);
        }
        if self.attrs.len() >= MAX_ATTRIBUTES {
            return Err(TableError::CapacityExceeded);
        }
        let handle = self.attrs.len() as u16;
        self.attrs.push(
            Attribute::Characteristic { uuid, value, readable, writable, notifiable },
        );
        proof {
            assert(self@ =~= old(self)@.push(
                char_model(uuid, value@, readable, writable, notifiable),
            ));
            lemma_wf_push(old(self)@, char_model(uuid, value@, readable, writable, notifiable));
        }
        Ok(handle)
    }

    /// Whether some service declaration stands in the table.
    fn contains_service(&self) -> (r: bool)
        ensures
            r == has_service(self@),
    {
        let mut j: usize = 0;
        while j < self.attrs.len()
            invariant
                j <= self.attrs.len(),
                self@.len() == self.attrs@.len(),
                forall|k: int| 0 <= k < j ==> !self@[k].is_service,
            decreases self.attrs.len() - j,
        {
            let is_service = match &self.attrs[j] {
                Attribute::Service { .. } => true,
                Attribute::Characteristic { .. } => false,
            };
            if is_service {
                assert(self@[j as int].is_service);
                return true;
            }
            assert(!self@[j as int].is_service);
            j = j + 1;
        }
        false
    }

    /// Read a copy of the value at `handle`. Fails with `InvalidHandle`
    /// exactly when the handle is out of range or names a service.
    pub fn read_value(&self, handle: u16) -> (r: Result<Vec<u8>, TableError>)
        ensures
            is_char_handle(self@, handle) ==> (r matches Ok(v) && v@ == value_at(self@, handle)),
            !is_char_handle(self@, handle) ==> r == Err::<Vec<u8>, TableError>(
                TableError::InvalidHandle,
            ),
    {
        if (handle as usize) < self.attrs.len() {
            match &self.attrs[handle as usize] {
                Attribute::Characteristic { value, .. } => {
                    let copy = value.clone();
                    proof {
                        assert(copy@ =~= value@);
                    }
                    Ok(copy)
                },
                Attribute::Service { .. } => Err(TableError::InvalidHandle),
            }
        } else {
            Err(TableError::InvalidHandle)
        }
    }

    /// Replace the value at `handle`. Fails with `InvalidHandle` exactly
    /// when the handle is out of range or names a service, and with
    /// `ValueTooLong` when the new value does not fit its slot; on success
    /// only the value at `handle` changes.
    pub fn write_value(&mut self, handle: u16, value: Vec<u8>) -> (r: Result<(), TableError>)
        requires
            old(self).wf(),
        ensures
            final(self).wf(),
            !is_char_handle(old(self)@, handle) ==> {
                &&& r == Err::<(), TableError>(TableError::InvalidHandle)
                &&& final(self)@ == old(self)@
            },
            is_char_handle(old(self)@, handle) && value@.len() > MAX_VALUE_LEN ==> {
                &&& r == Err::<(), TableError>(TableError::ValueTooLong)
                &&& final(self)@ == old(self)@
            },
            is_char_handle(old(self)@, handle) && value@.len() <= MAX_VALUE_LEN ==> {
                &&& r == Ok::<(), TableError>(())
                &&& final(self)@ == old(self)@.update(
                    handle as int,
                    AttrModel { value: value@, ..old(self)@[handle as int] },
                )
            },
    {
        if (handle as usize) >= self.attrs.len() {
            return Err(TableError::InvalidHandle);
        }
        let (uuid, readable, writable, notifiable) = match &self.attrs[handle as usize] {
            Attribute::Characteristic { uuid, readable, writable, notifiable, .. } => (
                *uuid,
                *readable,
                *writable,
                *notifiable,
            ),
            Attribute::Service { .. } => {
                return Err(TableError::InvalidHandle);
            },
        };
        if value.len() > MAX_VALUE_LEN {
            return Err(TableError::ValueTooLong);
        }
        self.attrs[handle as usize] = Attribute::Characteristic {
            uuid,
            value,
            readable,
            writable,
            notifiable,
        };
        proof {
            assert(self@ =~= old(self)@.update(
                handle as int,
                AttrModel { value: value@, ..old(self)@[handle as int] },
            ));
            lemma_wf_update_value(old(self)@, handle, value@);
        }
        Ok(())
    }
}

} // verus!
