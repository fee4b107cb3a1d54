//! The built-in led device: identity, the discovered peripheral snapshot,
//! and the default communication characteristics.

use vstd::prelude::*;

use crate::device::{
    assigned_write_char, assigned_write_char_of_kind, canonical_uuid, device_resolves,
    device_resolves_kind, exact_matches, resolve_failure, resolved_uuid, uuid_from_u32, CharKind,
    Characteristic, Peripheral, UuidKind,
};
use crate::error::BluetoothError;

verus! {

/// A BLE led strip, lamp or light bulb.
#[derive(Debug)]
pub struct LedDevice {
    /// The local name the peripheral advertises.
    pub name: String,
    /// A user-settable alias.
    pub alias: String,
    /// What discovery learned about the peripheral, once connected.
    pub peripheral: Option<Peripheral>,
    /// The default characteristic commands are written to.
    pub write_char: Option<Characteristic>,
    /// The default characteristic replies are read from.
    pub read_char: Option<Characteristic>,
}

/// A copy of a characteristic list.
fn copy_characteristics(chars: &Vec<Characteristic>) -> (r: Vec<Characteristic>)
    ensures
        r@ == chars@,
{
    let mut out: Vec<Characteristic> = Vec::new();
    let mut i: usize = 0;
    while i < chars.len()
        invariant
            i <= chars@.len(),
            out@ == chars@.take(i as int),
        decreases chars@.len() - i,
    {
        out.push(chars[i]);
        proof {
            assert(out@ =~= chars@.take(i as int + 1));
        }
        i = i + 1;
    }
    proof {
        assert(chars@.take(chars@.len() as int) =~= chars@);
    }
    out
}

impl LedDevice {
    /// A fresh device with the given identity; the characteristics may be
    /// supplied now or assigned after service discovery.
    pub fn new(
        name: &str,
        alias: &str,
        peripheral: Option<Peripheral>,
        write_char: Option<Characteristic>,
        read_char: Option<Characteristic>,
    ) -> (d: LedDevice)
        ensures
            d.name@ == name@,
            d.alias@ == alias@,
            d.peripheral == peripheral,
            d.write_char == write_char,
            d.read_char == read_char,
    {
        LedDevice {
            name: name.to_owned(),
            alias: alias.to_owned(),
            peripheral,
            write_char,
            read_char,
        }
    }

    /// The user-settable device alias.
    pub fn alias(&self) -> (r: &str)
        ensures
            r@ == self.alias@,
    {
        self.alias.as_str()
    }

    /// The advertised local name.
    pub fn name(&self) -> (r: &str)
        ensures
            r@ == self.name@,
    {
        self.name.as_str()
    }

    /// The address of the underlying peripheral, if one is held.
    pub fn address(&self) -> (r: Option<String>)
        ensures
            self.peripheral matches Some(p) ==> (r matches Some(a) && a == p.address),
            self.peripheral is None ==> r is None,
    {
        match &self.peripheral {
            Some(p) => Some(p.address.clone()),
            None => None,
        }
    }

    /// The discovered peripheral snapshot, if one is held.
    pub fn peripheral(&self) -> (r: Option<&Peripheral>)
        ensures
            r is Some <==> self.peripheral is Some,
            r matches Some(p) ==> *p == self.peripheral->0,
    {
        self.peripheral.as_ref()
    }

    /// The default write characteristic, if assigned.
    pub fn write_char(&self) -> (r: Option<&Characteristic>)
        ensures
            r is Some <==> self.write_char is Some,
            r matches Some(c) ==> *c == self.write_char->0,
    {
        self.write_char.as_ref()
    }

    /// The default read characteristic, if assigned.
    pub fn read_char(&self) -> (r: Option<&Characteristic>)
        ensures
            r is Some <==> self.read_char is Some,
            r matches Some(c) ==> *c == self.read_char->0,
    {
        self.read_char.as_ref()
    }

    /// Sets the user alias.
    pub fn set_alias(&mut self, alias: &str)
        ensures
            final(self).alias@ == alias@,
            final(self).name == old(self).name,
            final(self).peripheral == old(self).peripheral,
            final(self).write_char == old(self).write_char,
            final(self).read_char == old(self).read_char,
    {
        self.alias = alias.to_owned();
    }

    /// Sets the device name.
    pub fn set_name(&mut self, name: &str)
        ensures
            final(self).name@ == name@,
            final(self).alias == old(self).alias,
            final(self).peripheral == old(self).peripheral,
            final(self).write_char == old(self).write_char,
            final(self).read_char == old(self).read_char,
    {
        self.name = name.to_owned();
    }

    /// Hands the device its discovered peripheral.
    pub fn set_peripheral(&mut self, peripheral: Peripheral)
        ensures
            final(self).peripheral == Some(peripheral),
            final(self).name == old(self).name,
            final(self).alias == old(self).alias,
            final(self).write_char == old(self).write_char,
            final(self).read_char == old(self).read_char,
    {
        self.peripheral = Some(peripheral);
    }

    /// Assigns the default write characteristic directly.
    pub fn set_write_char(&mut self, characteristic: &Characteristic)
        ensures
            final(self).write_char == Some(*characteristic),
            final(self).name == old(self).name,
            final(self).alias == old(self).alias,
            final(self).peripheral == old(self).peripheral,
            final(self).read_char == old(self).read_char,
    {
        self.write_char = Some(*characteristic);
    }

    /// All characteristics discovered on the peripheral, or `None` while
    /// no peripheral is held.
    pub fn characteristics(&self) -> (r: Option<Vec<Characteristic>>)
        ensures
            self.peripheral matches Some(p) ==> (r matches Some(v) && v@ == p.characteristics@),
            self.peripheral is None ==> r is None,
    {
        match &self.peripheral {
            Some(p) => Some(copy_characteristics(&p.characteristics)),
            None => None,
        }
    }

    /// The discovered characteristics whose operation-kind flags are
    /// exactly `kinds` — not a subset test — or `None` while no
    /// peripheral is held.
    pub fn characteristics_by_type(&self, kinds: u8) -> (r: Option<Vec<Characteristic>>)
        ensures
            self.peripheral matches Some(p)
                ==> (r matches Some(v) && v@ == exact_matches(p.characteristics@, kinds)),
            self.peripheral is None ==> r is None,
    {
        match &self.peripheral {
            Some(p) => {
                let chars = &p.characteristics;
                let mut out: Vec<Characteristic> = Vec::new();
                let mut i: usize = 0;
                while i < chars.len()
                    invariant
                        i <= chars@.len(),
                        out@ == exact_matches(chars@.take(i as int), kinds),
                    decreases chars@.len() - i,
                {
                    let c = chars[i];
                    proof {
                        assert(chars@.take(i as int + 1).drop_last() =~= chars@.take(i as int));
                        assert(chars@.take(i as int + 1).last() == chars@[i as int]);
                    }
                    if c.properties == kinds {
                        out.push(c);
                    }
                    i = i + 1;
                }
                proof {
                    assert(chars@.take(chars@.len() as int) =~= chars@);
                }
                Some(out)
            }
            None => None,
        }
    }

    /// Resolves an identifier in any of its forms and assigns the first
    /// matching characteristic as the default of the given kind. Succeeds
    /// exactly when the device holds a peripheral with a matching
    /// characteristic.
    pub fn set_char(&mut self, char_kind: &CharKind, uuid_kind: &UuidKind) -> (r: Result<
        (),
        BluetoothError,
    >)
        requires
            char_kind is Write,
        ensures
            device_resolves(*old(self), resolved_uuid(*uuid_kind))
                ==> r is Ok && assigned_write_char(*old(self), *final(self), resolved_uuid(*uuid_kind)),
            !device_resolves(*old(self), resolved_uuid(*uuid_kind))
                ==> (r matches Err(e) && e == resolve_failure(*old(self), resolved_uuid(*uuid_kind))
                    && *final(self) == *old(self)),
    {
        match uuid_kind {
            UuidKind::Uuid(id) => self.set_char_with_uuid(char_kind, *id),
            UuidKind::Uuid128(id) => self.set_char_with_uuid(char_kind, *id),
            UuidKind::Uuid32(short) => self.set_char_with_u32(char_kind, *short),
            UuidKind::Uuid16(short) => self.set_char_with_u16(char_kind, *short),
        }
    }

    /// Assigns the first characteristic with the given canonical
    /// identifier as the default of the given kind.
    pub fn set_char_with_uuid(&mut self, char_kind: &CharKind, uuid: u128) -> (r: Result<
        (),
        BluetoothError,
    >)
        requires
            char_kind is Write,
        ensures
            device_resolves(*old(self), uuid)
                ==> r is Ok && assigned_write_char(*old(self), *final(self), uuid),
            !device_resolves(*old(self), uuid)
                ==> (r matches Err(e) && e == resolve_failure(*old(self), uuid)
                    && *final(self) == *old(self)),
    {
        if self.peripheral.is_none() {
            return Err(BluetoothError::InvalidPeripheralReference);
        }
        let mut found: Option<Characteristic> = None;
        match &self.peripheral {
            Some(p) => {
                let chars = &p.characteristics;
                let mut i: usize = 0;
                while i < chars.len() && found.is_none()
                    invariant
                        i <= chars@.len(),
                        found is None ==> forall|j: int| 0 <= j < i ==> chars@[j].uuid != uuid,
                        found matches Some(c) ==> i < chars@.len() && c == chars@[i as int]
                            && chars@[i as int].uuid == uuid
                            && forall|j: int| 0 <= j < i ==> chars@[j].uuid != uuid,
                    decreases chars@.len() - i + (if found is None { 1int } else { 0int }),
                {
                    if chars[i].uuid == uuid {
                        found = Some(chars[i]);
                    } else {
                        i = i + 1;
                    }
                }
            }
            None => {}
        }
        match found {
            Some(c) => {
                self.write_char = Some(c);
                Ok(())
            }
            None => Err(BluetoothError::NotFoundTargetCharacteristic),
        }
    }

    /// Resolves a 16-bit short identifier by zero-extending it to 32 bits
    /// and assigns the matching characteristic.
    pub fn set_char_with_u16(&mut self, char_kind: &CharKind, short: u16) -> (r: Result<
        (),
        BluetoothError,
    >)
        requires
            char_kind is Write,
        ensures
            device_resolves(*old(self), canonical_uuid(short as u32))
                ==> r is Ok && assigned_write_char(*old(self), *final(self), canonical_uuid(short as u32)),
            !device_resolves(*old(self), canonical_uuid(short as u32))
                ==> (r matches Err(e) && e == resolve_failure(*old(self), canonical_uuid(short as u32))
                    && *final(self) == *old(self)),
    {
        self.set_char_with_u32(char_kind, short as u32)
    }

    /// Resolves a 32-bit short identifier through the base template and
    /// assigns the matching characteristic.
    pub fn set_char_with_u32(&mut self, char_kind: &CharKind, short: u32) -> (r: Result<
        (),
        BluetoothError,
    >)
        requires
            char_kind is Write,
        ensures
            device_resolves(*old(self), canonical_uuid(short))
                ==> r is Ok && assigned_write_char(*old(self), *final(self), canonical_uuid(short)),
            !device_resolves(*old(self), canonical_uuid(short))
                ==> (r matches Err(e) && e == resolve_failure(*old(self), canonical_uuid(short))
                    && *final(self) == *old(self)),
    {
        let uuid = uuid_from_u32(short);
        self.set_char_with_uuid(char_kind, uuid)
    }

    /// Assigns the first characteristic whose operation-kind flags are
    /// exactly `kinds` — not a subset test — as the default of the given
    /// kind. Succeeds exactly when the device holds a peripheral with
    /// such a characteristic.
    pub fn set_char_with_kind(&mut self, char_kind: &CharKind, kinds: u8) -> (r: Result<
        (),
        BluetoothError,
    >)
        requires
            char_kind is Write,
        ensures
            device_resolves_kind(*old(self), kinds)
                ==> r is Ok && assigned_write_char_of_kind(*old(self), *final(self), kinds),
            old(self).peripheral is None
                ==> (r matches Err(e) && e == (BluetoothError::InvalidPeripheralReference)
                    && *final(self) == *old(self)),
            (old(self).peripheral is Some && !device_resolves_kind(*old(self), kinds))
                ==> (r matches Err(e) && e == (BluetoothError::NotFoundTargetCharacteristic)
                    && *final(self) == *old(self)),
    {
        if self.peripheral.is_none() {
            return Err(BluetoothError::InvalidPeripheralReference);
        }
        let mut found: Option<Characteristic> = None;
        match &self.peripheral {
            Some(p) => {
                let chars = &p.characteristics;
                let mut i: usize = 0;
                while i < chars.len() && found.is_none()
                    invariant
                        i <= chars@.len(),
                        found is None ==> forall|j: int| 0 <= j < i
                            ==> chars@[j].properties != kinds,
                        found matches Some(c) ==> i < chars@.len() && c == chars@[i as int]
                            && chars@[i as int].properties == kinds
                            && forall|j: int| 0 <= j < i ==> chars@[j].properties != kinds,
                    decreases chars@.len() - i + (if found is None { 1int } else { 0int }),
                {
                    if chars[i].properties == kinds {
                        found = Some(chars[i]);
                    } else {
                        i = i + 1;
                    }
                }
            }
            None => {}
        }
        match found {
            Some(c) => {
                self.write_char = Some(c);
                Ok(())
            }
            None => Err(BluetoothError::NotFoundTargetCharacteristic),
        }
    }

    /// The characteristic a write must go to: the default write
    /// characteristic, available only while a peripheral is held. The
    /// error mirrors what a write attempt reports: an absent peripheral
    /// before an unassigned characteristic.
    pub fn write_target(&self) -> (r: Result<&Characteristic, BluetoothError>)
        ensures
            self.peripheral is None
                ==> (r matches Err(e) && e == (BluetoothError::InvalidPeripheralReference)),
            self.peripheral is Some && self.write_char is None
                ==> (r matches Err(e) && e == (BluetoothError::InvalidCharacteristic)),
            (self.peripheral is Some && self.write_char is Some)
                ==> (r matches Ok(t) && *t == self.write_char->0),
    {
        if self.peripheral.is_none() {
            return Err(BluetoothError::InvalidPeripheralReference);
        }
        match &self.write_char {
            Some(c) => Ok(c),
            None => Err(BluetoothError::InvalidCharacteristic),
        }
    }
}

} // verus!
