//! Devices and their communication characteristics.
//!
//! A characteristic is an addressable communication endpoint on a
//! peripheral: a canonical 128-bit identifier together with the set of
//! operation kinds it supports, kept here as the byte of its property
//! flags. Short 16- and 32-bit identifiers resolve into the canonical
//! 128-bit space through a fixed base template.

use vstd::prelude::*;

use crate::error::BluetoothError;

pub mod led_device;

pub use self::led_device::LedDevice;

verus! {

/// The fixed base template of the canonical 128-bit identifier space; a
/// short identifier is shifted into the high-order 32 bits and combined
/// with it.
pub const BT_BASE_UUID: u128 = 0x00000000_0000_1000_8000_00805f9b34fb;

/// A 32-bit short identifier resolved into the canonical 128-bit space.
pub open spec fn canonical_uuid(short: u32) -> u128 {
    BT_BASE_UUID | ((short as u128) << 96)
}

/// Resolves a 32-bit short identifier into the canonical 128-bit space.
pub fn uuid_from_u32(short: u32) -> (id: u128)
    ensures
        id == canonical_uuid(short),
{
    BT_BASE_UUID | ((short as u128) << 96)
}

/// Resolves a 16-bit short identifier by zero-extending it to 32 bits.
pub fn uuid_from_u16(short: u16) -> (id: u128)
    ensures
        id == canonical_uuid(short as u32),
{
    uuid_from_u32(short as u32)
}

/// Law: resolution puts the short form in the high-order 32 bits and
/// leaves the low-order 96 bits of the base template untouched.
pub proof fn lemma_canonical_uuid_slots(short: u32)
    ensures
        canonical_uuid(short) >> 96 == short as u128,
        canonical_uuid(short) & 0xFFFF_FFFF_FFFF_FFFF_FFFF_FFFFu128 == BT_BASE_UUID,
{
    assert((0x00000000_0000_1000_8000_00805f9b34fbu128 | ((short as u128) << 96)) >> 96
        == short as u128) by (bit_vector);
    assert((0x00000000_0000_1000_8000_00805f9b34fbu128 | ((short as u128) << 96))
        & 0xFFFF_FFFF_FFFF_FFFF_FFFF_FFFFu128
        == 0x00000000_0000_1000_8000_00805f9b34fbu128) by (bit_vector);
}

/// The operation kinds a characteristic can support. Each kind stands for
/// one bit position; a set of kinds is the byte obtained by combining the
/// bits of its members.
#[derive(Clone, Copy, PartialEq, Eq, Structural, Debug)]
pub enum OpKind {
    Broadcast,
    Read,
    WriteWithoutResponse,
    Write,
    Notify,
    Indicate,
    AuthenticatedSignedWrites,
    ExtendedProperties,
}

/// The flag bit of one operation kind.
pub open spec fn op_kind_bit(kind: OpKind) -> u8 {
    match kind {
        OpKind::Broadcast => 0x01,
        OpKind::Read => 0x02,
        OpKind::WriteWithoutResponse => 0x04,
        OpKind::Write => 0x08,
        OpKind::Notify => 0x10,
        OpKind::Indicate => 0x20,
        OpKind::AuthenticatedSignedWrites => 0x40,
        OpKind::ExtendedProperties => 0x80,
    }
}

impl OpKind {
    /// The flag bit of this operation kind; combine kinds with bitwise or.
    pub fn bit(&self) -> (b: u8)
        ensures
            b == op_kind_bit(*self),
    {
        match self {
            OpKind::Broadcast => 0x01,
            OpKind::Read => 0x02,
            OpKind::WriteWithoutResponse => 0x04,
            OpKind::Write => 0x08,
            OpKind::Notify => 0x10,
            OpKind::Indicate => 0x20,
            OpKind::AuthenticatedSignedWrites => 0x40,
            OpKind::ExtendedProperties => 0x80,
        }
    }
}

/// The forms in which a caller can hand over a characteristic identifier.
/// A 16- or 32-bit short form resolves through the base template; the two
/// 128-bit forms are already canonical.
#[derive(Clone, Copy, PartialEq, Eq, Structural, Debug)]
pub enum UuidKind {
    Uuid(u128),
    Uuid16(u16),
    Uuid32(u32),
    Uuid128(u128),
}

/// The canonical identifier an identifier form resolves to.
pub open spec fn resolved_uuid(kind: UuidKind) -> u128 {
    match kind {
        UuidKind::Uuid(id) => id,
        UuidKind::Uuid16(short) => canonical_uuid(short as u32),
        UuidKind::Uuid32(short) => canonical_uuid(short),
        UuidKind::Uuid128(id) => id,
    }
}

/// Law: a 16-bit short form resolves exactly as its zero-extension to 32
/// bits does.
pub proof fn lemma_uuid16_resolves_as_uuid32(short: u16)
    ensures
        resolved_uuid(UuidKind::Uuid16(short)) == resolved_uuid(UuidKind::Uuid32(short as u32)),
{
}

/// The characteristic kind a default assignment targets.
#[derive(Clone, Copy, PartialEq, Eq, Structural, Debug)]
pub enum CharKind {
    Read,
    Write,
}

/// Marker for device types that can be connected.
pub trait Connect {
}

/// One discovered communication characteristic: its canonical identifier
/// and the byte of operation-kind flags it supports.
#[derive(Clone, Copy, PartialEq, Eq, Structural, Debug)]
pub struct Characteristic {
    pub uuid: u128,
    pub properties: u8,
}

/// What discovery learned about a connected peripheral: its address and
/// its characteristics. The live connection handle stays with the
/// surrounding application.
#[derive(Debug)]
pub struct Peripheral {
    pub address: String,
    pub characteristics: Vec<Characteristic>,
}

/// The characteristics of `s` whose flag byte is exactly `kinds`, in
/// order. The comparison is equality of the whole byte, not a subset
/// test: a characteristic offering a strict superset of the requested
/// kinds is not selected.
pub open spec fn exact_matches(s: Seq<Characteristic>, kinds: u8) -> Seq<Characteristic>
    decreases s.len(),
{
    if s.len() == 0 {
        Seq::empty()
    } else {
        let rest = exact_matches(s.drop_last(), kinds);
        if s.last().properties == kinds {
            rest.push(s.last())
        } else {
            rest
        }
    }
}

/// Law: the filter is exact — it never selects a characteristic whose
/// flag byte differs from the requested set, however the two are related.
pub proof fn lemma_exact_matches_excludes(s: Seq<Characteristic>, kinds: u8, c: Characteristic)
    requires
        c.properties != kinds,
    ensures
        !exact_matches(s, kinds).contains(c),
    decreases s.len(),
{
    if s.len() > 0 {
        lemma_exact_matches_excludes(s.drop_last(), kinds, c);
        if s.last().properties == kinds {
            assert forall|i: int| 0 <= i < exact_matches(s, kinds).len() implies
                exact_matches(s, kinds)[i] != c by {
                if i < exact_matches(s, kinds).len() - 1 {
                    assert(exact_matches(s, kinds)[i] == exact_matches(s.drop_last(), kinds)[i]);
                    assert(exact_matches(s.drop_last(), kinds).contains(
                        exact_matches(s.drop_last(), kinds)[i],
                    ));
                }
            }
        }
    }
}

/// Law: every selected characteristic carries exactly the requested flag
/// byte.
pub proof fn lemma_exact_matches_only(s: Seq<Characteristic>, kinds: u8)
    ensures
        forall|i: int| 0 <= i < exact_matches(s, kinds).len()
            ==> (#[trigger] exact_matches(s, kinds)[i]).properties == kinds,
    decreases s.len(),
{
    if s.len() > 0 {
        lemma_exact_matches_only(s.drop_last(), kinds);
        let rest = exact_matches(s.drop_last(), kinds);
        let whole = exact_matches(s, kinds);
        if s.last().properties == kinds {
            assert forall|i: int| 0 <= i < whole.len() implies
                (#[trigger] whole[i]).properties == kinds by {
                if i < whole.len() - 1 {
                    assert(whole[i] == rest[i]);
                } else {
                    assert(whole[i] == s.last());
                }
            }
        } else {
            assert(whole == rest);
        }
    }
}

/// Law: the filter misses nothing — every characteristic whose flag byte
/// equals the requested set is selected.
pub proof fn lemma_exact_matches_complete(s: Seq<Characteristic>, kinds: u8, i: int)
    requires
        0 <= i < s.len(),
        s[i].properties == kinds,
    ensures
        exact_matches(s, kinds).contains(s[i]),
    decreases s.len(),
{
    let whole = exact_matches(s, kinds);
    if i == s.len() - 1 {
        assert(s.last() == s[i]);
        assert(whole[whole.len() - 1] == s[i]);
    } else {
        lemma_exact_matches_complete(s.drop_last(), kinds, i);
        let rest = exact_matches(s.drop_last(), kinds);
        assert(s.drop_last()[i] == s[i]);
        let j = choose|j: int| 0 <= j < rest.len() && rest[j] == s[i];
        assert(whole[j] == s[i]);
    }
}

/// Whether some characteristic of `s` has the canonical identifier `uuid`.
pub open spec fn has_char(s: Seq<Characteristic>, uuid: u128) -> bool {
    exists|k: int| 0 <= k < s.len() && s[k].uuid == uuid
}

/// Whether a device can resolve `uuid`: it holds a peripheral, and one of
/// the peripheral's characteristics has that identifier.
pub open spec fn device_resolves(d: LedDevice, uuid: u128) -> bool {
    d.peripheral matches Some(p) && has_char(p.characteristics@, uuid)
}

/// Relates a device to its state after the first characteristic matching
/// `uuid` has been assigned as the default write characteristic; every
/// other field is unchanged.
pub open spec fn assigned_write_char(pre: LedDevice, post: LedDevice, uuid: u128) -> bool {
    &&& post.name == pre.name
    &&& post.alias == pre.alias
    &&& post.peripheral == pre.peripheral
    &&& post.read_char == pre.read_char
    &&& pre.peripheral matches Some(p) && exists|k: int|
        0 <= k < p.characteristics@.len()
        && (#[trigger] p.characteristics@[k]).uuid == uuid
        && (forall|j: int| 0 <= j < k ==> p.characteristics@[j].uuid != uuid)
        && post.write_char == Some(p.characteristics@[k])
}

/// The error with which resolving `uuid` on device `d` fails when no
/// characteristic matches: an absent peripheral is reported before a
/// missing characteristic.
pub open spec fn resolve_failure(d: LedDevice, uuid: u128) -> BluetoothError {
    if d.peripheral is None {
        BluetoothError::InvalidPeripheralReference
    } else {
        BluetoothError::NotFoundTargetCharacteristic
    }
}

/// Whether some characteristic of `s` carries exactly the flag byte
/// `kinds`.
pub open spec fn has_char_of_kind(s: Seq<Characteristic>, kinds: u8) -> bool {
    exists|k: int| 0 <= k < s.len() && s[k].properties == kinds
}

/// Whether a device can resolve a kind filter: it holds a peripheral, and
/// one of the peripheral's characteristics carries exactly that flag
/// byte.
pub open spec fn device_resolves_kind(d: LedDevice, kinds: u8) -> bool {
    d.peripheral matches Some(p) && has_char_of_kind(p.characteristics@, kinds)
}

/// Relates a device to its state after the first characteristic whose
/// flag byte is exactly `kinds` has been assigned as the default write
/// characteristic; every other field is unchanged.
pub open spec fn assigned_write_char_of_kind(pre: LedDevice, post: LedDevice, kinds: u8) -> bool {
    &&& post.name == pre.name
    &&& post.alias == pre.alias
    &&& post.peripheral == pre.peripheral
    &&& post.read_char == pre.read_char
    &&& pre.peripheral matches Some(p) && exists|k: int|
        0 <= k < p.characteristics@.len()
        && (#[trigger] p.characteristics@[k]).properties == kinds
        && (forall|j: int| 0 <= j < k ==> p.characteristics@[j].properties != kinds)
        && post.write_char == Some(p.characteristics@[k])
}

} // verus!
