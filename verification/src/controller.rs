//! The decisions behind controlling a list of devices: assigning the
//! default characteristic across all of them, and the name filter applied
//! to discovered peripherals. Scanning and connecting themselves are
//! transport work and live with the surrounding application.

use vstd::prelude::*;

use crate::device::led_device::LedDevice;
use crate::device::{
    assigned_write_char, device_resolves, resolve_failure, resolved_uuid, CharKind, UuidKind,
};
use crate::error::BluetoothError;

verus! {

/// Whether `p` occurs in `s` starting at position `i`.
pub open spec fn matches_at(s: Seq<char>, p: Seq<char>, i: int) -> bool {
    forall|j: int| 0 <= j < p.len() ==> s[i + j] == p[j]
}

/// Whether `p` occurs anywhere in `s`. The empty pattern occurs in every
/// sequence.
pub open spec fn contains_seq(s: Seq<char>, p: Seq<char>) -> bool {
    exists|i: int| 0 <= i <= s.len() - p.len() && matches_at(s, p, i)
}

/// Whether `pattern` occurs as a substring of `s`.
pub fn contains_str(s: &str, pattern: &str) -> (r: bool)
    ensures
        r == contains_seq(s@, pattern@),
{
    let n = s.unicode_len();
    let m = pattern.unicode_len();
    if m > n {
        assert(!contains_seq(s@, pattern@));
        return false;
    }
    let mut i: usize = 0;
    while i <= n - m
        invariant
            m <= n,
            n == s@.len(),
            m == pattern@.len(),
            i <= n - m + 1,
            forall|k: int| 0 <= k < i ==> !matches_at(s@, pattern@, k),
        decreases n - m - i + 1,
    {
        let mut j: usize = 0;
        let mut ok = true;
        while j < m
            invariant
                m <= n,
                n == s@.len(),
                m == pattern@.len(),
                i <= n - m,
                j <= m,
                ok ==> forall|t: int| 0 <= t < j ==> s@[i + t] == pattern@[t],
                !ok ==> !matches_at(s@, pattern@, i as int),
            decreases m - j + (if ok { 1int } else { 0int }),
        {
            if s.get_char(i + j) != pattern.get_char(j) {
                ok = false;
                j = m;
            } else {
                j = j + 1;
            }
        }
        if ok {
            assert(matches_at(s@, pattern@, i as int));
            return true;
        }
        i = i + 1;
    }
    assert(!contains_seq(s@, pattern@));
    false
}

/// The discovery filter: whether a peripheral advertising `name` passes
/// the controller's prefix filter. Without a prefix every name passes;
/// with one, exactly the names that contain it.
pub fn name_matches(name: &str, prefix: &Option<String>) -> (r: bool)
    ensures
        prefix matches Some(p) ==> r == contains_seq(name@, p@),
        prefix is None ==> r,
{
    match prefix {
        Some(p) => contains_str(name, p.as_str()),
        None => true,
    }
}

/// Assigns the default characteristic of every device in the list by the
/// same identifier, stopping at the first device that cannot resolve it.
/// Succeeds exactly when every device resolves the identifier; on failure
/// the devices before the failing one keep their new assignment, the
/// failing one and those after it are untouched, and the failing device's
/// own error is returned.
pub fn set_all_char(
    devices: &mut Vec<LedDevice>,
    char_kind: &CharKind,
    uuid_kind: &UuidKind,
) -> (r: Result<(), BluetoothError>)
    requires
        char_kind is Write,
    ensures
        final(devices)@.len() == old(devices)@.len(),
        r is Ok <==> (forall|i: int| 0 <= i < old(devices)@.len()
            ==> device_resolves(#[trigger] old(devices)@[i], resolved_uuid(*uuid_kind))),
        r is Ok ==> forall|i: int| 0 <= i < old(devices)@.len()
            ==> assigned_write_char(
                old(devices)@[i],
                #[trigger] final(devices)@[i],
                resolved_uuid(*uuid_kind),
            ),
        r matches Err(e) ==> exists|i: int| 0 <= i < old(devices)@.len()
            && !device_resolves(#[trigger] old(devices)@[i], resolved_uuid(*uuid_kind))
            && e == resolve_failure(old(devices)@[i], resolved_uuid(*uuid_kind))
            && (forall|j: int| 0 <= j < i ==> assigned_write_char(
                old(devices)@[j],
                #[trigger] final(devices)@[j],
                resolved_uuid(*uuid_kind),
            ))
            && (forall|j: int| i <= j < old(devices)@.len()
                ==> final(devices)@[j] == old(devices)@[j]),
{
    let n = devices.len();
    let mut i: usize = 0;
    while i < n
        invariant
            char_kind is Write,
            i <= n,
            n == old(devices)@.len(),
            devices@.len() == n,
            forall|j: int| 0 <= j < i ==> device_resolves(
                #[trigger] old(devices)@[j],
                resolved_uuid(*uuid_kind),
            ),
            forall|j: int| 0 <= j < i ==> assigned_write_char(
                old(devices)@[j],
                #[trigger] devices@[j],
                resolved_uuid(*uuid_kind),
            ),
            forall|j: int| i <= j < n ==> devices@[j] == old(devices)@[j],
        decreases n - i,
    {
        let mut d = devices.remove(i);
        let res = d.set_char(char_kind, uuid_kind);
        devices.insert(i, d);
        match res {
            Ok(_) => {
                i = i + 1;
            }
            Err(e) => {
                return Err(e);
            }
        }
    }
    Ok(())
}

} // verus!
