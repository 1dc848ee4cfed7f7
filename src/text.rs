//! Text matching and the property key that marks a device's friendly name.
use vstd::prelude::*;
use vstd::string::StrSliceExecFns;
use windows::Win32::Devices::FunctionDiscovery::PKEY_DeviceInterface_FriendlyName;

verus! {

/// Whether `name` begins with `prefix`, compared character by character,
/// without any case folding or normalisation.
pub open spec fn starts_with(name: Seq<char>, prefix: Seq<char>) -> bool {
    prefix.len() <= name.len() && name.subrange(0, prefix.len() as int) == prefix
}

/// Tests whether `name` starts with `prefix` (case-sensitive).
pub fn has_prefix(name: &str, prefix: &str) -> (r: bool)
    ensures
        r == starts_with(name@, prefix@),
{
    let n = name.unicode_len();
    let p = prefix.unicode_len();
    if p > n {
        return false;
    }
    let mut i: usize = 0;
    while i < p
        invariant
            n == name@.len(),
            p == prefix@.len(),
            p <= n,
            i <= p,
            forall|j: int| 0 <= j < i ==> name@[j] == prefix@[j],
        decreases p - i,
    {
        if name.get_char(i) != prefix.get_char(i) {
            assert(name@.subrange(0, p as int)[i as int] != prefix@[i as int]);
            return false;
        }
        i = i + 1;
    }
    assert(name@.subrange(0, p as int) =~= prefix@);
    true
}

/// Tests whether the two texts are equal, character for character.
pub fn same_text(a: &str, b: &str) -> (r: bool)
    ensures
        r == (a@ == b@),
{
    if a.unicode_len() != b.unicode_len() {
        return false;
    }
    let r = has_prefix(a, b);
    assert(a@.subrange(0, b@.len() as int) =~= a@);
    r
}

/// A property key of a property store: a format identifier (a GUID, held as
/// its 128-bit value) and a property identifier within that format.
#[derive(Clone, Copy, Debug, PartialEq, Eq, Structural)]
pub struct PropertyKey {
    pub fmtid: u128,
    pub pid: u32,
}

/// Format identifier of the device-interface friendly-name property.
pub open spec fn friendly_name_fmtid() -> u128 {
    0x026e516e_b814_414b_83cd_856d6fef4822u128
}

/// Relies on windows' `PKEY_DeviceInterface_FriendlyName`, the key under which
/// a device's property store holds its friendly name, and on `GUID::to_u128`,
/// which gives back the value that the constant was built from.
#[verifier::external_body]
fn friendly_name_key() -> (r: PropertyKey)
    ensures
        r.fmtid == friendly_name_fmtid(),
        r.pid == 2,
{
    let key = PKEY_DeviceInterface_FriendlyName;
    PropertyKey { fmtid: key.fmtid.to_u128(), pid: key.pid }
}

/// Whether a property entry under `key` holds a friendly name. Only the format
/// identifier is compared: every property of the friendly-name format counts.
pub fn is_friendly_name_key(key: &PropertyKey) -> (r: bool)
    ensures
        r == (key.fmtid == friendly_name_fmtid()),
{
    let friendly = friendly_name_key();
    key.fmtid == friendly.fmtid
}

} // verus!
