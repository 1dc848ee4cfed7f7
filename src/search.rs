//! Linear, first-match searches over the devices and sessions that the audio
//! subsystem enumerates, and the cursor that walks a session collection.
use vstd::prelude::*;
use crate::text::{has_prefix, starts_with};

verus! {

/// Walks the indices `0..count` of a collection whose size was read once,
/// when the collection was acquired.
pub struct SessionCursor {
    pub count: u32,
    pub index: u32,
}

impl SessionCursor {
    pub open spec fn wf(&self) -> bool {
        self.index <= self.count
    }

    /// A cursor at the start of a collection of `count` items.
    pub fn new(count: u32) -> (r: SessionCursor)
        ensures
            r.count == count,
            r.index == 0,
            r.wf(),
    {
        SessionCursor { count, index: 0 }
    }

    /// The next index to visit, in ascending order, or `None` once all
    /// `count` indices have been handed out.
    pub fn next(&mut self) -> (r: Option<u32>)
        requires
            old(self).wf(),
        ensures
            final(self).wf(),
            final(self).count == old(self).count,
            old(self).index < old(self).count ==> r == Some(old(self).index)
                && final(self).index == old(self).index + 1,
            old(self).index >= old(self).count ==> r is None && *final(self) == *old(self),
    {
        if self.index < self.count {
            self.index = self.index + 1;
            Some(self.index - 1)
        } else {
            None
        }
    }
}

/// Whether any of a device's friendly names starts with `prefix`.
pub open spec fn device_matches(names: Seq<String>, prefix: Seq<char>) -> bool {
    exists|j: int| 0 <= j < names.len() && starts_with(#[trigger] names[j]@, prefix)
}

/// Tests the friendly names read from one device's property store, in store
/// order, against `prefix`.
pub fn propstore_find(names: &Vec<String>, prefix: &str) -> (r: bool)
    ensures
        r == device_matches(names@, prefix@),
{
    let mut j: usize = 0;
    while j < names.len()
        invariant
            j <= names.len(),
            forall|k: int| 0 <= k < j ==> !starts_with(#[trigger] names@[k]@, prefix@),
        decreases names.len() - j,
    {
        if has_prefix(names[j].as_str(), prefix) {
            return true;
        }
        j = j + 1;
    }
    false
}

/// The error text when no device matches.
pub open spec fn device_not_found() -> Seq<char> {
    "no device with that name found"@
}

/// The error text when no session matches.
pub open spec fn session_not_found() -> Seq<char> {
    "audio session not found"@
}

/// Picks, among the active render devices in enumeration order, the first one
/// with a friendly name that starts with `prefix`. Entry `i` of `devices` holds
/// the friendly names found in device `i`'s property store.
pub fn find_device_with_friendly_name(devices: &Vec<Vec<String>>, prefix: &str) -> (r: Result<usize, String>)
    ensures
        match r {
            Ok(i) => i < devices.len() && device_matches(devices@[i as int]@, prefix@)
                && forall|k: int| 0 <= k < i ==> !device_matches(#[trigger] devices@[k]@, prefix@),
            Err(e) => e@ == device_not_found()
                && forall|k: int| 0 <= k < devices.len() ==> !device_matches(#[trigger] devices@[k]@, prefix@),
        },
{
    let mut i: usize = 0;
    while i < devices.len()
        invariant
            i <= devices.len(),
            forall|k: int| 0 <= k < i ==> !device_matches(#[trigger] devices@[k]@, prefix@),
        decreases devices.len() - i,
    {
        if propstore_find(&devices[i], prefix) {
            return Ok(i);
        }
        i = i + 1;
    }
    proof {
        reveal_strlit("no device with that name found");
    }
    Err("no device with that name found".to_string())
}

/// Picks the first session, in index order, whose display name satisfies
/// `pred`. The predicate is called once per session, in ascending order, and
/// not again after it first holds.
pub fn find_application_for_device<P: Fn(&String) -> bool>(names: &Vec<String>, pred: P) -> (r: Result<usize, String>)
    requires
        forall|k: int| 0 <= k < names.len() ==> pred.requires((&names@[k],)),
    ensures
        match r {
            Ok(i) => i < names.len() && pred.ensures((&names@[i as int],), true)
                && forall|k: int| 0 <= k < i ==> pred.ensures((&names@[k],), false),
            Err(e) => e@ == session_not_found()
                && forall|k: int| 0 <= k < names.len() ==> pred.ensures((&names@[k],), false),
        },
{
    let mut i: usize = 0;
    while i < names.len()
        invariant
            i <= names.len(),
            forall|k: int| 0 <= k < names.len() ==> pred.requires((&names@[k],)),
            forall|k: int| 0 <= k < i ==> pred.ensures((&names@[k],), false),
        decreases names.len() - i,
    {
        if pred(&names[i]) {
            return Ok(i);
        }
        i = i + 1;
    }
    proof {
        reveal_strlit("audio session not found");
    }
    Err("audio session not found".to_string())
}

} // verus!
