//! The commands a caller can request, and the criteria structs of the
//! filter/lookup layer. Criteria are optional fields evaluated
//! conjunctively: an absent criterion is a wildcard.

use vstd::prelude::*;
use crate::iface::{Device, DeviceList};
use crate::strutil::str_eq;

verus! {

/// A caller's request: list interfaces, list modems, or orchestrate an
/// LTE connection.
#[derive(Debug, Clone, PartialEq, Eq)]
pub enum Command {
    ListDevice(DeviceFilter),
    ListModem(ModemFilter),
    Lte(Lte),
}

/// The LTE orchestration request: connect or disconnect a modem,
/// selected by id, using the given APN.
#[derive(Debug, Clone, PartialEq, Eq)]
pub struct Lte {
    pub disconnect: bool,
    pub connect: bool,
    pub modem_id: u32,
    pub apn: String,
}

/// Criteria for selecting kernel interfaces.
#[derive(Debug, Clone, PartialEq, Eq)]
pub struct DeviceFilter {
    pub id: Option<u32>,
    pub name: Option<String>,
    pub link_type: Option<String>,
}

/// Criteria for selecting modem devices.
#[derive(Debug, Clone, PartialEq, Eq)]
pub struct ModemFilter {
    pub id: Option<u32>,
    pub name: Option<String>,
    pub state: Option<String>,
}

/// Whether `d` satisfies every criterion of `f` (absent criteria match
/// everything).
pub open spec fn spec_device_matches(f: DeviceFilter, d: Device) -> bool {
    &&& match f.id {
        Some(i) => d.ifindex == i,
        None => true,
    }
    &&& match f.name {
        Some(n) => d.ifname@ == n@,
        None => true,
    }
    &&& match f.link_type {
        Some(t) => d.link_type@ == t@,
        None => true,
    }
}

impl DeviceFilter {
    /// Evaluates the criteria against one interface.
    pub fn matches(&self, d: &Device) -> (r: bool)
        ensures
            r == spec_device_matches(*self, *d),
    {
        match &self.id {
            Some(i) => {
                if d.ifindex != *i {
                    return false;
                }
            },
            None => {},
        }
        match &self.name {
            Some(n) => {
                if !str_eq(d.ifname.as_str(), n.as_str()) {
                    return false;
                }
            },
            None => {},
        }
        match &self.link_type {
            Some(t) => {
                if !str_eq(d.link_type.as_str(), t.as_str()) {
                    return false;
                }
            },
            None => {},
        }
        true
    }
}

/// The wildcard interface filter.
pub fn default_filter(device: &Device) -> (r: bool)
    ensures
        r,
{
    let _ = device;
    true
}

/// The indices of `list` selected by `f`, in increasing order.
pub open spec fn spec_device_indices(s: Seq<Device>, f: DeviceFilter, r: Seq<usize>) -> bool {
    &&& forall|k: int|
        0 <= k < r.len() ==> (#[trigger] r[k]) < s.len() && spec_device_matches(f, s[r[k] as int])
    &&& forall|k1: int, k2: int| 0 <= k1 < k2 < r.len() ==> r[k1] < r[k2]
    &&& forall|j: int|
        0 <= j < s.len() && spec_device_matches(f, #[trigger] s[j]) ==> exists|k: int|
            0 <= k < r.len() && r[k] == j
}

/// Selects the interfaces of a snapshot that satisfy the criteria,
/// returning their indices in enumeration order.
pub fn device_matching_indices(list: &DeviceList, f: &DeviceFilter) -> (r: Vec<usize>)
    ensures
        spec_device_indices(list.0@, *f, r@),
{
    let mut r: Vec<usize> = Vec::new();
    let mut i: usize = 0;
    while i < list.0.len()
        invariant
            i <= list.0@.len(),
            forall|k: int|
                0 <= k < r@.len() ==> (#[trigger] r@[k]) < i && spec_device_matches(
                    *f,
                    list.0@[r@[k] as int],
                ),
            forall|k1: int, k2: int| 0 <= k1 < k2 < r@.len() ==> r@[k1] < r@[k2],
            forall|j: int|
                0 <= j < i && spec_device_matches(*f, #[trigger] list.0@[j]) ==> exists|k: int|
                    0 <= k < r@.len() && r@[k] == j,
        decreases list.0@.len() - i,
    {
        if f.matches(&list.0[i]) {
            let ghost old_r = r@;
            r.push(i);
            proof {
                assert(r@[old_r.len() as int] == i);
                assert(forall|k: int| 0 <= k < old_r.len() ==> r@[k] == old_r[k]);
            }
        }
        i = i + 1;
    }
    r
}

} // verus!
