//! Kernel network interface snapshots: a point-in-time view of each
//! interface's index, name, state and assigned addresses, with
//! first-match lookup over a snapshot.

use vstd::prelude::*;
use vstd::string::StrSliceExecFns;
use vstd::string::StringExecFns;
use crate::errors::OrchError;
use crate::strutil::{spec_dec_signed, str_eq, i64_to_string};

verus! {

/// One address assigned to an interface.
#[derive(Debug, Clone, PartialEq, Eq)]
pub struct AddrInfo {
    pub family: String,
    pub local: String,
    pub prefixlen: i64,
    pub broadcast: Option<String>,
    pub scope: String,
    pub label: Option<String>,
    pub valid_life_time: i64,
    pub preferred_life_time: i64,
    pub dynamic: Option<bool>,
    pub noprefixroute: Option<bool>,
    pub protocol: Option<String>,
}

/// One kernel interface of a snapshot.
#[derive(Debug, Clone, PartialEq, Eq)]
pub struct Device {
    pub ifindex: u32,
    pub ifname: String,
    pub flags: Vec<String>,
    pub mtu: i64,
    pub qdisc: String,
    pub operstate: String,
    pub group: String,
    pub txqlen: i64,
    pub link_type: String,
    pub address: Option<String>,
    pub broadcast: Option<String>,
    pub addr_info: Vec<AddrInfo>,
}

/// A point-in-time snapshot of the kernel interfaces.
#[derive(Debug, Clone, PartialEq, Eq)]
pub struct DeviceList(pub Vec<Device>);

/// The rendering of one address: `<local>/<prefixlen>`.
pub open spec fn spec_addr_str(a: AddrInfo) -> Seq<char> {
    a.local@ + seq!['/'] + spec_dec_signed(a.prefixlen as int)
}

/// The renderings of all addresses, joined with `", "`.
pub open spec fn spec_join_addrs(addrs: Seq<AddrInfo>) -> Seq<char>
    decreases addrs.len(),
{
    if addrs.len() == 0 {
        Seq::empty()
    } else if addrs.len() == 1 {
        spec_addr_str(addrs[0])
    } else {
        spec_join_addrs(addrs.drop_last()) + seq![',', ' '] + spec_addr_str(addrs.last())
    }
}

/// The first device of the snapshot whose index is `id`, if any.
pub open spec fn spec_find_by_id(s: Seq<Device>, id: u32) -> Option<Device>
    decreases s.len(),
{
    if s.len() == 0 {
        None
    } else if s[0].ifindex == id {
        Some(s[0])
    } else {
        spec_find_by_id(s.drop_first(), id)
    }
}

/// The first device of the snapshot whose name is `name`, if any.
pub open spec fn spec_find_by_name(s: Seq<Device>, name: Seq<char>) -> Option<Device>
    decreases s.len(),
{
    if s.len() == 0 {
        None
    } else if s[0].ifname@ == name {
        Some(s[0])
    } else {
        spec_find_by_name(s.drop_first(), name)
    }
}

/// Law: the name lookup succeeds exactly when some entry carries the name.
pub proof fn lemma_find_by_name_some_iff(s: Seq<Device>, name: Seq<char>)
    ensures
        spec_find_by_name(s, name) is Some <==> exists|i: int|
            0 <= i < s.len() && (#[trigger] s[i]).ifname@ == name,
    decreases s.len(),
{
    if s.len() > 0 {
        lemma_find_by_name_some_iff(s.drop_first(), name);
        if s[0].ifname@ == name {
        } else {
            assert forall|i: int| 0 <= i < s.len() && (#[trigger] s[i]).ifname@ == name implies
                exists|j: int| 0 <= j < s.drop_first().len() && (#[trigger] s.drop_first()[j]).ifname@
                    == name by {
                assert(s.drop_first()[i - 1] == s[i]);
            }
            assert forall|j: int|
                0 <= j < s.drop_first().len() && (#[trigger] s.drop_first()[j]).ifname@ == name
                implies exists|i: int| 0 <= i < s.len() && (#[trigger] s[i]).ifname@ == name by {
                assert(s[j + 1] == s.drop_first()[j]);
            }
        }
    }
}

/// Index of the first device named `name`, shared by the lookups.
fn find_idx_by_name(v: &Vec<Device>, name: &str) -> (r: Option<usize>)
    ensures
        match r {
            Some(i) => i < v@.len() && spec_find_by_name(v@, name@) == Some(v@[i as int])
                && v@[i as int].ifname@ == name@,
            None => spec_find_by_name(v@, name@) is None,
        },
{
    let mut i: usize = 0;
    proof {
        assert(v@.skip(0) =~= v@);
    }
    while i < v.len()
        invariant
            i <= v@.len(),
            spec_find_by_name(v@, name@) == spec_find_by_name(v@.skip(i as int), name@),
        decreases v@.len() - i,
    {
        proof {
            assert(v@.skip(i as int)[0] == v@[i as int]);
        }
        if str_eq(v[i].ifname.as_str(), name) {
            return Some(i);
        }
        proof {
            assert(v@.skip(i as int).drop_first() =~= v@.skip(i + 1));
        }
        i = i + 1;
    }
    proof {
        assert(v@.skip(i as int) =~= Seq::<Device>::empty());
    }
    None
}

impl DeviceList {
    /// The devices of the snapshot, in enumeration order.
    pub fn get_address_list(&self) -> (r: &Vec<Device>)
        ensures
            r == &self.0,
    {
        &self.0
    }

    /// The first device with index `id`.
    pub fn find_by_id(&self, id: u32) -> (r: Option<&Device>)
        ensures
            match r {
                Some(d) => spec_find_by_id(self.0@, id) == Some(*d),
                None => spec_find_by_id(self.0@, id) is None,
            },
    {
        let mut i: usize = 0;
        proof {
            assert(self.0@.skip(0) =~= self.0@);
        }
        while i < self.0.len()
            invariant
                i <= self.0@.len(),
                spec_find_by_id(self.0@, id) == spec_find_by_id(self.0@.skip(i as int), id),
            decreases self.0@.len() - i,
        {
            proof {
                assert(self.0@.skip(i as int)[0] == self.0@[i as int]);
            }
            if self.0[i].ifindex == id {
                return Some(&self.0[i]);
            }
            proof {
                assert(self.0@.skip(i as int).drop_first() =~= self.0@.skip(i + 1));
            }
            i = i + 1;
        }
        proof {
            assert(self.0@.skip(i as int) =~= Seq::<Device>::empty());
        }
        None
    }

    /// The first device with name `name`.
    pub fn find_by_name(&self, name: &str) -> (r: Option<&Device>)
        ensures
            match r {
                Some(d) => spec_find_by_name(self.0@, name@) == Some(*d),
                None => spec_find_by_name(self.0@, name@) is None,
            },
    {
        match find_idx_by_name(&self.0, name) {
            Some(i) => Some(&self.0[i]),
            None => None,
        }
    }

    /// The first device of the snapshot, or `SelectorNotFound` when the
    /// snapshot is empty.
    pub fn fist(&self) -> (r: Result<&Device, OrchError>)
        ensures
            self.0@.len() > 0 ==> (r matches Ok(d) && *d == self.0@[0]),
            self.0@.len() == 0 ==> (r matches Err(e) && e == OrchError::SelectorNotFound),
    {
        if self.0.len() > 0 {
            Ok(&self.0[0])
        } else {
            Err(OrchError::SelectorNotFound)
        }
    }
}

impl AddrInfo {
    /// Renders this address as `<local>/<prefixlen>`.
    pub fn render(&self) -> (r: String)
        ensures
            r@ == spec_addr_str(*self),
    {
        proof {
            reveal_strlit("/");
        }
        let mut s = self.local.clone();
        s.append("/");
        let digits = i64_to_string(self.prefixlen);
        s.append(digits.as_str());
        proof {
            assert(s@ =~= spec_addr_str(*self));
        }
        s
    }
}

impl Device {
    /// Extracts the device named `device_name` from the snapshot;
    /// `SelectorNotFound` when no entry carries that name.
    pub fn new(device_name: &str, devices: DeviceList) -> (r: Result<Device, OrchError>)
        ensures
            match spec_find_by_name(devices.0@, device_name@) {
                Some(d0) => r matches Ok(d) && d == d0,
                None => r matches Err(e) && e == OrchError::SelectorNotFound,
            },
    {
        let mut list = devices;
        match find_idx_by_name(&list.0, device_name) {
            Some(i) => {
                let d = list.0.remove(i);
                Ok(d)
            },
            None => Err(OrchError::SelectorNotFound),
        }
    }

    /// Replaces this device with the entry of the same name in a fresh
    /// snapshot; on `SelectorNotFound` the device is left unchanged.
    pub fn refresh(&mut self, devices: DeviceList) -> (r: Result<(), OrchError>)
        ensures
            match spec_find_by_name(devices.0@, old(self).ifname@) {
                Some(d0) => r is Ok && *final(self) == d0,
                None => r matches Err(e) && e == OrchError::SelectorNotFound && *final(self)
                    == *old(self),
            },
    {
        let mut list = devices;
        match find_idx_by_name(&list.0, self.ifname.as_str()) {
            Some(i) => {
                let d = list.0.remove(i);
                *self = d;
                Ok(())
            },
            None => Err(OrchError::SelectorNotFound),
        }
    }

    /// Renders all assigned addresses, joined with `", "`.
    pub fn get_ip_addr(&self) -> (r: String)
        ensures
            r@ == spec_join_addrs(self.addr_info@),
    {
        proof {
            reveal_strlit(", ");
        }
        let mut s = String::new();
        let mut i: usize = 0;
        while i < self.addr_info.len()
            invariant
                i <= self.addr_info@.len(),
                s@ == spec_join_addrs(self.addr_info@.take(i as int)),
            decreases self.addr_info@.len() - i,
        {
            if i > 0 {
                s.append(", ");
            }
            let part = self.addr_info[i].render();
            s.append(part.as_str());
            proof {
                reveal_strlit(", ");
                let t = self.addr_info@.take(i + 1);
                assert(t.last() == self.addr_info@[i as int]);
                if i == 0 {
                    assert(spec_join_addrs(t) == spec_addr_str(t[0]));
                    assert(s@ =~= spec_join_addrs(t));
                } else {
                    assert(t.drop_last() =~= self.addr_info@.take(i as int));
                    assert(spec_join_addrs(t) == spec_join_addrs(t.drop_last()) + seq![',', ' ']
                        + spec_addr_str(t.last()));
                    assert(s@ =~= spec_join_addrs(t));
                }
            }
            i = i + 1;
        }
        proof {
            assert(self.addr_info@.take(i as int) =~= self.addr_info@);
        }
        s
    }
}

} // verus!
