//! The reconciled modem-device view: a modem snapshot joined with the
//! kernel interface that drives it and the bearers it carries, plus the
//! predicate-based lookup over such views.

use vstd::prelude::*;
use vstd::string::StrSliceExecFns;
use crate::bearer::BearerInfo;
use crate::cli::ModemFilter;
use crate::errors::OrchError;
use crate::iface::{DeviceList, spec_find_by_name, spec_join_addrs};
use crate::modem::{ModemInfo, ModemState};
use crate::ports::{
    classify_ports, lemma_parsed_dev_name, lemma_parsed_net_name, spec_dev_name_of_raw,
    spec_net_name_of_raw, spec_ports_valid,
};
use crate::strutil::str_eq;

verus! {

/// One modem joined with its driving interface: the derived listing row.
#[derive(Debug, Clone, PartialEq, Eq)]
pub struct ModemDevice {
    pub connected: bool,
    pub device_name: String,
    pub hardware_name: String,
    pub device_id: u32,
    pub net_ip: String,
    pub sim_ip: String,
    pub modem: ModemInfo,
    pub bearer: Vec<BearerInfo>,
}

/// Exactly what `ModemDevice::new` returns for the given inputs.
pub open spec fn modem_device_post(
    modem_info: ModemInfo,
    devices: DeviceList,
    bearers: Seq<BearerInfo>,
    r: Result<ModemDevice, OrchError>,
) -> bool {
    let raw = modem_info.modem.generic.ports@;
    let net = spec_net_name_of_raw(raw);
    if !spec_ports_valid(raw) {
        r matches Err(e) && e matches OrchError::ExternalTool { message } && message@
            == "malformed port descriptor"@
    } else if net.len() == 0 {
        // The empty sentinel is rejected before it is used as an
        // interface selector, never looked up.
        r == Err::<ModemDevice, OrchError>(OrchError::NoNetworkPort)
    } else {
        match spec_find_by_name(devices.0@, net) {
            None => r == Err::<ModemDevice, OrchError>(OrchError::InterfaceNotFound),
            Some(dev) => r matches Ok(md) && {
                &&& md.connected == (modem_info.modem.generic.state == ModemState::Connected)
                &&& md.device_name@ == net
                &&& md.hardware_name@ == spec_dev_name_of_raw(raw)
                &&& md.device_id == dev.ifindex
                &&& md.net_ip@ == spec_join_addrs(dev.addr_info@)
                &&& (bearers.len() == 0 ==> md.sim_ip@ == Seq::<char>::empty())
                &&& (bearers.len() > 0 ==> md.sim_ip == bearers.last().bearer.ipv4_config.address)
                &&& md.modem == modem_info
                &&& md.bearer@ == bearers
            },
        }
    }
}

impl ModemDevice {
    /// Joins a modem snapshot with the interface snapshot and its
    /// bearers' snapshots. Fails with `ExternalTool` on a malformed
    /// port descriptor, with `NoNetworkPort` when the modem has no
    /// network-capable port, and with `InterfaceNotFound` when no
    /// interface carries the modem's network port name.
    pub fn new(modem_info: ModemInfo, devices: &DeviceList, bearers: Vec<BearerInfo>) -> (r:
        Result<ModemDevice, OrchError>)
        ensures
            modem_device_post(modem_info, *devices, bearers@, r),
    {
        let pl = match classify_ports(&modem_info.modem.generic.ports) {
            Some(pl) => pl,
            None => {
                return Err(
                    OrchError::ExternalTool { message: "malformed port descriptor".to_owned() },
                );
            },
        };
        proof {
            lemma_parsed_net_name(modem_info.modem.generic.ports@, pl.ports@);
            lemma_parsed_dev_name(modem_info.modem.generic.ports@, pl.ports@);
        }
        let device_name = pl.get_net_name();
        if device_name.as_str().is_empty() {
            return Err(OrchError::NoNetworkPort);
        }
        let hardware_name = pl.get_dev_name();
        let (device_id, net_ip) = match devices.find_by_name(device_name.as_str()) {
            Some(dev) => (dev.ifindex, dev.get_ip_addr()),
            None => {
                return Err(OrchError::InterfaceNotFound);
            },
        };
        let sim_ip = if bearers.len() > 0 {
            bearers[bearers.len() - 1].bearer.ipv4_config.address.clone()
        } else {
            String::new()
        };
        let connected = modem_info.modem.generic.state.is_connected();
        Ok(
            ModemDevice {
                connected,
                device_name,
                hardware_name,
                device_id,
                net_ip,
                sim_ip,
                modem: modem_info,
                bearer: bearers,
            },
        )
    }
}

/// The reconciled views of all modems known to the daemon.
#[derive(Debug, Clone, PartialEq, Eq)]
pub struct ModemDeviceList(pub Vec<ModemDevice>);

/// The first modem device whose interface index is `id`, if any.
pub open spec fn spec_find_md_by_id(s: Seq<ModemDevice>, id: u32) -> Option<ModemDevice>
    decreases s.len(),
{
    if s.len() == 0 {
        None
    } else if s[0].device_id == id {
        Some(s[0])
    } else {
        spec_find_md_by_id(s.drop_first(), id)
    }
}

/// The first modem device whose interface name is `name`, if any.
pub open spec fn spec_find_md_by_name(s: Seq<ModemDevice>, name: Seq<char>) -> Option<ModemDevice>
    decreases s.len(),
{
    if s.len() == 0 {
        None
    } else if s[0].device_name@ == name {
        Some(s[0])
    } else {
        spec_find_md_by_name(s.drop_first(), name)
    }
}

impl ModemDeviceList {
    /// The reconciled views, in daemon enumeration order.
    pub fn get_modem_device_list(&self) -> (r: &Vec<ModemDevice>)
        ensures
            r == &self.0,
    {
        &self.0
    }

    /// The first modem device with interface index `id`.
    pub fn find_by_id(&self, id: u32) -> (r: Option<&ModemDevice>)
        ensures
            match r {
                Some(d) => spec_find_md_by_id(self.0@, id) == Some(*d),
                None => spec_find_md_by_id(self.0@, id) is None,
            },
    {
        let mut i: usize = 0;
        proof {
            assert(self.0@.skip(0) =~= self.0@);
        }
        while i < self.0.len()
            invariant
                i <= self.0@.len(),
                spec_find_md_by_id(self.0@, id) == spec_find_md_by_id(self.0@.skip(i as int), id),
            decreases self.0@.len() - i,
        {
            proof {
                assert(self.0@.skip(i as int)[0] == self.0@[i as int]);
            }
            if self.0[i].device_id == id {
                return Some(&self.0[i]);
            }
            proof {
                assert(self.0@.skip(i as int).drop_first() =~= self.0@.skip(i + 1));
            }
            i = i + 1;
        }
        proof {
            assert(self.0@.skip(i as int) =~= Seq::<ModemDevice>::empty());
        }
        None
    }

    /// The first modem device with interface name `name`.
    pub fn find_by_name(&self, name: &str) -> (r: Option<&ModemDevice>)
        ensures
            match r {
                Some(d) => spec_find_md_by_name(self.0@, name@) == Some(*d),
                None => spec_find_md_by_name(self.0@, name@) is None,
            },
    {
        let mut i: usize = 0;
        proof {
            assert(self.0@.skip(0) =~= self.0@);
        }
        while i < self.0.len()
            invariant
                i <= self.0@.len(),
                spec_find_md_by_name(self.0@, name@) == spec_find_md_by_name(
                    self.0@.skip(i as int),
                    name@,
                ),
            decreases self.0@.len() - i,
        {
            proof {
                assert(self.0@.skip(i as int)[0] == self.0@[i as int]);
            }
            if str_eq(self.0[i].device_name.as_str(), name) {
                return Some(&self.0[i]);
            }
            proof {
                assert(self.0@.skip(i as int).drop_first() =~= self.0@.skip(i + 1));
            }
            i = i + 1;
        }
        proof {
            assert(self.0@.skip(i as int) =~= Seq::<ModemDevice>::empty());
        }
        None
    }
}

/// Whether `d` satisfies every criterion of `f`. A recognized state
/// criterion matches by the device's connectedness; an unrecognized
/// state string matches nothing.
pub open spec fn spec_modem_matches(f: ModemFilter, d: ModemDevice) -> bool {
    &&& match f.id {
        Some(i) => d.device_id == i,
        None => true,
    }
    &&& match f.name {
        Some(n) => d.device_name@ == n@,
        None => true,
    }
    &&& match f.state {
        Some(s) => (s@ == "connected"@ && d.connected) || (s@ == "disconnected"@ && !d.connected),
        None => true,
    }
}

impl ModemFilter {
    /// Evaluates the criteria against one modem device.
    pub fn matches(&self, d: &ModemDevice) -> (r: bool)
        ensures
            r == spec_modem_matches(*self, *d),
    {
        match &self.id {
            Some(i) => {
                if d.device_id != *i {
                    return false;
                }
            },
            None => {},
        }
        match &self.name {
            Some(n) => {
                if !str_eq(d.device_name.as_str(), n.as_str()) {
                    return false;
                }
            },
            None => {},
        }
        match &self.state {
            Some(s) => {
                proof {
                    reveal_strlit("connected");
                    reveal_strlit("disconnected");
                    assert("connected"@.len() != "disconnected"@.len());
                }
                if str_eq(s.as_str(), "connected") {
                    return d.connected;
                }
                if str_eq(s.as_str(), "disconnected") {
                    return !d.connected;
                }
                return false;
            },
            None => {},
        }
        true
    }
}

/// The indices of `s` selected by `f`, in increasing order.
pub open spec fn spec_modem_indices(s: Seq<ModemDevice>, f: ModemFilter, r: Seq<usize>) -> bool {
    &&& forall|k: int|
        0 <= k < r.len() ==> (#[trigger] r[k]) < s.len() && spec_modem_matches(f, s[r[k] as int])
    &&& forall|k1: int, k2: int| 0 <= k1 < k2 < r.len() ==> r[k1] < r[k2]
    &&& forall|j: int|
        0 <= j < s.len() && spec_modem_matches(f, #[trigger] s[j]) ==> exists|k: int|
            0 <= k < r.len() && r[k] == j
}

/// Selects the modem devices that satisfy the criteria, returning their
/// indices in enumeration order.
pub fn modem_matching_indices(list: &ModemDeviceList, f: &ModemFilter) -> (r: Vec<usize>)
    ensures
        spec_modem_indices(list.0@, *f, r@),
{
    let mut r: Vec<usize> = Vec::new();
    let mut i: usize = 0;
    while i < list.0.len()
        invariant
            i <= list.0@.len(),
            forall|k: int|
                0 <= k < r@.len() ==> (#[trigger] r@[k]) < i && spec_modem_matches(
                    *f,
                    list.0@[r@[k] as int],
                ),
            forall|k1: int, k2: int| 0 <= k1 < k2 < r@.len() ==> r@[k1] < r@[k2],
            forall|j: int|
                0 <= j < i && spec_modem_matches(*f, #[trigger] list.0@[j]) ==> exists|k: int|
                    0 <= k < r@.len() && r@[k] == j,
        decreases list.0@.len() - i,
    {
        if f.matches(&list.0[i]) {
            let ghost old_r = r@;
            r.push(i);
            proof {
                assert(r@[old_r.len() as int] == i);
                assert(forall|k: int| 0 <= k < old_r.len() ==> r@[k] == old_r[k]);
            }
        }
        i = i + 1;
    }
    r
}

/// The daemon selector for the modem the caller asked for: modem id 0
/// selects the default modem; any other id selects the modem device
/// with that interface index and yields its daemon path. Fails with
/// `SelectorNotFound` when the id is absent from the listing.
pub fn selector_for(modem_id: u32, list: &ModemDeviceList) -> (r: Result<String, OrchError>)
    ensures
        modem_id == 0 ==> (r matches Ok(s) && s@ == "0"@),
        modem_id != 0 ==> match spec_find_md_by_id(list.0@, modem_id) {
            Some(md) => r matches Ok(s) && s == md.modem.modem.dbus_path,
            None => r == Err::<String, OrchError>(OrchError::SelectorNotFound),
        },
{
    if modem_id == 0 {
        Ok("0".to_owned())
    } else {
        match list.find_by_id(modem_id) {
            Some(md) => Ok(md.modem.modem.dbus_path.clone()),
            None => Err(OrchError::SelectorNotFound),
        }
    }
}

} // verus!
