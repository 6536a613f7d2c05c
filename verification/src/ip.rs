//! Address and route planning from a bearer snapshot: the guards and
//! the exact mutation each flow issues, plus address lookups over an
//! interface snapshot.

use vstd::prelude::*;
use vstd::string::StrSliceExecFns;
use vstd::string::StringExecFns;
use crate::address::AddressList;
use crate::bearer::{BearerInfo, YesNo};
use crate::errors::OrchError;
use crate::iface::{Device, DeviceList};
use crate::orchestrator::IfaceAction;
use crate::strutil::str_eq;

verus! {

/// The devices of `s` named `name`, in order.
pub open spec fn spec_filter_by_name(s: Seq<Device>, name: Seq<char>) -> Seq<Device>
    decreases s.len(),
{
    if s.len() == 0 {
        Seq::empty()
    } else if s[0].ifname@ == name {
        seq![s[0]] + spec_filter_by_name(s.drop_first(), name)
    } else {
        spec_filter_by_name(s.drop_first(), name)
    }
}

/// Why a bearer cannot be used to plan an address or route
/// installation. Each guard of the planners surfaces its own cause, so
/// a caller can render a precise message.
#[derive(Debug, Clone, Copy, PartialEq, Eq, Structural)]
pub enum BearerPlanError {
    /// The bearer does not report `connected: yes`.
    NotConnected,
    /// The bearer's IPv4 configuration is not `static`.
    NotStatic,
    /// The bearer reports no bound kernel interface.
    MissingInterface,
    /// The bearer carries no IPv4 address.
    MissingAddress,
    /// The bearer carries no IPv4 gateway.
    MissingGateway,
}

impl BearerPlanError {
    /// A short, user-facing description of the failed guard.
    pub fn message(&self) -> (r: String)
        ensures
            match self {
                BearerPlanError::NotConnected => r@ == "the bearer is not connected"@,
                BearerPlanError::NotStatic => r@ == "the bearer is not using a static ip"@,
                BearerPlanError::MissingInterface => r@ == "the modem device is empty"@,
                BearerPlanError::MissingAddress => r@ == "the ip address is empty"@,
                BearerPlanError::MissingGateway => r@ == "the gateway is empty"@,
            },
    {
        match self {
            BearerPlanError::NotConnected => "the bearer is not connected".to_owned(),
            BearerPlanError::NotStatic => "the bearer is not using a static ip".to_owned(),
            BearerPlanError::MissingInterface => "the modem device is empty".to_owned(),
            BearerPlanError::MissingAddress => "the ip address is empty".to_owned(),
            BearerPlanError::MissingGateway => "the gateway is empty".to_owned(),
        }
    }
}

/// Exactly what `set_static_ip` returns: each guard fails with its own
/// cause, in the order tested; otherwise the planned mutation adds the
/// bearer's address as a /32 host address on the bound interface.
pub open spec fn set_static_ip_post(b: BearerInfo, r: Result<IfaceAction, BearerPlanError>) -> bool {
    if b.bearer.status.connected != YesNo::Yes {
        r == Err::<IfaceAction, BearerPlanError>(BearerPlanError::NotConnected)
    } else if b.bearer.ipv4_config.method@ != "static"@ {
        r == Err::<IfaceAction, BearerPlanError>(BearerPlanError::NotStatic)
    } else if b.bearer.status.interface@.len() == 0 {
        r == Err::<IfaceAction, BearerPlanError>(BearerPlanError::MissingInterface)
    } else if b.bearer.ipv4_config.address@.len() == 0 {
        r == Err::<IfaceAction, BearerPlanError>(BearerPlanError::MissingAddress)
    } else {
        r matches Ok(a) && a matches IfaceAction::AddAddress { ifname, cidr }
            && ifname == b.bearer.status.interface && cidr@ == b.bearer.ipv4_config.address@
            + "/32"@
    }
}

/// Plans the static-address installation for a connected bearer.
pub fn set_static_ip(bearer_info: &BearerInfo) -> (r: Result<IfaceAction, BearerPlanError>)
    ensures
        set_static_ip_post(*bearer_info, r),
{
    if !bearer_info.bearer.status.connected.is_yes() {
        return Err(BearerPlanError::NotConnected);
    }
    if !str_eq(bearer_info.bearer.ipv4_config.method.as_str(), "static") {
        return Err(BearerPlanError::NotStatic);
    }
    if bearer_info.bearer.status.interface.as_str().is_empty() {
        return Err(BearerPlanError::MissingInterface);
    }
    if bearer_info.bearer.ipv4_config.address.as_str().is_empty() {
        return Err(BearerPlanError::MissingAddress);
    }
    let mut cidr = bearer_info.bearer.ipv4_config.address.clone();
    cidr.append("/32");
    Ok(
        IfaceAction::AddAddress {
            ifname: bearer_info.bearer.status.interface.clone(),
            cidr,
        },
    )
}

/// Exactly what `set_route` returns: the same guards as the address
/// installation but for the gateway, each with its own cause; the
/// planned mutation installs the default route via the gateway at the
/// de-prioritized metric 200.
pub open spec fn set_route_post(b: BearerInfo, r: Result<IfaceAction, BearerPlanError>) -> bool {
    if b.bearer.status.connected != YesNo::Yes {
        r == Err::<IfaceAction, BearerPlanError>(BearerPlanError::NotConnected)
    } else if b.bearer.ipv4_config.method@ != "static"@ {
        r == Err::<IfaceAction, BearerPlanError>(BearerPlanError::NotStatic)
    } else if b.bearer.status.interface@.len() == 0 {
        r == Err::<IfaceAction, BearerPlanError>(BearerPlanError::MissingInterface)
    } else if b.bearer.ipv4_config.gateway@.len() == 0 {
        r == Err::<IfaceAction, BearerPlanError>(BearerPlanError::MissingGateway)
    } else {
        r matches Ok(a) && a matches IfaceAction::AddDefaultRouteVia { ifname, gateway, metric }
            && ifname == b.bearer.status.interface && gateway == b.bearer.ipv4_config.gateway
            && metric == 200u32
    }
}

/// Plans the default-route installation for a connected bearer.
pub fn set_route(bearer_info: &BearerInfo) -> (r: Result<IfaceAction, BearerPlanError>)
    ensures
        set_route_post(*bearer_info, r),
{
    if !bearer_info.bearer.status.connected.is_yes() {
        return Err(BearerPlanError::NotConnected);
    }
    if !str_eq(bearer_info.bearer.ipv4_config.method.as_str(), "static") {
        return Err(BearerPlanError::NotStatic);
    }
    if bearer_info.bearer.status.interface.as_str().is_empty() {
        return Err(BearerPlanError::MissingInterface);
    }
    if bearer_info.bearer.ipv4_config.gateway.as_str().is_empty() {
        return Err(BearerPlanError::MissingGateway);
    }
    Ok(
        IfaceAction::AddDefaultRouteVia {
            ifname: bearer_info.bearer.status.interface.clone(),
            gateway: bearer_info.bearer.ipv4_config.gateway.clone(),
            metric: 200,
        },
    )
}

/// Selects the records of the snapshot that answer an address query for
/// `device`: those whose interface name is exactly `device`.
pub fn get_device_address(devices: DeviceList, device: &str) -> (r: AddressList)
    ensures
        r.0@ == spec_filter_by_name(devices.0@, device@),
{
    let mut src = devices.0;
    let ghost orig = src@;
    let mut out: Vec<Device> = Vec::new();
    while src.len() > 0
        invariant
            spec_filter_by_name(orig, device@) == out@ + spec_filter_by_name(src@, device@),
        decreases src@.len(),
    {
        let ghost pre = src@;
        let d = src.remove(0);
        proof {
            assert(src@ =~= pre.drop_first());
            assert(d == pre[0]);
        }
        if str_eq(d.ifname.as_str(), device) {
            let ghost old_out = out@;
            out.push(d);
            proof {
                assert(out@ =~= old_out + seq![pre[0]]);
                assert(old_out + (seq![pre[0]] + spec_filter_by_name(pre.drop_first(), device@))
                    =~= (old_out + seq![pre[0]]) + spec_filter_by_name(pre.drop_first(), device@));
            }
        }
    }
    proof {
        assert(spec_filter_by_name(src@, device@) =~= Seq::<Device>::empty());
        assert(out@ + Seq::<Device>::empty() =~= out@);
    }
    AddressList(out)
}

/// The addresses currently assigned on the interface the bearer is
/// bound to; fails with `InterfaceNotFound` when the bearer reports no
/// interface.
pub fn get_modem_real_ip(bearer_info: &BearerInfo, devices: DeviceList) -> (r: Result<
    AddressList,
    OrchError,
>)
    ensures
        bearer_info.bearer.status.interface@.len() == 0 ==> r == Err::<AddressList, OrchError>(
            OrchError::InterfaceNotFound,
        ),
        bearer_info.bearer.status.interface@.len() > 0 ==> (r matches Ok(l) && l.0@
            == spec_filter_by_name(devices.0@, bearer_info.bearer.status.interface@)),
{
    if bearer_info.bearer.status.interface.as_str().is_empty() {
        return Err(OrchError::InterfaceNotFound);
    }
    Ok(get_device_address(devices, bearer_info.bearer.status.interface.as_str()))
}

/// The address the daemon assigned to the bearer; fails with
/// `NoBearerAfterConnect` when the bearer carries none.
pub fn get_modem_apn_ip(bearer_info: &BearerInfo) -> (r: Result<String, OrchError>)
    ensures
        bearer_info.bearer.ipv4_config.address@.len() == 0 ==> r == Err::<String, OrchError>(
            OrchError::NoBearerAfterConnect,
        ),
        bearer_info.bearer.ipv4_config.address@.len() > 0 ==> (r matches Ok(s) && s
            == bearer_info.bearer.ipv4_config.address),
{
    if bearer_info.bearer.ipv4_config.address.as_str().is_empty() {
        Err(OrchError::NoBearerAfterConnect)
    } else {
        Ok(bearer_info.bearer.ipv4_config.address.clone())
    }
}

} // verus!
