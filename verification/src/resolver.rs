//! The binding resolver: derives which kernel interface drives a given
//! modem's data port, by classifying the modem's ports and looking the
//! network port's name up in an interface snapshot. Pure given its
//! inputs; fails closed when no binding exists.

use vstd::prelude::*;
use vstd::string::StrSliceExecFns;
use crate::errors::OrchError;
use crate::iface::{Device, DeviceList, spec_find_by_name};
use crate::modem::ModemInfo;
use crate::ports::{classify_ports, lemma_parsed_net_name, spec_net_name_of_raw, spec_ports_valid};

verus! {

/// The derived association between a modem and its driving kernel
/// interface. Not persisted; recomputed each time it is needed.
#[derive(Debug, Clone, PartialEq, Eq)]
pub struct Binding {
    /// The daemon path of the modem the binding was derived from.
    pub modem_path: String,
    /// The name of the modem's network-capable port.
    pub port_name: String,
    /// The numeric index of the driving interface.
    pub ifindex: u32,
    /// The name of the driving interface (equal to the port name).
    pub ifname: String,
}

/// Exactly what `resolve` returns for the given snapshots:
/// - malformed port descriptors fail with `ExternalTool`;
/// - an absent (hence empty) network port name fails with
///   `NoNetworkPort` — an empty selector is rejected, never matched;
/// - a network port name matching no interface fails with
///   `InterfaceNotFound`;
/// - otherwise the binding carries the first matching interface's
///   index and name.
pub open spec fn resolve_post(
    modem: ModemInfo,
    devices: DeviceList,
    r: Result<Binding, OrchError>,
) -> bool {
    let raw = modem.modem.generic.ports@;
    let net = spec_net_name_of_raw(raw);
    if !spec_ports_valid(raw) {
        r matches Err(e) && e matches OrchError::ExternalTool { message }
            && message@ == "malformed port descriptor"@
    } else if net.len() == 0 {
        r == Err::<Binding, OrchError>(OrchError::NoNetworkPort)
    } else {
        match spec_find_by_name(devices.0@, net) {
            None => r == Err::<Binding, OrchError>(OrchError::InterfaceNotFound),
            Some(d) => r matches Ok(b) && b.modem_path == modem.modem.dbus_path && b.port_name@
                == net && b.ifindex == d.ifindex && b.ifname == d.ifname,
        }
    }
}

/// Resolves the binding for `modem` against the interface snapshot
/// `devices`.
pub fn resolve(modem: &ModemInfo, devices: &DeviceList) -> (r: Result<Binding, OrchError>)
    ensures
        resolve_post(*modem, *devices, r),
{
    match classify_ports(&modem.modem.generic.ports) {
        None => Err(OrchError::ExternalTool { message: "malformed port descriptor".to_owned() }),
        Some(pl) => {
            proof {
                lemma_parsed_net_name(modem.modem.generic.ports@, pl.ports@);
            }
            let net = pl.get_net_name();
            if net.as_str().unicode_len() == 0 {
                Err(OrchError::NoNetworkPort)
            } else {
                match devices.find_by_name(net.as_str()) {
                    None => Err(OrchError::InterfaceNotFound),
                    Some(d) => Ok(
                        Binding {
                            modem_path: modem.modem.dbus_path.clone(),
                            port_name: net,
                            ifindex: d.ifindex,
                            ifname: d.ifname.clone(),
                        },
                    ),
                }
            }
        },
    }
}

/// Law: a modem whose (well-formed) port list holds no network-capable
/// entry cannot be resolved: the resolver fails with `NoNetworkPort`.
pub proof fn lemma_no_net_port_fails(
    modem: ModemInfo,
    devices: DeviceList,
    r: Result<Binding, OrchError>,
)
    requires
        resolve_post(modem, devices, r),
        spec_ports_valid(modem.modem.generic.ports@),
        forall|i: int|
            0 <= i < modem.modem.generic.ports@.len() ==> crate::ports::spec_port_kind(
                #[trigger] modem.modem.generic.ports@[i]@,
            ) != crate::ports::DeviceType::Net,
    ensures
        r == Err::<Binding, OrchError>(OrchError::NoNetworkPort),
{
    crate::ports::lemma_raw_net_name_absent(modem.modem.generic.ports@);
}

/// Two bindings that agree on every observable field.
pub open spec fn binding_like(a: Binding, b: Binding) -> bool {
    a.modem_path == b.modem_path && a.port_name@ == b.port_name@ && a.ifindex == b.ifindex
        && a.ifname == b.ifname
}

/// Two errors of the same kind (messages compared by their characters).
pub open spec fn error_like(a: OrchError, b: OrchError) -> bool {
    match (a, b) {
        (OrchError::ExternalTool { message: m1 }, OrchError::ExternalTool { message: m2 }) => m1@
            == m2@,
        _ => a == b,
    }
}

/// Law: the resolver is idempotent — resolving twice from identical
/// input snapshots yields equal bindings (or the same failure).
pub proof fn lemma_resolve_idempotent(
    modem: ModemInfo,
    devices: DeviceList,
    r1: Result<Binding, OrchError>,
    r2: Result<Binding, OrchError>,
)
    requires
        resolve_post(modem, devices, r1),
        resolve_post(modem, devices, r2),
    ensures
        r1 is Ok <==> r2 is Ok,
        match (r1, r2) {
            (Ok(b1), Ok(b2)) => binding_like(b1, b2),
            (Err(e1), Err(e2)) => error_like(e1, e2),
            _ => true,
        },
{
}

} // verus!
