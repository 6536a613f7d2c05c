//! Modem snapshots as reported by the modem-management daemon: identity,
//! connection state, bearers and raw port descriptors. String-typed
//! enumerations of the daemon are mapped to closed variants at the
//! ingestion boundary, with an `Unrecognized` fallback.

use vstd::prelude::*;
use crate::ports::{PortList, spec_net_name_of_raw, spec_ports_valid, lemma_parsed_net_name};
use crate::strutil::str_eq;

verus! {

/// The modem's connection state, as enumerated by the daemon.
#[derive(Debug, Clone, PartialEq, Eq)]
pub enum ModemState {
    Disconnected,
    Connecting,
    Connected,
    Disconnecting,
    Failed,
    Unrecognized(String),
}

/// `r` is the closed variant for the daemon's state string `s`.
pub open spec fn spec_state_matches(s: Seq<char>, r: ModemState) -> bool {
    if s == "disconnected"@ {
        r == ModemState::Disconnected
    } else if s == "connecting"@ {
        r == ModemState::Connecting
    } else if s == "connected"@ {
        r == ModemState::Connected
    } else if s == "disconnecting"@ {
        r == ModemState::Disconnecting
    } else if s == "failed"@ {
        r == ModemState::Failed
    } else {
        r matches ModemState::Unrecognized(t) && t@ == s
    }
}

impl ModemState {
    /// Maps a daemon state string to its closed variant.
    pub fn parse(s: &str) -> (r: ModemState)
        ensures
            spec_state_matches(s@, r),
    {
        if str_eq(s, "disconnected") {
            ModemState::Disconnected
        } else if str_eq(s, "connecting") {
            ModemState::Connecting
        } else if str_eq(s, "connected") {
            ModemState::Connected
        } else if str_eq(s, "disconnecting") {
            ModemState::Disconnecting
        } else if str_eq(s, "failed") {
            ModemState::Failed
        } else {
            ModemState::Unrecognized(s.to_owned())
        }
    }

    /// Whether the modem is currently connected.
    pub fn is_connected(&self) -> (r: bool)
        ensures
            r == (*self == ModemState::Connected),
    {
        match self {
            ModemState::Connected => true,
            _ => false,
        }
    }
}

#[derive(Debug, Clone, PartialEq, Eq)]
pub struct SignalQuality {
    pub recent: String,
    pub value: String,
}

#[derive(Debug, Clone, PartialEq, Eq)]
pub struct RegistrationSettings {
    pub drx_cycle: String,
    pub mico_mode: String,
}

#[derive(Debug, Clone, PartialEq, Eq)]
pub struct N5gnr {
    pub registration_settings: RegistrationSettings,
}

#[derive(Debug, Clone, PartialEq, Eq)]
pub struct Settings {
    pub apn: String,
    pub ip_type: String,
    pub password: String,
    pub user: String,
}

#[derive(Debug, Clone, PartialEq, Eq)]
pub struct InitialBearer {
    pub dbus_path: String,
    pub settings: Settings,
}

#[derive(Debug, Clone, PartialEq, Eq)]
pub struct Eps {
    pub initial_bearer: InitialBearer,
    pub ue_mode_operation: String,
}

#[derive(Debug, Clone, PartialEq, Eq)]
pub struct N3gpp {
    pub n5gnr: N5gnr,
    pub enabled_locks: Vec<String>,
    pub eps: Eps,
    pub imei: String,
    pub operator_code: String,
    pub operator_name: String,
    pub packet_service_state: String,
    pub pco: String,
    pub registration_state: String,
}

#[derive(Debug, Clone, PartialEq, Eq)]
pub struct Cdma {
    pub activation_state: String,
    pub cdma1x_registration_state: String,
    pub esn: String,
    pub evdo_registration_state: String,
    pub meid: String,
    pub nid: String,
    pub sid: String,
}

/// The generic section of a modem snapshot, pared to the fields the
/// orchestrator and the listings consume.
#[derive(Debug, Clone, PartialEq, Eq)]
pub struct Generic {
    pub bearers: Vec<String>,
    pub device: String,
    pub manufacturer: String,
    pub model: String,
    pub ports: Vec<String>,
    pub power_state: String,
    pub primary_port: String,
    pub signal_quality: SignalQuality,
    pub state: ModemState,
    pub state_failed_reason: String,
}

/// One modem as reported by the daemon.
#[derive(Debug, Clone, PartialEq, Eq)]
pub struct Modem {
    pub n3gpp: N3gpp,
    pub cdma: Cdma,
    pub dbus_path: String,
    pub generic: Generic,
}

/// A point-in-time snapshot of one modem.
#[derive(Debug, Clone, PartialEq, Eq)]
pub struct ModemInfo {
    pub modem: Modem,
}

impl ModemInfo {
    /// The name of the modem's network-capable port, or empty if none.
    /// The snapshot's port descriptors must be well-formed two-token
    /// strings.
    pub fn net_device_name(&self) -> (r: String)
        requires
            spec_ports_valid(self.modem.generic.ports@),
        ensures
            r@ == spec_net_name_of_raw(self.modem.generic.ports@),
    {
        let port_list = PortList::from_vec_string(&self.modem.generic.ports);
        proof {
            lemma_parsed_net_name(self.modem.generic.ports@, port_list.ports@);
        }
        port_list.get_net_name()
    }
}

/// The daemon's enumeration of known modem ids.
#[derive(Debug, Clone, PartialEq, Eq)]
pub struct ModemIDList {
    pub modem_id_list: Vec<String>,
}

} // verus!
