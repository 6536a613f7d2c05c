//! Bearer snapshots: the data-session object the daemon creates when a
//! connection is established, holding the assigned IPv4 configuration
//! and the bound kernel interface name.

use vstd::prelude::*;
use crate::strutil::str_eq;

verus! {

/// A yes/no answer of the daemon, with an `Unrecognized` fallback for
/// future values.
#[derive(Debug, Clone, PartialEq, Eq)]
pub enum YesNo {
    Yes,
    No,
    Unrecognized(String),
}

/// `r` is the closed variant for the daemon's answer string `s`.
pub open spec fn spec_yes_no_matches(s: Seq<char>, r: YesNo) -> bool {
    if s == "yes"@ {
        r == YesNo::Yes
    } else if s == "no"@ {
        r == YesNo::No
    } else {
        r matches YesNo::Unrecognized(t) && t@ == s
    }
}

impl YesNo {
    /// Maps a daemon answer string to its closed variant.
    pub fn parse(s: &str) -> (r: YesNo)
        ensures
            spec_yes_no_matches(s@, r),
    {
        if str_eq(s, "yes") {
            YesNo::Yes
        } else if str_eq(s, "no") {
            YesNo::No
        } else {
            YesNo::Unrecognized(s.to_owned())
        }
    }

    /// Whether the answer is `yes`.
    pub fn is_yes(&self) -> (r: bool)
        ensures
            r == (*self == YesNo::Yes),
    {
        match self {
            YesNo::Yes => true,
            _ => false,
        }
    }
}

/// The IPv4 configuration assigned to a connected bearer.
#[derive(Debug, Clone, PartialEq, Eq)]
pub struct Ipv4Config {
    pub address: String,
    pub dns: Vec<String>,
    pub gateway: String,
    pub method: String,
    pub mtu: String,
    pub prefix: String,
}

/// The IPv6 configuration assigned to a connected bearer.
#[derive(Debug, Clone, PartialEq, Eq)]
pub struct Ipv6Config {
    pub address: String,
    pub dns: Vec<String>,
    pub gateway: String,
    pub method: String,
    pub mtu: String,
    pub prefix: String,
}

/// The properties the bearer was created with.
#[derive(Debug, Clone, PartialEq, Eq)]
pub struct Properties {
    pub access_type_preference: String,
    pub allowed_auth: Vec<String>,
    pub apn: String,
    pub apn_type: String,
    pub ip_type: String,
    pub password: String,
    pub profile_id: String,
    pub rm_protocol: String,
    pub roaming: String,
    pub roaming_allowance: String,
    pub user: String,
}

/// Transfer statistics of the bearer.
#[derive(Debug, Clone, PartialEq, Eq)]
pub struct Stats {
    pub attempts: String,
    pub bytes_rx: String,
    pub bytes_tx: String,
    pub downlink_speed: String,
    pub duration: String,
    pub failed_attempts: String,
    pub start_date: String,
    pub total_bytes_rx: String,
    pub total_bytes_tx: String,
    pub total_duration: String,
    pub uplink_speed: String,
}

/// The error the daemon reported for the bearer's last connection
/// attempt, if any.
#[derive(Debug, Clone, PartialEq, Eq)]
pub struct ConnectionError {
    pub message: String,
    pub name: String,
}

/// The bearer's connection status: whether it is connected and which
/// kernel interface the daemon bound it to.
#[derive(Debug, Clone, PartialEq, Eq)]
pub struct Status {
    pub connected: YesNo,
    pub connection_error: ConnectionError,
    pub interface: String,
    pub ip_timeout: String,
    pub multiplexed: String,
    pub profile_id: String,
    pub suspended: String,
}

/// One bearer as reported by the daemon.
#[derive(Debug, Clone, PartialEq, Eq)]
pub struct Bearer {
    pub dbus_path: String,
    pub ipv4_config: Ipv4Config,
    pub ipv6_config: Ipv6Config,
    pub properties: Properties,
    pub stats: Stats,
    pub status: Status,
    pub type_field: String,
}

/// A point-in-time snapshot of one bearer.
#[derive(Debug, Clone, PartialEq, Eq)]
pub struct BearerInfo {
    pub bearer: Bearer,
}

} // verus!
