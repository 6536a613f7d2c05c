use lteman::bearer::{
    Bearer, BearerInfo, ConnectionError, Ipv4Config, Ipv6Config, Properties, Stats, Status, YesNo,
};
use lteman::cli::Lte;
use lteman::errors::OrchError;
use lteman::iface::{AddrInfo, Device, DeviceList};
use lteman::modem::{
    Cdma, Eps, Generic, InitialBearer, Modem, ModemInfo, ModemState, N3gpp, N5gnr,
    RegistrationSettings, Settings, SignalQuality,
};
use lteman::orchestrator::{Action, Event, IfaceAction, Orchestrator, Phase};

fn om_modem(path: &str, state: ModemState, bearers: &[&str], ports: &[&str]) -> ModemInfo {
    ModemInfo {
        modem: Modem {
            n3gpp: N3gpp {
                n5gnr: N5gnr {
                    registration_settings: RegistrationSettings {
                        drx_cycle: String::new(),
                        mico_mode: String::new(),
                    },
                },
                enabled_locks: vec![],
                eps: Eps {
                    initial_bearer: InitialBearer {
                        dbus_path: String::new(),
                        settings: Settings {
                            apn: String::new(),
                            ip_type: String::new(),
                            password: String::new(),
                            user: String::new(),
                        },
                    },
                    ue_mode_operation: String::new(),
                },
                imei: String::new(),
                operator_code: String::new(),
                operator_name: String::new(),
                packet_service_state: String::new(),
                pco: String::new(),
                registration_state: String::new(),
            },
            cdma: Cdma {
                activation_state: String::new(),
                cdma1x_registration_state: String::new(),
                esn: String::new(),
                evdo_registration_state: String::new(),
                meid: String::new(),
                nid: String::new(),
                sid: String::new(),
            },
            dbus_path: path.to_string(),
            generic: Generic {
                bearers: bearers.iter().map(|s| s.to_string()).collect(),
                device: String::new(),
                manufacturer: String::new(),
                model: String::new(),
                ports: ports.iter().map(|s| s.to_string()).collect(),
                power_state: String::new(),
                primary_port: String::new(),
                signal_quality: SignalQuality { recent: String::new(), value: String::new() },
                state,
                state_failed_reason: String::new(),
            },
        },
    }
}

fn om_bearer(connected: YesNo, interface: &str, address: &str) -> BearerInfo {
    BearerInfo {
        bearer: Bearer {
            dbus_path: "/b/0".to_string(),
            ipv4_config: Ipv4Config {
                address: address.to_string(),
                dns: vec![],
                gateway: "10.0.0.1".to_string(),
                method: "static".to_string(),
                mtu: String::new(),
                prefix: String::new(),
            },
            ipv6_config: Ipv6Config {
                address: String::new(),
                dns: vec![],
                gateway: String::new(),
                method: String::new(),
                mtu: String::new(),
                prefix: String::new(),
            },
            properties: Properties {
                access_type_preference: String::new(),
                allowed_auth: vec![],
                apn: String::new(),
                apn_type: String::new(),
                ip_type: String::new(),
                password: String::new(),
                profile_id: String::new(),
                rm_protocol: String::new(),
                roaming: String::new(),
                roaming_allowance: String::new(),
                user: String::new(),
            },
            stats: Stats {
                attempts: String::new(),
                bytes_rx: String::new(),
                bytes_tx: String::new(),
                downlink_speed: String::new(),
                duration: String::new(),
                failed_attempts: String::new(),
                start_date: String::new(),
                total_bytes_rx: String::new(),
                total_bytes_tx: String::new(),
                total_duration: String::new(),
                uplink_speed: String::new(),
            },
            status: Status {
                connected,
                connection_error: ConnectionError { message: String::new(), name: String::new() },
                interface: interface.to_string(),
                ip_timeout: String::new(),
                multiplexed: String::new(),
                profile_id: String::new(),
                suspended: String::new(),
            },
            type_field: String::new(),
        },
    }
}

fn om_device(ifindex: u32, ifname: &str) -> Device {
    Device {
        ifindex,
        ifname: ifname.to_string(),
        flags: vec![],
        mtu: 1500,
        qdisc: String::new(),
        operstate: "DOWN".to_string(),
        group: "default".to_string(),
        txqlen: 1000,
        link_type: "ether".to_string(),
        address: None,
        broadcast: None,
        addr_info: Vec::<AddrInfo>::new(),
    }
}

fn om_lte(connect: bool, disconnect: bool) -> Lte {
    Lte { disconnect, connect, modem_id: 0, apn: "cmnet".to_string() }
}

fn mutation_count(actions: &[Option<Action>]) -> usize {
    actions
        .iter()
        .filter(|a| matches!(a, Some(Action::Mutate { .. })))
        .count()
}

#[test]
fn connect_flow_issues_mutations_in_exact_order() {
    let orch = Orchestrator::new(&om_lte(true, false), "0".to_string(), true);
    let (orch, a) = orch.step(Event::Start);
    assert_eq!(a, Some(Action::FetchModem { selector: "0".to_string() }));
    let m = om_modem(
        "/m/0",
        ModemState::Disconnected,
        &["/b/0"],
        &["wwan0 (net)", "cdc-wdm0 (mbim)"],
    );
    let (orch, a) = orch.step(Event::ModemFetched { modem: m });
    assert_eq!(
        a,
        Some(Action::DaemonConnect { modem: "/m/0".to_string(), apn: "cmnet".to_string() })
    );
    let (orch, a) = orch.step(Event::DaemonOk);
    assert_eq!(a, Some(Action::FetchModem { selector: "0".to_string() }));
    let refreshed = om_modem(
        "/m/0",
        ModemState::Connected,
        &["/b/0"],
        &["wwan0 (net)", "cdc-wdm0 (mbim)"],
    );
    let (orch, a) = orch.step(Event::ModemFetched { modem: refreshed });
    assert_eq!(a, Some(Action::FetchBearer { bearer: "/b/0".to_string() }));
    let (orch, a) = orch.step(
        Event::BearerFetched { bearer: om_bearer(YesNo::Yes, "wwan0", "10.0.0.5") },
    );
    assert_eq!(a, Some(Action::FetchDevices));
    let devices = DeviceList(vec![om_device(1, "lo"), om_device(3, "wwan0")]);
    let (orch, a) = orch.step(Event::DevicesFetched { devices });
    assert_eq!(
        a,
        Some(Action::Mutate { action: IfaceAction::Flush { ifname: "wwan0".to_string() } })
    );
    let (orch, a) = orch.step(Event::MutationOk);
    assert_eq!(
        a,
        Some(Action::Mutate {
            action: IfaceAction::AddAddress {
                ifname: "wwan0".to_string(),
                cidr: "10.0.0.5/32".to_string(),
            },
        })
    );
    let (orch, a) = orch.step(Event::MutationOk);
    assert_eq!(
        a,
        Some(Action::Mutate { action: IfaceAction::SetUp { ifname: "wwan0".to_string() } })
    );
    let (orch, a) = orch.step(Event::MutationOk);
    assert_eq!(
        a,
        Some(Action::Mutate {
            action: IfaceAction::AddDefaultRoute { ifname: "wwan0".to_string(), metric: 200 },
        })
    );
    let (orch, a) = orch.step(Event::MutationOk);
    assert_eq!(a, None);
    assert!(matches!(orch.phase, Phase::Done));
}

#[test]
fn connect_refused_when_already_connected() {
    let orch = Orchestrator::new(&om_lte(true, false), "0".to_string(), true);
    let mut actions: Vec<Option<Action>> = Vec::new();
    let (orch, a) = orch.step(Event::Start);
    actions.push(a);
    let m = om_modem("/m/0", ModemState::Connected, &["/b/0"], &["wwan0 (net)"]);
    let (orch, a) = orch.step(Event::ModemFetched { modem: m });
    actions.push(a.clone());
    assert_eq!(a, None);
    assert!(matches!(orch.phase, Phase::Done));
    assert_eq!(mutation_count(&actions), 0);
}

#[test]
fn connect_and_disconnect_together_rejected_before_any_mutation() {
    let orch = Orchestrator::new(&om_lte(true, true), "0".to_string(), true);
    let mut actions: Vec<Option<Action>> = Vec::new();
    let (orch, a) = orch.step(Event::Start);
    actions.push(a.clone());
    assert_eq!(a, None);
    assert!(matches!(
        orch.phase,
        Phase::Failed { error: OrchError::InvalidInput }
    ));
    assert_eq!(mutation_count(&actions), 0);
}

#[test]
fn unprivileged_caller_rejected_before_any_mutation() {
    let orch = Orchestrator::new(&om_lte(true, false), "0".to_string(), false);
    let (orch, a) = orch.step(Event::Start);
    assert_eq!(a, None);
    assert!(matches!(
        orch.phase,
        Phase::Failed { error: OrchError::PermissionDenied }
    ));
}

#[test]
fn no_requested_mode_completes_without_actions() {
    let orch = Orchestrator::new(&om_lte(false, false), "0".to_string(), true);
    let (orch, a) = orch.step(Event::Start);
    assert_eq!(a, None);
    assert!(matches!(orch.phase, Phase::Done));
}

#[test]
fn empty_bearer_list_after_connect_aborts_without_mutation() {
    let orch = Orchestrator::new(&om_lte(true, false), "0".to_string(), true);
    let mut actions: Vec<Option<Action>> = Vec::new();
    let (orch, a) = orch.step(Event::Start);
    actions.push(a);
    let m = om_modem("/m/0", ModemState::Disconnected, &[], &["wwan0 (net)"]);
    let (orch, a) = orch.step(Event::ModemFetched { modem: m });
    actions.push(a);
    let (orch, a) = orch.step(Event::DaemonOk);
    actions.push(a);
    let refreshed = om_modem("/m/0", ModemState::Connected, &[], &["wwan0 (net)"]);
    let (orch, a) = orch.step(Event::ModemFetched { modem: refreshed });
    actions.push(a.clone());
    assert_eq!(a, None);
    assert!(matches!(
        orch.phase,
        Phase::Failed { error: OrchError::NoBearerAfterConnect }
    ));
    assert_eq!(mutation_count(&actions), 0);
}

#[test]
fn bearer_not_connected_aborts_without_mutation() {
    let orch = Orchestrator::new(&om_lte(true, false), "0".to_string(), true);
    let (orch, _) = orch.step(Event::Start);
    let m = om_modem("/m/0", ModemState::Disconnected, &["/b/0"], &["wwan0 (net)"]);
    let (orch, _) = orch.step(Event::ModemFetched { modem: m });
    let (orch, _) = orch.step(Event::DaemonOk);
    let refreshed = om_modem("/m/0", ModemState::Connected, &["/b/0"], &["wwan0 (net)"]);
    let (orch, _) = orch.step(Event::ModemFetched { modem: refreshed });
    let (orch, a) = orch.step(
        Event::BearerFetched { bearer: om_bearer(YesNo::No, "wwan0", "10.0.0.5") },
    );
    assert_eq!(a, None);
    assert!(matches!(
        orch.phase,
        Phase::Failed { error: OrchError::NoBearerAfterConnect }
    ));
}

#[test]
fn disconnect_flow_tears_down_in_exact_order() {
    let orch = Orchestrator::new(&om_lte(false, true), "0".to_string(), true);
    let (orch, a) = orch.step(Event::Start);
    assert_eq!(a, Some(Action::FetchModem { selector: "0".to_string() }));
    let m = om_modem(
        "/m/0",
        ModemState::Connected,
        &["/b/0"],
        &["wwan0 (net)", "cdc-wdm0 (mbim)"],
    );
    let (orch, a) = orch.step(Event::ModemFetched { modem: m });
    assert_eq!(a, Some(Action::DaemonDisconnect { modem: "/m/0".to_string() }));
    let (orch, a) = orch.step(Event::DaemonOk);
    assert_eq!(a, Some(Action::FetchDevices));
    let devices = DeviceList(vec![om_device(3, "wwan0")]);
    let (orch, a) = orch.step(Event::DevicesFetched { devices });
    assert_eq!(
        a,
        Some(Action::Mutate {
            action: IfaceAction::DelDefaultRoute { ifname: "wwan0".to_string(), metric: 200 },
        })
    );
    let (orch, a) = orch.step(Event::MutationOk);
    assert_eq!(
        a,
        Some(Action::Mutate { action: IfaceAction::Flush { ifname: "wwan0".to_string() } })
    );
    let (orch, a) = orch.step(Event::MutationOk);
    assert_eq!(
        a,
        Some(Action::Mutate { action: IfaceAction::SetDown { ifname: "wwan0".to_string() } })
    );
    let (orch, a) = orch.step(Event::MutationOk);
    assert_eq!(a, None);
    assert!(matches!(orch.phase, Phase::Done));
}

#[test]
fn disconnect_tolerates_absent_route() {
    let orch = Orchestrator::new(&om_lte(false, true), "0".to_string(), true);
    let (orch, _) = orch.step(Event::Start);
    let m = om_modem("/m/0", ModemState::Disconnected, &[], &["wwan0 (net)"]);
    let (orch, _) = orch.step(Event::ModemFetched { modem: m });
    let (orch, _) = orch.step(Event::DaemonOk);
    let devices = DeviceList(vec![om_device(3, "wwan0")]);
    let (orch, a) = orch.step(Event::DevicesFetched { devices });
    assert_eq!(
        a,
        Some(Action::Mutate {
            action: IfaceAction::DelDefaultRoute { ifname: "wwan0".to_string(), metric: 200 },
        })
    );
    // The route is already absent: the deletion fails, but the teardown
    // continues exactly as on success.
    let (orch, a) = orch.step(
        Event::StepFailed { message: "RTNETLINK answers: No such process".to_string() },
    );
    assert_eq!(
        a,
        Some(Action::Mutate { action: IfaceAction::Flush { ifname: "wwan0".to_string() } })
    );
    let (orch, a) = orch.step(Event::MutationOk);
    assert_eq!(
        a,
        Some(Action::Mutate { action: IfaceAction::SetDown { ifname: "wwan0".to_string() } })
    );
    let (orch, a) = orch.step(Event::MutationOk);
    assert_eq!(a, None);
    assert!(matches!(orch.phase, Phase::Done));
}

#[test]
fn disconnect_without_network_port_fails_after_daemon_request() {
    let orch = Orchestrator::new(&om_lte(false, true), "0".to_string(), true);
    let (orch, _) = orch.step(Event::Start);
    let m = om_modem("/m/0", ModemState::Disconnected, &[], &["cdc-wdm0 (mbim)"]);
    let (orch, a) = orch.step(Event::ModemFetched { modem: m });
    assert_eq!(a, Some(Action::DaemonDisconnect { modem: "/m/0".to_string() }));
    let (orch, a) = orch.step(Event::DaemonOk);
    assert_eq!(a, None);
    assert!(matches!(
        orch.phase,
        Phase::Failed { error: OrchError::NoNetworkPort }
    ));
}

#[test]
fn query_failure_surfaces_external_tool_error() {
    let orch = Orchestrator::new(&om_lte(true, false), "0".to_string(), true);
    let (orch, _) = orch.step(Event::Start);
    let (orch, a) = orch.step(Event::StepFailed { message: "mmcli: not found".to_string() });
    assert_eq!(a, None);
    match orch.phase {
        Phase::Failed { error: OrchError::ExternalTool { message } } => {
            assert_eq!(message, "mmcli: not found");
        },
        other => panic!("unexpected phase: {:?}", other),
    }
}

#[test]
fn non_tolerated_mutation_failure_aborts() {
    let orch = Orchestrator::new(&om_lte(true, false), "0".to_string(), true);
    let (orch, _) = orch.step(Event::Start);
    let m = om_modem("/m/0", ModemState::Disconnected, &[], &["wwan0 (net)"]);
    let (orch, _) = orch.step(Event::ModemFetched { modem: m });
    let (orch, _) = orch.step(Event::DaemonOk);
    let (orch, _) = orch.step(
        Event::ModemFetched {
            modem: om_modem("/m/0", ModemState::Connected, &["/b/0"], &["wwan0 (net)"]),
        },
    );
    let (orch, _) = orch.step(
        Event::BearerFetched { bearer: om_bearer(YesNo::Yes, "wwan0", "10.0.0.5") },
    );
    let devices = DeviceList(vec![om_device(3, "wwan0")]);
    let (orch, a) = orch.step(Event::DevicesFetched { devices });
    assert_eq!(
        a,
        Some(Action::Mutate { action: IfaceAction::Flush { ifname: "wwan0".to_string() } })
    );
    let (orch, a) = orch.step(Event::StepFailed { message: "ip: permission denied".to_string() });
    assert_eq!(a, None);
    assert!(matches!(
        orch.phase,
        Phase::Failed { error: OrchError::ExternalTool { .. } }
    ));
}
