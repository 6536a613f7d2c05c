use lteman::errors::OrchError;
use lteman::iface::{AddrInfo, Device, DeviceList};
use lteman::modem::{
    Cdma, Eps, Generic, InitialBearer, Modem, ModemInfo, ModemState, N3gpp, N5gnr,
    RegistrationSettings, Settings, SignalQuality,
};
use lteman::resolver::resolve;

fn rv_n3gpp() -> N3gpp {
    N3gpp {
        n5gnr: N5gnr {
            registration_settings: RegistrationSettings {
                drx_cycle: String::new(),
                mico_mode: String::new(),
            },
        },
        enabled_locks: vec![],
        eps: Eps {
            initial_bearer: InitialBearer {
                dbus_path: String::new(),
                settings: Settings {
                    apn: String::new(),
                    ip_type: String::new(),
                    password: String::new(),
                    user: String::new(),
                },
            },
            ue_mode_operation: String::new(),
        },
        imei: String::new(),
        operator_code: String::new(),
        operator_name: String::new(),
        packet_service_state: String::new(),
        pco: String::new(),
        registration_state: String::new(),
    }
}

fn rv_cdma() -> Cdma {
    Cdma {
        activation_state: String::new(),
        cdma1x_registration_state: String::new(),
        esn: String::new(),
        evdo_registration_state: String::new(),
        meid: String::new(),
        nid: String::new(),
        sid: String::new(),
    }
}

fn rv_modem(path: &str, state: ModemState, bearers: &[&str], ports: &[&str]) -> ModemInfo {
    ModemInfo {
        modem: Modem {
            n3gpp: rv_n3gpp(),
            cdma: rv_cdma(),
            dbus_path: path.to_string(),
            generic: Generic {
                bearers: bearers.iter().map(|s| s.to_string()).collect(),
                device: String::new(),
                manufacturer: String::new(),
                model: String::new(),
                ports: ports.iter().map(|s| s.to_string()).collect(),
                power_state: String::new(),
                primary_port: String::new(),
                signal_quality: SignalQuality { recent: String::new(), value: String::new() },
                state,
                state_failed_reason: String::new(),
            },
        },
    }
}

fn rv_device(ifindex: u32, ifname: &str) -> Device {
    Device {
        ifindex,
        ifname: ifname.to_string(),
        flags: vec![],
        mtu: 1500,
        qdisc: String::new(),
        operstate: "DOWN".to_string(),
        group: "default".to_string(),
        txqlen: 1000,
        link_type: "ether".to_string(),
        address: None,
        broadcast: None,
        addr_info: Vec::<AddrInfo>::new(),
    }
}

#[test]
fn resolves_binding_for_network_port() {
    let modem = rv_modem(
        "/org/freedesktop/ModemManager1/Modem/0",
        ModemState::Disconnected,
        &[],
        &["wwan0 (net)", "cdc-wdm0 (mbim)"],
    );
    let devices = DeviceList(vec![rv_device(1, "lo"), rv_device(3, "wwan0")]);
    let binding = resolve(&modem, &devices).unwrap();
    assert_eq!(binding.ifindex, 3);
    assert_eq!(binding.ifname, "wwan0");
    assert_eq!(binding.port_name, "wwan0");
    assert_eq!(binding.modem_path, "/org/freedesktop/ModemManager1/Modem/0");
}

#[test]
fn resolve_is_idempotent() {
    let modem = rv_modem(
        "/m/1",
        ModemState::Connected,
        &[],
        &["cdc-wdm0 (mbim)", "wwan0 (net)"],
    );
    let devices = DeviceList(vec![rv_device(3, "wwan0")]);
    let first = resolve(&modem, &devices);
    let second = resolve(&modem, &devices);
    assert_eq!(first, second);
}

#[test]
fn resolve_fails_without_network_port() {
    let modem = rv_modem("/m/1", ModemState::Disconnected, &[], &["cdc-wdm0 (mbim)"]);
    let devices = DeviceList(vec![rv_device(3, "wwan0")]);
    assert_eq!(resolve(&modem, &devices), Err(OrchError::NoNetworkPort));
    let none = rv_modem("/m/1", ModemState::Disconnected, &[], &[]);
    assert_eq!(resolve(&none, &devices), Err(OrchError::NoNetworkPort));
}

#[test]
fn resolve_fails_when_interface_missing() {
    let modem = rv_modem("/m/1", ModemState::Disconnected, &[], &["wwan7 (net)"]);
    let devices = DeviceList(vec![rv_device(3, "wwan0")]);
    assert_eq!(resolve(&modem, &devices), Err(OrchError::InterfaceNotFound));
}

#[test]
fn resolve_fails_on_malformed_descriptor() {
    let modem = rv_modem("/m/1", ModemState::Disconnected, &[], &["wwan0"]);
    let devices = DeviceList(vec![rv_device(3, "wwan0")]);
    match resolve(&modem, &devices) {
        Err(OrchError::ExternalTool { message }) => {
            assert_eq!(message, "malformed port descriptor");
        },
        other => panic!("unexpected result: {:?}", other),
    }
}
