use lteman::bearer::YesNo;
use lteman::modem::{
    Cdma, Eps, Generic, InitialBearer, Modem, ModemInfo, ModemState, N3gpp, N5gnr,
    RegistrationSettings, Settings, SignalQuality,
};

fn mm_modem(ports: &[&str]) -> ModemInfo {
    ModemInfo {
        modem: Modem {
            n3gpp: N3gpp {
                n5gnr: N5gnr {
                    registration_settings: RegistrationSettings {
                        drx_cycle: String::new(),
                        mico_mode: String::new(),
                    },
                },
                enabled_locks: vec![],
                eps: Eps {
                    initial_bearer: InitialBearer {
                        dbus_path: String::new(),
                        settings: Settings {
                            apn: String::new(),
                            ip_type: String::new(),
                            password: String::new(),
                            user: String::new(),
                        },
                    },
                    ue_mode_operation: String::new(),
                },
                imei: String::new(),
                operator_code: String::new(),
                operator_name: String::new(),
                packet_service_state: String::new(),
                pco: String::new(),
                registration_state: String::new(),
            },
            cdma: Cdma {
                activation_state: String::new(),
                cdma1x_registration_state: String::new(),
                esn: String::new(),
                evdo_registration_state: String::new(),
                meid: String::new(),
                nid: String::new(),
                sid: String::new(),
            },
            dbus_path: "/m/0".to_string(),
            generic: Generic {
                bearers: vec![],
                device: String::new(),
                manufacturer: String::new(),
                model: String::new(),
                ports: ports.iter().map(|s| s.to_string()).collect(),
                power_state: String::new(),
                primary_port: String::new(),
                signal_quality: SignalQuality { recent: String::new(), value: String::new() },
                state: ModemState::Disconnected,
                state_failed_reason: String::new(),
            },
        },
    }
}

#[test]
fn modem_state_maps_known_strings() {
    assert_eq!(ModemState::parse("disconnected"), ModemState::Disconnected);
    assert_eq!(ModemState::parse("connecting"), ModemState::Connecting);
    assert_eq!(ModemState::parse("connected"), ModemState::Connected);
    assert_eq!(ModemState::parse("disconnecting"), ModemState::Disconnecting);
    assert_eq!(ModemState::parse("failed"), ModemState::Failed);
    assert_eq!(
        ModemState::parse("registered"),
        ModemState::Unrecognized("registered".to_string())
    );
    assert!(ModemState::Connected.is_connected());
    assert!(!ModemState::Disconnected.is_connected());
    assert!(!ModemState::Unrecognized("connected?".to_string()).is_connected());
}

#[test]
fn yes_no_maps_known_strings() {
    assert_eq!(YesNo::parse("yes"), YesNo::Yes);
    assert_eq!(YesNo::parse("no"), YesNo::No);
    assert_eq!(YesNo::parse("maybe"), YesNo::Unrecognized("maybe".to_string()));
    assert!(YesNo::Yes.is_yes());
    assert!(!YesNo::No.is_yes());
    assert!(!YesNo::Unrecognized("yes!".to_string()).is_yes());
}

#[test]
fn net_device_name_extracts_network_port() {
    let m = mm_modem(&["cdc-wdm0 (mbim)", "wwan0 (net)", "ttyUSB0 (at)"]);
    assert_eq!(m.net_device_name(), "wwan0");
    let none = mm_modem(&["cdc-wdm0 (mbim)"]);
    assert_eq!(none.net_device_name(), "");
}
