use orbit::active::{
    disconnect_ap, get_active_ssid, get_wireless_devices, is_captive_portal, scan_targets,
    ActiveConnection, DeviceRecord, Reading,
};
use orbit::bus::{BusValue, Entry};
use orbit::connect::{
    check_path, connect_hidden, connect_to_network, new_profile, poll_result, Activation,
    BrokerError,
    ConnectPoll, PollStep, POLL_ATTEMPTS, POLL_INTERVAL_MS,
};
use orbit::profiles::{get_setting, Profile, SettingsGroup};

const DEVICE: &str = "/org/freedesktop/NetworkManager/Devices/3";

fn stored(path: &str, ssid: &[u8]) -> Profile {
    Profile {
        path: path.to_string(),
        settings: Some(vec![
            SettingsGroup {
                name: "connection".to_string(),
                entries: vec![Entry { key: "autoconnect".to_string(), value: BusValue::Bool(false) }],
            },
            SettingsGroup {
                name: "802-11-wireless".to_string(),
                entries: vec![Entry {
                    key: "ssid".to_string(),
                    value: BusValue::Array(ssid.iter().map(|b| BusValue::U8(*b)).collect()),
                }],
            },
        ]),
    }
}

fn text_setting(groups: &Vec<SettingsGroup<BusValue>>, group: &str, key: &str) -> Option<String> {
    match get_setting(groups, group, key) {
        Some(BusValue::Str(s)) => Some(s.clone()),
        _ => None,
    }
}

fn group_names(groups: &Vec<SettingsGroup<BusValue>>) -> Vec<String> {
    groups.iter().map(|g| g.name.clone()).collect()
}

fn keys(groups: &Vec<SettingsGroup<BusValue>>, group: &str) -> Vec<String> {
    groups.iter().find(|g| g.name == group).map(|g| g.entries.iter().map(|e| e.key.clone()).collect()).unwrap_or_default()
}

fn active(path: &str, id: &str) -> ActiveConnection {
    ActiveConnection { path: path.to_string(), id: Reading::Value(BusValue::Str(id.to_string())) }
}

#[test]
fn object_paths_are_judged_as_the_bus_library_judges_them() {
    let samples = [
        "/", "/a", "/a/b", "/Path/t0/0bject", "/a_b/C9", "", "a", "//", "/a/", "/a//b", "/ha.d",
        "/a b", ".", "/caf\u{e9}", "/a/b/", "/_", "/-",
    ];
    for s in samples {
        let expected = zbus::zvariant::ObjectPath::try_from(s).is_ok();
        assert_eq!(check_path(s).is_ok(), expected, "path {:?}", s);
    }
    assert!(check_path("/").is_ok());
    assert!(check_path("/org/bluez/hci0").is_ok());
    assert!(matches!(check_path(""), Err(BrokerError::InvalidPath)));
    assert!(matches!(check_path("/end/with/slash/"), Err(BrokerError::InvalidPath)));
    assert!(matches!(check_path("/double//slashes"), Err(BrokerError::InvalidPath)));
    assert!(matches!(check_path("/ha.d"), Err(BrokerError::InvalidPath)));
}

fn decide(
    ssid: &str,
    password: Option<&str>,
    device_path: &str,
    profiles: &Vec<Profile>,
) -> Result<Activation, BrokerError> {
    connect_to_network(ssid, password, device_path, profiles).map(|plan| {
        assert_eq!(plan.wait, ConnectPoll::new());
        assert_eq!(plan.wait.attempts, 0);
        plan.activation
    })
}

#[test]
fn a_connect_that_never_shows_the_network_times_out_after_thirty_readings() {
    let plan = connect_to_network("Home", None, DEVICE, &vec![stored("/s/1", b"Home")]).expect("decided");
    let mut wait = plan.wait;
    let mut readings = 0;
    let result = loop {
        readings += 1;
        assert!(readings <= 30, "a 31st reading");
        let step = wait.observe(Some("Elsewhere"), "Home");
        match poll_result(step) {
            Some(result) => break result,
            None => match step {
                PollStep::Wait(next) => wait = next,
                other => panic!("no result for {:?}", other),
            },
        }
    };
    assert_eq!(readings, 30);
    match result {
        Err(e) => {
            assert!(matches!(e, BrokerError::Timeout));
            assert!(e.message().contains("timeout"));
            assert!(e.message().ends_with("Connection timeout"));
        }
        Ok(()) => panic!("success without the network"),
    }
}

#[test]
fn a_connect_succeeds_at_the_first_reading_that_shows_the_network() {
    let plan = connect_to_network("Home", None, DEVICE, &Vec::new()).expect("decided");
    let mut wait = plan.wait;
    let readings = [None, Some("Cafe"), Some("Home"), Some("Home")];
    let mut made = 0;
    let mut outcome = None;
    for reading in readings {
        made += 1;
        match wait.observe(reading, "Home") {
            PollStep::Wait(next) => wait = next,
            done => {
                outcome = poll_result(done);
                break;
            }
        }
    }
    assert_eq!(made, 3);
    assert!(matches!(outcome, Some(Ok(()))));
}

#[test]
fn a_stored_profile_is_used_again() {
    let profiles = vec![stored("/org/freedesktop/NetworkManager/Settings/7", b"Home")];
    match decide("Home", Some("secret"), DEVICE, &profiles) {
        Ok(Activation::Reuse { profile_path, device_path }) => {
            assert_eq!(profile_path, "/org/freedesktop/NetworkManager/Settings/7");
            assert_eq!(device_path, DEVICE);
        }
        other => panic!("unexpected {:?}", other),
    }
}

#[test]
fn reconnecting_never_creates_a_second_profile() {
    let profiles = vec![stored("/s/1", b"Cafe"), stored("/s/2", b"Home"), stored("/s/3", b"Home")];
    for _ in 0..3 {
        match decide("Home", None, DEVICE, &profiles) {
            Ok(Activation::Reuse { profile_path, .. }) => assert_eq!(profile_path, "/s/2"),
            other => panic!("unexpected {:?}", other),
        }
    }
}

#[test]
fn an_unknown_network_gets_a_new_profile() {
    let profiles = vec![stored("/s/1", b"Cafe")];
    match decide("Home", Some("hunter22"), DEVICE, &profiles) {
        Ok(Activation::Create { settings, device_path }) => {
            assert_eq!(device_path, DEVICE);
            assert_eq!(group_names(&settings), vec!["connection", "802-11-wireless", "802-11-wireless-security", "ipv4", "ipv6"]);
            assert_eq!(text_setting(&settings, "connection", "id"), Some("Home".to_string()));
            assert_eq!(text_setting(&settings, "802-11-wireless-security", "psk"), Some("hunter22".to_string()));
            assert_eq!(text_setting(&settings, "connection", "uuid").map(|u| u.len()), Some(36));
            assert!(get_setting(&settings, "802-11-wireless", "hidden").is_none());
        }
        other => panic!("unexpected {:?}", other),
    }
}

#[test]
fn new_profiles_get_ids_of_their_own() {
    let mut seen = Vec::new();
    for _ in 0..4 {
        match decide("Home", None, DEVICE, &Vec::new()) {
            Ok(Activation::Create { settings, .. }) => {
                let id = text_setting(&settings, "connection", "uuid").expect("has an id");
                assert_eq!(id.len(), 36);
                assert_eq!(id.matches('-').count(), 4);
                assert!(!seen.contains(&id));
                seen.push(id);
            }
            other => panic!("unexpected {:?}", other),
        }
    }
}

#[test]
fn a_malformed_device_handle_is_refused() {
    assert!(matches!(decide("Home", None, "not a path", &Vec::new()), Err(BrokerError::InvalidPath)));
    assert!(matches!(decide("Home", None, "", &vec![stored("/s/1", b"Home")]), Err(BrokerError::InvalidPath)));
    assert!(matches!(connect_hidden("Home", None, "/dev/"), Err(BrokerError::InvalidPath)));
}

#[test]
fn a_malformed_profile_handle_is_refused() {
    let profiles = vec![stored("settings seven", b"Home")];
    assert!(matches!(decide("Home", None, DEVICE, &profiles), Err(BrokerError::InvalidPath)));
}

#[test]
fn the_settings_of_a_new_profile() {
    let groups = new_profile("caf\u{e9}", Some("pass word"), false, "0000-1111");
    assert_eq!(group_names(&groups), vec!["connection", "802-11-wireless", "802-11-wireless-security", "ipv4", "ipv6"]);
    assert_eq!(keys(&groups, "connection"), vec!["type", "id", "uuid", "autoconnect"]);
    assert_eq!(text_setting(&groups, "connection", "type"), Some("802-11-wireless".to_string()));
    assert_eq!(text_setting(&groups, "connection", "id"), Some("caf\u{e9}".to_string()));
    assert_eq!(text_setting(&groups, "connection", "uuid"), Some("0000-1111".to_string()));
    assert!(matches!(get_setting(&groups, "connection", "autoconnect"), Some(BusValue::Bool(true))));
    assert_eq!(keys(&groups, "802-11-wireless"), vec!["ssid", "mode"]);
    match get_setting(&groups, "802-11-wireless", "ssid") {
        Some(BusValue::Array(items)) => {
            let bytes: Vec<u8> = items.iter().map(|v| match v { BusValue::U8(b) => *b, other => panic!("no byte: {:?}", other) }).collect();
            assert_eq!(bytes, "caf\u{e9}".as_bytes().to_vec());
        }
        other => panic!("no array: {:?}", other),
    }
    assert_eq!(text_setting(&groups, "802-11-wireless", "mode"), Some("infrastructure".to_string()));
    assert_eq!(keys(&groups, "802-11-wireless-security"), vec!["key-mgmt", "auth-alg", "psk"]);
    assert_eq!(text_setting(&groups, "802-11-wireless-security", "key-mgmt"), Some("wpa-psk".to_string()));
    assert_eq!(text_setting(&groups, "802-11-wireless-security", "auth-alg"), Some("open".to_string()));
    assert_eq!(text_setting(&groups, "802-11-wireless-security", "psk"), Some("pass word".to_string()));
    assert_eq!(keys(&groups, "ipv4"), vec!["method"]);
    assert_eq!(text_setting(&groups, "ipv4", "method"), Some("auto".to_string()));
    assert_eq!(text_setting(&groups, "ipv6", "method"), Some("ignore".to_string()));
}

#[test]
fn an_open_network_gets_no_security_group() {
    let groups = new_profile("Open", None, false, "u");
    assert_eq!(group_names(&groups), vec!["connection", "802-11-wireless", "ipv4", "ipv6"]);
}

#[test]
fn a_hidden_network_is_marked_hidden() {
    match connect_hidden("Cellar", Some("pw"), DEVICE) {
        Ok(Activation::Create { settings, device_path }) => {
            assert_eq!(device_path, DEVICE);
            assert_eq!(keys(&settings, "802-11-wireless"), vec!["ssid", "mode", "hidden"]);
            assert!(matches!(get_setting(&settings, "802-11-wireless", "hidden"), Some(BusValue::Bool(true))));
            assert_eq!(text_setting(&settings, "802-11-wireless-security", "psk"), Some("pw".to_string()));
        }
        other => panic!("unexpected {:?}", other),
    }
}

#[test]
fn polling_times_out_after_thirty_readings() {
    assert_eq!(POLL_ATTEMPTS, 30);
    assert_eq!(POLL_INTERVAL_MS, 500);
    let mut poll = ConnectPoll::new();
    let mut readings = 0;
    let last = loop {
        readings += 1;
        assert!(readings <= 30, "the wait did not end");
        let active = if readings % 2 == 0 { Some("Other") } else { None };
        match poll.observe(active, "Home") {
            PollStep::Wait(next) => poll = next,
            done => break done,
        }
    };
    assert_eq!(last, PollStep::TimedOut);
    assert_eq!(readings, 30);
    assert!(matches!(poll_result(last), Some(Err(BrokerError::Timeout))));
}

#[test]
fn polling_succeeds_as_soon_as_the_network_is_active() {
    let mut poll = ConnectPoll::new();
    for _ in 0..6 {
        match poll.observe(None, "Home") {
            PollStep::Wait(next) => poll = next,
            other => panic!("ended early: {:?}", other),
        }
    }
    assert_eq!(poll.attempts, 6);
    let step = poll.observe(Some("Home"), "Home");
    assert_eq!(step, PollStep::Connected);
    assert!(matches!(poll_result(step), Some(Ok(()))));
}

#[test]
fn the_last_reading_may_still_succeed() {
    let poll = ConnectPoll { attempts: 29 };
    assert_eq!(poll.observe(Some("Home"), "Home"), PollStep::Connected);
    assert_eq!(poll.observe(Some("home"), "Home"), PollStep::TimedOut);
    assert_eq!(ConnectPoll { attempts: 28 }.observe(None, "Home"), PollStep::Wait(ConnectPoll { attempts: 29 }));
    assert_eq!(ConnectPoll { attempts: u32::MAX }.observe(None, "Home"), PollStep::TimedOut);
    assert!(poll_result(PollStep::Wait(poll)).is_none());
}

#[test]
fn error_texts() {
    assert_eq!(BrokerError::Timeout.message(), "address error: Connection timeout");
    assert_eq!(BrokerError::NoAdapter.message(), "address error: No Bluetooth adapter found");
    assert_eq!(BrokerError::InvalidPath.message(), "Invalid object path");
    assert_eq!(BrokerError::Transport("I/O error: broken pipe".to_string()).message(), "I/O error: broken pipe");
}

#[test]
fn radios_are_the_devices_of_the_wireless_type() {
    let devices = vec![
        DeviceRecord { path: "/d/1".to_string(), device_type: Reading::Value(BusValue::U32(1)) },
        DeviceRecord { path: "/d/2".to_string(), device_type: Reading::Value(BusValue::U32(2)) },
        DeviceRecord { path: "/d/3".to_string(), device_type: Reading::Value(BusValue::Str("2".to_string())) },
        DeviceRecord { path: "/d/4".to_string(), device_type: Reading::Value(BusValue::U32(2)) },
    ];
    assert_eq!(get_wireless_devices(&devices).unwrap(), vec!["/d/2".to_string(), "/d/4".to_string()]);
    assert!(get_wireless_devices(&Vec::new()).unwrap().is_empty());
}

#[test]
fn a_failed_type_reading_fails_the_query() {
    let devices = vec![
        DeviceRecord { path: "/d/1".to_string(), device_type: Reading::Value(BusValue::U32(2)) },
        DeviceRecord { path: "/d/2".to_string(), device_type: Reading::Failed("first".to_string()) },
        DeviceRecord { path: "/d/3".to_string(), device_type: Reading::Failed("second".to_string()) },
    ];
    match get_wireless_devices(&devices) {
        Err(BrokerError::Transport(msg)) => assert_eq!(msg, "first"),
        other => panic!("unexpected {:?}", other),
    }
}

#[test]
fn scans_go_to_the_radios_that_can_be_addressed() {
    let radios = vec!["/d/2".to_string(), "broken".to_string(), "/d/4".to_string(), "/d/5/".to_string()];
    assert_eq!(scan_targets(&radios), vec!["/d/2".to_string(), "/d/4".to_string()]);
}

#[test]
fn the_active_network_is_the_first_that_shows_a_name() {
    let list = vec![
        ActiveConnection { path: "/a/1".to_string(), id: Reading::Failed("gone".to_string()) },
        ActiveConnection { path: "bad path".to_string(), id: Reading::Value(BusValue::Str("Ghost".to_string())) },
        ActiveConnection { path: "/a/3".to_string(), id: Reading::Value(BusValue::U32(5)) },
        active("/a/4", "Home"),
        active("/a/5", "Wired"),
    ];
    assert_eq!(get_active_ssid(&list), Some("Home".to_string()));
    assert_eq!(get_active_ssid(&Vec::new()), None);
    assert_eq!(get_active_ssid(&vec![ActiveConnection { path: "/a/1".to_string(), id: Reading::Failed("x".to_string()) }]), None);
}

#[test]
fn disconnecting_targets_the_connection_of_the_network() {
    let list = vec![active("/a/1", "Wired"), active("bad", "Home"), active("/a/3", "Home"), active("/a/4", "Home")];
    assert_eq!(disconnect_ap("Home", &list), Some("/a/3"));
    assert_eq!(disconnect_ap("Wired", &list), Some("/a/1"));
}

#[test]
fn disconnecting_from_an_absent_network_is_a_no_op() {
    let list = vec![active("/a/1", "Wired")];
    assert_eq!(disconnect_ap("Home", &list), None);
    assert_eq!(disconnect_ap("Home", &Vec::new()), None);
}

#[test]
fn an_unreadable_id_counts_as_empty() {
    let list = vec![ActiveConnection { path: "/a/1".to_string(), id: Reading::Failed("gone".to_string()) }];
    assert_eq!(disconnect_ap("", &list), Some("/a/1"));
    assert_eq!(disconnect_ap("Home", &list), None);
}

#[test]
fn connectivity_code_two_is_a_captive_portal() {
    assert!(is_captive_portal(2));
    assert!(!is_captive_portal(0));
    assert!(!is_captive_portal(4));
}
