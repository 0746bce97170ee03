use orbit::access_points::{
    candidate_from, candidate_named, classify_security, find_ssid, get_access_points,
    get_signal_icon_name, merge_duplicates, signal_bar_count, AccessPoint, ScanRecord,
    SecurityType,
};
use orbit::bus::BusValue;
use orbit::order::sort_stable;

fn bytes(s: &[u8]) -> BusValue {
    BusValue::Array(s.iter().map(|b| BusValue::U8(*b)).collect())
}

fn record(path: &str, ssid: &[u8], strength: u8, rsn: u32) -> ScanRecord {
    ScanRecord {
        device_path: "/org/freedesktop/NetworkManager/Devices/3".to_string(),
        path: path.to_string(),
        ssid: Some(bytes(ssid)),
        strength: Some(BusValue::U8(strength)),
        flags: Some(BusValue::U32(1)),
        rsn_flags: Some(BusValue::U32(rsn)),
        wpa_flags: Some(BusValue::U32(0)),
    }
}

fn ap(ssid: &str, strength: u8, connected: bool, path: &str) -> AccessPoint {
    AccessPoint {
        ssid: ssid.to_string(),
        signal_strength: strength,
        security: SecurityType::WPA2,
        is_connected: connected,
        device_path: "/dev/0".to_string(),
        path: path.to_string(),
    }
}

#[test]
fn rsn_with_sae_is_wpa3() {
    assert_eq!(classify_security(0, 0, 0x100), SecurityType::WPA3);
    assert_eq!(classify_security(1, 1, 0x188), SecurityType::WPA3);
}

#[test]
fn rsn_without_sae_is_wpa2() {
    assert_eq!(classify_security(0, 0, 0x1), SecurityType::WPA2);
    assert_eq!(classify_security(1, 1, 0x88), SecurityType::WPA2);
    assert_eq!(classify_security(0, 0, 0x200), SecurityType::WPA2);
}

#[test]
fn wpa_flags_alone_are_wpa() {
    assert_eq!(classify_security(0, 0x1, 0), SecurityType::WPA);
    assert_eq!(classify_security(1, 0x88, 0), SecurityType::WPA);
}

#[test]
fn privacy_flags_alone_are_wep() {
    assert_eq!(classify_security(1, 0, 0), SecurityType::WEP);
}

#[test]
fn no_flags_are_an_open_network() {
    assert_eq!(classify_security(0, 0, 0), SecurityType::Open);
}

#[test]
fn duplicates_merge_into_the_strongest_and_keep_the_connection() {
    let list = vec![ap("Home", 80, false, "/ap/1"), ap("Home", 40, true, "/ap/2")];
    let out = merge_duplicates(sort_stable(list));
    assert_eq!(out.len(), 1);
    assert_eq!(out[0].ssid, "Home");
    assert_eq!(out[0].signal_strength, 80);
    assert!(out[0].is_connected);
    assert_eq!(out[0].path, "/ap/1");
    assert_eq!(out[0].security, SecurityType::WPA2);
}

#[test]
fn scan_results_become_one_entry_per_network() {
    let recs = vec![
        record("/ap/1", b"Home", 40, 1),
        record("/ap/2", b"Cafe", 55, 0x100),
        record("/ap/3", b"Home", 80, 1),
        record("/ap/4", b"Cafe", 10, 0x100),
        record("/ap/5", b"Lab", 55, 0),
    ];
    let out = get_access_points(recs, Some("Home"));
    let names: Vec<&str> = out.iter().map(|a| a.ssid.as_str()).collect();
    assert_eq!(names, vec!["Home", "Cafe", "Lab"]);
    assert_eq!(out[0].signal_strength, 80);
    assert_eq!(out[0].path, "/ap/3");
    assert!(out[0].is_connected);
    assert_eq!(out[1].signal_strength, 55);
    assert_eq!(out[1].path, "/ap/2");
    assert_eq!(out[1].security, SecurityType::WPA3);
    assert!(!out[1].is_connected);
    assert_eq!(out[2].security, SecurityType::WEP);
}

#[test]
fn a_weaker_connected_duplicate_marks_the_entry_connected() {
    let mut strong = record("/ap/1", b"Home", 80, 1);
    strong.ssid = Some(bytes(b"Home"));
    let out = get_access_points(vec![strong, record("/ap/2", b"Home", 40, 1)], Some("Home"));
    assert_eq!(out.len(), 1);
    assert!(out[0].is_connected);
    let out = get_access_points(vec![record("/ap/1", b"Home", 80, 1)], Some("Other"));
    assert!(!out[0].is_connected);
    let out = get_access_points(vec![record("/ap/1", b"Home", 80, 1)], None);
    assert!(!out[0].is_connected);
}

#[test]
fn equally_strong_results_keep_scan_order() {
    let recs = vec![
        record("/ap/1", b"B", 50, 1),
        record("/ap/2", b"A", 50, 1),
        record("/ap/3", b"C", 70, 1),
        record("/ap/4", b"A", 50, 1),
    ];
    let out = get_access_points(recs, None);
    let paths: Vec<&str> = out.iter().map(|a| a.path.as_str()).collect();
    assert_eq!(paths, vec!["/ap/3", "/ap/1", "/ap/2"]);
}

#[test]
fn the_root_path_and_nameless_results_are_not_listed() {
    assert!(candidate_from(record("/", b"Home", 80, 1), None).is_none());
    assert!(candidate_from(record("/ap/1", b"", 80, 1), None).is_none());
    let mut no_name = record("/ap/1", b"x", 80, 1);
    no_name.ssid = None;
    assert!(candidate_from(no_name, None).is_none());
    let mut wrong_type = record("/ap/1", b"x", 80, 1);
    wrong_type.ssid = Some(BusValue::Str("Home".to_string()));
    assert!(candidate_from(wrong_type, None).is_none());
    assert!(get_access_points(vec![record("/", b"Home", 80, 1)], None).is_empty());
}

#[test]
fn missing_properties_take_their_defaults() {
    let rec = ScanRecord {
        device_path: "/dev/1".to_string(),
        path: "/ap/9".to_string(),
        ssid: Some(bytes(b"Bare")),
        strength: None,
        flags: None,
        rsn_flags: Some(BusValue::Str("no number".to_string())),
        wpa_flags: None,
    };
    let ap = candidate_from(rec, Some("Bare")).expect("listed");
    assert_eq!(ap.signal_strength, 0);
    assert_eq!(ap.security, SecurityType::Open);
    assert!(ap.is_connected);
    assert_eq!(ap.device_path, "/dev/1");
    assert_eq!(ap.path, "/ap/9");
}

#[test]
fn items_that_are_no_bytes_are_skipped_in_a_name() {
    let mut rec = record("/ap/1", b"", 10, 0);
    rec.ssid = Some(BusValue::Array(vec![
        BusValue::U8(b'a'),
        BusValue::U32(7),
        BusValue::U8(b'b'),
        BusValue::Other,
    ]));
    assert_eq!(candidate_from(rec, None).expect("listed").ssid, "ab");
}

#[test]
fn names_are_decoded_leniently() {
    let ap = candidate_from(record("/ap/1", b"caf\xc3\xa9", 10, 0), None).expect("listed");
    assert_eq!(ap.ssid, "caf\u{e9}");
    let ap = candidate_from(record("/ap/1", b"ca\xfffe", 10, 0), None).expect("listed");
    assert_eq!(ap.ssid, "ca\u{fffd}fe");
}

#[test]
fn a_decoded_name_decides_listing_and_connection() {
    let named = |name: &str, active: Option<&str>| {
        candidate_named(name.to_string(), record("/ap/1", b"ignored", 33, 1), active)
    };
    let ap = named("Home", Some("Home")).expect("listed");
    assert_eq!(ap.ssid, "Home");
    assert_eq!(ap.signal_strength, 33);
    assert!(ap.is_connected);
    assert!(!named("Home", Some("home")).expect("listed").is_connected);
    assert!(named("", Some("")).is_none());
    assert!(candidate_named("Home".to_string(), record("/", b"Home", 33, 1), None).is_none());
}

#[test]
fn sorting_puts_the_strongest_first() {
    let out = sort_stable(vec![ap("a", 10, false, "/1"), ap("b", 90, false, "/2"), ap("c", 50, false, "/3")]);
    let strengths: Vec<u8> = out.iter().map(|a| a.signal_strength).collect();
    assert_eq!(strengths, vec![90, 50, 10]);
    assert!(sort_stable(Vec::<AccessPoint>::new()).is_empty());
}

#[test]
fn entries_are_found_by_name() {
    let list = vec![ap("a", 10, false, "/1"), ap("b", 90, false, "/2"), ap("a", 50, false, "/3")];
    assert_eq!(find_ssid(&list, "a"), 0);
    assert_eq!(find_ssid(&list, "b"), 1);
    assert_eq!(find_ssid(&list, "c"), 3);
    assert_eq!(find_ssid(&Vec::new(), "a"), 0);
}

#[test]
fn signal_bars_follow_the_quarters() {
    assert_eq!(signal_bar_count(0), 1);
    assert_eq!(signal_bar_count(24), 1);
    assert_eq!(signal_bar_count(25), 2);
    assert_eq!(signal_bar_count(49), 2);
    assert_eq!(signal_bar_count(50), 3);
    assert_eq!(signal_bar_count(74), 3);
    assert_eq!(signal_bar_count(75), 4);
    assert_eq!(signal_bar_count(255), 4);
}

#[test]
fn signal_icons_follow_the_bars() {
    assert_eq!(get_signal_icon_name(10), "network-wireless-signal-weak-symbolic");
    assert_eq!(get_signal_icon_name(30), "network-wireless-signal-ok-symbolic");
    assert_eq!(get_signal_icon_name(60), "network-wireless-signal-good-symbolic");
    assert_eq!(get_signal_icon_name(100), "network-wireless-signal-excellent-symbolic");
}
