use orbit::bus::{BusValue, Entry};
use orbit::profiles::{
    bytes_eq, contains_text, find_connection_by_ssid, get_saved_networks, get_saved_vpns,
    get_setting, has_saved_connection, names_match, set_autoconnect, set_entry, stored_name_is,
    settings_belong_to, Profile, SettingsGroup,
};

fn text(key: &str, value: &str) -> Entry<BusValue> {
    Entry { key: key.to_string(), value: BusValue::Str(value.to_string()) }
}

fn flag(key: &str, value: bool) -> Entry<BusValue> {
    Entry { key: key.to_string(), value: BusValue::Bool(value) }
}

fn name_bytes(s: &[u8]) -> Entry<BusValue> {
    Entry {
        key: "ssid".to_string(),
        value: BusValue::Array(s.iter().map(|b| BusValue::U8(*b)).collect()),
    }
}

fn group(name: &str, entries: Vec<Entry<BusValue>>) -> SettingsGroup<BusValue> {
    SettingsGroup { name: name.to_string(), entries }
}

fn wireless(path: &str, id: &str, ssid: &[u8], autoconnect: Option<bool>) -> Profile {
    let mut connection = vec![text("id", id), text("type", "802-11-wireless")];
    if let Some(a) = autoconnect {
        connection.push(flag("autoconnect", a));
    }
    Profile {
        path: path.to_string(),
        settings: Some(vec![
            group("connection", connection),
            group("802-11-wireless", vec![name_bytes(ssid), text("mode", "infrastructure")]),
        ]),
    }
}

fn other(path: &str, id: &str, kind: &str) -> Profile {
    Profile {
        path: path.to_string(),
        settings: Some(vec![group(
            "connection",
            vec![text("id", id), text("type", kind), text("uuid", "1234-abcd")],
        )]),
    }
}

fn unreadable(path: &str) -> Profile {
    Profile { path: path.to_string(), settings: None }
}

fn dump(groups: &Vec<SettingsGroup<BusValue>>) -> String {
    format!("{:?}", groups)
}

#[test]
fn a_profile_is_found_by_its_stored_name() {
    let profiles = vec![wireless("/s/1", "Office wifi", b"Office", None), wireless("/s/2", "x", b"Home", None)];
    assert_eq!(find_connection_by_ssid(&profiles, "Home"), Some("/s/2"));
    assert_eq!(find_connection_by_ssid(&profiles, "Office"), Some("/s/1"));
}

#[test]
fn a_profile_is_found_by_its_display_id() {
    let profiles = vec![wireless("/s/1", "Office wifi", b"Office", None), other("/s/2", "Home", "802-3-ethernet")];
    assert_eq!(find_connection_by_ssid(&profiles, "Office wifi"), Some("/s/1"));
    assert_eq!(find_connection_by_ssid(&profiles, "Home"), Some("/s/2"));
}

#[test]
fn names_match_with_surrounding_white_space_stripped() {
    let profiles = vec![wireless("/s/1", "a", b" Home ", None), other("/s/2", "  Cafe\n", "vpn")];
    assert_eq!(find_connection_by_ssid(&profiles, "Home"), Some("/s/1"));
    assert_eq!(find_connection_by_ssid(&profiles, "\tHome"), Some("/s/1"));
    assert_eq!(find_connection_by_ssid(&profiles, "Cafe"), Some("/s/2"));
    assert_eq!(find_connection_by_ssid(&profiles, "Ho me"), None);
}

#[test]
fn the_first_matching_profile_wins() {
    let profiles = vec![
        unreadable("/s/0"),
        wireless("/s/1", "Home", b"Other", None),
        wireless("/s/2", "zzz", b"Home", None),
    ];
    assert_eq!(find_connection_by_ssid(&profiles, "Home"), Some("/s/1"));
}

#[test]
fn no_profile_is_found_where_none_matches() {
    let profiles = vec![unreadable("/s/0"), wireless("/s/1", "Office", b"Office", None)];
    assert_eq!(find_connection_by_ssid(&profiles, "Home"), None);
    assert!(!has_saved_connection(&profiles, "Home"));
    assert!(has_saved_connection(&profiles, "Office"));
    assert_eq!(find_connection_by_ssid(&Vec::new(), "Home"), None);
}

#[test]
fn an_empty_stored_name_matches_nothing() {
    let profiles = vec![wireless("/s/1", "id", b"", None)];
    assert_eq!(find_connection_by_ssid(&profiles, ""), None);
    let groups = vec![group("802-11-wireless", vec![name_bytes(b"")])];
    assert!(!settings_belong_to(&groups, ""));
}

#[test]
fn stored_bytes_match_the_bytes_of_the_name() {
    let groups = vec![group("802-11-wireless", vec![name_bytes("caf\u{e9}".as_bytes())])];
    assert!(settings_belong_to(&groups, "caf\u{e9}"));
    assert!(!settings_belong_to(&groups, "cafe"));
}

#[test]
fn names_match_as_they_are_or_stripped() {
    assert!(names_match("Home", "Home"));
    assert!(names_match(" Home", "Home "));
    assert!(names_match("\u{a0}Home\u{2003}\n", "Home"));
    assert!(names_match("  ", ""));
    assert!(!names_match(" Home", "Hom "));
    assert!(!names_match("Ho me", "Home"));
    assert!(!names_match("\u{200b}Home", "Home"));
    assert!(names_match("", ""));
    assert!(stored_name_is(b" Home ", " Home ", "Home"));
    assert!(stored_name_is(b"caf\xe9", "caf\u{fffd}", "caf\u{fffd}"));
    assert!(stored_name_is(b"Home", "something else", "Home"));
    assert!(!stored_name_is(b"", "", ""));
    assert!(!stored_name_is(b"Home", "Home", "Cafe"));
    assert!(bytes_eq(b"abc", b"abc"));
    assert!(!bytes_eq(b"abc", b"abd"));
    assert!(!bytes_eq(b"abc", b"ab"));
    assert!(contains_text(&vec!["a".to_string(), "b".to_string()], "b"));
    assert!(!contains_text(&vec!["a".to_string(), "b".to_string()], "c"));
}

#[test]
fn settings_are_read_by_group_and_key() {
    let groups = vec![
        group("connection", vec![text("id", "Home"), flag("autoconnect", false)]),
        group("ipv4", vec![text("method", "auto")]),
    ];
    assert!(matches!(get_setting(&groups, "connection", "autoconnect"), Some(BusValue::Bool(false))));
    assert!(matches!(get_setting(&groups, "ipv4", "method"), Some(BusValue::Str(s)) if s == "auto"));
    assert!(get_setting(&groups, "ipv4", "id").is_none());
    assert!(get_setting(&groups, "ipv6", "method").is_none());
}

#[test]
fn saved_networks_list_wireless_profiles_only() {
    let profiles = vec![
        wireless("/s/1", "Home", b"Home", Some(false)),
        other("/s/2", "Wired", "802-3-ethernet"),
        unreadable("/s/3"),
        wireless("/s/4", "Cafe", b"Cafe", None),
        Profile { path: "/s/5".to_string(), settings: Some(vec![group("ipv4", vec![])]) },
    ];
    let out = get_saved_networks(&profiles, &Vec::new());
    let names: Vec<&str> = out.iter().map(|n| n.ssid.as_str()).collect();
    assert_eq!(names, vec!["Cafe", "Home"]);
    assert_eq!(out[0].path, "/s/4");
    assert!(out[0].autoconnect);
    assert!(!out[1].autoconnect);
    assert!(!out[0].is_active && !out[1].is_active);
}

#[test]
fn active_saved_networks_come_first_then_names_in_order() {
    let profiles = vec![
        wireless("/s/1", "delta", b"d", None),
        wireless("/s/2", "alpha", b"a", None),
        wireless("/s/3", "Zulu", b"z", None),
        wireless("/s/4", "charlie", b"c", None),
        wireless("/s/5", "bravo", b"b", None),
    ];
    let active = vec!["/s/4".to_string(), "/s/1".to_string(), "/a/9".to_string()];
    let out = get_saved_networks(&profiles, &active);
    let names: Vec<&str> = out.iter().map(|n| n.ssid.as_str()).collect();
    assert_eq!(names, vec!["charlie", "delta", "Zulu", "alpha", "bravo"]);
    let flags: Vec<bool> = out.iter().map(|n| n.is_active).collect();
    assert_eq!(flags, vec![true, true, false, false, false]);
}

#[test]
fn a_profile_without_id_is_listed_with_an_empty_name() {
    let profile = Profile {
        path: "/s/1".to_string(),
        settings: Some(vec![group("connection", vec![text("type", "802-11-wireless")])]),
    };
    let out = get_saved_networks(&vec![profile], &Vec::new());
    assert_eq!(out.len(), 1);
    assert_eq!(out[0].ssid, "");
    assert!(out[0].autoconnect);
}

#[test]
fn vpns_are_listed_in_the_order_of_the_service() {
    let profiles = vec![
        other("/s/1", "work", "vpn"),
        wireless("/s/2", "Home", b"Home", None),
        other("/s/3", "tunnel", "wireguard"),
        other("/s/4", "wired", "802-3-ethernet"),
        unreadable("/s/5"),
    ];
    let out = get_saved_vpns(&profiles, &vec!["/s/3".to_string()]);
    assert_eq!(out.len(), 2);
    assert_eq!(out[0].name, "work");
    assert_eq!(out[0].connection_type, "vpn");
    assert_eq!(out[0].uuid, "1234-abcd");
    assert_eq!(out[0].path, "/s/1");
    assert!(!out[0].is_active);
    assert_eq!(out[1].name, "tunnel");
    assert_eq!(out[1].connection_type, "wireguard");
    assert!(out[1].is_active);
}

#[test]
fn set_entry_replaces_or_appends() {
    let entries = vec![text("a", "1"), text("b", "2")];
    let out = set_entry(entries, "a", BusValue::Str("9".to_string()));
    assert_eq!(format!("{:?}", out), format!("{:?}", vec![text("a", "9"), text("b", "2")]));
    let out = set_entry(out, "c", BusValue::Bool(true));
    assert_eq!(format!("{:?}", out), format!("{:?}", vec![text("a", "9"), text("b", "2"), flag("c", true)]));
}

#[test]
fn autoconnect_is_patched_in_place() {
    let groups = vec![
        group("ipv4", vec![text("method", "auto")]),
        group("connection", vec![text("id", "Home"), flag("autoconnect", true), text("uuid", "u")]),
    ];
    let out = set_autoconnect(groups, BusValue::Bool(false));
    let expected = vec![
        group("ipv4", vec![text("method", "auto")]),
        group("connection", vec![text("id", "Home"), flag("autoconnect", false), text("uuid", "u")]),
    ];
    assert_eq!(dump(&out), dump(&expected));
}

#[test]
fn autoconnect_is_added_where_it_was_not_set() {
    let groups = vec![group("connection", vec![text("id", "Home")]), group("ipv6", vec![])];
    let out = set_autoconnect(groups, BusValue::Bool(true));
    let expected = vec![group("connection", vec![text("id", "Home"), flag("autoconnect", true)]), group("ipv6", vec![])];
    assert_eq!(dump(&out), dump(&expected));
}

#[test]
fn settings_without_connection_group_stay_as_they_are() {
    let groups = vec![group("ipv4", vec![text("method", "auto")])];
    let out = set_autoconnect(groups, BusValue::Bool(true));
    assert_eq!(dump(&out), dump(&vec![group("ipv4", vec![text("method", "auto")])]));
}

#[test]
fn toggling_autoconnect_twice_leaves_everything_else_untouched() {
    let make = || {
        vec![
            group("connection", vec![text("id", "Home"), text("zone", "trusted"), flag("autoconnect", true), text("uuid", "u")]),
            group("802-11-wireless", vec![name_bytes(b"Home"), text("custom-field", "kept")]),
            group("vendor", vec![Entry { key: "blob".to_string(), value: BusValue::Other }]),
        ]
    };
    let on = set_autoconnect(make(), BusValue::Bool(true));
    let reference = dump(&on);
    let off = set_autoconnect(on, BusValue::Bool(false));
    assert_ne!(dump(&off), reference);
    let on_again = set_autoconnect(off, BusValue::Bool(true));
    assert_eq!(dump(&on_again), reference);
    assert_eq!(reference, dump(&make()));
}

#[test]
fn the_patch_carries_values_of_any_type() {
    let groups: Vec<SettingsGroup<Vec<u8>>> = vec![SettingsGroup {
        name: "connection".to_string(),
        entries: vec![
            Entry { key: "raw".to_string(), value: vec![1, 2, 3] },
            Entry { key: "autoconnect".to_string(), value: vec![0] },
        ],
    }];
    let out = set_autoconnect(groups, vec![1]);
    assert_eq!(out[0].entries[0].value, vec![1, 2, 3]);
    assert_eq!(out[0].entries[1].value, vec![1]);
    assert_eq!(out[0].entries.len(), 2);
}
