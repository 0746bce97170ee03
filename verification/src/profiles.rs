//! Stored connection profiles: looking one up by network name, listing the
//! wireless and the VPN profiles, and patching the autoconnect flag.
//!
//! The settings of a profile are groups of keyed values. The service hands
//! them out and takes them back as a whole, so a patch has to carry over
//! every value it does not mean to change.
//!
//! Groups and entries are held as lists, in the order in which they were
//! handed over, and not as hash maps keyed by text: of a list every lookup
//! and every patch can be stated and proved entry by entry. A name or a key
//! is looked up as the first entry that has it, which in settings that come
//! from the service is the only one.

use vstd::prelude::*;
use vstd::string::*;
use vstd::utf8::encode_utf8;
use crate::bus::{
    bool_of, bytes_of, entry_index, entry_value, find_entry, lemma_entry_index,
    lemma_entry_index_is, lookup, text_of, BusValue, Entry, EntryView,
};
use crate::order::{sort_stable, stable_sorted, views, Ranked};
use crate::text::{decode_utf8_lossy, lex_lt, str_eq, str_lt, strip, stripped, utf8_lossy};

verus! {

/// Name of the settings group that describes the connection itself.
pub const GROUP_CONNECTION: &'static str = "connection";

/// Name of the settings group of a wireless profile.
pub const GROUP_WIRELESS: &'static str = "802-11-wireless";

/// One group of a profile's settings.
#[derive(Debug)]
pub struct SettingsGroup<V> {
    pub name: String,
    pub entries: Vec<Entry<V>>,
}

/// A settings group with its name and keys as mathematical values.
pub struct GroupView<V> {
    pub name: Seq<char>,
    pub entries: Seq<EntryView<V>>,
}

impl<V> View for SettingsGroup<V> {
    type V = GroupView<V>;

    open spec fn view(&self) -> GroupView<V> {
        GroupView { name: self.name@, entries: views(self.entries@) }
    }
}

/// The position of the first group named `name` at or after `from`, or the
/// number of groups when there is none.
pub open spec fn group_index_from<V>(groups: Seq<GroupView<V>>, name: Seq<char>, from: int) -> int
    decreases groups.len() - from,
{
    if from >= groups.len() {
        groups.len() as int
    } else if groups[from].name == name {
        from
    } else {
        group_index_from(groups, name, from + 1)
    }
}

/// The position of the first group named `name`, or the number of groups
/// when there is none.
pub open spec fn group_index<V>(groups: Seq<GroupView<V>>, name: Seq<char>) -> int {
    group_index_from(groups, name, 0)
}

/// The value stored under `key` in the group named `group`.
pub open spec fn setting<V>(groups: Seq<GroupView<V>>, group: Seq<char>, key: Seq<char>) -> Option<
    V,
> {
    let g = group_index(groups, group);
    if g < groups.len() {
        entry_value(groups[g].entries, key)
    } else {
        None
    }
}

/// Where the first group named `name` stands.
pub fn find_group<V>(groups: &Vec<SettingsGroup<V>>, name: &str) -> (g: usize)
    ensures
        g == group_index(views(groups@), name@),
        g <= groups.len(),
{
    let mut i: usize = 0;
    while i < groups.len() && !str_eq(groups[i].name.as_str(), name)
        invariant
            i <= groups.len(),
            group_index(views(groups@), name@) == group_index_from(
                views(groups@),
                name@,
                i as int,
            ),
        decreases groups.len() - i,
    {
        i += 1;
    }
    i
}

/// Reads the value stored under `key` in the group named `group`.
pub fn get_setting<'a, V>(groups: &'a Vec<SettingsGroup<V>>, group: &str, key: &str) -> (r:
    Option<&'a V>)
    ensures
        match r {
            Some(v) => setting(views(groups@), group@, key@) == Some(*v),
            None => setting(views(groups@), group@, key@) is None,
        },
{
    let g = find_group(groups, group);
    if g < groups.len() {
        lookup(&groups[g].entries, key)
    } else {
        None
    }
}

/// A stored profile as it was read: its handle and, unless reading them
/// failed, its settings.
#[derive(Debug)]
pub struct Profile {
    pub path: String,
    pub settings: Option<Vec<SettingsGroup<BusValue>>>,
}

/// Whether two names are the same: as they are, or with the white space
/// around both stripped.
pub open spec fn same_name(a: Seq<char>, b: Seq<char>) -> bool {
    a == b || stripped(a) == stripped(b)
}

/// A name with white space around it is the same name as without.
pub proof fn lemma_padded_name_is_same(before: Seq<char>, name: Seq<char>, after: Seq<char>)
    requires
        crate::text::is_blank(before),
        crate::text::is_blank(after),
        name.len() > 0 ==> !crate::text::is_white_space(name[0]) && !crate::text::is_white_space(
            name[name.len() - 1],
        ),
    ensures
        same_name(before + name + after, name),
        same_name(name, before + name + after),
{
    crate::text::lemma_stripped_of_padded(before, name, after);
}

/// Whether stored bytes, which decode to the text `stored`, name the
/// network `ssid`: they are not empty, and the text is the same name as
/// `ssid` or the bytes are the bytes of `ssid`.
pub open spec fn stored_matches(bytes: Seq<u8>, stored: Seq<char>, ssid: Seq<char>) -> bool {
    bytes.len() > 0 && (same_name(stored, ssid) || bytes == encode_utf8(ssid))
}

/// Whether the wireless name stored in the settings is `ssid`.
pub open spec fn stored_name_matches(groups: Seq<GroupView<BusValue>>, ssid: Seq<char>) -> bool {
    let bytes = bytes_of(setting(groups, GROUP_WIRELESS@, "ssid"@));
    stored_matches(bytes, utf8_lossy(bytes), ssid)
}

/// Whether the display id of the profile is `ssid`, as it is or with the
/// white space around both stripped.
pub open spec fn id_matches(groups: Seq<GroupView<BusValue>>, ssid: Seq<char>) -> bool {
    match text_of(setting(groups, GROUP_CONNECTION@, "id"@)) {
        Some(id) => same_name(id, ssid),
        None => false,
    }
}

/// Whether settings belong to the network named `ssid`.
pub open spec fn settings_match(groups: Seq<GroupView<BusValue>>, ssid: Seq<char>) -> bool {
    stored_name_matches(groups, ssid) || id_matches(groups, ssid)
}

/// Whether a profile belongs to the network named `ssid`. A profile whose
/// settings could not be read belongs to none.
pub open spec fn profile_matches(p: Profile, ssid: Seq<char>) -> bool {
    match p.settings {
        Some(groups) => settings_match(views(groups@), ssid),
        None => false,
    }
}

/// The position of the first profile at or after `from` that belongs to
/// `ssid`, or the number of profiles when there is none.
pub open spec fn profile_index_from(profiles: Seq<Profile>, ssid: Seq<char>, from: int) -> int
    decreases profiles.len() - from,
{
    if from >= profiles.len() {
        profiles.len() as int
    } else if profile_matches(profiles[from], ssid) {
        from
    } else {
        profile_index_from(profiles, ssid, from + 1)
    }
}

/// The handle of the first profile that belongs to `ssid`.
pub open spec fn found_profile(profiles: Seq<Profile>, ssid: Seq<char>) -> Option<Seq<char>> {
    let i = profile_index_from(profiles, ssid, 0);
    if i < profiles.len() {
        Some(profiles[i].path@)
    } else {
        None
    }
}

/// Whether two byte strings are equal.
pub fn bytes_eq(a: &[u8], b: &[u8]) -> (r: bool)
    ensures
        r == (a@ == b@),
{
    if a.len() != b.len() {
        return false;
    }
    let mut i: usize = 0;
    while i < a.len()
        invariant
            i <= a.len(),
            a.len() == b.len(),
            forall|k: int| 0 <= k < i ==> a@[k] == b@[k],
        decreases a.len() - i,
    {
        if a[i] != b[i] {
            return false;
        }
        i += 1;
    }
    assert(a@ =~= b@);
    true
}

/// Decides whether two names are the same, as they are or with the white
/// space around both stripped.
pub fn names_match(a: &str, b: &str) -> (r: bool)
    ensures
        r == same_name(a@, b@),
{
    if str_eq(a, b) {
        return true;
    }
    let x = strip(a);
    let y = strip(b);
    str_eq(x.as_str(), y.as_str())
}

/// Decides whether a stored wireless name is `ssid`, given the stored
/// bytes and the text that they decode to.
pub fn stored_name_is(bytes: &[u8], stored: &str, ssid: &str) -> (r: bool)
    ensures
        r == stored_matches(bytes@, stored@, ssid@),
{
    bytes.len() > 0 && (names_match(stored, ssid) || bytes_eq(bytes, ssid.as_bytes()))
}

/// Decides whether settings belong to the network named `ssid`.
pub fn settings_belong_to(groups: &Vec<SettingsGroup<BusValue>>, ssid: &str) -> (r: bool)
    ensures
        r == settings_match(views(groups@), ssid@),
{
    let stored = get_setting(groups, GROUP_WIRELESS, "ssid");
    let bytes = BusValue::read_bytes(stored);
    proof {
        let v = setting(views(groups@), GROUP_WIRELESS@, "ssid"@);
        assert(crate::bus::deref_value(stored) == v);
    }
    let name = decode_utf8_lossy(bytes.as_slice());
    if stored_name_is(bytes.as_slice(), name.as_str(), ssid) {
        return true;
    }
    let id_value = get_setting(groups, GROUP_CONNECTION, "id");
    proof {
        let v = setting(views(groups@), GROUP_CONNECTION@, "id"@);
        assert(crate::bus::deref_value(id_value) == v);
    }
    match BusValue::read_text(id_value) {
        Some(id) => names_match(id, ssid),
        None => false,
    }
}

/// Finds the stored profile of the network named `ssid`: the first, in the
/// order in which the service lists them, whose stored wireless name or
/// whose display id is that name.
pub fn find_connection_by_ssid<'a>(profiles: &'a Vec<Profile>, ssid: &str) -> (r: Option<&'a str>)
    ensures
        match r {
            Some(path) => found_profile(profiles@, ssid@) == Some(path@),
            None => found_profile(profiles@, ssid@) is None,
        },
{
    let mut i: usize = 0;
    while i < profiles.len()
        invariant
            i <= profiles.len(),
            profile_index_from(profiles@, ssid@, 0) == profile_index_from(
                profiles@,
                ssid@,
                i as int,
            ),
        decreases profiles.len() - i,
    {
        let hit = match &profiles[i].settings {
            Some(groups) => settings_belong_to(groups, ssid),
            None => false,
        };
        if hit {
            return Some(profiles[i].path.as_str());
        }
        i += 1;
    }
    None
}

/// Whether a profile is stored for the network named `ssid`.
pub fn has_saved_connection(profiles: &Vec<Profile>, ssid: &str) -> (r: bool)
    ensures
        r == found_profile(profiles@, ssid@).is_some(),
{
    find_connection_by_ssid(profiles, ssid).is_some()
}

/// A stored wireless profile as the user sees it.
#[derive(Debug, Clone)]
pub struct SavedNetwork {
    pub ssid: String,
    pub path: String,
    pub autoconnect: bool,
    /// Whether the profile is among the active connections.
    pub is_active: bool,
}

/// A saved network as a mathematical value.
pub struct SavedNetworkView {
    pub ssid: Seq<char>,
    pub path: Seq<char>,
    pub autoconnect: bool,
    pub is_active: bool,
}

impl View for SavedNetwork {
    type V = SavedNetworkView;

    open spec fn view(&self) -> SavedNetworkView {
        SavedNetworkView {
            ssid: self.ssid@,
            path: self.path@,
            autoconnect: self.autoconnect,
            is_active: self.is_active,
        }
    }
}

impl Ranked for SavedNetwork {
    /// Active profiles are listed first; among profiles that are alike in
    /// that, the names go in lexicographic order.
    open spec fn ranks_before(a: SavedNetworkView, b: SavedNetworkView) -> bool {
        (a.is_active && !b.is_active) || (a.is_active == b.is_active && lex_lt(a.ssid, b.ssid))
    }

    fn comes_before(&self, other: &Self) -> (r: bool) {
        if self.is_active != other.is_active {
            self.is_active
        } else {
            str_lt(self.ssid.as_str(), other.ssid.as_str())
        }
    }

    proof fn lemma_asymmetric(a: SavedNetworkView, b: SavedNetworkView) {
        crate::text::lemma_lex_asymmetric(a.ssid, b.ssid);
    }

    proof fn lemma_transitive(a: SavedNetworkView, b: SavedNetworkView, c: SavedNetworkView) {
        if a.is_active == b.is_active && b.is_active == c.is_active {
            crate::text::lemma_lex_transitive(a.ssid, b.ssid, c.ssid);
        }
    }
}

/// A text setting, empty where it is missing or no text.
pub open spec fn text_or_empty(v: Option<BusValue>) -> Seq<char> {
    match text_of(v) {
        Some(s) => s,
        None => Seq::empty(),
    }
}

/// The saved network that a profile stands for, if any: its settings were
/// read, they hold a `connection` group, and the type named there is
/// wireless. A missing id is empty and a missing autoconnect flag is on.
pub open spec fn saved_entry(p: Profile, active: Seq<Seq<char>>) -> Option<SavedNetworkView> {
    match p.settings {
        None => None,
        Some(groups) => {
            let gs = views(groups@);
            if group_index(gs, GROUP_CONNECTION@) >= gs.len() {
                None
            } else if text_or_empty(setting(gs, GROUP_CONNECTION@, "type"@)) != GROUP_WIRELESS@ {
                None
            } else {
                Some(
                    SavedNetworkView {
                        ssid: text_or_empty(setting(gs, GROUP_CONNECTION@, "id"@)),
                        path: p.path@,
                        autoconnect: match bool_of(
                            setting(gs, GROUP_CONNECTION@, "autoconnect"@),
                        ) {
                            Some(b) => b,
                            None => true,
                        },
                        is_active: active.contains(p.path@),
                    },
                )
            }
        },
    }
}

/// The saved networks that the profiles stand for, in the order of the
/// profiles.
pub open spec fn saved_entries(profiles: Seq<Profile>, active: Seq<Seq<char>>) -> Seq<
    SavedNetworkView,
>
    decreases profiles.len(),
{
    if profiles.len() == 0 {
        Seq::empty()
    } else {
        let before = saved_entries(profiles.drop_last(), active);
        match saved_entry(profiles.last(), active) {
            Some(n) => before.push(n),
            None => before,
        }
    }
}

/// The list of saved networks: active ones first, then by name.
pub open spec fn saved_networks(profiles: Seq<Profile>, active: Seq<Seq<char>>) -> Seq<
    SavedNetworkView,
> {
    stable_sorted::<SavedNetwork>(saved_entries(profiles, active))
}

/// Whether `list` holds the text `s`.
pub fn contains_text(list: &Vec<String>, s: &str) -> (r: bool)
    ensures
        r == views(list@).contains(s@),
{
    let mut i: usize = 0;
    while i < list.len()
        invariant
            i <= list.len(),
            forall|k: int| 0 <= k < i ==> views(list@)[k] != s@,
        decreases list.len() - i,
    {
        if str_eq(list[i].as_str(), s) {
            assert(views(list@)[i as int] == s@);
            return true;
        }
        i += 1;
    }
    false
}

/// Reads a text setting, empty where it is missing or no text.
fn read_text_or_empty<'a>(groups: &'a Vec<SettingsGroup<BusValue>>, key: &str) -> (r: &'a str)
    ensures
        r@ == text_or_empty(setting(views(groups@), GROUP_CONNECTION@, key@)),
{
    let v = get_setting(groups, GROUP_CONNECTION, key);
    proof {
        assert(crate::bus::deref_value(v) == setting(views(groups@), GROUP_CONNECTION@, key@));
    }
    match BusValue::read_text(v) {
        Some(s) => s,
        None => {
            proof {
                reveal_strlit("");
                assert(""@ =~= Seq::<char>::empty());
            }
            ""
        },
    }
}

/// Builds the saved network that a profile stands for, if any.
pub fn saved_network_of(p: &Profile, active_paths: &Vec<String>) -> (r: Option<SavedNetwork>)
    ensures
        match r {
            Some(n) => saved_entry(*p, views(active_paths@)) == Some(n@),
            None => saved_entry(*p, views(active_paths@)) is None,
        },
{
    match &p.settings {
        None => None,
        Some(groups) => {
            if find_group(groups, GROUP_CONNECTION) >= groups.len() {
                return None;
            }
            let id = read_text_or_empty(groups, "id");
            let kind = read_text_or_empty(groups, "type");
            if !str_eq(kind, GROUP_WIRELESS) {
                return None;
            }
            let flag = get_setting(groups, GROUP_CONNECTION, "autoconnect");
            proof {
                assert(crate::bus::deref_value(flag) == setting(
                    views(groups@),
                    GROUP_CONNECTION@,
                    "autoconnect"@,
                ));
            }
            let autoconnect = match BusValue::read_bool(flag) {
                Some(b) => b,
                None => true,
            };
            Some(
                SavedNetwork {
                    ssid: String::from_str(id),
                    path: String::from_str(p.path.as_str()),
                    autoconnect,
                    is_active: contains_text(active_paths, p.path.as_str()),
                },
            )
        },
    }
}

/// Lists the stored wireless profiles, given all stored profiles and the
/// handles of the active connections.
pub fn get_saved_networks(profiles: &Vec<Profile>, active_paths: &Vec<String>) -> (out: Vec<
    SavedNetwork,
>)
    ensures
        views(out@) == saved_networks(profiles@, views(active_paths@)),
{
    let mut found: Vec<SavedNetwork> = Vec::new();
    let mut i: usize = 0;
    proof {
        assert(profiles@.take(0) =~= Seq::empty());
        assert(views(found@) =~= Seq::empty());
    }
    while i < profiles.len()
        invariant
            i <= profiles.len(),
            views(found@) == saved_entries(profiles@.take(i as int), views(active_paths@)),
        decreases profiles.len() - i,
    {
        proof {
            let done = profiles@.take(i + 1);
            assert(done.drop_last() =~= profiles@.take(i as int));
            assert(done.last() == profiles@[i as int]);
        }
        let ghost before = found@;
        match saved_network_of(&profiles[i], active_paths) {
            Some(n) => {
                found.push(n);
                proof {
                    assert(views(found@) =~= views(before).push(n@));
                }
            },
            None => {},
        }
        i += 1;
    }
    proof {
        assert(profiles@.take(profiles@.len() as int) =~= profiles@);
    }
    sort_stable(found)
}

/// A stored VPN profile as the user sees it.
#[derive(Debug, Clone)]
pub struct VpnConnection {
    pub name: String,
    pub uuid: String,
    pub path: String,
    pub connection_type: String,
    pub is_active: bool,
}

/// A VPN profile as a mathematical value.
pub struct VpnConnectionView {
    pub name: Seq<char>,
    pub uuid: Seq<char>,
    pub path: Seq<char>,
    pub connection_type: Seq<char>,
    pub is_active: bool,
}

impl View for VpnConnection {
    type V = VpnConnectionView;

    open spec fn view(&self) -> VpnConnectionView {
        VpnConnectionView {
            name: self.name@,
            uuid: self.uuid@,
            path: self.path@,
            connection_type: self.connection_type@,
            is_active: self.is_active,
        }
    }
}

/// Whether a connection type is that of a VPN.
pub open spec fn is_vpn_type(kind: Seq<char>) -> bool {
    kind == "vpn"@ || kind == "wireguard"@
}

/// The VPN that a profile stands for, if any: its settings were read, they
/// hold a `connection` group, and the type named there is a VPN's.
pub open spec fn vpn_entry(p: Profile, active: Seq<Seq<char>>) -> Option<VpnConnectionView> {
    match p.settings {
        None => None,
        Some(groups) => {
            let gs = views(groups@);
            let kind = text_or_empty(setting(gs, GROUP_CONNECTION@, "type"@));
            if group_index(gs, GROUP_CONNECTION@) >= gs.len() || !is_vpn_type(kind) {
                None
            } else {
                Some(
                    VpnConnectionView {
                        name: text_or_empty(setting(gs, GROUP_CONNECTION@, "id"@)),
                        uuid: text_or_empty(setting(gs, GROUP_CONNECTION@, "uuid"@)),
                        path: p.path@,
                        connection_type: kind,
                        is_active: active.contains(p.path@),
                    },
                )
            }
        },
    }
}

/// The VPNs that the profiles stand for, in the order of the profiles.
pub open spec fn vpn_entries(profiles: Seq<Profile>, active: Seq<Seq<char>>) -> Seq<
    VpnConnectionView,
>
    decreases profiles.len(),
{
    if profiles.len() == 0 {
        Seq::empty()
    } else {
        let before = vpn_entries(profiles.drop_last(), active);
        match vpn_entry(profiles.last(), active) {
            Some(n) => before.push(n),
            None => before,
        }
    }
}

/// Builds the VPN that a profile stands for, if any.
pub fn vpn_of(p: &Profile, active_paths: &Vec<String>) -> (r: Option<VpnConnection>)
    ensures
        match r {
            Some(n) => vpn_entry(*p, views(active_paths@)) == Some(n@),
            None => vpn_entry(*p, views(active_paths@)) is None,
        },
{
    match &p.settings {
        None => None,
        Some(groups) => {
            if find_group(groups, GROUP_CONNECTION) >= groups.len() {
                return None;
            }
            let kind = read_text_or_empty(groups, "type");
            if !(str_eq(kind, "vpn") || str_eq(kind, "wireguard")) {
                return None;
            }
            let name = read_text_or_empty(groups, "id");
            let uuid = read_text_or_empty(groups, "uuid");
            Some(
                VpnConnection {
                    name: String::from_str(name),
                    uuid: String::from_str(uuid),
                    path: String::from_str(p.path.as_str()),
                    connection_type: String::from_str(kind),
                    is_active: contains_text(active_paths, p.path.as_str()),
                },
            )
        },
    }
}

/// Lists the stored VPN profiles, in the order in which the service lists
/// them, given all stored profiles and the handles of the active
/// connections.
pub fn get_saved_vpns(profiles: &Vec<Profile>, active_paths: &Vec<String>) -> (out: Vec<
    VpnConnection,
>)
    ensures
        views(out@) == vpn_entries(profiles@, views(active_paths@)),
{
    let mut found: Vec<VpnConnection> = Vec::new();
    let mut i: usize = 0;
    proof {
        assert(profiles@.take(0) =~= Seq::empty());
        assert(views(found@) =~= Seq::empty());
    }
    while i < profiles.len()
        invariant
            i <= profiles.len(),
            views(found@) == vpn_entries(profiles@.take(i as int), views(active_paths@)),
        decreases profiles.len() - i,
    {
        proof {
            let done = profiles@.take(i + 1);
            assert(done.drop_last() =~= profiles@.take(i as int));
            assert(done.last() == profiles@[i as int]);
        }
        let ghost before = found@;
        match vpn_of(&profiles[i], active_paths) {
            Some(n) => {
                found.push(n);
                proof {
                    assert(views(found@) =~= views(before).push(n@));
                }
            },
            None => {},
        }
        i += 1;
    }
    proof {
        assert(profiles@.take(profiles@.len() as int) =~= profiles@);
    }
    found
}

/// `entries` with `value` stored under `key`: in place of the value of the
/// first entry with that key, or as a new last entry where there is none.
pub open spec fn with_entry<V>(entries: Seq<EntryView<V>>, key: Seq<char>, value: V) -> Seq<
    EntryView<V>,
> {
    let k = entry_index(entries, key);
    if k < entries.len() {
        entries.update(k, EntryView { key: entries[k].key, value })
    } else {
        entries.push(EntryView { key, value })
    }
}

/// Settings with `value` as the autoconnect flag of the `connection` group.
/// Settings without such a group stay as they are.
pub open spec fn with_autoconnect<V>(groups: Seq<GroupView<V>>, value: V) -> Seq<GroupView<V>> {
    let g = group_index(groups, GROUP_CONNECTION@);
    if g < groups.len() {
        groups.update(
            g,
            GroupView {
                name: groups[g].name,
                entries: with_entry(groups[g].entries, "autoconnect"@, value),
            },
        )
    } else {
        groups
    }
}

/// Stores `value` under `key`.
pub fn set_entry<V>(entries: Vec<Entry<V>>, key: &str, value: V) -> (out: Vec<Entry<V>>)
    ensures
        views(out@) == with_entry(views(entries@), key@, value),
{
    let mut entries = entries;
    let ghost before = entries@;
    let k = find_entry(&entries, key);
    if k < entries.len() {
        let old_entry = entries.remove(k);
        entries.insert(k, Entry { key: old_entry.key, value });
        proof {
            assert(views(entries@) =~= views(before).update(
                k as int,
                EntryView { key: views(before)[k as int].key, value },
            ));
        }
    } else {
        entries.push(Entry { key: String::from_str(key), value });
        proof {
            assert(views(entries@) =~= views(before).push(EntryView { key: key@, value }));
        }
    }
    entries
}

/// Patches the autoconnect flag into a profile's settings, which are then
/// written back as a whole. Every group and every other value is carried
/// over as it is, in the place it had.
pub fn set_autoconnect<V>(groups: Vec<SettingsGroup<V>>, value: V) -> (out: Vec<SettingsGroup<V>>)
    ensures
        views(out@) == with_autoconnect(views(groups@), value),
{
    let mut groups = groups;
    let ghost before = groups@;
    let g = find_group(&groups, GROUP_CONNECTION);
    if g < groups.len() {
        let group = groups.remove(g);
        let entries = set_entry(group.entries, "autoconnect", value);
        groups.insert(g, SettingsGroup { name: group.name, entries });
        proof {
            assert(views(groups@) =~= views(before).update(
                g as int,
                GroupView {
                    name: views(before)[g as int].name,
                    entries: with_entry(views(before)[g as int].entries, "autoconnect"@, value),
                },
            ));
        }
    }
    groups
}

/// [`group_index_from`] finds the first group of the name at or after
/// `from`.
pub proof fn lemma_group_index<V>(groups: Seq<GroupView<V>>, name: Seq<char>, from: int)
    requires
        0 <= from <= groups.len(),
    ensures
        from <= group_index_from(groups, name, from) <= groups.len(),
        forall|k: int| from <= k < group_index_from(groups, name, from) ==> groups[k].name != name,
        group_index_from(groups, name, from) < groups.len() ==> groups[group_index_from(
            groups,
            name,
            from,
        )].name == name,
    decreases groups.len() - from,
{
    if from < groups.len() && groups[from].name != name {
        lemma_group_index(groups, name, from + 1);
    }
}

/// A position before which no group has the name, and which holds one or is
/// the end, is the one that [`group_index_from`] finds.
pub proof fn lemma_group_index_is<V>(groups: Seq<GroupView<V>>, name: Seq<char>, from: int, at: int)
    requires
        0 <= from <= at <= groups.len(),
        forall|k: int| from <= k < at ==> groups[k].name != name,
        at < groups.len() ==> groups[at].name == name,
    ensures
        group_index_from(groups, name, from) == at,
    decreases at - from,
{
    if from < at {
        lemma_group_index_is(groups, name, from + 1, at);
    }
}

/// Patching the autoconnect flag changes nothing else: the groups keep
/// their number, names and order; every group but `connection` is the same;
/// in `connection` every entry keeps its key and place, and every entry but
/// the flag keeps its value; and the flag reads as the value patched in.
pub proof fn lemma_autoconnect_changes_nothing_else<V>(groups: Seq<GroupView<V>>, value: V)
    ensures
        ({
            let out = with_autoconnect(groups, value);
            let g = group_index(groups, GROUP_CONNECTION@);
            &&& out.len() == groups.len()
            &&& forall|i: int| 0 <= i < groups.len() && i != g ==> out[i] == groups[i]
            &&& g < groups.len() ==> {
                let old_entries = groups[g].entries;
                let new_entries = out[g].entries;
                let k = entry_index(old_entries, "autoconnect"@);
                &&& out[g].name == groups[g].name
                &&& new_entries.len() == if k < old_entries.len() {
                    old_entries.len()
                } else {
                    old_entries.len() + 1
                }
                &&& forall|j: int|
                    0 <= j < old_entries.len() ==> new_entries[j].key == old_entries[j].key
                &&& forall|j: int|
                    0 <= j < old_entries.len() && j != k ==> new_entries[j] == old_entries[j]
                &&& entry_value(new_entries, "autoconnect"@) == Some(value)
                &&& setting(out, GROUP_CONNECTION@, "autoconnect"@) == Some(value)
            }
        }),
{
    let out = with_autoconnect(groups, value);
    let g = group_index(groups, GROUP_CONNECTION@);
    lemma_group_index(groups, GROUP_CONNECTION@, 0);
    if g < groups.len() {
        let old_entries = groups[g].entries;
        let new_entries = out[g].entries;
        let k = entry_index(old_entries, "autoconnect"@);
        lemma_entry_index(old_entries, "autoconnect"@, 0);
        lemma_entry_index_is(new_entries, "autoconnect"@, 0, k);
        lemma_group_index_is(out, GROUP_CONNECTION@, 0, g);
    }
}

/// Patching the flag a second time replaces the value of the first patch
/// and nothing else: settings patched with `first` and then with `second`
/// are the settings patched with `second` alone.
pub proof fn lemma_autoconnect_last_patch_wins<V>(groups: Seq<GroupView<V>>, first: V, second: V)
    ensures
        with_autoconnect(with_autoconnect(groups, first), second) == with_autoconnect(
            groups,
            second,
        ),
{
    let once = with_autoconnect(groups, first);
    let g = group_index(groups, GROUP_CONNECTION@);
    lemma_autoconnect_changes_nothing_else(groups, first);
    lemma_group_index(groups, GROUP_CONNECTION@, 0);
    if g < groups.len() {
        lemma_group_index_is(once, GROUP_CONNECTION@, 0, g);
        let old_entries = groups[g].entries;
        let k = entry_index(old_entries, "autoconnect"@);
        lemma_entry_index(old_entries, "autoconnect"@, 0);
        let mid = once[g].entries;
        lemma_entry_index_is(mid, "autoconnect"@, 0, k);
        assert(with_entry(mid, "autoconnect"@, second) =~= with_entry(
            old_entries,
            "autoconnect"@,
            second,
        ));
        assert(with_autoconnect(once, second) =~= with_autoconnect(groups, second));
    }
}

/// Switching autoconnect on, off and on again changes nothing but the flag:
/// every group but `connection` and, in `connection`, every entry but the
/// flag is afterwards what it was before the first switch.
pub proof fn lemma_toggling_twice_keeps_other_settings<V>(
    groups: Seq<GroupView<V>>,
    on: V,
    off: V,
)
    ensures
        ({
            let out = with_autoconnect(with_autoconnect(with_autoconnect(groups, on), off), on);
            let g = group_index(groups, GROUP_CONNECTION@);
            &&& out.len() == groups.len()
            &&& forall|i: int| 0 <= i < groups.len() && i != g ==> out[i] == groups[i]
            &&& g < groups.len() ==> {
                let k = entry_index(groups[g].entries, "autoconnect"@);
                &&& out[g].name == groups[g].name
                &&& forall|j: int|
                    0 <= j < groups[g].entries.len() && j != k ==> out[g].entries[j]
                        == groups[g].entries[j]
                &&& setting(out, GROUP_CONNECTION@, "autoconnect"@) == Some(on)
            }
        }),
{
    lemma_autoconnect_toggle_round_trip(groups, on, off);
    lemma_autoconnect_changes_nothing_else(groups, on);
}

/// Switching autoconnect on, off and on again leaves the settings exactly
/// as the first switch left them.
pub proof fn lemma_autoconnect_toggle_round_trip<V>(groups: Seq<GroupView<V>>, on: V, off: V)
    ensures
        with_autoconnect(with_autoconnect(with_autoconnect(groups, on), off), on)
            == with_autoconnect(groups, on),
{
    lemma_autoconnect_last_patch_wins(groups, on, off);
    lemma_autoconnect_last_patch_wins(groups, off, on);
}

} // verus!
