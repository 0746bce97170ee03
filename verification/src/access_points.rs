//! The list of access points shown to the user.
//!
//! The radios report one scan result per visible transmitter, so a network
//! that several transmitters or several radios carry shows up more than
//! once. The list built here holds each network once: results are ordered
//! by signal strength, strongest first, and of the results of one network
//! the first in that order is kept; it counts as connected if any of them
//! does.

use vstd::prelude::*;
use vstd::string::*;
use crate::bus::{bytes_of, u32_of, u8_of, BusValue};
use crate::order::{sort_stable, stable_sorted, views, Ranked};
use crate::text::{decode_utf8_lossy, str_eq, utf8_lossy};

verus! {

/// How an access point protects its traffic.
#[derive(Debug, Clone, Copy, PartialEq, Eq, Structural)]
pub enum SecurityType {
    Open,
    WEP,
    WPA,
    WPA2,
    WPA3,
}

/// The bit of the RSN flags that announces SAE key management.
pub const RSN_KEY_MGMT_SAE: u32 = 0x100;

/// The protection that a scan result's flags announce, the most specific
/// first: RSN with SAE is WPA3, any other RSN is WPA2, WPA flags alone are
/// WPA, privacy flags alone are WEP, and no flag at all is an open network.
pub open spec fn security_of(flags: u32, wpa_flags: u32, rsn_flags: u32) -> SecurityType {
    if rsn_flags & RSN_KEY_MGMT_SAE != 0 {
        SecurityType::WPA3
    } else if rsn_flags != 0 {
        SecurityType::WPA2
    } else if wpa_flags != 0 {
        SecurityType::WPA
    } else if flags != 0 {
        SecurityType::WEP
    } else {
        SecurityType::Open
    }
}

/// Classifies a scan result by its flags.
pub fn classify_security(flags: u32, wpa_flags: u32, rsn_flags: u32) -> (s: SecurityType)
    ensures
        s == security_of(flags, wpa_flags, rsn_flags),
{
    if rsn_flags & RSN_KEY_MGMT_SAE != 0 {
        SecurityType::WPA3
    } else if rsn_flags != 0 {
        SecurityType::WPA2
    } else if wpa_flags != 0 {
        SecurityType::WPA
    } else if flags != 0 {
        SecurityType::WEP
    } else {
        SecurityType::Open
    }
}

/// Classification goes by specificity: RSN flags with the SAE bit are
/// WPA3 whatever else is set, RSN flags without it are WPA2, WPA flags
/// without any RSN flag are WPA, privacy flags alone are WEP, and no flags
/// are an open network.
pub proof fn lemma_security_by_specificity(flags: u32, wpa_flags: u32, rsn_flags: u32)
    ensures
        rsn_flags & RSN_KEY_MGMT_SAE != 0 ==> security_of(flags, wpa_flags, rsn_flags)
            == SecurityType::WPA3,
        rsn_flags != 0 && rsn_flags & RSN_KEY_MGMT_SAE == 0 ==> security_of(
            flags,
            wpa_flags,
            rsn_flags,
        ) == SecurityType::WPA2,
        rsn_flags == 0 && wpa_flags != 0 ==> security_of(flags, wpa_flags, rsn_flags)
            == SecurityType::WPA,
        rsn_flags == 0 && wpa_flags == 0 && flags != 0 ==> security_of(
            flags,
            wpa_flags,
            rsn_flags,
        ) == SecurityType::WEP,
        rsn_flags == 0 && wpa_flags == 0 && flags == 0 ==> security_of(
            flags,
            wpa_flags,
            rsn_flags,
        ) == SecurityType::Open,
        security_of(0, 0, 0x100) == SecurityType::WPA3,
        security_of(0, 0, 0x1) == SecurityType::WPA2,
        security_of(0, 0x1, 0) == SecurityType::WPA,
{
    assert(0u32 & 0x100 == 0) by (bit_vector);
    assert(0x100u32 & 0x100 != 0) by (bit_vector);
    assert(0x1u32 & 0x100 == 0) by (bit_vector);
}

/// How many of the four signal bars a strength lights: one for each
/// started quarter of the scale, and one at least.
pub open spec fn bars_of(strength: u8) -> u8 {
    if strength <= 24 {
        1
    } else if strength <= 49 {
        2
    } else if strength <= 74 {
        3
    } else {
        4
    }
}

/// How many of the four signal bars to light for a strength in percent.
pub fn signal_bar_count(strength: u8) -> (bars: u8)
    ensures
        bars == bars_of(strength),
        1 <= bars <= 4,
{
    if strength <= 24 {
        1
    } else if strength <= 49 {
        2
    } else if strength <= 74 {
        3
    } else {
        4
    }
}

/// The name of the icon for a signal strength.
pub open spec fn signal_icon_of(strength: u8) -> Seq<char> {
    if bars_of(strength) == 1 {
        "network-wireless-signal-weak-symbolic"@
    } else if bars_of(strength) == 2 {
        "network-wireless-signal-ok-symbolic"@
    } else if bars_of(strength) == 3 {
        "network-wireless-signal-good-symbolic"@
    } else {
        "network-wireless-signal-excellent-symbolic"@
    }
}

/// The name of the icon to show for a signal strength in percent.
pub fn get_signal_icon_name(strength: u8) -> (name: &'static str)
    ensures
        name@ == signal_icon_of(strength),
{
    let bars = signal_bar_count(strength);
    if bars == 1 {
        "network-wireless-signal-weak-symbolic"
    } else if bars == 2 {
        "network-wireless-signal-ok-symbolic"
    } else if bars == 3 {
        "network-wireless-signal-good-symbolic"
    } else {
        "network-wireless-signal-excellent-symbolic"
    }
}

/// One network as the user sees it.
#[derive(Debug, Clone)]
pub struct AccessPoint {
    pub ssid: String,
    /// Signal strength in percent.
    pub signal_strength: u8,
    pub security: SecurityType,
    pub is_connected: bool,
    /// The radio that saw it.
    pub device_path: String,
    /// The scan result it was built from.
    pub path: String,
}

/// An access point as a mathematical value.
pub struct AccessPointView {
    pub ssid: Seq<char>,
    pub signal_strength: u8,
    pub security: SecurityType,
    pub is_connected: bool,
    pub device_path: Seq<char>,
    pub path: Seq<char>,
}

impl View for AccessPoint {
    type V = AccessPointView;

    open spec fn view(&self) -> AccessPointView {
        AccessPointView {
            ssid: self.ssid@,
            signal_strength: self.signal_strength,
            security: self.security,
            is_connected: self.is_connected,
            device_path: self.device_path@,
            path: self.path@,
        }
    }
}

impl Ranked for AccessPoint {
    /// The stronger signal is listed first.
    open spec fn ranks_before(a: AccessPointView, b: AccessPointView) -> bool {
        a.signal_strength > b.signal_strength
    }

    fn comes_before(&self, other: &Self) -> (r: bool) {
        self.signal_strength > other.signal_strength
    }

    proof fn lemma_asymmetric(a: AccessPointView, b: AccessPointView) {
    }

    proof fn lemma_transitive(a: AccessPointView, b: AccessPointView, c: AccessPointView) {
    }
}

/// What was read of one scan result. A property that could not be read is
/// `None`.
#[derive(Debug)]
pub struct ScanRecord {
    /// The radio that reported the result.
    pub device_path: String,
    /// The scan result object.
    pub path: String,
    pub ssid: Option<BusValue>,
    pub strength: Option<BusValue>,
    pub flags: Option<BusValue>,
    pub rsn_flags: Option<BusValue>,
    pub wpa_flags: Option<BusValue>,
}

/// A number property with its default.
pub open spec fn flags_of(v: Option<BusValue>) -> u32 {
    match u32_of(v) {
        Some(n) => n,
        None => 0,
    }
}

/// The strength property with its default.
pub open spec fn strength_of(v: Option<BusValue>) -> u8 {
    match u8_of(v) {
        Some(n) => n,
        None => 0,
    }
}

/// The access point that a scan result with the decoded name `ssid` stands
/// for, if any. The root path stands for no result, and a result without a
/// name is not listed. A missing strength counts as 0 and missing flags as
/// none set. The result counts as connected if its name is that of the
/// active connection.
pub open spec fn named_candidate(ssid: Seq<char>, rec: ScanRecord, active: Option<Seq<char>>) -> Option<
    AccessPointView,
> {
    if rec.path@ == "/"@ || ssid.len() == 0 {
        None
    } else {
        Some(
            AccessPointView {
                ssid,
                signal_strength: strength_of(rec.strength),
                security: security_of(
                    flags_of(rec.flags),
                    flags_of(rec.wpa_flags),
                    flags_of(rec.rsn_flags),
                ),
                is_connected: active == Some(ssid),
                device_path: rec.device_path@,
                path: rec.path@,
            },
        )
    }
}

/// The access point that a scan result stands for, if any: that of its
/// name, which is what its bytes decode to.
pub open spec fn candidate(rec: ScanRecord, active: Option<Seq<char>>) -> Option<AccessPointView> {
    named_candidate(utf8_lossy(bytes_of(rec.ssid)), rec, active)
}

/// The access points that the scan results stand for, in scan order.
pub open spec fn candidates(recs: Seq<ScanRecord>, active: Option<Seq<char>>) -> Seq<
    AccessPointView,
>
    decreases recs.len(),
{
    if recs.len() == 0 {
        Seq::empty()
    } else {
        let before = candidates(recs.drop_last(), active);
        match candidate(recs.last(), active) {
            Some(ap) => before.push(ap),
            None => before,
        }
    }
}

/// The position of the first entry of `s` at or after `from` that is named
/// `ssid`, or the length of `s` when there is none.
pub open spec fn ssid_index_from(s: Seq<AccessPointView>, ssid: Seq<char>, from: int) -> int
    decreases s.len() - from,
{
    if from >= s.len() {
        s.len() as int
    } else if s[from].ssid == ssid {
        from
    } else {
        ssid_index_from(s, ssid, from + 1)
    }
}

/// `s` with each network once: of the entries of one name the first is
/// kept, and it is marked connected if it or a later one is.
pub open spec fn merged(s: Seq<AccessPointView>) -> Seq<AccessPointView>
    decreases s.len(),
{
    if s.len() == 0 {
        Seq::empty()
    } else {
        let acc = merged(s.drop_last());
        let x = s.last();
        let k = ssid_index_from(acc, x.ssid, 0);
        if k < acc.len() {
            if x.is_connected {
                acc.update(k, AccessPointView { is_connected: true, ..acc[k] })
            } else {
                acc
            }
        } else {
            acc.push(x)
        }
    }
}

/// The list of access points for a set of scan results: the results that
/// stand for an access point, strongest first, each network once.
pub open spec fn access_points(recs: Seq<ScanRecord>, active: Option<Seq<char>>) -> Seq<
    AccessPointView,
> {
    merged(stable_sorted::<AccessPoint>(candidates(recs, active)))
}

/// The view of an optional name.
pub open spec fn name_view(name: Option<&str>) -> Option<Seq<char>> {
    match name {
        Some(s) => Some(s@),
        None => None,
    }
}

/// Builds the access point that a scan result stands for, given the name
/// that its bytes decode to.
pub fn candidate_named(ssid: String, rec: ScanRecord, active: Option<&str>) -> (r: Option<
    AccessPoint,
>)
    ensures
        match r {
            Some(ap) => named_candidate(ssid@, rec, name_view(active)) == Some(ap@),
            None => named_candidate(ssid@, rec, name_view(active)) is None,
        },
{
    if str_eq(rec.path.as_str(), "/") || ssid.as_str().is_empty() {
        return None;
    }
    let strength = match BusValue::read_u8(rec.strength.as_ref()) {
        Some(n) => n,
        None => 0,
    };
    let flags = read_flags(rec.flags.as_ref());
    let rsn_flags = read_flags(rec.rsn_flags.as_ref());
    let wpa_flags = read_flags(rec.wpa_flags.as_ref());
    let is_connected = match active {
        Some(name) => str_eq(name, ssid.as_str()),
        None => false,
    };
    Some(
        AccessPoint {
            ssid,
            signal_strength: strength,
            security: classify_security(flags, wpa_flags, rsn_flags),
            is_connected,
            device_path: rec.device_path,
            path: rec.path,
        },
    )
}

/// Builds the access point that a scan result stands for, if any.
pub fn candidate_from(rec: ScanRecord, active: Option<&str>) -> (r: Option<AccessPoint>)
    ensures
        match r {
            Some(ap) => candidate(rec, name_view(active)) == Some(ap@),
            None => candidate(rec, name_view(active)) is None,
        },
{
    let bytes = BusValue::read_bytes(rec.ssid.as_ref());
    let ssid = decode_utf8_lossy(bytes.as_slice());
    candidate_named(ssid, rec, active)
}

fn read_flags(v: Option<&BusValue>) -> (n: u32)
    ensures
        n == flags_of(crate::bus::deref_value(v)),
{
    match BusValue::read_u32(v) {
        Some(n) => n,
        None => 0,
    }
}

/// Where the first entry named `ssid` stands in `list`.
pub fn find_ssid(list: &Vec<AccessPoint>, ssid: &str) -> (k: usize)
    ensures
        k == ssid_index_from(views(list@), ssid@, 0),
        k <= list.len(),
{
    let mut i: usize = 0;
    while i < list.len() && !str_eq(list[i].ssid.as_str(), ssid)
        invariant
            i <= list.len(),
            ssid_index_from(views(list@), ssid@, 0) == ssid_index_from(
                views(list@),
                ssid@,
                i as int,
            ),
        decreases list.len() - i,
    {
        i += 1;
    }
    i
}

/// Merges the entries of each network into its first one.
pub fn merge_duplicates(list: Vec<AccessPoint>) -> (out: Vec<AccessPoint>)
    ensures
        views(out@) == merged(views(list@)),
{
    let mut out: Vec<AccessPoint> = Vec::new();
    proof {
        assert(views(list@).take(0) =~= Seq::empty());
        assert(views(out@) =~= Seq::empty());
    }
    for ap in it: list
        invariant
            it.seq() == list@,
            views(out@) == merged(views(list@).take(it.index() as int)),
    {
        proof {
            let done = views(list@).take(it.index() + 1);
            assert(done.drop_last() =~= views(list@).take(it.index() as int));
            assert(done.last() == ap@);
        }
        let ghost before = out@;
        let k = find_ssid(&out, ap.ssid.as_str());
        if k < out.len() {
            if ap.is_connected {
                let kept = out.remove(k);
                out.insert(k, AccessPoint { is_connected: true, ..kept });
                proof {
                    assert(views(out@) =~= views(before).update(
                        k as int,
                        AccessPointView { is_connected: true, ..views(before)[k as int] },
                    ));
                }
            }
        } else {
            out.push(ap);
            proof {
                assert(views(out@) =~= views(before).push(ap@));
            }
        }
    }
    proof {
        assert(views(list@).take(list@.len() as int) =~= views(list@));
    }
    out
}

/// Builds the access points that the scan results stand for, in scan order.
pub fn collect_candidates(recs: Vec<ScanRecord>, active: Option<&str>) -> (out: Vec<AccessPoint>)
    ensures
        views(out@) == candidates(recs@, name_view(active)),
{
    let mut out: Vec<AccessPoint> = Vec::new();
    proof {
        assert(recs@.take(0) =~= Seq::empty());
        assert(views(out@) =~= Seq::empty());
    }
    for rec in it: recs
        invariant
            it.seq() == recs@,
            views(out@) == candidates(recs@.take(it.index() as int), name_view(active)),
    {
        proof {
            let done = recs@.take(it.index() + 1);
            assert(done.drop_last() =~= recs@.take(it.index() as int));
            assert(done.last() == rec);
        }
        let ghost before = out@;
        match candidate_from(rec, active) {
            Some(ap) => {
                out.push(ap);
                proof {
                    assert(views(out@) =~= views(before).push(ap@));
                }
            },
            None => {},
        }
    }
    proof {
        assert(recs@.take(recs@.len() as int) =~= recs@);
    }
    out
}

/// Builds the list of access points from what was read of the scan results
/// of all radios, given in scan order, and the name of the active
/// connection.
pub fn get_access_points(recs: Vec<ScanRecord>, active: Option<&str>) -> (out: Vec<AccessPoint>)
    ensures
        views(out@) == access_points(recs@, name_view(active)),
{
    let found = collect_candidates(recs, active);
    let sorted = sort_stable(found);
    merge_duplicates(sorted)
}

/// Whether an entry of `s` named `ssid` is connected.
pub open spec fn any_connected(s: Seq<AccessPointView>, ssid: Seq<char>) -> bool {
    exists|i: int| 0 <= i < s.len() && #[trigger] s[i].ssid == ssid && s[i].is_connected
}

/// Whether `s` holds an entry named `ssid`.
pub open spec fn names(s: Seq<AccessPointView>, ssid: Seq<char>) -> bool {
    ssid_index_from(s, ssid, 0) < s.len()
}

/// [`ssid_index_from`] finds the first entry of the name at or after `from`.
pub proof fn lemma_ssid_index(s: Seq<AccessPointView>, ssid: Seq<char>, from: int)
    requires
        0 <= from <= s.len(),
    ensures
        from <= ssid_index_from(s, ssid, from) <= s.len(),
        forall|k: int| from <= k < ssid_index_from(s, ssid, from) ==> s[k].ssid != ssid,
        ssid_index_from(s, ssid, from) < s.len() ==> s[ssid_index_from(s, ssid, from)].ssid
            == ssid,
    decreases s.len() - from,
{
    if from < s.len() && s[from].ssid != ssid {
        lemma_ssid_index(s, ssid, from + 1);
    }
}

/// A position before which no entry has the name, and which holds one or
/// is the end, is the one that [`ssid_index_from`] finds.
pub proof fn lemma_ssid_index_is(s: Seq<AccessPointView>, ssid: Seq<char>, from: int, at: int)
    requires
        0 <= from <= at <= s.len(),
        forall|k: int| from <= k < at ==> s[k].ssid != ssid,
        at < s.len() ==> s[at].ssid == ssid,
    ensures
        ssid_index_from(s, ssid, from) == at,
    decreases at - from,
{
    if from < at {
        lemma_ssid_index_is(s, ssid, from + 1, at);
    }
}

/// What merging does: the merged list holds each name of `s` once and no
/// other, and the entry of a name is the first entry of that name in `s`,
/// marked connected if any entry of that name in `s` is.
pub proof fn lemma_merged(s: Seq<AccessPointView>)
    ensures
        forall|i: int, j: int|
            0 <= i < j < merged(s).len() ==> merged(s)[i].ssid != merged(s)[j].ssid,
        forall|i: int| 0 <= i < s.len() ==> names(merged(s), #[trigger] s[i].ssid),
        forall|k: int|
            0 <= k < merged(s).len() ==> names(s, #[trigger] merged(s)[k].ssid) && merged(s)[k]
                == (AccessPointView {
                is_connected: any_connected(s, merged(s)[k].ssid),
                ..s[ssid_index_from(s, merged(s)[k].ssid, 0)]
            }),
    decreases s.len(),
{
    if s.len() > 0 {
        let rest = s.drop_last();
        let acc = merged(rest);
        let x = s.last();
        let out = merged(s);
        lemma_merged(rest);
        let k = ssid_index_from(acc, x.ssid, 0);
        lemma_ssid_index(acc, x.ssid, 0);
        assert(out.len() >= acc.len());
        assert(forall|m: int| 0 <= m < acc.len() ==> out[m].ssid == acc[m].ssid);
        // one entry per name
        assert forall|i: int, j: int| 0 <= i < j < out.len() implies out[i].ssid
            != out[j].ssid by {
            if j >= acc.len() {
                assert(out[j].ssid == x.ssid);
            }
        }
        // every name of s is listed
        assert forall|i: int| 0 <= i < s.len() implies names(out, #[trigger] s[i].ssid) by {
            let name = s[i].ssid;
            if i < rest.len() {
                assert(rest[i] == s[i]);
                assert(names(acc, rest[i].ssid));
                let at = ssid_index_from(acc, name, 0);
                lemma_ssid_index(acc, name, 0);
                lemma_ssid_index_is(out, name, 0, at);
            } else {
                let at = if k < acc.len() { k } else { acc.len() as int };
                lemma_ssid_index_is(out, name, 0, at);
            }
        }
        // every entry is the first of its name in s, with the merged flag
        assert forall|m: int| 0 <= m < out.len() implies names(s, #[trigger] out[m].ssid)
            && out[m] == (AccessPointView {
            is_connected: any_connected(s, out[m].ssid),
            ..s[ssid_index_from(s, out[m].ssid, 0)]
        }) by {
            let name = out[m].ssid;
            if m < acc.len() {
                assert(acc[m].ssid == name);
                let first = ssid_index_from(rest, name, 0);
                lemma_ssid_index(rest, name, 0);
                assert(names(rest, acc[m].ssid));
                assert(forall|q: int| 0 <= q < rest.len() ==> rest[q] == s[q]);
                lemma_ssid_index_is(s, name, 0, first);
                // the flag
                if any_connected(rest, name) {
                    let w = choose|w: int|
                        0 <= w < rest.len() && #[trigger] rest[w].ssid == name
                            && rest[w].is_connected;
                    assert(s[w].ssid == name && s[w].is_connected);
                }
                if any_connected(s, name) && !any_connected(rest, name) {
                    let w = choose|w: int|
                        0 <= w < s.len() && #[trigger] s[w].ssid == name && s[w].is_connected;
                    if w < rest.len() {
                        assert(rest[w].ssid == name && rest[w].is_connected);
                    }
                    assert(w == s.len() - 1);
                    assert(x.ssid == name && x.is_connected);
                    assert(k == m);
                }
                if x.ssid == name && x.is_connected {
                    assert(s[s.len() - 1].ssid == name && s[s.len() - 1].is_connected);
                    assert(k == m);
                }
            } else {
                assert(k == acc.len());
                assert(out[m] == x);
                // no earlier entry of s has this name
                assert forall|q: int| 0 <= q < rest.len() implies rest[q].ssid != name by {
                    if rest[q].ssid == name {
                        assert(names(acc, rest[q].ssid));
                    }
                }
                assert(forall|q: int| 0 <= q < rest.len() ==> rest[q] == s[q]);
                lemma_ssid_index_is(s, name, 0, s.len() - 1);
                if x.is_connected {
                    assert(s[s.len() - 1].ssid == name && s[s.len() - 1].is_connected);
                }
                if any_connected(s, name) {
                    let w = choose|w: int|
                        0 <= w < s.len() && #[trigger] s[w].ssid == name && s[w].is_connected;
                    assert(w == s.len() - 1);
                }
            }
        }
    }
}

/// An item of a list is an item of every list with the same items.
proof fn lemma_member(a: Seq<AccessPointView>, b: Seq<AccessPointView>, x: AccessPointView)
    requires
        a.to_multiset() == b.to_multiset(),
        a.contains(x),
    ensures
        b.contains(x),
{
    vstd::seq_lib::to_multiset_contains(a, x);
    vstd::seq_lib::to_multiset_contains(b, x);
}

/// Two lists with the same items hold the same names and agree on whether
/// a name has a connected entry.
proof fn lemma_same_items(a: Seq<AccessPointView>, b: Seq<AccessPointView>, ssid: Seq<char>)
    requires
        a.to_multiset() == b.to_multiset(),
    ensures
        names(a, ssid) ==> names(b, ssid),
        any_connected(a, ssid) ==> any_connected(b, ssid),
{
    if names(a, ssid) {
        lemma_ssid_index(a, ssid, 0);
        let x = a[ssid_index_from(a, ssid, 0)];
        assert(a.contains(x));
        lemma_member(a, b, x);
        let j = choose|j: int| 0 <= j < b.len() && b[j] == x;
        lemma_ssid_index(b, ssid, 0);
    }
    if any_connected(a, ssid) {
        let i = choose|i: int| 0 <= i < a.len() && #[trigger] a[i].ssid == ssid && a[i].is_connected;
        assert(a.contains(a[i]));
        lemma_member(a, b, a[i]);
        let j = choose|j: int| 0 <= j < b.len() && b[j] == a[i];
        assert(b[j].ssid == ssid && b[j].is_connected);
    }
}

/// The list of access points holds every network that was seen exactly
/// once, an entry is marked connected exactly if one of the scan results of
/// its network is, and no scan result of its network is stronger than it.
pub proof fn lemma_one_entry_per_network(recs: Seq<ScanRecord>, active: Option<Seq<char>>)
    ensures
        ({
            let found = candidates(recs, active);
            let list = access_points(recs, active);
            &&& forall|i: int, j: int| 0 <= i < j < list.len() ==> list[i].ssid != list[j].ssid
            &&& forall|i: int| 0 <= i < found.len() ==> names(list, #[trigger] found[i].ssid)
            &&& forall|k: int|
                0 <= k < list.len() ==> names(found, #[trigger] list[k].ssid) && (
                list[k].is_connected <==> any_connected(found, list[k].ssid))
            &&& forall|k: int, i: int|
                0 <= k < list.len() && 0 <= i < found.len() && #[trigger] found[i].ssid
                    == #[trigger] list[k].ssid ==> found[i].signal_strength
                    <= list[k].signal_strength
        }),
{
    let found = candidates(recs, active);
    let sorted = stable_sorted::<AccessPoint>(found);
    let list = merged(sorted);
    crate::order::lemma_sorted_is_permutation::<AccessPoint>(found);
    crate::order::lemma_sorted_is_ordered::<AccessPoint>(found);
    lemma_merged(sorted);
    assert forall|i: int| 0 <= i < found.len() implies names(list, #[trigger] found[i].ssid) by {
        assert(found.contains(found[i]));
        lemma_member(found, sorted, found[i]);
        let j = choose|j: int| 0 <= j < sorted.len() && sorted[j] == found[i];
        assert(names(list, sorted[j].ssid));
    }
    assert forall|k: int| 0 <= k < list.len() implies names(found, #[trigger] list[k].ssid) && (
    list[k].is_connected <==> any_connected(found, list[k].ssid)) by {
        lemma_same_items(sorted, found, list[k].ssid);
        lemma_same_items(found, sorted, list[k].ssid);
    }
    assert forall|k: int, i: int|
        0 <= k < list.len() && 0 <= i < found.len() && #[trigger] found[i].ssid
            == #[trigger] list[k].ssid implies found[i].signal_strength
        <= list[k].signal_strength by {
        let name = list[k].ssid;
        assert(found.contains(found[i]));
        lemma_member(found, sorted, found[i]);
        let j = choose|j: int| 0 <= j < sorted.len() && sorted[j] == found[i];
        let first = ssid_index_from(sorted, name, 0);
        lemma_ssid_index(sorted, name, 0);
        assert(names(sorted, list[k].ssid));
        assert(first <= j);
        if first < j {
            assert(!AccessPoint::ranks_before(sorted[j], sorted[first]));
        }
    }
}

} // verus!
