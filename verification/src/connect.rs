//! Establishing and ending a connection.
//!
//! Connecting is a decision followed by a wait. The decision is whether a
//! stored profile of the network is activated again or a new profile is
//! made and activated. The wait is needed because the service activates in
//! the background: after the call the active connection is read again and
//! again, a fixed number of times at a fixed interval, until it is the
//! network asked for. The calls, the sleeping and the reading are the
//! caller's; this module decides what to call and when to stop.

use vstd::prelude::*;
use vstd::string::*;
use vstd::utf8::encode_utf8;
use crate::bus::{object_path_accepted, valid_object_path, BusValue, Entry, EntryView};
use crate::order::views;
use crate::profiles::{
    find_connection_by_ssid, found_profile, GroupView, Profile, SettingsGroup, GROUP_CONNECTION,
    GROUP_WIRELESS,
};
use crate::text::str_eq;

verus! {

/// How often the active connection is read after an activation.
pub const POLL_ATTEMPTS: u32 = 30;

/// Milliseconds to sleep before each reading of the active connection.
pub const POLL_INTERVAL_MS: u64 = 500;

/// Why a broker operation failed.
#[derive(Debug, Clone)]
pub enum BrokerError {
    /// The bus could not be reached or the call failed; the text is what
    /// the transport said.
    Transport(String),
    /// A handle is no well-formed object path.
    InvalidPath,
    /// The network did not become the active one in time.
    Timeout,
    /// There is no Bluetooth adapter.
    NoAdapter,
}

/// The text of an error, as it goes into messages.
pub open spec fn error_text(e: BrokerError) -> Seq<char> {
    match e {
        BrokerError::Transport(msg) => msg@,
        BrokerError::InvalidPath => "Invalid object path"@,
        BrokerError::Timeout => "address error: Connection timeout"@,
        BrokerError::NoAdapter => "address error: No Bluetooth adapter found"@,
    }
}

impl BrokerError {
    /// The text of this error.
    pub fn message(&self) -> (s: String)
        ensures
            s@ == error_text(*self),
    {
        match self {
            BrokerError::Transport(msg) => String::from_str(msg.as_str()),
            BrokerError::InvalidPath => String::from_str("Invalid object path"),
            BrokerError::Timeout => String::from_str("address error: Connection timeout"),
            BrokerError::NoAdapter => String::from_str(
                "address error: No Bluetooth adapter found",
            ),
        }
    }
}

/// Checks a handle before it is used to address an object on the bus.
pub fn check_path(path: &str) -> (r: Result<(), BrokerError>)
    ensures
        match r {
            Ok(_) => valid_object_path(path@),
            Err(e) => !valid_object_path(path@) && e is InvalidPath,
        },
{
    if object_path_accepted(path) {
        Ok(())
    } else {
        Err(BrokerError::InvalidPath)
    }
}

/// What to ask of the service to bring a connection up.
#[derive(Debug)]
pub enum Activation {
    /// Activate the stored profile on the device. No profile is created.
    Reuse { profile_path: String, device_path: String },
    /// Store these settings as a new profile and activate it on the device.
    Create { settings: Vec<SettingsGroup<BusValue>>, device_path: String },
}

/// Whether `v` is the text `s`.
pub open spec fn is_text(v: BusValue, s: Seq<char>) -> bool {
    v matches BusValue::Str(t) && t@ == s
}

/// Whether `v` is the array of the bytes `bytes`.
pub open spec fn is_byte_array(v: BusValue, bytes: Seq<u8>) -> bool {
    v matches BusValue::Array(items) && items@.len() == bytes.len() && forall|i: int|
        0 <= i < bytes.len() ==> #[trigger] items@[i] == BusValue::U8(bytes[i])
}

/// Whether `e` stores the text `s` under `key`.
pub open spec fn is_text_entry(e: EntryView<BusValue>, key: Seq<char>, s: Seq<char>) -> bool {
    e.key == key && is_text(e.value, s)
}

/// Whether `e` stores the flag `b` under `key`.
pub open spec fn is_flag_entry(e: EntryView<BusValue>, key: Seq<char>, b: bool) -> bool {
    e.key == key && e.value == BusValue::Bool(b)
}

/// The `connection` group of a new wireless profile: its type, the network
/// name as its id, its unique id, and autoconnect switched on.
pub open spec fn is_connection_group(g: GroupView<BusValue>, ssid: Seq<char>, uuid: Seq<char>) -> bool {
    &&& g.name == GROUP_CONNECTION@
    &&& g.entries.len() == 4
    &&& is_text_entry(g.entries[0], "type"@, GROUP_WIRELESS@)
    &&& is_text_entry(g.entries[1], "id"@, ssid)
    &&& is_text_entry(g.entries[2], "uuid"@, uuid)
    &&& is_flag_entry(g.entries[3], "autoconnect"@, true)
}

/// The wireless group of a new profile: the bytes of the network name,
/// infrastructure mode and, for a hidden network, the hidden flag.
pub open spec fn is_wireless_group(g: GroupView<BusValue>, ssid: Seq<char>, hidden: bool) -> bool {
    &&& g.name == GROUP_WIRELESS@
    &&& g.entries.len() == if hidden {
        3int
    } else {
        2int
    }
    &&& g.entries[0].key == "ssid"@
    &&& is_byte_array(g.entries[0].value, encode_utf8(ssid))
    &&& is_text_entry(g.entries[1], "mode"@, "infrastructure"@)
    &&& hidden ==> is_flag_entry(g.entries[2], "hidden"@, true)
}

/// The security group of a new profile: WPA with a pre-shared key.
pub open spec fn is_security_group(g: GroupView<BusValue>, password: Seq<char>) -> bool {
    &&& g.name == "802-11-wireless-security"@
    &&& g.entries.len() == 3
    &&& is_text_entry(g.entries[0], "key-mgmt"@, "wpa-psk"@)
    &&& is_text_entry(g.entries[1], "auth-alg"@, "open"@)
    &&& is_text_entry(g.entries[2], "psk"@, password)
}

/// An address group of a new profile, which holds nothing but the method.
pub open spec fn is_address_group(g: GroupView<BusValue>, name: Seq<char>, method: Seq<char>) -> bool {
    &&& g.name == name
    &&& g.entries.len() == 1
    &&& is_text_entry(g.entries[0], "method"@, method)
}

/// Whether `groups` are the settings of a new profile for the network
/// `ssid`: the connection and the wireless group, a security group exactly
/// if a password is given, IPv4 by DHCP and IPv6 switched off.
pub open spec fn is_new_profile(
    groups: Seq<GroupView<BusValue>>,
    ssid: Seq<char>,
    password: Option<Seq<char>>,
    hidden: bool,
    uuid: Seq<char>,
) -> bool {
    let n = groups.len() as int;
    &&& n == if password is Some {
        5int
    } else {
        4int
    }
    &&& is_connection_group(groups[0], ssid, uuid)
    &&& is_wireless_group(groups[1], ssid, hidden)
    &&& password matches Some(p) ==> is_security_group(groups[2], p)
    &&& is_address_group(groups[n - 2], "ipv4"@, "auto"@)
    &&& is_address_group(groups[n - 1], "ipv6"@, "ignore"@)
}

fn text_entry(key: &str, value: &str) -> (e: Entry<BusValue>)
    ensures
        is_text_entry(e@, key@, value@),
{
    Entry { key: String::from_str(key), value: BusValue::Str(String::from_str(value)) }
}

fn flag_entry(key: &str, value: bool) -> (e: Entry<BusValue>)
    ensures
        is_flag_entry(e@, key@, value),
{
    Entry { key: String::from_str(key), value: BusValue::Bool(value) }
}

fn byte_array(bytes: &[u8]) -> (v: BusValue)
    ensures
        is_byte_array(v, bytes@),
{
    let mut items: Vec<BusValue> = Vec::new();
    let mut i: usize = 0;
    while i < bytes.len()
        invariant
            i <= bytes.len(),
            items@.len() == i,
            forall|k: int| 0 <= k < i ==> #[trigger] items@[k] == BusValue::U8(bytes@[k]),
        decreases bytes.len() - i,
    {
        items.push(BusValue::U8(bytes[i]));
        i += 1;
    }
    BusValue::Array(items)
}

fn address_group(name: &str, method: &str) -> (g: SettingsGroup<BusValue>)
    ensures
        is_address_group(g@, name@, method@),
{
    let mut entries: Vec<Entry<BusValue>> = Vec::new();
    entries.push(text_entry("method", method));
    SettingsGroup { name: String::from_str(name), entries }
}

/// Puts together the settings of a new profile for the network `ssid`, with
/// `uuid` as its unique id.
pub fn new_profile(ssid: &str, password: Option<&str>, hidden: bool, uuid: &str) -> (groups: Vec<
    SettingsGroup<BusValue>,
>)
    ensures
        is_new_profile(
            views(groups@),
            ssid@,
            match password {
                Some(p) => Some(p@),
                None => None,
            },
            hidden,
            uuid@,
        ),
{
    let mut connection: Vec<Entry<BusValue>> = Vec::new();
    connection.push(text_entry("type", GROUP_WIRELESS));
    connection.push(text_entry("id", ssid));
    connection.push(text_entry("uuid", uuid));
    connection.push(flag_entry("autoconnect", true));

    let mut wireless: Vec<Entry<BusValue>> = Vec::new();
    wireless.push(Entry { key: String::from_str("ssid"), value: byte_array(ssid.as_bytes()) });
    wireless.push(text_entry("mode", "infrastructure"));
    if hidden {
        wireless.push(flag_entry("hidden", true));
    }
    let mut groups: Vec<SettingsGroup<BusValue>> = Vec::new();
    groups.push(SettingsGroup { name: String::from_str(GROUP_CONNECTION), entries: connection });
    groups.push(SettingsGroup { name: String::from_str(GROUP_WIRELESS), entries: wireless });
    match password {
        Some(p) => {
            let mut security: Vec<Entry<BusValue>> = Vec::new();
            security.push(text_entry("key-mgmt", "wpa-psk"));
            security.push(text_entry("auth-alg", "open"));
            security.push(text_entry("psk", p));
            groups.push(
                SettingsGroup {
                    name: String::from_str("802-11-wireless-security"),
                    entries: security,
                },
            );
        },
        None => {},
    }
    groups.push(address_group("ipv4", "auto"));
    groups.push(address_group("ipv6", "ignore"));
    groups
}

/// Makes a random unique id in its usual text form.
///
/// Calls `Uuid::new_v4` of `uuid` and formats the result, which gives the
/// hyphenated form. The id differs from call to call; the contract holds
/// only its length, 36 characters.
#[verifier::external_body]
pub(crate) fn fresh_uuid() -> (id: String)
    ensures
        id@.len() == 36,
{
    uuid::Uuid::new_v4().to_string()
}

/// The view of an optional text.
pub open spec fn text_view(t: Option<&str>) -> Option<Seq<char>> {
    match t {
        Some(s) => Some(s@),
        None => None,
    }
}

/// Whether `a` asks to create a new profile for the network `ssid` and to
/// activate it on the device: its settings are those of a new profile with
/// some unique id of 36 characters.
pub open spec fn creates_profile(
    a: Activation,
    ssid: Seq<char>,
    password: Option<Seq<char>>,
    hidden: bool,
    device_path: Seq<char>,
) -> bool {
    match a {
        Activation::Create { settings, device_path: d } => d@ == device_path && exists|
            uuid: Seq<char>,
        |
            uuid.len() == 36 && #[trigger] is_new_profile(
                views(settings@),
                ssid,
                password,
                hidden,
                uuid,
            ),
        _ => false,
    }
}

/// A connection that is being established: what to ask of the service,
/// and the wait for the connection to come up that follows the request.
#[derive(Debug)]
pub struct Connecting {
    pub activation: Activation,
    /// The wait, before its first reading of the active connection.
    pub wait: ConnectPoll,
}

/// What a connect request for `ssid` leads to, given the stored profiles.
/// A device handle that is no object path is an error. A stored profile of
/// the network is used again, and then no profile is created. Only where
/// none is stored, a new profile is made. In either case the wait for the
/// connection begins with no reading made.
pub open spec fn connect_decision(
    r: Result<Connecting, BrokerError>,
    ssid: Seq<char>,
    password: Option<Seq<char>>,
    device_path: Seq<char>,
    profiles: Seq<Profile>,
) -> bool {
    if !valid_object_path(device_path) {
        r matches Err(BrokerError::InvalidPath)
    } else {
        match found_profile(profiles, ssid) {
            Some(path) => if valid_object_path(path) {
                &&& r matches Ok(c)
                &&& c.wait.attempts == 0
                &&& c.activation matches Activation::Reuse { profile_path, device_path: d }
                &&& profile_path@ == path
                &&& d@ == device_path
            } else {
                r matches Err(BrokerError::InvalidPath)
            },
            None => {
                &&& r matches Ok(c)
                &&& c.wait.attempts == 0
                &&& creates_profile(c.activation, ssid, password, false, device_path)
            },
        }
    }
}

/// Connecting to a network of which a profile is stored never asks for a
/// new profile, however often it is done: the decision is to use the
/// stored one again, or it is an error.
pub proof fn lemma_reconnect_creates_no_profile(
    r: Result<Connecting, BrokerError>,
    ssid: Seq<char>,
    password: Option<Seq<char>>,
    device_path: Seq<char>,
    profiles: Seq<Profile>,
)
    requires
        connect_decision(r, ssid, password, device_path, profiles),
        found_profile(profiles, ssid) is Some,
    ensures
        r matches Ok(c) ==> c.activation is Reuse,
        r matches Ok(c) ==> Some(c.activation->profile_path@) == found_profile(profiles, ssid),
{
}

/// Decides how to connect to the network `ssid` on the device
/// `device_path`, given the stored profiles as the service lists them.
///
/// After the activation that this asks for has been requested, the
/// connection still has to come up. The wait for that is handed out with
/// the activation: the caller sleeps for the interval, reads the active
/// connection and shows the reading to [`ConnectPoll::observe`], until the
/// wait has ended, which it has after [`POLL_ATTEMPTS`] readings at the
/// latest. Success is owed only once a reading has shown the network.
pub fn connect_to_network(
    ssid: &str,
    password: Option<&str>,
    device_path: &str,
    profiles: &Vec<Profile>,
) -> (r: Result<Connecting, BrokerError>)
    ensures
        connect_decision(r, ssid@, text_view(password), device_path@, profiles@),
{
    if !object_path_accepted(device_path) {
        return Err(BrokerError::InvalidPath);
    }
    match find_connection_by_ssid(profiles, ssid) {
        Some(path) => {
            if !object_path_accepted(path) {
                return Err(BrokerError::InvalidPath);
            }
            Ok(
                Connecting {
                    activation: Activation::Reuse {
                        profile_path: String::from_str(path),
                        device_path: String::from_str(device_path),
                    },
                    wait: ConnectPoll::new(),
                },
            )
        },
        None => {
            let uuid = fresh_uuid();
            let settings = new_profile(ssid, password, false, uuid.as_str());
            let a = Activation::Create { settings, device_path: String::from_str(device_path) };
            proof {
                assert(is_new_profile(
                    views(a->settings@),
                    ssid@,
                    text_view(password),
                    false,
                    uuid@,
                ));
                assert(creates_profile(a, ssid@, text_view(password), false, device_path@));
            }
            Ok(Connecting { activation: a, wait: ConnectPoll::new() })
        },
    }
}

/// What a connect request for the hidden network `ssid` leads to: always a
/// new profile, marked hidden, unless the device handle is no object path.
pub open spec fn hidden_decision(
    r: Result<Activation, BrokerError>,
    ssid: Seq<char>,
    password: Option<Seq<char>>,
    device_path: Seq<char>,
) -> bool {
    if !valid_object_path(device_path) {
        r matches Err(BrokerError::InvalidPath)
    } else {
        r matches Ok(a) && creates_profile(a, ssid, password, true, device_path)
    }
}

/// Decides how to connect to a hidden network. No scan result stands for
/// such a network, so the caller does not wait for the connection to come
/// up after the activation: it shows in the active connection later.
pub fn connect_hidden(ssid: &str, password: Option<&str>, device_path: &str) -> (r: Result<
    Activation,
    BrokerError,
>)
    ensures
        hidden_decision(r, ssid@, text_view(password), device_path@),
{
    let uuid = fresh_uuid();
    let settings = new_profile(ssid, password, true, uuid.as_str());
    if !object_path_accepted(device_path) {
        return Err(BrokerError::InvalidPath);
    }
    let a = Activation::Create { settings, device_path: String::from_str(device_path) };
    proof {
        assert(is_new_profile(views(a->settings@), ssid@, text_view(password), true, uuid@));
        assert(creates_profile(a, ssid@, text_view(password), true, device_path@));
    }
    Ok(a)
}

/// The wait for a connection to come up: how many readings of the active
/// connection have not shown the network yet.
#[derive(Debug, Clone, Copy, PartialEq, Eq, Structural)]
pub struct ConnectPoll {
    pub attempts: u32,
}

/// What a reading of the active connection means for the wait.
#[derive(Debug, Clone, Copy, PartialEq, Eq, Structural)]
pub enum PollStep {
    /// The network is the active one: the connection is up.
    Connected,
    /// Not yet: sleep for the interval and read again.
    Wait(ConnectPoll),
    /// The last reading allowed did not show the network either.
    TimedOut,
}

/// What a reading means after `attempts` readings that did not show the
/// network.
pub open spec fn poll_step(attempts: nat, active: Option<Seq<char>>, target: Seq<char>) -> PollStep {
    if active == Some(target) {
        PollStep::Connected
    } else if attempts + 1 >= POLL_ATTEMPTS {
        PollStep::TimedOut
    } else {
        PollStep::Wait(ConnectPoll { attempts: (attempts + 1) as u32 })
    }
}

/// How a wait ends that has seen `attempts` readings and goes on with
/// `readings`: `None` while the readings do not decide it.
pub open spec fn poll_outcome(
    attempts: nat,
    readings: Seq<Option<Seq<char>>>,
    target: Seq<char>,
) -> Option<PollStep>
    decreases readings.len(),
{
    if readings.len() == 0 {
        None
    } else {
        match poll_step(attempts, readings[0], target) {
            PollStep::Wait(next) => poll_outcome(
                next.attempts as nat,
                readings.drop_first(),
                target,
            ),
            done => Some(done),
        }
    }
}

impl ConnectPoll {
    /// The wait before the first reading.
    pub fn new() -> (p: ConnectPoll)
        ensures
            p.attempts == 0,
    {
        ConnectPoll { attempts: 0 }
    }

    /// Takes in one reading of the active connection, made after sleeping
    /// for the interval.
    pub fn observe(self, active: Option<&str>, target: &str) -> (step: PollStep)
        ensures
            step == poll_step(self.attempts as nat, text_view(active), target@),
            step is Connected <==> text_view(active) == Some(target@),
            step matches PollStep::Wait(next) ==> next.attempts == self.attempts + 1
                && next.attempts < POLL_ATTEMPTS,
    {
        let up = match active {
            Some(name) => str_eq(name, target),
            None => false,
        };
        if up {
            PollStep::Connected
        } else if self.attempts >= POLL_ATTEMPTS - 1 {
            PollStep::TimedOut
        } else {
            PollStep::Wait(ConnectPoll { attempts: self.attempts + 1 })
        }
    }
}

/// The result of a wait that has ended.
pub fn poll_result(step: PollStep) -> (r: Option<Result<(), BrokerError>>)
    ensures
        match step {
            PollStep::Connected => r matches Some(Ok(_)),
            PollStep::TimedOut => r matches Some(Err(BrokerError::Timeout)),
            PollStep::Wait(_) => r is None,
        },
{
    match step {
        PollStep::Connected => Some(Ok(())),
        PollStep::TimedOut => Some(Err(BrokerError::Timeout)),
        PollStep::Wait(_) => None,
    }
}

/// A wait ends within the bound: once as many readings are in as the bound
/// leaves room for, it has ended, whatever they showed.
pub proof fn lemma_poll_ends_within_bound(
    attempts: nat,
    readings: Seq<Option<Seq<char>>>,
    target: Seq<char>,
)
    requires
        attempts < POLL_ATTEMPTS,
        readings.len() >= POLL_ATTEMPTS - attempts,
    ensures
        poll_outcome(attempts, readings, target) matches Some(step) && !(step is Wait),
    decreases readings.len(),
{
    match poll_step(attempts, readings[0], target) {
        PollStep::Wait(next) => {
            lemma_poll_ends_within_bound(next.attempts as nat, readings.drop_first(), target);
        },
        _ => {},
    }
}

/// A wait whose readings never show the network ends in a timeout, after
/// exactly as many readings as the bound allows.
pub proof fn lemma_poll_times_out(
    attempts: nat,
    readings: Seq<Option<Seq<char>>>,
    target: Seq<char>,
)
    requires
        attempts < POLL_ATTEMPTS,
        forall|i: int| 0 <= i < readings.len() ==> readings[i] != Some(target),
    ensures
        readings.len() >= POLL_ATTEMPTS - attempts ==> poll_outcome(attempts, readings, target)
            == Some(PollStep::TimedOut),
        readings.len() < POLL_ATTEMPTS - attempts ==> poll_outcome(attempts, readings, target)
            is None,
    decreases readings.len(),
{
    if readings.len() > 0 {
        match poll_step(attempts, readings[0], target) {
            PollStep::Wait(next) => {
                let rest = readings.drop_first();
                assert(forall|i: int| 0 <= i < rest.len() ==> rest[i] == readings[i + 1]);
                lemma_poll_times_out(next.attempts as nat, rest, target);
            },
            _ => {},
        }
    }
}

/// A wait succeeds as soon as a reading within the bound shows the network.
pub proof fn lemma_poll_connects(
    attempts: nat,
    readings: Seq<Option<Seq<char>>>,
    target: Seq<char>,
    at: int,
)
    requires
        attempts < POLL_ATTEMPTS,
        0 <= at < readings.len(),
        at < POLL_ATTEMPTS - attempts,
        readings[at] == Some(target),
        forall|i: int| 0 <= i < at ==> readings[i] != Some(target),
    ensures
        poll_outcome(attempts, readings, target) == Some(PollStep::Connected),
    decreases readings.len(),
{
    if at > 0 {
        let rest = readings.drop_first();
        assert(forall|i: int| 0 <= i < rest.len() ==> rest[i] == readings[i + 1]);
        lemma_poll_connects(attempts + 1, rest, target, at - 1);
    }
}

} // verus!
