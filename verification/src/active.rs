//! Radios and active connections: which devices are radios, which network
//! is the active one, and which active connection belongs to a network.

use vstd::prelude::*;
use vstd::string::*;
use crate::bus::{deref_value, object_path_accepted, text_of, u32_of, valid_object_path, BusValue};
use crate::connect::BrokerError;
use crate::order::views;
use crate::profiles::text_or_empty;
use crate::text::str_eq;

verus! {

/// The device type code of a wireless radio.
pub const DEVICE_TYPE_WIFI: u32 = 2;

/// The connectivity code that stands for a captive portal.
pub const CONNECTIVITY_PORTAL: u32 = 2;

/// What came of reading one property.
#[derive(Debug)]
pub enum Reading {
    Value(BusValue),
    /// The call failed; the text is what the transport said.
    Failed(String),
}

/// The value that was read, if the call succeeded.
pub open spec fn value_of(r: Reading) -> Option<BusValue> {
    match r {
        Reading::Value(v) => Some(v),
        Reading::Failed(_) => None,
    }
}

impl Reading {
    /// The value that was read, if the call succeeded.
    pub fn value(&self) -> (v: Option<&BusValue>)
        ensures
            deref_value(v) == value_of(*self),
    {
        match self {
            Reading::Value(v) => Some(v),
            Reading::Failed(_) => None,
        }
    }
}

/// A device and what was read of its type.
#[derive(Debug)]
pub struct DeviceRecord {
    pub path: String,
    pub device_type: Reading,
}

/// The type code of a device; a value that is no number counts as 0.
pub open spec fn type_code(r: Reading) -> u32 {
    match u32_of(value_of(r)) {
        Some(n) => n,
        None => 0,
    }
}

/// The position of the first device whose type could not be read, or the
/// number of devices when all could.
pub open spec fn failed_index_from(devices: Seq<DeviceRecord>, from: int) -> int
    decreases devices.len() - from,
{
    if from >= devices.len() {
        devices.len() as int
    } else if devices[from].device_type is Failed {
        from
    } else {
        failed_index_from(devices, from + 1)
    }
}

/// The handles of the radios among `devices`, in their order.
pub open spec fn radios(devices: Seq<DeviceRecord>) -> Seq<Seq<char>>
    decreases devices.len(),
{
    if devices.len() == 0 {
        Seq::empty()
    } else {
        let before = radios(devices.drop_last());
        if type_code(devices.last().device_type) == DEVICE_TYPE_WIFI {
            before.push(devices.last().path@)
        } else {
            before
        }
    }
}

/// Picks the wireless radios out of all devices. If the type of a device
/// could not be read, that is the error of the whole query; the error of
/// the first such device is reported.
pub fn get_wireless_devices(devices: &Vec<DeviceRecord>) -> (r: Result<Vec<String>, BrokerError>)
    ensures
        match r {
            Ok(list) => failed_index_from(devices@, 0) == devices.len() && views(list@) == radios(
                devices@,
            ),
            Err(e) => {
                let i = failed_index_from(devices@, 0);
                &&& i < devices.len()
                &&& e matches BrokerError::Transport(msg)
                &&& devices[i].device_type matches Reading::Failed(m)
                &&& msg@ == m@
            },
        },
{
    let mut out: Vec<String> = Vec::new();
    let mut i: usize = 0;
    proof {
        assert(devices@.take(0) =~= Seq::empty());
        assert(views(out@) =~= Seq::empty());
    }
    while i < devices.len()
        invariant
            i <= devices.len(),
            failed_index_from(devices@, 0) == failed_index_from(devices@, i as int),
            views(out@) == radios(devices@.take(i as int)),
        decreases devices.len() - i,
    {
        proof {
            let done = devices@.take(i + 1);
            assert(done.drop_last() =~= devices@.take(i as int));
            assert(done.last() == devices@[i as int]);
        }
        let ghost before = out@;
        match &devices[i].device_type {
            Reading::Failed(msg) => {
                return Err(BrokerError::Transport(String::from_str(msg.as_str())));
            },
            Reading::Value(v) => {
                let code = match BusValue::read_u32(Some(v)) {
                    Some(n) => n,
                    None => 0,
                };
                if code == DEVICE_TYPE_WIFI {
                    out.push(String::from_str(devices[i].path.as_str()));
                    proof {
                        assert(views(out@) =~= views(before).push(devices@[i as int].path@));
                    }
                }
            },
        }
        i += 1;
    }
    proof {
        assert(devices@.take(devices@.len() as int) =~= devices@);
    }
    Ok(out)
}

/// The radios that can be asked to scan: those whose handle is an object
/// path, in their order.
pub open spec fn scannable(radios: Seq<Seq<char>>) -> Seq<Seq<char>>
    decreases radios.len(),
{
    if radios.len() == 0 {
        Seq::empty()
    } else {
        let before = scannable(radios.drop_last());
        if valid_object_path(radios.last()) {
            before.push(radios.last())
        } else {
            before
        }
    }
}

/// Picks the radios to send a scan request to. Scanning is best effort: a
/// radio that cannot be addressed is passed over, and the caller does not
/// wait for the scans to finish.
pub fn scan_targets(radios: &Vec<String>) -> (out: Vec<String>)
    ensures
        views(out@) == scannable(views(radios@)),
{
    let mut out: Vec<String> = Vec::new();
    let mut i: usize = 0;
    proof {
        assert(views(radios@).take(0) =~= Seq::empty());
        assert(views(out@) =~= Seq::empty());
    }
    while i < radios.len()
        invariant
            i <= radios.len(),
            views(out@) == scannable(views(radios@).take(i as int)),
        decreases radios.len() - i,
    {
        proof {
            let done = views(radios@).take(i + 1);
            assert(done.drop_last() =~= views(radios@).take(i as int));
            assert(done.last() == radios@[i as int]@);
        }
        let ghost before = out@;
        if object_path_accepted(radios[i].as_str()) {
            out.push(String::from_str(radios[i].as_str()));
            proof {
                assert(views(out@) =~= views(before).push(radios@[i as int]@));
            }
        }
        i += 1;
    }
    proof {
        assert(views(radios@).take(radios@.len() as int) =~= views(radios@));
    }
    out
}

/// An active connection and what was read of its id.
#[derive(Debug)]
pub struct ActiveConnection {
    pub path: String,
    pub id: Reading,
}

/// Whether an active connection shows a name: its handle is an object path
/// and its id was read and is a text.
pub open spec fn shows_name(c: ActiveConnection) -> bool {
    valid_object_path(c.path@) && text_of(value_of(c.id)) is Some
}

/// The position of the first active connection at or after `from` that
/// shows a name, or the number of connections when there is none.
pub open spec fn named_index_from(active: Seq<ActiveConnection>, from: int) -> int
    decreases active.len() - from,
{
    if from >= active.len() {
        active.len() as int
    } else if shows_name(active[from]) {
        from
    } else {
        named_index_from(active, from + 1)
    }
}

/// The name of the active network: the id of the first active connection
/// that shows one.
pub open spec fn active_ssid(active: Seq<ActiveConnection>) -> Option<Seq<char>> {
    let i = named_index_from(active, 0);
    if i < active.len() {
        text_of(value_of(active[i].id))
    } else {
        None
    }
}

/// Reads the name of the active network off the active connections. This
/// is what tells whether, and to what, the machine is connected.
pub fn get_active_ssid(active: &Vec<ActiveConnection>) -> (r: Option<String>)
    ensures
        match r {
            Some(name) => active_ssid(active@) == Some(name@),
            None => active_ssid(active@) is None,
        },
{
    let mut i: usize = 0;
    while i < active.len()
        invariant
            i <= active.len(),
            named_index_from(active@, 0) == named_index_from(active@, i as int),
        decreases active.len() - i,
    {
        if object_path_accepted(active[i].path.as_str()) {
            match BusValue::read_text(active[i].id.value()) {
                Some(id) => {
                    return Some(String::from_str(id));
                },
                None => {},
            }
        }
        i += 1;
    }
    None
}

/// Whether an active connection belongs to the network `ssid`: its handle
/// is an object path and its id, empty if it could not be read or is no
/// text, is `ssid`.
pub open spec fn belongs_to(c: ActiveConnection, ssid: Seq<char>) -> bool {
    valid_object_path(c.path@) && text_or_empty(value_of(c.id)) == ssid
}

/// The position of the first active connection at or after `from` that
/// belongs to `ssid`, or the number of connections when there is none.
pub open spec fn connection_index_from(active: Seq<ActiveConnection>, ssid: Seq<char>, from: int) -> int
    decreases active.len() - from,
{
    if from >= active.len() {
        active.len() as int
    } else if belongs_to(active[from], ssid) {
        from
    } else {
        connection_index_from(active, ssid, from + 1)
    }
}

/// The handle of the active connection of the network `ssid`.
pub open spec fn connection_of(active: Seq<ActiveConnection>, ssid: Seq<char>) -> Option<Seq<char>> {
    let i = connection_index_from(active, ssid, 0);
    if i < active.len() {
        Some(active[i].path@)
    } else {
        None
    }
}

/// The id of an active connection, empty if it could not be read or is no
/// text.
fn id_or_empty(c: &ActiveConnection) -> (id: &str)
    ensures
        id@ == text_or_empty(value_of(c.id)),
{
    match BusValue::read_text(c.id.value()) {
        Some(s) => s,
        None => {
            proof {
                reveal_strlit("");
                assert(""@ =~= Seq::<char>::empty());
            }
            ""
        },
    }
}

/// Finds the active connection to deactivate in order to leave the network
/// `ssid`. Where none belongs to it there is nothing to do, and that is no
/// error.
pub fn disconnect_ap<'a>(ssid: &str, active: &'a Vec<ActiveConnection>) -> (r: Option<&'a str>)
    ensures
        match r {
            Some(path) => connection_of(active@, ssid@) == Some(path@),
            None => connection_of(active@, ssid@) is None,
        },
{
    let mut i: usize = 0;
    while i < active.len()
        invariant
            i <= active.len(),
            connection_index_from(active@, ssid@, 0) == connection_index_from(
                active@,
                ssid@,
                i as int,
            ),
        decreases active.len() - i,
    {
        if object_path_accepted(active[i].path.as_str()) && str_eq(id_or_empty(&active[i]), ssid) {
            return Some(active[i].path.as_str());
        }
        i += 1;
    }
    None
}

/// Whether a connectivity code reports a captive portal.
pub fn is_captive_portal(connectivity: u32) -> (r: bool)
    ensures
        r == (connectivity == CONNECTIVITY_PORTAL),
{
    connectivity == CONNECTIVITY_PORTAL
}

} // verus!
