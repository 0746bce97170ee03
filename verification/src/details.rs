//! The details of the connection to one network.
//!
//! The details are put together on demand from a chain of objects: the
//! active connection of the network leads to its IPv4 configuration, which
//! holds the address, the gateway and the name servers, and to its device,
//! which holds the hardware address and the bit rate. The caller follows the
//! chain and reads; the functions here say which object is next and what
//! the values read amount to.

use vstd::prelude::*;
use vstd::string::*;
use crate::active::{value_of, ActiveConnection, Reading};
use crate::bus::{
    bytes_among, bytes_in, deref_value, entry_value, object_path_accepted, lookup, path_of, text_of,
    u32_of, valid_object_path, BusValue,
};
use crate::connect::BrokerError;
use crate::order::views;
use crate::profiles::text_or_empty;
use crate::text::{decimal, decimal_digits, str_eq};

verus! {

/// What is known of the connection to one network.
#[derive(Debug, Clone)]
pub struct NetworkDetails {
    pub ssid: String,
    pub ip4_address: String,
    pub gateway: String,
    pub dns_servers: Vec<String>,
    pub mac_address: String,
    pub connection_speed: String,
    pub is_connected: bool,
}

/// Network details as a mathematical value.
pub struct NetworkDetailsView {
    pub ssid: Seq<char>,
    pub ip4_address: Seq<char>,
    pub gateway: Seq<char>,
    pub dns_servers: Seq<Seq<char>>,
    pub mac_address: Seq<char>,
    pub connection_speed: Seq<char>,
    pub is_connected: bool,
}

impl View for NetworkDetails {
    type V = NetworkDetailsView;

    open spec fn view(&self) -> NetworkDetailsView {
        NetworkDetailsView {
            ssid: self.ssid@,
            ip4_address: self.ip4_address@,
            gateway: self.gateway@,
            dns_servers: views(self.dns_servers@),
            mac_address: self.mac_address@,
            connection_speed: self.connection_speed@,
            is_connected: self.is_connected,
        }
    }
}

/// The details of a network to which there is no connection: nothing but
/// its name.
pub open spec fn no_details(ssid: Seq<char>) -> NetworkDetailsView {
    NetworkDetailsView {
        ssid,
        ip4_address: Seq::empty(),
        gateway: Seq::empty(),
        dns_servers: Seq::empty(),
        mac_address: Seq::empty(),
        connection_speed: Seq::empty(),
        is_connected: false,
    }
}

impl Default for NetworkDetails {
    fn default() -> (d: NetworkDetails)
        ensures
            d@ == no_details(Seq::empty()),
    {
        let d = NetworkDetails {
            ssid: String::new(),
            ip4_address: String::new(),
            gateway: String::new(),
            dns_servers: Vec::new(),
            mac_address: String::new(),
            connection_speed: String::new(),
            is_connected: false,
        };
        proof {
            assert(views(d.dns_servers@) =~= Seq::empty());
        }
        d
    }
}

/// The search for the active connection of a network, as far as the
/// connections at or after `from` decide it. Connections whose handle is
/// no object path are passed over. If the id of a connection could not be
/// read before the network was found, the search fails with the position
/// of that connection.
pub enum Search {
    /// The connection at this position is the network's.
    Found(int),
    /// The id of the connection at this position could not be read.
    Failed(int),
    /// No connection is the network's.
    Absent,
}

/// The search for the active connection of the network `ssid` among the
/// connections at or after `from`.
pub open spec fn search_from(active: Seq<ActiveConnection>, ssid: Seq<char>, from: int) -> Search
    decreases active.len() - from,
{
    if from >= active.len() {
        Search::Absent
    } else if !valid_object_path(active[from].path@) {
        search_from(active, ssid, from + 1)
    } else if active[from].id is Failed {
        Search::Failed(from)
    } else if text_or_empty(value_of(active[from].id)) == ssid {
        Search::Found(from)
    } else {
        search_from(active, ssid, from + 1)
    }
}

/// Finds the active connection of the network `ssid`, for its details.
/// Unlike a disconnect, this query does not pass over an id that could not
/// be read: that is its error.
pub fn find_connection<'a>(ssid: &str, active: &'a Vec<ActiveConnection>) -> (r: Result<
    Option<&'a str>,
    BrokerError,
>)
    ensures
        match search_from(active@, ssid@, 0) {
            Search::Found(i) => r matches Ok(Some(path)) && 0 <= i < active.len() && path@
                == active[i].path@,
            Search::Failed(i) => {
                &&& 0 <= i < active.len()
                &&& r matches Err(BrokerError::Transport(msg))
                &&& active[i].id matches Reading::Failed(m)
                &&& msg@ == m@
            },
            Search::Absent => r matches Ok(None),
        },
{
    let mut i: usize = 0;
    while i < active.len()
        invariant
            i <= active.len(),
            search_from(active@, ssid@, 0) == search_from(active@, ssid@, i as int),
        decreases active.len() - i,
    {
        if object_path_accepted(active[i].path.as_str()) {
            match &active[i].id {
                Reading::Failed(msg) => {
                    return Err(BrokerError::Transport(String::from_str(msg.as_str())));
                },
                Reading::Value(v) => {
                    let id = match BusValue::read_text(Some(v)) {
                        Some(s) => s,
                        None => {
                            proof {
                                reveal_strlit("");
                                assert(""@ =~= Seq::<char>::empty());
                            }
                            ""
                        },
                    };
                    if str_eq(id, ssid) {
                        return Ok(Some(active[i].path.as_str()));
                    }
                },
            }
        }
        i += 1;
    }
    Ok(None)
}

/// The IPv4 configuration that a connection points to: the object path
/// read, unless it is the root path, which stands for none.
pub open spec fn ip4_config_of(v: BusValue) -> Option<Seq<char>> {
    match path_of(Some(v)) {
        Some(p) => if p == "/"@ {
            None
        } else {
            Some(p)
        },
        None => None,
    }
}

/// Reads which IPv4 configuration a connection points to, if any.
pub fn ip4_config_path(v: &BusValue) -> (r: Option<&str>)
    ensures
        match r {
            Some(p) => ip4_config_of(*v) == Some(p@),
            None => ip4_config_of(*v) is None,
        },
{
    match BusValue::read_path(Some(v)) {
        Some(p) => {
            if str_eq(p, "/") {
                None
            } else {
                Some(p)
            }
        },
        None => None,
    }
}

/// The position of the first object path among `items` at or after `from`,
/// or the number of items when there is none.
pub open spec fn path_index_from(items: Seq<BusValue>, from: int) -> int
    decreases items.len() - from,
{
    if from >= items.len() {
        items.len() as int
    } else if items[from] is Path {
        from
    } else {
        path_index_from(items, from + 1)
    }
}

/// The device of a connection: the first object path in the list read.
pub open spec fn first_device_of(v: BusValue) -> Option<Seq<char>> {
    match v {
        BusValue::Array(items) => {
            let i = path_index_from(items@, 0);
            if i < items@.len() {
                path_of(Some(items@[i]))
            } else {
                None
            }
        },
        _ => None,
    }
}

/// Finds the first object path among `items`.
fn first_path_in(items: &Vec<BusValue>) -> (r: Option<&str>)
    ensures
        match r {
            Some(p) => path_index_from(items@, 0) < items.len() && path_of(
                Some(items@[path_index_from(items@, 0)]),
            ) == Some(p@),
            None => path_index_from(items@, 0) == items.len(),
        },
{
    let mut i: usize = 0;
    while i < items.len()
        invariant
            i <= items.len(),
            path_index_from(items@, 0) == path_index_from(items@, i as int),
        decreases items.len() - i,
    {
        match &items[i] {
            BusValue::Path(p) => {
                return Some(p.as_str());
            },
            _ => {},
        }
        i += 1;
    }
    None
}

/// Reads which device a connection runs on, if any.
pub fn first_device_path(v: &BusValue) -> (r: Option<&str>)
    ensures
        match r {
            Some(p) => first_device_of(*v) == Some(p@),
            None => first_device_of(*v) is None,
        },
{
    match v {
        BusValue::Array(items) => first_path_in(items),
        _ => None,
    }
}

/// The address that an item of the address data holds: the text under
/// `address` of a dictionary.
pub open spec fn address_in(item: BusValue) -> Option<Seq<char>> {
    match item {
        BusValue::Dict(entries) => text_of(entry_value(views(entries@), "address"@)),
        _ => None,
    }
}

/// The address among the items of the address data: that of the last item
/// that holds one, and the empty text when none does.
pub open spec fn address_among(items: Seq<BusValue>) -> Seq<char>
    decreases items.len(),
{
    if items.len() == 0 {
        Seq::empty()
    } else {
        match address_in(items.last()) {
            Some(a) => a,
            None => address_among(items.drop_last()),
        }
    }
}

/// The address that the address data amounts to.
pub open spec fn address_of(v: BusValue) -> Seq<char> {
    match v {
        BusValue::Array(items) => address_among(items@),
        _ => Seq::empty(),
    }
}

/// Reads the address out of the address data.
pub fn read_address(v: &BusValue) -> (r: String)
    ensures
        r@ == address_of(*v),
{
    let mut out = String::new();
    match v {
        BusValue::Array(items) => {
            let mut i: usize = 0;
            proof {
                assert(items@.take(0) =~= Seq::empty());
            }
            while i < items.len()
                invariant
                    i <= items.len(),
                    out@ == address_among(items@.take(i as int)),
                decreases items.len() - i,
            {
                proof {
                    let done = items@.take(i + 1);
                    assert(done.drop_last() =~= items@.take(i as int));
                    assert(done.last() == items@[i as int]);
                }
                match &items[i] {
                    BusValue::Dict(entries) => {
                        let found = lookup(entries, "address");
                        proof {
                            assert(deref_value(found) == entry_value(
                                views(entries@),
                                "address"@,
                            ));
                        }
                        match BusValue::read_text(found) {
                            Some(a) => {
                                out = String::from_str(a);
                            },
                            None => {},
                        }
                    },
                    _ => {},
                }
                i += 1;
            }
            proof {
                assert(items@.take(items@.len() as int) =~= items@);
            }
        },
        _ => {},
    }
    out
}

/// Four bytes in network order as a dotted quad.
pub open spec fn dotted_quad(b: Seq<u8>) -> Seq<char> {
    decimal_digits(b[0] as nat) + "."@ + decimal_digits(b[1] as nat) + "."@ + decimal_digits(
        b[2] as nat,
    ) + "."@ + decimal_digits(b[3] as nat)
}

/// Renders four bytes in network order as a dotted quad.
pub fn render_quad(b: &Vec<u8>) -> (s: String)
    requires
        b.len() == 4,
    ensures
        s@ == dotted_quad(b@),
{
    let s = decimal(b[0] as u32);
    let s = s.concat(".");
    let s = s.concat(decimal(b[1] as u32).as_str());
    let s = s.concat(".");
    let s = s.concat(decimal(b[2] as u32).as_str());
    let s = s.concat(".");
    s.concat(decimal(b[3] as u32).as_str())
}

/// The name server that an item of the list stands for: an array that
/// holds exactly four bytes, as a dotted quad.
pub open spec fn name_server_in(item: BusValue) -> Option<Seq<char>> {
    match item {
        BusValue::Array(inner) => if bytes_among(inner@).len() == 4 {
            Some(dotted_quad(bytes_among(inner@)))
        } else {
            None
        },
        _ => None,
    }
}

/// The name servers among the items of the list, in their order.
pub open spec fn name_servers_among(items: Seq<BusValue>) -> Seq<Seq<char>>
    decreases items.len(),
{
    if items.len() == 0 {
        Seq::empty()
    } else {
        let before = name_servers_among(items.drop_last());
        match name_server_in(items.last()) {
            Some(s) => before.push(s),
            None => before,
        }
    }
}

/// The name servers that the list read amounts to.
pub open spec fn name_servers_of(v: BusValue) -> Seq<Seq<char>> {
    match v {
        BusValue::Array(items) => name_servers_among(items@),
        _ => Seq::empty(),
    }
}

/// Reads the name servers out of the list of the configuration.
pub fn read_name_servers(v: &BusValue) -> (out: Vec<String>)
    ensures
        views(out@) == name_servers_of(*v),
{
    let mut out: Vec<String> = Vec::new();
    proof {
        assert(views(out@) =~= Seq::empty());
    }
    match v {
        BusValue::Array(items) => {
            let mut i: usize = 0;
            proof {
                assert(items@.take(0) =~= Seq::empty());
            }
            while i < items.len()
                invariant
                    i <= items.len(),
                    views(out@) == name_servers_among(items@.take(i as int)),
                decreases items.len() - i,
            {
                proof {
                    let done = items@.take(i + 1);
                    assert(done.drop_last() =~= items@.take(i as int));
                    assert(done.last() == items@[i as int]);
                }
                let ghost before = out@;
                match &items[i] {
                    BusValue::Array(inner) => {
                        let bytes = bytes_in(inner);
                        if bytes.len() == 4 {
                            let quad = render_quad(&bytes);
                            out.push(quad);
                            proof {
                                assert(views(out@) =~= views(before).push(quad@));
                            }
                        }
                    },
                    _ => {},
                }
                i += 1;
            }
            proof {
                assert(items@.take(items@.len() as int) =~= items@);
            }
        },
        _ => {},
    }
    out
}

/// A bit rate in kilobits per second as whole megabits per second.
pub open spec fn speed_text(kbps: u32) -> Seq<char> {
    decimal_digits((kbps / 1000) as nat) + " Mbps"@
}

/// Renders a bit rate, given in kilobits per second, in whole megabits per
/// second.
pub fn render_speed(kbps: u32) -> (s: String)
    ensures
        s@ == speed_text(kbps),
{
    decimal(kbps / 1000).concat(" Mbps")
}

/// What was read of an IPv4 configuration.
#[derive(Debug)]
pub struct Ip4Readings {
    pub address_data: BusValue,
    pub gateway: BusValue,
    pub nameservers: BusValue,
}

/// What was read of the device of a connection. The bit rate is `None`
/// where the device has none.
#[derive(Debug)]
pub struct DeviceReadings {
    pub hw_address: BusValue,
    pub bitrate: Option<BusValue>,
}

/// The speed that a bit rate reading amounts to: empty unless it is a
/// number.
pub open spec fn speed_of(bitrate: Option<BusValue>) -> Seq<char> {
    match u32_of(bitrate) {
        Some(kbps) => speed_text(kbps),
        None => Seq::empty(),
    }
}

/// The details of the connection to the network `ssid`, given what was
/// read of its IPv4 configuration and of its device. A connection without
/// a configuration has no address, gateway or name server, and one without
/// a device no hardware address or speed.
pub open spec fn details_of(
    ssid: Seq<char>,
    ip4: Option<Ip4Readings>,
    device: Option<DeviceReadings>,
) -> NetworkDetailsView {
    NetworkDetailsView {
        ssid,
        ip4_address: match ip4 {
            Some(c) => address_of(c.address_data),
            None => Seq::empty(),
        },
        gateway: match ip4 {
            Some(c) => text_or_empty(Some(c.gateway)),
            None => Seq::empty(),
        },
        dns_servers: match ip4 {
            Some(c) => name_servers_of(c.nameservers),
            None => Seq::empty(),
        },
        mac_address: match device {
            Some(d) => text_or_empty(Some(d.hw_address)),
            None => Seq::empty(),
        },
        connection_speed: match device {
            Some(d) => speed_of(d.bitrate),
            None => Seq::empty(),
        },
        is_connected: true,
    }
}

/// The details of a network to which there is no active connection.
pub fn disconnected_details(ssid: &str) -> (d: NetworkDetails)
    ensures
        d@ == no_details(ssid@),
{
    let d = NetworkDetails {
        ssid: String::from_str(ssid),
        ip4_address: String::new(),
        gateway: String::new(),
        dns_servers: Vec::new(),
        mac_address: String::new(),
        connection_speed: String::new(),
        is_connected: false,
    };
    proof {
        assert(views(d.dns_servers@) =~= Seq::empty());
    }
    d
}

fn text_or_empty_of(v: &BusValue) -> (s: String)
    ensures
        s@ == text_or_empty(Some(*v)),
{
    match BusValue::read_text(Some(v)) {
        Some(t) => String::from_str(t),
        None => String::new(),
    }
}

/// Puts together the details of the connection to the network `ssid` from
/// what was read along the chain.
pub fn get_network_details(
    ssid: &str,
    ip4: Option<&Ip4Readings>,
    device: Option<&DeviceReadings>,
) -> (d: NetworkDetails)
    ensures
        d@ == details_of(
            ssid@,
            match ip4 {
                Some(c) => Some(*c),
                None => None,
            },
            match device {
                Some(v) => Some(*v),
                None => None,
            },
        ),
{
    let mut d = disconnected_details(ssid);
    d.is_connected = true;
    match ip4 {
        Some(c) => {
            d.ip4_address = read_address(&c.address_data);
            d.gateway = text_or_empty_of(&c.gateway);
            d.dns_servers = read_name_servers(&c.nameservers);
        },
        None => {},
    }
    match device {
        Some(v) => {
            d.mac_address = text_or_empty_of(&v.hw_address);
            match BusValue::read_u32(v.bitrate.as_ref()) {
                Some(kbps) => {
                    d.connection_speed = render_speed(kbps);
                },
                None => {},
            }
        },
        None => {},
    }
    d
}

} // verus!
