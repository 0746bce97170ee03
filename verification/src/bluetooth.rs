//! The Bluetooth side: the adapter, and the list of devices shown to the
//! user.
//!
//! The Bluetooth service publishes its objects as one map from object path
//! to interfaces and their properties. The caller fetches that map and
//! hands it over as a list of [`ManagedObject`]s, in the order in which it
//! walked the map; the adapter and the devices are picked out here.

use vstd::prelude::*;
use vstd::string::*;
use crate::bus::{
    bool_of, deref_value, entry_value, object_path_accepted, lookup, text_of, u8_of, valid_object_path,
    BusValue, EntryView,
};
use crate::connect::BrokerError;
use crate::order::{sort_stable, stable_sorted, views, Ranked};
use crate::profiles::{find_group, group_index, SettingsGroup};
use crate::text::{lex_lt, str_eq, str_lt};

verus! {

/// The interface that marks an object as the adapter.
pub const ADAPTER_INTERFACE: &'static str = "org.bluez.Adapter1";

/// The interface that marks an object as a device.
pub const DEVICE_INTERFACE: &'static str = "org.bluez.Device1";

/// The name shown for a device that has none.
pub const UNKNOWN_DEVICE: &'static str = "Unknown Device";

/// What kind of device a Bluetooth device is.
#[derive(Debug, Clone, Copy, PartialEq, Eq, Structural)]
pub enum DeviceType {
    Audio,
    Keyboard,
    Mouse,
    Phone,
    Unknown,
}

/// The kind of device that an icon hint stands for.
pub open spec fn type_of_icon(icon: Option<Seq<char>>) -> DeviceType {
    match icon {
        Some(i) => if i == "audio-card"@ || i == "audio-speakers"@ || i == "audio-headset"@ || i
            == "audio-headphones"@ {
            DeviceType::Audio
        } else if i == "input-keyboard"@ {
            DeviceType::Keyboard
        } else if i == "input-mouse"@ || i == "input-tablet"@ {
            DeviceType::Mouse
        } else if i == "phone"@ {
            DeviceType::Phone
        } else {
            DeviceType::Unknown
        },
        None => DeviceType::Unknown,
    }
}

/// The kind of device that a device class code stands for.
pub open spec fn type_of_class(code: u32) -> DeviceType {
    if code == 3 {
        DeviceType::Phone
    } else if 4 <= code <= 7 {
        DeviceType::Audio
    } else if code == 8 {
        DeviceType::Keyboard
    } else if code == 9 {
        DeviceType::Mouse
    } else {
        DeviceType::Unknown
    }
}

/// The name of the icon shown for a kind of device.
pub open spec fn icon_of(t: DeviceType) -> Seq<char> {
    match t {
        DeviceType::Phone => "smartphone-symbolic"@,
        DeviceType::Audio => "audio-speakers-symbolic"@,
        DeviceType::Keyboard => "input-keyboard-symbolic"@,
        DeviceType::Mouse => "input-mouse-symbolic"@,
        DeviceType::Unknown => "bluetooth-symbolic"@,
    }
}

impl DeviceType {
    /// The name of the icon to show for this kind of device.
    pub fn icon_name(&self) -> (name: &'static str)
        ensures
            name@ == icon_of(*self),
    {
        match self {
            DeviceType::Phone => "smartphone-symbolic",
            DeviceType::Audio => "audio-speakers-symbolic",
            DeviceType::Keyboard => "input-keyboard-symbolic",
            DeviceType::Mouse => "input-mouse-symbolic",
            DeviceType::Unknown => "bluetooth-symbolic",
        }
    }

    /// Classifies a device by the icon hint of the service.
    pub fn from_icon(icon: Option<&str>) -> (t: DeviceType)
        ensures
            t == type_of_icon(
                match icon {
                    Some(i) => Some(i@),
                    None => None,
                },
            ),
    {
        match icon {
            Some(i) => {
                if str_eq(i, "audio-card") || str_eq(i, "audio-speakers") || str_eq(
                    i,
                    "audio-headset",
                ) || str_eq(i, "audio-headphones") {
                    DeviceType::Audio
                } else if str_eq(i, "input-keyboard") {
                    DeviceType::Keyboard
                } else if str_eq(i, "input-mouse") || str_eq(i, "input-tablet") {
                    DeviceType::Mouse
                } else if str_eq(i, "phone") {
                    DeviceType::Phone
                } else {
                    DeviceType::Unknown
                }
            },
            None => DeviceType::Unknown,
        }
    }

    /// Classifies a device by its device class code.
    pub fn from_class(code: u32) -> (t: DeviceType)
        ensures
            t == type_of_class(code),
    {
        if code == 3 {
            DeviceType::Phone
        } else if 4 <= code && code <= 7 {
            DeviceType::Audio
        } else if code == 8 {
            DeviceType::Keyboard
        } else if code == 9 {
            DeviceType::Mouse
        } else {
            DeviceType::Unknown
        }
    }
}

/// One Bluetooth device as the user sees it.
#[derive(Debug, Clone)]
pub struct BluetoothDevice {
    pub path: String,
    pub name: String,
    pub device_type: DeviceType,
    pub is_connected: bool,
    pub is_paired: bool,
    pub battery_percentage: Option<u8>,
}

/// A Bluetooth device as a mathematical value.
pub struct BluetoothDeviceView {
    pub path: Seq<char>,
    pub name: Seq<char>,
    pub device_type: DeviceType,
    pub is_connected: bool,
    pub is_paired: bool,
    pub battery_percentage: Option<u8>,
}

impl View for BluetoothDevice {
    type V = BluetoothDeviceView;

    open spec fn view(&self) -> BluetoothDeviceView {
        BluetoothDeviceView {
            path: self.path@,
            name: self.name@,
            device_type: self.device_type,
            is_connected: self.is_connected,
            is_paired: self.is_paired,
            battery_percentage: self.battery_percentage,
        }
    }
}

impl Ranked for BluetoothDevice {
    /// Connected devices are listed first, then paired ones; among devices
    /// that are alike in both, the names go in lexicographic order.
    open spec fn ranks_before(a: BluetoothDeviceView, b: BluetoothDeviceView) -> bool {
        if a.is_connected != b.is_connected {
            a.is_connected
        } else if a.is_paired != b.is_paired {
            a.is_paired
        } else {
            lex_lt(a.name, b.name)
        }
    }

    fn comes_before(&self, other: &Self) -> (r: bool) {
        if self.is_connected != other.is_connected {
            self.is_connected
        } else if self.is_paired != other.is_paired {
            self.is_paired
        } else {
            str_lt(self.name.as_str(), other.name.as_str())
        }
    }

    proof fn lemma_asymmetric(a: BluetoothDeviceView, b: BluetoothDeviceView) {
        crate::text::lemma_lex_asymmetric(a.name, b.name);
    }

    proof fn lemma_transitive(
        a: BluetoothDeviceView,
        b: BluetoothDeviceView,
        c: BluetoothDeviceView,
    ) {
        if a.is_connected == b.is_connected && b.is_connected == c.is_connected && a.is_paired
            == b.is_paired && b.is_paired == c.is_paired {
            crate::text::lemma_lex_transitive(a.name, b.name, c.name);
        }
    }
}

/// One object of the Bluetooth service: its path and its interfaces, each
/// a named group of properties.
#[derive(Debug)]
pub struct ManagedObject {
    pub path: String,
    pub interfaces: Vec<SettingsGroup<BusValue>>,
}

/// Whether an object offers the interface named `name`.
pub open spec fn offers(obj: ManagedObject, name: Seq<char>) -> bool {
    group_index(views(obj.interfaces@), name) < obj.interfaces@.len()
}

/// The position of the first object at or after `from` that is an adapter,
/// or the number of objects when there is none.
pub open spec fn adapter_index_from(objects: Seq<ManagedObject>, from: int) -> int
    decreases objects.len() - from,
{
    if from >= objects.len() {
        objects.len() as int
    } else if offers(objects[from], ADAPTER_INTERFACE@) {
        from
    } else {
        adapter_index_from(objects, from + 1)
    }
}

/// The path of the adapter among the objects: that of the first object
/// that offers the adapter interface.
pub open spec fn adapter_of(objects: Seq<ManagedObject>) -> Option<Seq<char>> {
    let i = adapter_index_from(objects, 0);
    if i < objects.len() {
        Some(objects[i].path@)
    } else {
        None
    }
}

/// The local Bluetooth controller, if the machine has one.
#[derive(Debug, Clone)]
pub struct Adapter {
    pub path: Option<String>,
}

/// The view of an optional path.
pub open spec fn path_view(p: Option<String>) -> Option<Seq<char>> {
    match p {
        Some(s) => Some(s@),
        None => None,
    }
}

impl Adapter {
    /// Looks for the adapter among the objects of the service.
    pub fn find_adapter(objects: &Vec<ManagedObject>) -> (a: Adapter)
        ensures
            path_view(a.path) == adapter_of(objects@),
    {
        let mut i: usize = 0;
        while i < objects.len()
            invariant
                i <= objects.len(),
                adapter_index_from(objects@, 0) == adapter_index_from(objects@, i as int),
            decreases objects.len() - i,
        {
            if find_group(&objects[i].interfaces, ADAPTER_INTERFACE) < objects[i].interfaces.len() {
                return Adapter { path: Some(String::from_str(objects[i].path.as_str())) };
            }
            i += 1;
        }
        Adapter { path: None }
    }

    /// Whether there is an adapter.
    pub fn is_available(&self) -> (r: bool)
        ensures
            r == self.path.is_some(),
    {
        self.path.is_some()
    }

    /// The object to address for power and discovery. Without an adapter
    /// that is an error of its own kind, apart from any failure of a call.
    pub fn target(&self) -> (r: Result<&str, BrokerError>)
        ensures
            match self.path {
                None => r matches Err(BrokerError::NoAdapter),
                Some(p) => if valid_object_path(p@) {
                    r matches Ok(t) && t@ == p@
                } else {
                    r matches Err(BrokerError::InvalidPath)
                },
            },
    {
        match &self.path {
            None => Err(BrokerError::NoAdapter),
            Some(p) => {
                if object_path_accepted(p.as_str()) {
                    Ok(p.as_str())
                } else {
                    Err(BrokerError::InvalidPath)
                }
            },
        }
    }

    /// The adapter to ask for the removal of the device at `device_path`.
    /// A device is forgotten by its adapter, so the adapter is checked
    /// first and the device handle after it.
    pub fn forget_device(&self, device_path: &str) -> (r: Result<&str, BrokerError>)
        ensures
            match self.path {
                None => r matches Err(BrokerError::NoAdapter),
                Some(p) => if valid_object_path(p@) && valid_object_path(device_path@) {
                    r matches Ok(t) && t@ == p@
                } else {
                    r matches Err(BrokerError::InvalidPath)
                },
            },
    {
        match self.target() {
            Err(e) => Err(e),
            Ok(adapter) => {
                if object_path_accepted(device_path) {
                    Ok(adapter)
                } else {
                    Err(BrokerError::InvalidPath)
                }
            },
        }
    }
}

/// The name of a device: the text under `Name`, or under `Alias` where no
/// value is stored under `Name`; the stand-in name where that is missing
/// or no text.
pub open spec fn device_name(props: Seq<EntryView<BusValue>>) -> Seq<char> {
    let v = match entry_value(props, "Name"@) {
        Some(v) => Some(v),
        None => entry_value(props, "Alias"@),
    };
    match text_of(v) {
        Some(s) => s,
        None => UNKNOWN_DEVICE@,
    }
}

/// A flag property, off where it is missing or no flag.
pub open spec fn flag_or_off(v: Option<BusValue>) -> bool {
    match bool_of(v) {
        Some(b) => b,
        None => false,
    }
}

/// The device that an object stands for, if it offers the device
/// interface.
pub open spec fn device_of(obj: ManagedObject) -> Option<BluetoothDeviceView> {
    let interfaces = views(obj.interfaces@);
    let g = group_index(interfaces, DEVICE_INTERFACE@);
    if g < interfaces.len() {
        let props = interfaces[g].entries;
        Some(
            BluetoothDeviceView {
                path: obj.path@,
                name: device_name(props),
                device_type: type_of_icon(text_of(entry_value(props, "Icon"@))),
                is_connected: flag_or_off(entry_value(props, "Connected"@)),
                is_paired: flag_or_off(entry_value(props, "Paired"@)),
                battery_percentage: u8_of(entry_value(props, "BatteryPercentage"@)),
            },
        )
    } else {
        None
    }
}

/// The devices that the objects stand for, in the order of the objects.
pub open spec fn devices_among(objects: Seq<ManagedObject>) -> Seq<BluetoothDeviceView>
    decreases objects.len(),
{
    if objects.len() == 0 {
        Seq::empty()
    } else {
        let before = devices_among(objects.drop_last());
        match device_of(objects.last()) {
            Some(d) => before.push(d),
            None => before,
        }
    }
}

/// The list of devices: connected ones first, then paired ones, then by
/// name.
pub open spec fn devices(objects: Seq<ManagedObject>) -> Seq<BluetoothDeviceView> {
    stable_sorted::<BluetoothDevice>(devices_among(objects))
}

/// Builds the device that an object stands for, if any.
pub fn device_from(obj: &ManagedObject) -> (r: Option<BluetoothDevice>)
    ensures
        match r {
            Some(d) => device_of(*obj) == Some(d@),
            None => device_of(*obj) is None,
        },
{
    let g = find_group(&obj.interfaces, DEVICE_INTERFACE);
    if g >= obj.interfaces.len() {
        return None;
    }
    let props = &obj.interfaces[g].entries;
    proof {
        assert(views(obj.interfaces@)[g as int].entries == views(props@));
    }
    let named = lookup(props, "Name");
    let name_value = match named {
        Some(v) => Some(v),
        None => lookup(props, "Alias"),
    };
    let name = match BusValue::read_text(name_value) {
        Some(s) => s,
        None => UNKNOWN_DEVICE,
    };
    let connected = lookup(props, "Connected");
    let paired = lookup(props, "Paired");
    let battery = lookup(props, "BatteryPercentage");
    let icon = lookup(props, "Icon");
    proof {
        let p = views(props@);
        assert(deref_value(named) == entry_value(p, "Name"@));
        assert(deref_value(name_value) == match entry_value(p, "Name"@) {
            Some(v) => Some(v),
            None => entry_value(p, "Alias"@),
        });
        assert(deref_value(connected) == entry_value(p, "Connected"@));
        assert(deref_value(paired) == entry_value(p, "Paired"@));
        assert(deref_value(battery) == entry_value(p, "BatteryPercentage"@));
        assert(deref_value(icon) == entry_value(p, "Icon"@));
    }
    Some(
        BluetoothDevice {
            path: String::from_str(obj.path.as_str()),
            name: String::from_str(name),
            device_type: DeviceType::from_icon(BusValue::read_text(icon)),
            is_connected: match BusValue::read_bool(connected) {
                Some(b) => b,
                None => false,
            },
            is_paired: match BusValue::read_bool(paired) {
                Some(b) => b,
                None => false,
            },
            battery_percentage: BusValue::read_u8(battery),
        },
    )
}

/// Lists the devices among the objects of the service.
pub fn get_devices(objects: &Vec<ManagedObject>) -> (out: Vec<BluetoothDevice>)
    ensures
        views(out@) == devices(objects@),
{
    let mut found: Vec<BluetoothDevice> = Vec::new();
    let mut i: usize = 0;
    proof {
        assert(objects@.take(0) =~= Seq::empty());
        assert(views(found@) =~= Seq::empty());
    }
    while i < objects.len()
        invariant
            i <= objects.len(),
            views(found@) == devices_among(objects@.take(i as int)),
        decreases objects.len() - i,
    {
        proof {
            let done = objects@.take(i + 1);
            assert(done.drop_last() =~= objects@.take(i as int));
            assert(done.last() == objects@[i as int]);
        }
        let ghost before = found@;
        match device_from(&objects[i]) {
            Some(d) => {
                found.push(d);
                proof {
                    assert(views(found@) =~= views(before).push(d@));
                }
            },
            None => {},
        }
        i += 1;
    }
    proof {
        assert(objects@.take(objects@.len() as int) =~= objects@);
    }
    sort_stable(found)
}

} // verus!
