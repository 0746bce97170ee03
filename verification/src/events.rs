//! Events and the decisions around them.
//!
//! Every command runs on a worker of its own, which makes its calls one
//! after the other and publishes what came of each as an [`AppEvent`]. One
//! consumer takes the events in the order in which they arrive. Workers do
//! not wait for each other, so a refresh may overtake the completion of an
//! action that was started before it: the consumer therefore keeps what is
//! pending by target and lets go of it only on the completion of that
//! target.

use vstd::prelude::*;
use vstd::string::*;
use crate::access_points::{AccessPoint, SecurityType};
use crate::active::CONNECTIVITY_PORTAL;
use crate::bluetooth::BluetoothDevice;
use crate::connect::{error_text, BrokerError};
use crate::daemon::DaemonCommand;
use crate::details::NetworkDetails;
use crate::order::views;
use crate::profiles::SavedNetwork;
use crate::text::str_eq;

verus! {

/// How many times the construction of a broker is tried at startup.
pub const STARTUP_ATTEMPTS: u32 = 5;

/// Seconds to sleep between two tries at startup.
pub const STARTUP_BACKOFF_SECS: u64 = 1;

/// Seconds to give the service to connect by itself at startup.
pub const AUTOCONNECT_GRACE_SECS: u64 = 4;

/// Seconds to sleep after a connection came up before connectivity is
/// probed.
pub const PORTAL_PROBE_DELAY_SECS: u64 = 2;

/// Seconds to sleep after a scan request before the results are read.
pub const SCAN_SETTLE_SECS: u64 = 2;

/// Seconds for which Bluetooth discovery runs.
pub const DISCOVERY_SECS: u64 = 5;

/// Milliseconds to sleep after a patch of the autoconnect flag before the
/// saved networks are read again.
pub const AUTOCONNECT_SETTLE_MS: u64 = 100;

/// Milliseconds to sleep after an action on a device that went well before
/// the devices are read again.
pub const DEVICE_SETTLE_MS: u64 = 500;

/// Seconds between two refreshes while the window is shown.
pub const REFRESH_VISIBLE_SECS: u64 = 10;

/// Seconds between two refreshes while the window is hidden.
pub const REFRESH_HIDDEN_SECS: u64 = 30;

/// An action on a Bluetooth device.
#[derive(Debug, Clone, Copy, PartialEq, Eq, Structural)]
pub enum DeviceAction {
    Connect,
    Disconnect,
    Pair,
    Forget,
}

/// An outcome on its way from a worker to the consumer.
#[derive(Debug)]
pub enum AppEvent {
    WifiScanResult(Vec<AccessPoint>),
    SavedNetworksResult(Vec<SavedNetwork>),
    NetworkDetailsResult(NetworkDetails),
    BtScanResult(Vec<BluetoothDevice>),
    WifiPowerState(bool),
    BtPowerState(bool),
    /// A connection attempt to the named network began.
    ConnectStarted(String),
    /// The connection to the named network is up.
    ConnectSuccess(String),
    /// The user asked to connect to a hidden network, with this password.
    ConnectHidden(String, String),
    /// An action on the device at this path began.
    BtActionStarted(String, DeviceAction),
    /// The action on the device at this path ended, well or not.
    BtActionComplete(String),
    BtUnavailable,
    /// Something failed. The target is the network or the device that the
    /// failed action was about, where it was about one.
    Error { target: Option<String>, message: String },
    Notify(String),
    /// The named network sits behind a captive portal.
    CaptivePortal(String),
    DaemonCommand(DaemonCommand),
}

/// Whether `e` is a notification with the text `text`.
pub open spec fn is_notify(e: AppEvent, text: Seq<char>) -> bool {
    e matches AppEvent::Notify(m) && m@ == text
}

/// Whether `e` is an error about `target` with the text `text`.
pub open spec fn is_error(e: AppEvent, target: Option<Seq<char>>, text: Seq<char>) -> bool {
    e matches AppEvent::Error { target: t, message } && message@ == text && match t {
        Some(s) => target == Some(s@),
        None => target is None,
    }
}

/// Whether `e` reports that the connection to `ssid` is up.
pub open spec fn is_connect_success(e: AppEvent, ssid: Seq<char>) -> bool {
    e matches AppEvent::ConnectSuccess(s) && s@ == ssid
}

/// Whether `e` reports that the action on the device at `path` ended.
pub open spec fn is_action_complete(e: AppEvent, path: Seq<char>) -> bool {
    e matches AppEvent::BtActionComplete(p) && p@ == path
}

fn notify(prefix: &str, name: &str, suffix: &str) -> (e: AppEvent)
    ensures
        is_notify(e, prefix@ + name@ + suffix@),
{
    AppEvent::Notify(String::from_str(prefix).concat(name).concat(suffix))
}

fn error_about(target: Option<&str>, prefix: &str, error: &BrokerError) -> (e: AppEvent)
    ensures
        is_error(
            e,
            match target {
                Some(t) => Some(t@),
                None => None,
            },
            prefix@ + error_text(*error),
        ),
{
    let message = String::from_str(prefix).concat(error.message().as_str());
    let target = match target {
        Some(t) => Some(String::from_str(t)),
        None => None,
    };
    AppEvent::Error { target, message }
}

/// What a worker publishes when a connection attempt to `ssid` has ended:
/// on success the completion and a notification, on failure the error. The
/// refresh of the list and the probe for a captive portal follow a success
/// as steps of their own.
pub fn connect_finished(ssid: &str, result: &Result<(), BrokerError>) -> (out: Vec<AppEvent>)
    ensures
        match *result {
            Ok(_) => {
                &&& out.len() == 2
                &&& is_connect_success(out[0], ssid@)
                &&& is_notify(out[1], "Connected to "@ + ssid@)
            },
            Err(e) => {
                &&& out.len() == 1
                &&& is_error(out[0], Some(ssid@), "Connect failed: "@ + error_text(e))
            },
        },
{
    let mut out: Vec<AppEvent> = Vec::new();
    match result {
        Ok(_) => {
            out.push(AppEvent::ConnectSuccess(String::from_str(ssid)));
            let note = notify("Connected to ", ssid, "");
            proof {
                reveal_strlit("");
                assert("Connected to "@ + ssid@ + ""@ =~= "Connected to "@ + ssid@);
            }
            out.push(note);
        },
        Err(e) => {
            out.push(error_about(Some(ssid), "Connect failed: ", e));
        },
    }
    out
}

/// What a worker publishes when the activation for a hidden network was
/// requested. Success here means that the request went through: whether the
/// connection comes up shows later, in the active connection.
pub fn hidden_connect_finished(ssid: &str, result: &Result<(), BrokerError>) -> (out: Vec<
    AppEvent,
>)
    ensures
        match *result {
            Ok(_) => {
                &&& out.len() == 2
                &&& is_connect_success(out[0], ssid@)
                &&& is_notify(out[1], "Connecting to hidden network "@ + ssid@ + "..."@)
            },
            Err(e) => {
                &&& out.len() == 1
                &&& is_error(out[0], Some(ssid@), "Hidden connect failed: "@ + error_text(e))
            },
        },
{
    let mut out: Vec<AppEvent> = Vec::new();
    match result {
        Ok(_) => {
            out.push(AppEvent::ConnectSuccess(String::from_str(ssid)));
            out.push(notify("Connecting to hidden network ", ssid, "..."));
        },
        Err(e) => {
            out.push(error_about(Some(ssid), "Hidden connect failed: ", e));
        },
    }
    out
}

/// The password to connect with: none where the user left it empty.
pub fn entered_password(password: &str) -> (r: Option<&str>)
    ensures
        match r {
            Some(p) => password@.len() > 0 && p@ == password@,
            None => password@.len() == 0,
        },
{
    if password.is_empty() {
        None
    } else {
        Some(password)
    }
}

/// Whether the user is asked for a password before a connection attempt:
/// for every network that is not open.
pub fn needs_password(security: SecurityType) -> (r: bool)
    ensures
        r == (security != SecurityType::Open),
{
    match security {
        SecurityType::Open => false,
        _ => true,
    }
}

/// What choosing a network in the list asks for.
#[derive(Debug, Clone, Copy, PartialEq, Eq, Structural)]
pub enum Intent {
    /// The network is the connected one: leave it.
    Disconnect,
    /// The network is protected: ask for its password, then connect.
    AskPassword,
    /// The network is open: connect right away.
    Connect,
}

/// What choosing a network with this state and protection asks for.
pub open spec fn intent_of(is_connected: bool, security: SecurityType) -> Intent {
    if is_connected {
        Intent::Disconnect
    } else if security != SecurityType::Open {
        Intent::AskPassword
    } else {
        Intent::Connect
    }
}

/// Decides what choosing a network in the list asks for.
pub fn choose_network(ap: &AccessPoint) -> (i: Intent)
    ensures
        i == intent_of(ap.is_connected, ap.security),
{
    if ap.is_connected {
        Intent::Disconnect
    } else if needs_password(ap.security) {
        Intent::AskPassword
    } else {
        Intent::Connect
    }
}

/// The radio on which a hidden network is connected to: the first radio,
/// or, where the machine has none, the error to publish for the network.
pub fn hidden_network_radio<'a>(radios: &'a Vec<String>, ssid: &str) -> (r: Result<
    &'a str,
    AppEvent,
>)
    ensures
        match r {
            Ok(radio) => radios.len() > 0 && radio@ == radios[0]@,
            Err(e) => radios.len() == 0 && is_error(e, Some(ssid@), "No WiFi device found"@),
        },
{
    if radios.len() > 0 {
        Ok(radios[0].as_str())
    } else {
        Err(
            AppEvent::Error {
                target: Some(String::from_str(ssid)),
                message: String::from_str("No WiFi device found"),
            },
        )
    }
}

/// What a worker publishes when an action on the device at `path` has
/// ended: the completion in any case, and the error after it on failure.
pub fn device_action_finished(path: &str, result: &Result<(), BrokerError>) -> (out: Vec<AppEvent>)
    ensures
        out.len() >= 1,
        is_action_complete(out[0], path@),
        match *result {
            Ok(_) => out.len() == 1,
            Err(e) => out.len() == 2 && is_error(
                out[1],
                Some(path@),
                "Bluetooth action failed: "@ + error_text(e),
            ),
        },
{
    let mut out: Vec<AppEvent> = Vec::new();
    out.push(AppEvent::BtActionComplete(String::from_str(path)));
    match result {
        Ok(_) => {},
        Err(e) => {
            out.push(error_about(Some(path), "Bluetooth action failed: ", e));
        },
    }
    out
}

/// What a worker publishes when patching the autoconnect flag failed.
pub fn autoconnect_failed(error: &BrokerError) -> (e: AppEvent)
    ensures
        is_error(e, None, "Failed to update autoconnect: "@ + error_text(*error)),
{
    error_about(None, "Failed to update autoconnect: ", error)
}

/// What a worker publishes when a query failed, `what` naming the query.
pub fn query_failed(what: &str, error: &BrokerError) -> (e: AppEvent)
    ensures
        is_error(e, None, what@ + ": "@ + error_text(*error)),
{
    let prefix = String::from_str(what).concat(": ");
    error_about(None, prefix.as_str(), error)
}

/// What a worker publishes after it probed connectivity on `ssid`: the
/// alert if the code stands for a captive portal, and nothing otherwise.
pub fn portal_event(ssid: &str, connectivity: u32) -> (r: Option<AppEvent>)
    ensures
        match r {
            Some(e) => {
                &&& connectivity == CONNECTIVITY_PORTAL
                &&& e matches AppEvent::CaptivePortal(s)
                &&& s@ == ssid@
            },
            None => connectivity != CONNECTIVITY_PORTAL,
        },
{
    if connectivity == CONNECTIVITY_PORTAL {
        Some(AppEvent::CaptivePortal(String::from_str(ssid)))
    } else {
        None
    }
}

/// The text of the alert for a captive portal on `ssid`.
pub fn portal_notice(ssid: &str) -> (s: String)
    ensures
        s@ == "Captive portal detected on "@ + ssid@ + " \u{2014} opening login page..."@,
{
    String::from_str("Captive portal detected on ").concat(ssid).concat(
        " \u{2014} opening login page...",
    )
}

/// The tries at constructing a broker at startup that have failed.
#[derive(Debug, Clone, Copy, PartialEq, Eq, Structural)]
pub struct StartupRetry {
    pub failures: u32,
}

/// What a try at constructing a broker means for startup.
#[derive(Debug, Clone, Copy, PartialEq, Eq, Structural)]
pub enum RetryStep {
    /// The broker is there.
    Ready,
    /// Sleep for the backoff and try again.
    Again(StartupRetry),
    /// The last try allowed failed too: the broker stays absent.
    GaveUp,
}

/// What a try means after `failures` failed tries.
pub open spec fn retry_step(failures: nat, ok: bool) -> RetryStep {
    if ok {
        RetryStep::Ready
    } else if failures + 1 >= STARTUP_ATTEMPTS {
        RetryStep::GaveUp
    } else {
        RetryStep::Again(StartupRetry { failures: (failures + 1) as u32 })
    }
}

impl StartupRetry {
    /// Startup before the first try.
    pub fn new() -> (r: StartupRetry)
        ensures
            r.failures == 0,
    {
        StartupRetry { failures: 0 }
    }

    /// Takes in the outcome of one try.
    pub fn observe(self, ok: bool) -> (step: RetryStep)
        ensures
            step == retry_step(self.failures as nat, ok),
    {
        if ok {
            RetryStep::Ready
        } else if self.failures >= STARTUP_ATTEMPTS - 1 {
            RetryStep::GaveUp
        } else {
            RetryStep::Again(StartupRetry { failures: self.failures + 1 })
        }
    }
}

/// The slot that holds a broker handle: empty until startup has made the
/// handle, and marked failed if it could not.
#[derive(Debug)]
pub enum Slot<H> {
    Uninitialized,
    Ready(H),
    Failed,
}

impl<H> Slot<H> {
    /// The handle, if there is one. A command that finds none is dropped.
    pub fn handle(&self) -> (h: Option<&H>)
        ensures
            match *self {
                Slot::Ready(x) => h == Some(&x),
                _ => h is None,
            },
    {
        match self {
            Slot::Ready(x) => Some(x),
            _ => None,
        }
    }

    /// The slot after startup is through with its tries.
    pub fn settle(made: Option<H>) -> (s: Slot<H>)
        ensures
            match made {
                Some(x) => s == Slot::Ready(x),
                None => s is Failed,
            },
    {
        match made {
            Some(x) => Slot::Ready(x),
            None => Slot::Failed,
        }
    }
}

/// What startup does after a reading of the active connection.
#[derive(Debug)]
pub enum StartupStep {
    /// The machine is connected: publish the notification, then probe for
    /// a captive portal.
    Announce(AppEvent),
    /// Not connected yet: give the service time to connect by itself, then
    /// read again.
    Wait,
    /// Still not connected: ask the radios to scan.
    Scan,
}

/// Decides what startup does after the first (`second == false`) or the
/// second reading of the active connection.
pub fn startup_step(active: Option<&str>, second: bool) -> (step: StartupStep)
    ensures
        match active {
            Some(ssid) => step matches StartupStep::Announce(e) && is_notify(
                e,
                "Connected to "@ + ssid@,
            ),
            None => if second {
                step is Scan
            } else {
                step is Wait
            },
        },
{
    match active {
        Some(ssid) => {
            let note = notify("Connected to ", ssid, "");
            proof {
                reveal_strlit("");
                assert("Connected to "@ + ssid@ + ""@ =~= "Connected to "@ + ssid@);
            }
            StartupStep::Announce(note)
        },
        None => {
            if second {
                StartupStep::Scan
            } else {
                StartupStep::Wait
            }
        },
    }
}

/// What a periodic refresh reads.
#[derive(Debug, Clone, Copy, PartialEq, Eq, Structural)]
pub struct RefreshPlan {
    /// Seconds to sleep before the refresh.
    pub delay_secs: u64,
    /// Whether the lists of networks and devices are read.
    pub lists: bool,
    /// Whether the power states are read.
    pub power: bool,
}

/// Plans the next periodic refresh: a hidden window is refreshed less
/// often, and only its power states.
pub fn plan_refresh(visible: bool) -> (plan: RefreshPlan)
    ensures
        plan.delay_secs == if visible {
            REFRESH_VISIBLE_SECS
        } else {
            REFRESH_HIDDEN_SECS
        },
        plan.lists == visible,
        plan.power,
{
    RefreshPlan {
        delay_secs: if visible {
            REFRESH_VISIBLE_SECS
        } else {
            REFRESH_HIDDEN_SECS
        },
        lists: visible,
        power: true,
    }
}

/// Which radio the power switch stands for.
#[derive(Debug, Clone, Copy, PartialEq, Eq, Structural)]
pub enum PowerTarget {
    Wifi,
    Bluetooth,
}

/// Which radio the power switch acts on while the tab named `tab` is
/// shown.
pub fn power_target(tab: &str) -> (t: PowerTarget)
    ensures
        t == if tab@ == "wifi"@ {
            PowerTarget::Wifi
        } else {
            PowerTarget::Bluetooth
        },
{
    if str_eq(tab, "wifi") {
        PowerTarget::Wifi
    } else {
        PowerTarget::Bluetooth
    }
}

/// Whether a power state of `radio` is shown on the switch while the tab
/// named `tab` is shown: that of the wireless radio on the tabs of the
/// networks, that of Bluetooth on its own tab.
pub fn power_state_applies(radio: PowerTarget, tab: &str) -> (r: bool)
    ensures
        r == match radio {
            PowerTarget::Wifi => tab@ == "wifi"@ || tab@ == "saved"@,
            PowerTarget::Bluetooth => tab@ == "bluetooth"@,
        },
{
    match radio {
        PowerTarget::Wifi => str_eq(tab, "wifi") || str_eq(tab, "saved"),
        PowerTarget::Bluetooth => str_eq(tab, "bluetooth"),
    }
}

/// What the window is asked to do.
#[derive(Debug)]
pub enum WindowAction {
    Show,
    Hide,
    SetPosition(String),
    /// Read power states and lists again.
    Refresh,
    ReloadTheme,
    ReloadConfig,
    Quit,
}

/// A window action as a mathematical value.
pub enum WindowActionView {
    Show,
    Hide,
    SetPosition(Seq<char>),
    Refresh,
    ReloadTheme,
    ReloadConfig,
    Quit,
}

impl View for WindowAction {
    type V = WindowActionView;

    open spec fn view(&self) -> WindowActionView {
        match self {
            WindowAction::Show => WindowActionView::Show,
            WindowAction::Hide => WindowActionView::Hide,
            WindowAction::SetPosition(p) => WindowActionView::SetPosition(p@),
            WindowAction::Refresh => WindowActionView::Refresh,
            WindowAction::ReloadTheme => WindowActionView::ReloadTheme,
            WindowAction::ReloadConfig => WindowActionView::ReloadConfig,
            WindowAction::Quit => WindowActionView::Quit,
        }
    }
}

/// What a command does to a window that is shown or not: whether it is
/// shown afterwards, and what it is asked to do, in order.
pub open spec fn command_effect(visible: bool, cmd: crate::daemon::CommandView) -> (
    bool,
    Seq<WindowActionView>,
) {
    match cmd {
        crate::daemon::CommandView::Show => (
            true,
            seq![WindowActionView::Show, WindowActionView::Refresh],
        ),
        crate::daemon::CommandView::Hide => (false, seq![WindowActionView::Hide]),
        crate::daemon::CommandView::Toggle(position) => if visible {
            (false, seq![WindowActionView::Hide])
        } else {
            match position {
                Some(p) => (
                    true,
                    seq![
                        WindowActionView::SetPosition(p),
                        WindowActionView::Show,
                        WindowActionView::Refresh,
                    ],
                ),
                None => (true, seq![WindowActionView::Show, WindowActionView::Refresh]),
            }
        },
        crate::daemon::CommandView::ReloadTheme => (visible, seq![WindowActionView::ReloadTheme]),
        crate::daemon::CommandView::ReloadConfig => (
            visible,
            seq![WindowActionView::ReloadConfig],
        ),
        crate::daemon::CommandView::Quit => (visible, seq![WindowActionView::Quit]),
    }
}

/// Turns a command of the control protocol into what the window is
/// asked to do.
pub fn apply_command(visible: bool, cmd: &DaemonCommand) -> (r: (bool, Vec<WindowAction>))
    ensures
        r.0 == command_effect(visible, cmd@).0,
        views(r.1@) == command_effect(visible, cmd@).1,
{
    let mut actions: Vec<WindowAction> = Vec::new();
    let shown = match cmd {
        DaemonCommand::Show => {
            actions.push(WindowAction::Show);
            actions.push(WindowAction::Refresh);
            true
        },
        DaemonCommand::Hide => {
            actions.push(WindowAction::Hide);
            false
        },
        DaemonCommand::Toggle(position) => {
            if visible {
                actions.push(WindowAction::Hide);
                false
            } else {
                match position {
                    Some(p) => {
                        actions.push(WindowAction::SetPosition(String::from_str(p.as_str())));
                    },
                    None => {},
                }
                actions.push(WindowAction::Show);
                actions.push(WindowAction::Refresh);
                true
            }
        },
        DaemonCommand::ReloadTheme => {
            actions.push(WindowAction::ReloadTheme);
            visible
        },
        DaemonCommand::ReloadConfig => {
            actions.push(WindowAction::ReloadConfig);
            visible
        },
        DaemonCommand::Quit => {
            actions.push(WindowAction::Quit);
            visible
        },
    };
    proof {
        assert(views(actions@) =~= command_effect(visible, cmd@).1);
    }
    (shown, actions)
}

/// What the consumer holds as pending: the network that is being connected
/// to, and the device that an action runs on.
#[derive(Debug, Clone)]
pub struct Pending {
    pub connecting: Option<String>,
    pub device: Option<String>,
}

/// Pending state as a mathematical value.
pub struct PendingView {
    pub connecting: Option<Seq<char>>,
    pub device: Option<Seq<char>>,
}

impl View for Pending {
    type V = PendingView;

    open spec fn view(&self) -> PendingView {
        PendingView {
            connecting: match self.connecting {
                Some(s) => Some(s@),
                None => None,
            },
            device: match self.device {
                Some(s) => Some(s@),
                None => None,
            },
        }
    }
}

/// What an event starts, if it starts something.
pub open spec fn started_by(e: AppEvent) -> Option<Seq<char>> {
    match e {
        AppEvent::ConnectStarted(s) => Some(s@),
        AppEvent::BtActionStarted(p, _) => Some(p@),
        _ => None,
    }
}

/// The target whose pending connection attempt an event ends, if it ends
/// one: a success is the end of the attempt on its network, and an error
/// the end of the attempt on its target.
pub open spec fn connect_ended_by(e: AppEvent) -> Option<Seq<char>> {
    match e {
        AppEvent::ConnectSuccess(s) => Some(s@),
        AppEvent::Error { target: Some(t), .. } => Some(t@),
        _ => None,
    }
}

/// The device whose pending action an event ends, if it ends one.
pub open spec fn action_ended_by(e: AppEvent) -> Option<Seq<char>> {
    match e {
        AppEvent::BtActionComplete(p) => Some(p@),
        AppEvent::Error { target: Some(t), .. } => Some(t@),
        _ => None,
    }
}

/// What is pending after an event. An attempt or an action becomes pending
/// when it starts, and stops being pending only when an event ends it by
/// name. No other event changes what is pending: neither a refresh of a
/// list nor the completion of something else.
pub open spec fn pending_after(p: PendingView, e: AppEvent) -> PendingView {
    PendingView {
        connecting: match e {
            AppEvent::ConnectStarted(s) => Some(s@),
            _ => if p.connecting is Some && connect_ended_by(e) == p.connecting {
                None
            } else {
                p.connecting
            },
        },
        device: match e {
            AppEvent::BtActionStarted(path, _) => Some(path@),
            _ => if p.device is Some && action_ended_by(e) == p.device {
                None
            } else {
                p.device
            },
        },
    }
}

fn same_target(pending: &Option<String>, ended: Option<&str>) -> (r: bool)
    ensures
        r == (pending is Some && match ended {
            Some(t) => Some(t@),
            None => None,
        } == match *pending {
            Some(s) => Some(s@),
            None => None::<Seq<char>>,
        }),
{
    match pending {
        Some(s) => match ended {
            Some(t) => str_eq(s.as_str(), t),
            None => false,
        },
        None => false,
    }
}

impl Pending {
    /// Nothing pending.
    pub fn new() -> (p: Pending)
        ensures
            p@.connecting is None,
            p@.device is None,
    {
        Pending { connecting: None, device: None }
    }

    /// Takes in one event.
    pub fn apply(self, event: &AppEvent) -> (out: Pending)
        ensures
            out@ == pending_after(self@, *event),
    {
        let connect_end: Option<&str> = match event {
            AppEvent::ConnectSuccess(s) => Some(s.as_str()),
            AppEvent::Error { target: Some(t), .. } => Some(t.as_str()),
            _ => None,
        };
        let action_end: Option<&str> = match event {
            AppEvent::BtActionComplete(p) => Some(p.as_str()),
            AppEvent::Error { target: Some(t), .. } => Some(t.as_str()),
            _ => None,
        };
        let connecting = match event {
            AppEvent::ConnectStarted(s) => Some(String::from_str(s.as_str())),
            _ => {
                if same_target(&self.connecting, connect_end) {
                    None
                } else {
                    self.connecting
                }
            },
        };
        let device = match event {
            AppEvent::BtActionStarted(path, _) => Some(String::from_str(path.as_str())),
            _ => {
                if same_target(&self.device, action_end) {
                    None
                } else {
                    self.device
                }
            },
        };
        Pending { connecting, device }
    }
}

/// Whether an event is a refresh: a list, details or a power state.
pub open spec fn is_refresh(e: AppEvent) -> bool {
    match e {
        AppEvent::WifiScanResult(_) => true,
        AppEvent::SavedNetworksResult(_) => true,
        AppEvent::NetworkDetailsResult(_) => true,
        AppEvent::BtScanResult(_) => true,
        AppEvent::WifiPowerState(_) => true,
        AppEvent::BtPowerState(_) => true,
        _ => false,
    }
}

/// A refresh never changes what is pending, whenever it arrives.
pub proof fn lemma_refresh_keeps_pending(p: PendingView, e: AppEvent)
    requires
        is_refresh(e),
    ensures
        pending_after(p, e) == p,
{
}

/// A pending connection attempt outlasts every event but a new attempt and
/// the end of the attempt on that very network.
pub proof fn lemma_pending_ends_by_name(p: PendingView, e: AppEvent, ssid: Seq<char>)
    requires
        p.connecting == Some(ssid),
        !(e is ConnectStarted),
        connect_ended_by(e) != Some(ssid),
    ensures
        pending_after(p, e).connecting == Some(ssid),
{
}

} // verus!
