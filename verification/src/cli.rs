//! What the command line prints.
//!
//! A command either works on the network service itself (listing, status)
//! or is a client of the control protocol. The texts and exit codes are
//! decided here; printing and exiting is the caller's.

use vstd::prelude::*;
use vstd::string::*;
use crate::access_points::{AccessPoint, AccessPointView, SecurityType};
use crate::daemon::{verdict_of, DaemonClient, Verdict};
use crate::order::views;
use crate::text::{decimal, decimal_digits, utf8_lossy};

verus! {

/// Exit code of a command that did what it was asked.
pub const EXIT_OK: i32 = 0;

/// Exit code of a command that needs the background instance and found
/// none running.
pub const EXIT_NOT_RUNNING: i32 = 1;

/// Exit code of a command that the background instance did not take, or
/// whose exchange with it failed.
pub const EXIT_PROTOCOL: i32 = 2;

/// The word for a kind of protection.
pub open spec fn label_of(s: SecurityType) -> Seq<char> {
    match s {
        SecurityType::Open => "Open"@,
        SecurityType::WEP => "WEP"@,
        SecurityType::WPA => "WPA"@,
        SecurityType::WPA2 => "WPA2"@,
        SecurityType::WPA3 => "WPA3"@,
    }
}

/// The word for a kind of protection.
pub fn security_label(s: SecurityType) -> (label: &'static str)
    ensures
        label@ == label_of(s),
{
    match s {
        SecurityType::Open => "Open",
        SecurityType::WEP => "WEP",
        SecurityType::WPA => "WPA",
        SecurityType::WPA2 => "WPA2",
        SecurityType::WPA3 => "WPA3",
    }
}

/// The line of the network list for one access point: its name, its
/// strength in percent, its protection and, if so, that it is connected.
pub open spec fn line_of(ap: AccessPointView) -> Seq<char> {
    "  "@ + ap.ssid + " ("@ + decimal_digits(ap.signal_strength as nat) + "%) "@ + label_of(
        ap.security,
    ) + if ap.is_connected {
        " [Connected]"@
    } else {
        ""@
    }
}

/// Writes the line of the network list for one access point.
pub fn network_line(ap: &AccessPoint) -> (line: String)
    ensures
        line@ == line_of(ap@),
{
    let line = String::from_str("  ").concat(ap.ssid.as_str()).concat(" (").concat(
        decimal(ap.signal_strength as u32).as_str(),
    ).concat("%) ").concat(security_label(ap.security));
    if ap.is_connected {
        line.concat(" [Connected]")
    } else {
        line.concat("")
    }
}

/// The position of the first connected access point at or after `from`, or
/// the length of the list when there is none.
pub open spec fn connected_index_from(aps: Seq<AccessPointView>, from: int) -> int
    decreases aps.len() - from,
{
    if from >= aps.len() {
        aps.len() as int
    } else if aps[from].is_connected {
        from
    } else {
        connected_index_from(aps, from + 1)
    }
}

/// The tooltip of the status bar: the name of the first connected access
/// point, or that there is no connection.
pub open spec fn tooltip_of(aps: Seq<AccessPointView>) -> Seq<char> {
    let i = connected_index_from(aps, 0);
    if i < aps.len() {
        aps[i].ssid
    } else {
        "Disconnected"@
    }
}

/// The tooltip of the status bar for a list of access points.
fn tooltip_for(list: &Vec<AccessPoint>) -> (tip: String)
    ensures
        tip@ == tooltip_of(views(list@)),
{
    let mut i: usize = 0;
    while i < list.len()
        invariant
            i <= list.len(),
            connected_index_from(views(list@), 0) == connected_index_from(
                views(list@),
                i as int,
            ),
        decreases list.len() - i,
    {
        if list[i].is_connected {
            return String::from_str(list[i].ssid.as_str());
        }
        i += 1;
    }
    String::from_str("Disconnected")
}

/// The tooltip of the status bar for a list of access points; without a
/// list, as when the service cannot be reached, there is no connection to
/// show.
pub fn waybar_tooltip(aps: Option<&Vec<AccessPoint>>) -> (tip: String)
    ensures
        tip@ == match aps {
            Some(list) => tooltip_of(views(list@)),
            None => "Disconnected"@,
        },
{
    match aps {
        Some(list) => tooltip_for(list),
        None => String::from_str("Disconnected"),
    }
}

/// The status object for the bar, with `tip` as its tooltip.
pub open spec fn status_of(tip: Seq<char>) -> Seq<char> {
    "{\"text\": \"\u{f15ff}\", \"tooltip\": \""@ + tip + "\"}"@
}

/// Writes the status object for the bar.
pub fn waybar_status(aps: Option<&Vec<AccessPoint>>) -> (line: String)
    ensures
        line@ == status_of(
            match aps {
                Some(list) => tooltip_of(views(list@)),
                None => "Disconnected"@,
            },
        ),
{
    let tip = waybar_tooltip(aps);
    String::from_str("{\"text\": \"\u{f15ff}\", \"tooltip\": \"").concat(tip.as_str()).concat(
        "\"}",
    )
}

/// A command that is a client of the control protocol.
#[derive(Debug, Clone, Copy, PartialEq, Eq, Structural)]
pub enum ClientCommand {
    Toggle,
    ReloadTheme,
    ReloadConfig,
}

/// What a client command prints and how it exits.
#[derive(Debug, Clone)]
pub struct Report {
    pub text: String,
    /// Whether the text is a complaint, which goes to the error stream.
    pub is_error: bool,
    pub exit_code: i32,
}

/// What a client command says when no instance is running. A toggle needs
/// one, and says how to start it; for a reload there is then nothing to do,
/// which is no failure.
pub fn not_running_report(cmd: ClientCommand) -> (r: Report)
    ensures
        match cmd {
            ClientCommand::Toggle => r.text@
                == "Daemon is not running. Start it with: orbit daemon"@ && r.is_error
                && r.exit_code == EXIT_NOT_RUNNING,
            _ => r.text@ == "Daemon not running, nothing to reload."@ && !r.is_error && r.exit_code
                == EXIT_OK,
        },
{
    match cmd {
        ClientCommand::Toggle => Report {
            text: String::from_str("Daemon is not running. Start it with: orbit daemon"),
            is_error: true,
            exit_code: EXIT_NOT_RUNNING,
        },
        _ => Report {
            text: String::from_str("Daemon not running, nothing to reload."),
            is_error: false,
            exit_code: EXIT_OK,
        },
    }
}

/// The words before the response of the instance.
pub open spec fn response_prefix(cmd: ClientCommand) -> Seq<char> {
    match cmd {
        ClientCommand::Toggle => "Daemon response: "@,
        ClientCommand::ReloadTheme => "Theme reload triggered: "@,
        ClientCommand::ReloadConfig => "Config reload triggered: "@,
    }
}

/// The words before the error of a failed exchange.
pub open spec fn failure_prefix(cmd: ClientCommand) -> Seq<char> {
    match cmd {
        ClientCommand::Toggle => "Failed to send command: "@,
        ClientCommand::ReloadTheme => "Failed to trigger theme reload: "@,
        ClientCommand::ReloadConfig => "Failed to trigger config reload: "@,
    }
}

/// The exit code for the verdict on an exchange: a command that the
/// instance did not take and an instance that could not be reached both
/// exit otherwise than a command that was taken, and otherwise than a
/// command that found no instance running.
pub fn exit_code_for(v: Verdict) -> (code: i32)
    ensures
        code == code_of(v),
{
    match v {
        Verdict::Accepted => EXIT_OK,
        _ => EXIT_PROTOCOL,
    }
}

/// The exit code that goes with a verdict.
pub open spec fn code_of(v: Verdict) -> i32 {
    match v {
        Verdict::Accepted => EXIT_OK,
        _ => EXIT_PROTOCOL,
    }
}

/// What a client command says about the response text it got. The text is
/// shown as it is; the exit code tells whether the instance took the
/// command.
pub fn response_report(cmd: ClientCommand, response: &str) -> (r: Report)
    ensures
        r.text@ == response_prefix(cmd) + response@,
        !r.is_error,
        r.exit_code == code_of(verdict_of(Some(response@))),
{
    let prefix = match cmd {
        ClientCommand::Toggle => "Daemon response: ",
        ClientCommand::ReloadTheme => "Theme reload triggered: ",
        ClientCommand::ReloadConfig => "Config reload triggered: ",
    };
    Report {
        text: String::from_str(prefix).concat(response),
        is_error: false,
        exit_code: exit_code_for(DaemonClient::verdict(Some(response))),
    }
}

/// What a client command says when the exchange failed, `error` being the
/// text of the failure.
pub fn failure_report(cmd: ClientCommand, error: &str) -> (r: Report)
    ensures
        r.text@ == failure_prefix(cmd) + error@,
        r.is_error,
        r.exit_code == code_of(verdict_of(None)),
        r.exit_code == EXIT_PROTOCOL,
{
    let prefix = match cmd {
        ClientCommand::Toggle => "Failed to send command: ",
        ClientCommand::ReloadTheme => "Failed to trigger theme reload: ",
        ClientCommand::ReloadConfig => "Failed to trigger config reload: ",
    };
    Report {
        text: String::from_str(prefix).concat(error),
        is_error: true,
        exit_code: exit_code_for(DaemonClient::verdict(None)),
    }
}

/// What a client command says about an exchange: about the bytes of the
/// response where one was received, and about the failure otherwise.
pub fn exchange_report(cmd: ClientCommand, outcome: Result<&[u8], &str>) -> (r: Report)
    ensures
        match outcome {
            Ok(received) => {
                &&& r.text@ == response_prefix(cmd) + utf8_lossy(received@)
                &&& !r.is_error
                &&& r.exit_code == code_of(verdict_of(Some(utf8_lossy(received@))))
            },
            Err(error) => {
                &&& r.text@ == failure_prefix(cmd) + error@
                &&& r.is_error
                &&& r.exit_code == EXIT_PROTOCOL
            },
        },
{
    match outcome {
        Ok(received) => {
            let read = DaemonClient::read_response(received);
            response_report(cmd, read.0.as_str())
        },
        Err(error) => failure_report(cmd, error),
    }
}

} // verus!
