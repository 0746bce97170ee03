//! The control protocol between a short-lived command-line invocation and
//! the long-running background instance.
//!
//! A request is one short ASCII text without a trailing newline; the
//! background instance answers `ok` or `unknown`. This module holds the wire
//! grammar and the decisions around the socket; opening, reading and writing
//! the socket is left to the caller.

use vstd::prelude::*;
use vstd::string::*;
use crate::text::{
    chars_of, decode_utf8_lossy, find_char_from, index_of_from, lemma_index_of_is, starts_with,
    str_eq, utf8_lossy,
};

verus! {

/// File name of the control socket inside the runtime directory.
pub const SOCKET_NAME: &'static str = "orbit.sock";

/// The most bytes the background instance reads of one request.
pub const REQUEST_LIMIT: usize = 64;

/// The most bytes a client reads of one response.
pub const RESPONSE_LIMIT: usize = 32;

/// Seconds a client waits for a write or a read before it gives up.
pub const CLIENT_TIMEOUT_SECS: u64 = 2;

/// A command for the background instance.
#[derive(Debug, Clone)]
pub enum DaemonCommand {
    Show,
    Hide,
    /// Show the window if hidden, at the given position if one is named;
    /// hide it if shown.
    Toggle(Option<String>),
    ReloadTheme,
    ReloadConfig,
    Quit,
}

/// A command as a mathematical value.
pub enum CommandView {
    Show,
    Hide,
    Toggle(Option<Seq<char>>),
    ReloadTheme,
    ReloadConfig,
    Quit,
}

impl View for DaemonCommand {
    type V = CommandView;

    open spec fn view(&self) -> CommandView {
        match self {
            DaemonCommand::Show => CommandView::Show,
            DaemonCommand::Hide => CommandView::Hide,
            DaemonCommand::Toggle(None) => CommandView::Toggle(None),
            DaemonCommand::Toggle(Some(p)) => CommandView::Toggle(Some(p@)),
            DaemonCommand::ReloadTheme => CommandView::ReloadTheme,
            DaemonCommand::ReloadConfig => CommandView::ReloadConfig,
            DaemonCommand::Quit => CommandView::Quit,
        }
    }
}

/// The view of an optional command.
pub open spec fn command_view(c: Option<DaemonCommand>) -> Option<CommandView> {
    match c {
        Some(c) => Some(c@),
        None => None,
    }
}

/// The length of the word and colon that a toggle request with a position
/// begins with.
pub open spec fn toggle_prefix_len() -> int {
    7
}

/// The position that a request beginning with `toggle:` names: the text
/// after that colon, up to the next colon if there is one. An empty
/// position is none.
pub open spec fn toggle_position(s: Seq<char>) -> Option<Seq<char>> {
    let begin = toggle_prefix_len();
    let end = index_of_from(s, ':', begin);
    if end == begin {
        None
    } else {
        Some(s.subrange(begin, end))
    }
}

/// The command that a request text stands for. The text has to be one of
/// the request forms, from its first character to its last: one of the six
/// words, or `toggle:` followed by a position. Every other text is no
/// command.
pub open spec fn parse_text(s: Seq<char>) -> Option<CommandView> {
    if s == "show"@ {
        Some(CommandView::Show)
    } else if s == "hide"@ {
        Some(CommandView::Hide)
    } else if s == "reload-theme"@ {
        Some(CommandView::ReloadTheme)
    } else if s == "reload-config"@ {
        Some(CommandView::ReloadConfig)
    } else if s == "quit"@ {
        Some(CommandView::Quit)
    } else if s == "toggle"@ {
        Some(CommandView::Toggle(None))
    } else if "toggle:"@.is_prefix_of(s) {
        Some(CommandView::Toggle(toggle_position(s)))
    } else {
        None
    }
}

/// The request text of a command.
pub open spec fn wire_text(c: CommandView) -> Seq<char> {
    match c {
        CommandView::Show => "show"@,
        CommandView::Hide => "hide"@,
        CommandView::ReloadTheme => "reload-theme"@,
        CommandView::ReloadConfig => "reload-config"@,
        CommandView::Toggle(None) => "toggle"@,
        CommandView::Toggle(Some(p)) => "toggle:"@ + p,
        CommandView::Quit => "quit"@,
    }
}

impl DaemonCommand {
    /// Reads a command from request text.
    pub fn from_text(s: &str) -> (r: Option<DaemonCommand>)
        ensures
            command_view(r) == parse_text(s@),
    {
        if str_eq(s, "show") {
            Some(DaemonCommand::Show)
        } else if str_eq(s, "hide") {
            Some(DaemonCommand::Hide)
        } else if str_eq(s, "reload-theme") {
            Some(DaemonCommand::ReloadTheme)
        } else if str_eq(s, "reload-config") {
            Some(DaemonCommand::ReloadConfig)
        } else if str_eq(s, "quit") {
            Some(DaemonCommand::Quit)
        } else if str_eq(s, "toggle") {
            Some(DaemonCommand::Toggle(None))
        } else {
            let t = chars_of(s);
            let prefix = chars_of("toggle:");
            proof {
                reveal_strlit("toggle:");
                assert(prefix@.len() == toggle_prefix_len());
            }
            if starts_with(&t, &prefix) {
                let begin = prefix.len();
                let end = find_char_from(&t, ':', begin);
                if end == begin {
                    Some(DaemonCommand::Toggle(None))
                } else {
                    let position = String::from_str(s.substring_char(begin, end));
                    Some(DaemonCommand::Toggle(Some(position)))
                }
            } else {
                None
            }
        }
    }

    /// Reads a command from the bytes of a request. The bytes are first
    /// decoded as UTF-8, with malformed parts replaced, and the text is then
    /// read as [`DaemonCommand::from_text`] reads it.
    pub fn from_bytes(bytes: &[u8]) -> (r: Option<DaemonCommand>)
        ensures
            command_view(r) == parse_text(utf8_lossy(bytes@)),
    {
        let text = decode_utf8_lossy(bytes);
        DaemonCommand::from_text(text.as_str())
    }

    /// The request text of this command.
    pub fn to_string(&self) -> (s: String)
        ensures
            s@ == wire_text(self@),
    {
        match self {
            DaemonCommand::Show => String::from_str("show"),
            DaemonCommand::Hide => String::from_str("hide"),
            DaemonCommand::ReloadTheme => String::from_str("reload-theme"),
            DaemonCommand::ReloadConfig => String::from_str("reload-config"),
            DaemonCommand::Toggle(pos) => {
                match pos {
                    Some(p) => String::from_str("toggle:").concat(p.as_str()),
                    None => String::from_str("toggle"),
                }
            },
            DaemonCommand::Quit => String::from_str("quit"),
        }
    }
}

/// Whether a command can be written so that it reads back: the position of
/// a toggle, if it names one, is not empty and holds no colon.
pub open spec fn writable(c: CommandView) -> bool {
    c matches CommandView::Toggle(Some(p)) ==> p.len() > 0 && forall|i: int|
        0 <= i < p.len() ==> p[i] != ':'
}

/// A command that is written as its request text reads back as itself.
pub proof fn lemma_written_commands_read_back(c: CommandView)
    requires
        writable(c),
    ensures
        parse_text(wire_text(c)) == Some(c),
{
    reveal_strlit("show");
    reveal_strlit("hide");
    reveal_strlit("reload-theme");
    reveal_strlit("reload-config");
    reveal_strlit("toggle");
    reveal_strlit("toggle:");
    reveal_strlit("quit");
    let t = wire_text(c);
    // the words differ from each other in their first letter or their length
    assert(t.len() > 0);
    assert("show"@[0] == 's' && "hide"@[0] == 'h' && "quit"@[0] == 'q');
    assert("reload-theme"@.len() != "reload-config"@.len());
    assert("reload-theme"@[0] == 'r' && "reload-config"@[0] == 'r' && "toggle"@[0] == 't');
    match c {
        CommandView::Toggle(None) => {
            // the word alone is too short to begin with the word and a colon
            assert(!"toggle:"@.is_prefix_of(t));
        },
        CommandView::Toggle(Some(p)) => {
            assert(t.len() == 7 + p.len());
            assert(t[0] == 't');
            assert(t.subrange(0, 7) =~= "toggle:"@);
            assert(forall|k: int| 7 <= k < t.len() ==> t[k] == p[k - 7]);
            lemma_index_of_is(t, ':', 7, t.len() as int);
            assert(t.subrange(7, t.len() as int) =~= p);
        },
        _ => {},
    }
}

/// A text that is not one of the request forms is no command: neither a
/// word with something after it, nor anything that merely begins like a
/// request.
pub proof fn lemma_other_texts_are_no_command(s: Seq<char>)
    requires
        s != "show"@,
        s != "hide"@,
        s != "reload-theme"@,
        s != "reload-config"@,
        s != "quit"@,
        s != "toggle"@,
        !"toggle:"@.is_prefix_of(s),
    ensures
        parse_text(s) is None,
{
}

/// What the background instance does with what it read from one connection.
#[derive(Debug, Clone)]
pub enum ServerReply {
    /// Nothing was read: nothing is written back.
    Silent,
    /// A command was recognised: it goes to the handler, then `ok` is
    /// written back.
    Accepted(DaemonCommand),
    /// The request is no command: `unknown` is written back and the handler
    /// is not called.
    Unknown,
}

/// The reply that the bytes read from one connection call for.
pub open spec fn reply_for(received: Seq<u8>, reply: ServerReply) -> bool {
    if received.len() == 0 {
        reply is Silent
    } else {
        match parse_text(utf8_lossy(received)) {
            Some(c) => reply matches ServerReply::Accepted(cmd) && cmd@ == c,
            None => reply is Unknown,
        }
    }
}

/// Decides what to do with the bytes read from one connection.
pub fn serve_request(received: &[u8]) -> (reply: ServerReply)
    ensures
        reply_for(received@, reply),
{
    if received.len() == 0 {
        return ServerReply::Silent;
    }
    match DaemonCommand::from_bytes(received) {
        Some(cmd) => ServerReply::Accepted(cmd),
        None => ServerReply::Unknown,
    }
}

impl ServerReply {
    /// The command to hand to the handler, if there is one. The handler
    /// runs before the acknowledgement is written.
    pub fn command(&self) -> (c: Option<&DaemonCommand>)
        ensures
            match *self {
                ServerReply::Accepted(cmd) => c == Some(&cmd),
                _ => c is None,
            },
    {
        match self {
            ServerReply::Accepted(cmd) => Some(cmd),
            _ => None,
        }
    }

    /// The text to write back, if any: `ok` for a recognised command,
    /// `unknown` for anything else that was read.
    pub fn acknowledgement(&self) -> (text: Option<&'static str>)
        ensures
            match *self {
                ServerReply::Silent => text is None,
                ServerReply::Accepted(_) => text matches Some(t) && t@ == "ok"@,
                ServerReply::Unknown => text matches Some(t) && t@ == "unknown"@,
            },
    {
        match self {
            ServerReply::Silent => None,
            ServerReply::Accepted(_) => Some("ok"),
            ServerReply::Unknown => Some("unknown"),
        }
    }
}

/// What a connection attempt to the socket path showed.
#[derive(Debug, Clone, Copy, PartialEq, Eq, Structural)]
pub enum Probe {
    /// There is no file at the socket path.
    Missing,
    /// A file is there and something accepted the connection.
    Answered,
    /// A file is there but the connection failed: the file is stale.
    Refused,
}

/// Whether an instance is running, and whether a stale socket file is to be
/// removed.
#[derive(Debug, Clone, Copy, PartialEq, Eq, Structural)]
pub struct Liveness {
    pub running: bool,
    pub remove_stale: bool,
}

/// What a starting background instance does about the socket path.
#[derive(Debug, Clone, Copy, PartialEq, Eq, Structural)]
pub enum BindPlan {
    /// Another instance answers on the socket: refuse to start.
    AlreadyRunning,
    /// The file is stale: remove it, then bind.
    ReplaceStale,
    /// Nothing is in the way: bind.
    Bind,
}

/// What came of one exchange with the background instance.
#[derive(Debug, Clone, Copy, PartialEq, Eq, Structural)]
pub enum Verdict {
    /// The instance answered `ok`.
    Accepted,
    /// The instance answered something else: it did not take the command.
    Rejected,
    /// No instance could be reached, or it did not answer in time.
    Unreachable,
}

/// What a response text means: `ok` is the only text of acceptance, and no
/// text at all means that nothing could be exchanged.
pub open spec fn verdict_of(response: Option<Seq<char>>) -> Verdict {
    match response {
        None => Verdict::Unreachable,
        Some(t) => if t == "ok"@ {
            Verdict::Accepted
        } else {
            Verdict::Rejected
        },
    }
}

/// The client side of the protocol.
#[derive(Debug, Clone, Copy)]
pub struct DaemonClient;

impl DaemonClient {
    /// Judges liveness from a probe of the socket path. A file alone proves
    /// nothing: only an accepted connection counts as a running instance,
    /// and a file that refuses connections is stale and is to be removed.
    pub fn liveness(probe: Probe) -> (l: Liveness)
        ensures
            l.running == (probe == Probe::Answered),
            l.remove_stale == (probe == Probe::Refused),
    {
        match probe {
            Probe::Missing => Liveness { running: false, remove_stale: false },
            Probe::Answered => Liveness { running: true, remove_stale: false },
            Probe::Refused => Liveness { running: false, remove_stale: true },
        }
    }

    /// Reads a response: its text, as far as it was received, and what
    /// that text means.
    pub fn read_response(received: &[u8]) -> (r: (String, Verdict))
        ensures
            r.0@ == utf8_lossy(received@),
            r.1 == verdict_of(Some(r.0@)),
    {
        let text = decode_utf8_lossy(received);
        let verdict = DaemonClient::verdict(Some(text.as_str()));
        (text, verdict)
    }

    /// Judges an exchange by the response text, `None` standing for a failed
    /// connection, write or read.
    pub fn verdict(response: Option<&str>) -> (v: Verdict)
        ensures
            v == verdict_of(
                match response {
                    Some(t) => Some(t@),
                    None => None,
                },
            ),
    {
        match response {
            None => Verdict::Unreachable,
            Some(t) => {
                if str_eq(t, "ok") {
                    Verdict::Accepted
                } else {
                    Verdict::Rejected
                }
            },
        }
    }
}

/// Decides how a starting background instance treats the socket path. A
/// file at the path is removed only if no live instance answers on it, so a
/// second instance never takes the socket of a running one.
pub fn bind_plan(probe: Probe) -> (plan: BindPlan)
    ensures
        plan == match probe {
            Probe::Missing => BindPlan::Bind,
            Probe::Answered => BindPlan::AlreadyRunning,
            Probe::Refused => BindPlan::ReplaceStale,
        },
{
    match probe {
        Probe::Missing => BindPlan::Bind,
        Probe::Answered => BindPlan::AlreadyRunning,
        Probe::Refused => BindPlan::ReplaceStale,
    }
}

/// The directory of the control socket: the runtime directory where one
/// is set, else a per-user directory under `/tmp`, with
/// `user` as the name where the user is unknown.
pub open spec fn socket_dir_of(runtime_dir: Option<Seq<char>>, user: Option<Seq<char>>) -> Seq<char> {
    match runtime_dir {
        Some(dir) => dir,
        None => "/tmp/orbit-"@ + match user {
            Some(u) => u,
            None => "user"@,
        },
    }
}

/// The directory in which the control socket lives.
pub fn socket_dir(runtime_dir: Option<&str>, user: Option<&str>) -> (dir: String)
    ensures
        dir@ == socket_dir_of(
            match runtime_dir {
                Some(d) => Some(d@),
                None => None,
            },
            match user {
                Some(u) => Some(u@),
                None => None,
            },
        ),
{
    match runtime_dir {
        Some(d) => String::from_str(d),
        None => {
            let name = match user {
                Some(u) => u,
                None => "user",
            };
            String::from_str("/tmp/orbit-").concat(name)
        },
    }
}

} // verus!
