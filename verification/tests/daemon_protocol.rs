use orbit::daemon::{
    bind_plan, serve_request, socket_dir, BindPlan, DaemonClient, DaemonCommand, Liveness, Probe,
    ServerReply, Verdict, CLIENT_TIMEOUT_SECS, REQUEST_LIMIT, RESPONSE_LIMIT, SOCKET_NAME,
};

fn position_of(cmd: &Option<DaemonCommand>) -> Option<String> {
    match cmd {
        Some(DaemonCommand::Toggle(p)) => p.clone(),
        other => panic!("no toggle: {:?}", other),
    }
}

#[test]
fn plain_commands_are_recognised() {
    assert!(matches!(DaemonCommand::from_bytes(b"show"), Some(DaemonCommand::Show)));
    assert!(matches!(DaemonCommand::from_bytes(b"hide"), Some(DaemonCommand::Hide)));
    assert!(matches!(DaemonCommand::from_bytes(b"reload-theme"), Some(DaemonCommand::ReloadTheme)));
    assert!(matches!(DaemonCommand::from_bytes(b"reload-config"), Some(DaemonCommand::ReloadConfig)));
    assert!(matches!(DaemonCommand::from_bytes(b"quit"), Some(DaemonCommand::Quit)));
    assert!(matches!(DaemonCommand::from_bytes(b"toggle"), Some(DaemonCommand::Toggle(None))));
}

#[test]
fn a_word_with_something_after_it_is_no_command() {
    for text in [
        "showcase", "showing off", "show ", "show\n", "hidea", "hide:", "quit\n", "quit now",
        "reload-themes", "reload-theme ", "reload-configs", "reload-config:x", "toggles",
        "toggle ", "togglex:y", "toggle\n", "toggle-top-left",
    ] {
        assert!(DaemonCommand::from_text(text).is_none(), "{:?}", text);
        assert!(DaemonCommand::from_bytes(text.as_bytes()).is_none(), "{:?}", text);
        let reply = serve_request(text.as_bytes());
        assert!(matches!(reply, ServerReply::Unknown), "{:?}", text);
        assert!(reply.command().is_none());
        assert_eq!(reply.acknowledgement(), Some("unknown"));
    }
}

#[test]
fn unknown_requests_are_no_command() {
    assert!(DaemonCommand::from_bytes(b"").is_none());
    assert!(DaemonCommand::from_bytes(b"bogus").is_none());
    assert!(DaemonCommand::from_bytes(b" show").is_none());
    assert!(DaemonCommand::from_bytes(b"Show").is_none());
    assert!(DaemonCommand::from_bytes(b"reload").is_none());
    assert!(DaemonCommand::from_bytes(b"reload-").is_none());
    assert!(DaemonCommand::from_text("sho").is_none());
    assert!(DaemonCommand::from_text("toggl").is_none());
    assert!(DaemonCommand::from_text(":toggle").is_none());
}

#[test]
fn toggle_carries_its_position() {
    let cmd = DaemonCommand::from_bytes(b"toggle:top-left");
    assert_eq!(position_of(&cmd), Some("top-left".to_string()));
    let cmd = DaemonCommand::from_text("toggle:bottom-right");
    assert_eq!(position_of(&cmd), Some("bottom-right".to_string()));
}

#[test]
fn toggle_position_is_the_text_after_the_colon_up_to_the_next() {
    assert_eq!(position_of(&DaemonCommand::from_text("toggle:")), None);
    assert_eq!(position_of(&DaemonCommand::from_text("toggle::center")), None);
    assert_eq!(position_of(&DaemonCommand::from_text("toggle:center:left")), Some("center".to_string()));
    assert_eq!(position_of(&DaemonCommand::from_text("toggle:center:")), Some("center".to_string()));
    assert_eq!(position_of(&DaemonCommand::from_text("toggle: ")), Some(" ".to_string()));
    assert_eq!(position_of(&DaemonCommand::from_text("toggle:\u{e9}t\u{e9}")), Some("\u{e9}t\u{e9}".to_string()));
}

#[test]
fn malformed_bytes_are_replaced_before_parsing() {
    let cmd = DaemonCommand::from_bytes(b"toggle:\xff");
    assert_eq!(position_of(&cmd), Some("\u{fffd}".to_string()));
    assert!(DaemonCommand::from_bytes(b"show\xff\xfe").is_none());
    assert!(DaemonCommand::from_bytes(b"\xffshow").is_none());
    assert!(DaemonCommand::from_bytes(b"toggle\xff").is_none());
}

#[test]
fn commands_are_written_as_their_request_text() {
    assert_eq!(DaemonCommand::Show.to_string(), "show");
    assert_eq!(DaemonCommand::Hide.to_string(), "hide");
    assert_eq!(DaemonCommand::ReloadTheme.to_string(), "reload-theme");
    assert_eq!(DaemonCommand::ReloadConfig.to_string(), "reload-config");
    assert_eq!(DaemonCommand::Quit.to_string(), "quit");
    assert_eq!(DaemonCommand::Toggle(None).to_string(), "toggle");
    assert_eq!(DaemonCommand::Toggle(Some("top-left".to_string())).to_string(), "toggle:top-left");
}

#[test]
fn written_commands_read_back() {
    let all = vec![
        DaemonCommand::Show,
        DaemonCommand::Hide,
        DaemonCommand::ReloadTheme,
        DaemonCommand::ReloadConfig,
        DaemonCommand::Quit,
        DaemonCommand::Toggle(None),
        DaemonCommand::Toggle(Some("center-right".to_string())),
    ];
    for cmd in all {
        let text = cmd.to_string();
        assert!(text.len() <= REQUEST_LIMIT);
        let back = DaemonCommand::from_bytes(text.as_bytes()).expect("reads back");
        assert_eq!(back.to_string(), text);
    }
}

#[test]
fn server_acknowledges_a_toggle_with_position() {
    let reply = serve_request(b"toggle:top-left");
    match reply.command() {
        Some(DaemonCommand::Toggle(Some(p))) => assert_eq!(p, "top-left"),
        other => panic!("unexpected command {:?}", other),
    }
    assert_eq!(reply.acknowledgement(), Some("ok"));
}

#[test]
fn server_rejects_what_is_no_command() {
    let reply = serve_request(b"frobnicate");
    assert!(matches!(reply, ServerReply::Unknown));
    assert!(reply.command().is_none());
    assert_eq!(reply.acknowledgement(), Some("unknown"));
}

#[test]
fn server_stays_silent_when_nothing_was_read() {
    let reply = serve_request(b"");
    assert!(matches!(reply, ServerReply::Silent));
    assert!(reply.command().is_none());
    assert_eq!(reply.acknowledgement(), None);
}

#[test]
fn acknowledgements_fit_the_response_limit() {
    assert!("ok".len() <= RESPONSE_LIMIT);
    assert!("unknown".len() <= RESPONSE_LIMIT);
    assert_eq!(REQUEST_LIMIT, 64);
    assert_eq!(RESPONSE_LIMIT, 32);
    assert_eq!(CLIENT_TIMEOUT_SECS, 2);
}

#[test]
fn a_refused_connection_means_not_running_and_a_stale_file() {
    assert_eq!(DaemonClient::liveness(Probe::Refused), Liveness { running: false, remove_stale: true });
}

#[test]
fn a_missing_socket_means_not_running() {
    assert_eq!(DaemonClient::liveness(Probe::Missing), Liveness { running: false, remove_stale: false });
}

#[test]
fn an_answering_socket_means_running() {
    assert_eq!(DaemonClient::liveness(Probe::Answered), Liveness { running: true, remove_stale: false });
}

#[test]
fn a_starting_instance_spares_a_live_socket() {
    assert_eq!(bind_plan(Probe::Answered), BindPlan::AlreadyRunning);
    assert_eq!(bind_plan(Probe::Refused), BindPlan::ReplaceStale);
    assert_eq!(bind_plan(Probe::Missing), BindPlan::Bind);
}

#[test]
fn the_verdict_tells_rejection_from_absence() {
    assert_eq!(DaemonClient::verdict(Some("ok")), Verdict::Accepted);
    assert_eq!(DaemonClient::verdict(Some("unknown")), Verdict::Rejected);
    assert_eq!(DaemonClient::verdict(Some("")), Verdict::Rejected);
    assert_eq!(DaemonClient::verdict(None), Verdict::Unreachable);
}

#[test]
fn response_text_is_decoded_leniently() {
    assert_eq!(DaemonClient::read_response(b"ok"), ("ok".to_string(), Verdict::Accepted));
    assert_eq!(DaemonClient::read_response(b"unknown"), ("unknown".to_string(), Verdict::Rejected));
    assert_eq!(DaemonClient::read_response(b"o\xffk"), ("o\u{fffd}k".to_string(), Verdict::Rejected));
    assert_eq!(DaemonClient::read_response(b""), (String::new(), Verdict::Rejected));
}

#[test]
fn socket_lives_in_the_runtime_directory() {
    assert_eq!(socket_dir(Some("/run/user/1000"), Some("ann")), "/run/user/1000");
    assert_eq!(socket_dir(Some("/run/user/1000"), None), "/run/user/1000");
    assert_eq!(SOCKET_NAME, "orbit.sock");
}

#[test]
fn socket_falls_back_to_a_per_user_directory() {
    assert_eq!(socket_dir(None, Some("ann")), "/tmp/orbit-ann");
    assert_eq!(socket_dir(None, None), "/tmp/orbit-user");
}
