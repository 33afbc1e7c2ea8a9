use phodex_bridge::bridge::account::{
    account_read_params, auth_status_params, finish_request, handle_account_request,
    handle_thread_context_request, opened_login, read_sanitized_auth_status, spawn_bridge_request,
    AccountStep, CodexReply,
};
use phodex_bridge::bridge::messages::{
    task_for_method, ApplicationRoute, BridgeCore, BridgeTask, CodexRoute, CONTEXT_WATCH_MS,
};
use phodex_bridge::bridge::relay::{
    connect_relay, log_runtime_context, short_public_key_fingerprint, BridgeRuntime, RelayEvent,
    RelayStep, RunEvent, RunNext,
};
use phodex_bridge::bridge::thread_runtime::FORWARDED_REQUEST_METHOD_TTL_MS;
use phodex_bridge::bridge::{
    start_bridge, RelayLivenessState, RelayWatchdogAction, StartBridgeOptions,
    RELAY_WATCHDOG_STALE_AFTER_MS,
};
use phodex_bridge::codex_transport::CodexEvent;
use phodex_bridge::config::{read_bridge_config, BridgeConfig, ConfigEnv};
use phodex_bridge::daemon_state::current_bridge_runtime_metadata;
use phodex_bridge::json::{parse_json, print_json, Json};
use phodex_bridge::package_version_status::version_info;
use phodex_bridge::rollout_live_mirror::controller::RolloutLook;
use phodex_bridge::secure_device_state::BridgeDeviceState;
use phodex_bridge::secure_transport::BridgeSecureTransport;
use phodex_bridge::text_map::TextMap;
use sha2::{Digest, Sha256};

fn seconds(n: u64) -> u64 {
    n * 1_000
}

#[test]
fn watchdog_waits_for_the_probe_deadline_before_reconnecting() {
    let start = 1_000_000;
    let mut liveness = RelayLivenessState::default();
    liveness.mark_activity_at(start);

    assert_eq!(
        liveness.next_watchdog_action_at(start + seconds(10), seconds(25)),
        RelayWatchdogAction::SendPing
    );
    assert_eq!(
        liveness.next_watchdog_action_at(start + seconds(20), seconds(25)),
        RelayWatchdogAction::Wait
    );
}

#[test]
fn watchdog_reconnects_after_a_missed_probe_deadline() {
    let start = 1_000_000;
    let mut liveness = RelayLivenessState::default();
    liveness.mark_activity_at(start);
    assert_eq!(
        liveness.next_watchdog_action_at(start + seconds(10), seconds(25)),
        RelayWatchdogAction::SendPing
    );

    assert_eq!(
        liveness.next_watchdog_action_at(start + seconds(36), seconds(25)),
        RelayWatchdogAction::Reconnect
    );
    assert!(liveness.is_stale_at(start + seconds(36), seconds(25)));
}

#[test]
fn inbound_activity_clears_a_pending_probe() {
    let start = 1_000_000;
    let mut liveness = RelayLivenessState::default();
    liveness.mark_activity_at(start);
    assert_eq!(
        liveness.next_watchdog_action_at(start + seconds(10), seconds(25)),
        RelayWatchdogAction::SendPing
    );

    liveness.mark_activity_at(start + seconds(18));

    assert_eq!(
        liveness.next_watchdog_action_at(start + seconds(28), seconds(25)),
        RelayWatchdogAction::SendPing
    );
}

// Starting.

fn config(relay: &str, endpoint: &str) -> BridgeConfig {
    read_bridge_config(
        &ConfigEnv {
            relay: Some(relay.to_owned()),
            push_service_url: None,
            push_preview_max_chars: None,
            refresh_enabled: None,
            refresh_debounce_ms: None,
            codex_endpoint: Some(endpoint.to_owned()),
            refresh_command: None,
            codex_bundle_id: None,
        },
        None,
    )
}

#[test]
fn a_bridge_needs_a_relay() {
    assert_eq!(
        start_bridge(StartBridgeOptions::default(), config(" // ", "")).unwrap_err(),
        "[remodex] No relay URL configured. Run ./run-local-remodex.sh or set REMODEX_RELAY."
    );
    let plan = start_bridge(StartBridgeOptions::default(), config("wss://relay//", "")).unwrap();
    assert_eq!(plan.relay_url, "wss://relay");
    assert!(plan.print_pairing_qr);
    assert!(!plan.codex_handshake_warm);
    assert!(plan.mirror_rollouts);
    let options = StartBridgeOptions {
        config: Some(config("wss://mine", "ws://codex")),
        print_pairing_qr: false,
    };
    let plan = start_bridge(options, config("wss://relay", "")).unwrap();
    assert_eq!(plan.relay_url, "wss://mine");
    assert!(!plan.print_pairing_qr);
    assert!(plan.codex_handshake_warm);
    assert!(!plan.mirror_rollouts);
}

// Messages.

fn pass(core: &mut BridgeCore, raw: &str, now_ms: u64) -> (String, Option<String>) {
    match core.handle_codex_message(raw.to_owned(), now_ms) {
        CodexRoute::Pass(passed) => (passed.text, passed.active_thread),
        CodexRoute::Answer { .. } => panic!("no request of the bridge itself is open"),
    }
}

#[test]
fn requests_go_to_the_part_that_answers_them() {
    assert_eq!(task_for_method("getAuthStatus"), Some(BridgeTask::Account));
    assert_eq!(task_for_method("voice/transcribe"), Some(BridgeTask::Voice));
    assert_eq!(
        task_for_method("thread/contextWindow/read"),
        Some(BridgeTask::ThreadContext)
    );
    assert_eq!(
        task_for_method("desktop/continueOnMac"),
        Some(BridgeTask::Desktop)
    );
    assert_eq!(
        task_for_method("notifications/push/register"),
        Some(BridgeTask::Notifications)
    );
    assert_eq!(
        task_for_method("workspace/anything"),
        Some(BridgeTask::Workspace)
    );
    assert_eq!(task_for_method("git/anything"), Some(BridgeTask::Git));
    assert_eq!(task_for_method("turn/start"), None);
}

#[test]
fn the_handshake_goes_to_codex_once() {
    let mut core = BridgeCore::new(false);
    let hello = r#"{"id":"init-1","method":"initialize","params":{}}"#;
    assert!(matches!(
        core.handle_application_message(hello),
        ApplicationRoute::Forward { thread_id: None }
    ));
    assert!(matches!(
        core.handle_application_message(r#"{"method":"initialized"}"#),
        ApplicationRoute::Forward { .. }
    ));
    pass(&mut core, r#"{"id":"init-1","result":{}}"#, 0);
    match core.handle_application_message(hello) {
        ApplicationRoute::Answer(text) => {
            assert_eq!(text, r#"{"id":"init-1","result":{"bridgeManaged":true}}"#)
        }
        other => panic!("unexpected route {other:?}"),
    }
    assert!(matches!(
        core.handle_application_message(r#"{"method":"initialized"}"#),
        ApplicationRoute::Ignore
    ));
    assert!(matches!(
        core.handle_application_message("{not-json"),
        ApplicationRoute::Ignore
    ));
    assert!(matches!(
        core.handle_application_message("{}"),
        ApplicationRoute::Ignore
    ));
}

#[test]
fn codex_that_had_its_handshake_already_is_warm() {
    let mut core = BridgeCore::new(false);
    core.handle_application_message(r#"{"id":7,"method":"initialize"}"#);
    pass(&mut core, r#"{"id":7,"error":{"message":"Already Initialized"}}"#, 0);
    assert!(matches!(
        core.handle_application_message(r#"{"id":8,"method":"initialize"}"#),
        ApplicationRoute::Answer(_)
    ));
    let mut cold = BridgeCore::new(false);
    cold.handle_application_message(r#"{"id":7,"method":"initialize"}"#);
    pass(&mut cold, r#"{"id":7,"error":{"message":"no"}}"#, 0);
    assert!(matches!(
        cold.handle_application_message(r#"{"id":8,"method":"initialize"}"#),
        ApplicationRoute::Forward { .. }
    ));
}

const IMAGE_ANSWER: &str = r#"{"id":"r-1","result":{"thread":{"turns":[{"items":[{"content":[{"type":"image","url":"data:image/png;base64,AA"}]}]}]}}}"#;

#[test]
fn images_are_taken_out_of_histories_that_were_asked_for() {
    let request = r#"{"id":"r-1","method":"thread/read","params":{"threadId":"thread-1"}}"#;
    let mut core = BridgeCore::new(true);
    let sent = core
        .forward_application_message(request.to_owned(), None, 0)
        .unwrap();
    assert_eq!(sent.text, request);
    assert_eq!(sent.active_thread, None);
    let (text, _) = pass(&mut core, IMAGE_ANSWER, 1);
    assert!(text.contains("remodex://history-image-elided"));
    // The answer was waited for once.
    let (text, _) = pass(&mut core, IMAGE_ANSWER, 2);
    assert_eq!(text, IMAGE_ANSWER);

    core.forward_application_message(request.to_owned(), None, 0);
    let (text, _) = pass(&mut core, IMAGE_ANSWER, FORWARDED_REQUEST_METHOD_TTL_MS);
    assert_eq!(text, IMAGE_ANSWER);
    assert!(core
        .forward_application_message("{not-json".to_owned(), None, 0)
        .is_none());
}

#[test]
fn the_thread_of_a_turn_is_the_active_one() {
    let mut core = BridgeCore::new(true);
    let start = r#"{"id":"r-2","method":"turn/start","params":{"threadId":"thread-1"}}"#;
    let sent = core
        .forward_application_message(start.to_owned(), None, 0)
        .unwrap();
    assert_eq!(sent.active_thread, Some("thread-1".to_owned()));
    assert_eq!(
        core.context_to_read(0),
        Some(("thread-1".to_owned(), None))
    );
    core.stop_watching();
    assert_eq!(core.context_to_read(0), None);
}

#[test]
fn signing_in_is_followed() {
    let mut core = BridgeCore::new(true);
    let start = r#"{"id":1,"method":"account/login/start"}"#;
    core.forward_application_message(start.to_owned(), None, 0);
    assert!(!core.login_in_flight());
    pass(
        &mut core,
        r#"{"id":1,"result":{"loginId":"l-1","authUrl":"https://auth"}}"#,
        1,
    );
    assert!(core.login_in_flight());
    assert_eq!(core.pending_auth_url(), Some("https://auth".to_owned()));
    pass(&mut core, r#"{"method":"account/login/completed"}"#, 2);
    assert!(!core.login_in_flight());

    core.forward_application_message(start.to_owned(), None, 0);
    pass(&mut core, r#"{"id":1,"result":{"loginId":"l-1"}}"#, 1);
    assert!(!core.login_in_flight());

    core.forward_application_message(start.to_owned(), None, 0);
    pass(
        &mut core,
        r#"{"id":1,"result":{"loginId":"l-1","authUrl":"https://auth"}}"#,
        1,
    );
    core.forward_application_message(r#"{"id":2,"method":"account/logout"}"#.to_owned(), None, 2);
    pass(&mut core, r#"{"id":2,"result":{}}"#, 3);
    assert_eq!(core.pending_auth_url(), None);
}

#[test]
fn requests_of_the_bridge_itself_are_answered_to_it() {
    let mut core = BridgeCore::new(true);
    let (id, text) = core.send_request("account/read", account_read_params());
    assert!(id.starts_with("bridge-managed-"));
    assert_eq!(id.len(), "bridge-managed-".len() + 36);
    assert_eq!(
        text,
        format!(r#"{{"id":"{id}","method":"account/read","params":{{"refreshToken":false}}}}"#)
    );
    let answer = format!(r#"{{"id":"{id}","result":{{"ok":true}}}}"#);
    match core.handle_codex_message(answer.clone(), 0) {
        CodexRoute::Answer { request_id, result } => {
            assert_eq!(request_id, id);
            assert_eq!(print_json(&result.unwrap()), r#"{"ok":true}"#);
        }
        CodexRoute::Pass(_) => panic!("the answer is for the bridge"),
    }
    assert_eq!(pass(&mut core, &answer, 1).0, answer);

    let (id, _) = core.send_request_as("token", "getAuthStatus", auth_status_params());
    assert_eq!(id, "bridge-managed-token");
    match core.handle_codex_message(format!(r#"{{"id":"{id}","error":{{}}}}"#), 0) {
        CodexRoute::Answer { result, .. } => {
            assert_eq!(result.unwrap_err(), "Codex request failed")
        }
        CodexRoute::Pass(_) => panic!("the answer is for the bridge"),
    }
}

#[test]
fn the_context_of_a_turn_is_watched_for_a_while() {
    let mut core = BridgeCore::new(true);
    assert_eq!(core.context_to_read(0), None);
    pass(
        &mut core,
        r#"{"method":"turn/started","params":{"threadId":"thread-1","turn":{"id":"turn-1"}}}"#,
        10,
    );
    assert_eq!(
        core.context_to_read(10 + CONTEXT_WATCH_MS),
        Some(("thread-1".to_owned(), Some("turn-1".to_owned())))
    );
    let read = parse_json(r#"{"usage":{"tokensUsed":1}}"#).unwrap();
    assert_eq!(
        core.poll_context_usage(&read),
        Some(r#"{"method":"thread/tokenUsage/updated","params":{"threadId":"thread-1","usage":{"tokensUsed":1}}}"#.to_owned())
    );
    assert_eq!(core.poll_context_usage(&read), None);
    let more = parse_json(r#"{"usage":{"tokensUsed":2}}"#).unwrap();
    assert!(core.poll_context_usage(&more).is_some());
    assert_eq!(core.context_to_read(11 + CONTEXT_WATCH_MS), None);
    assert_eq!(core.poll_context_usage(&read), None);
}

// The bridge while it runs.

fn device() -> BridgeDeviceState {
    BridgeDeviceState {
        version: 1,
        mac_device_id: "mac-1".to_owned(),
        mac_identity_public_key: "AQID".to_owned(),
        mac_identity_private_key: "secret".to_owned(),
        trusted_phones: TextMap::new(),
    }
}

fn runtime() -> BridgeRuntime {
    BridgeRuntime::new(
        BridgeSecureTransport::new_at("s-1".to_owned(), "wss://relay".to_owned(), device(), 0),
        false,
        true,
    )
}

#[test]
fn the_bridge_connects_waits_and_stops() {
    let mut bridge = runtime();
    let step = bridge.run(RunEvent::Start);
    assert_eq!(step.status.unwrap().state, "starting");
    assert_eq!(step.news.line, Some("[remodex] connecting".to_owned()));
    assert!(matches!(step.next, RunNext::Connect));
    for expected in [1_000, 2_000, 3_000, 4_000, 5_000, 5_000] {
        let step = bridge.run(RunEvent::ConnectFailed("refused".to_owned()));
        let status = step.status.unwrap();
        assert_eq!(status.state, "error");
        assert_eq!(status.last_error, "refused");
        assert!(matches!(step.next, RunNext::Sleep(ms) if ms == expected));
        let step = bridge.run(RunEvent::Slept);
        assert!(step.news.line.is_none());
        assert!(matches!(step.next, RunNext::Connect));
    }
    assert!(matches!(bridge.run(RunEvent::Connected).next, RunNext::Run));
    assert!(matches!(
        bridge.run(RunEvent::Ended(true)).next,
        RunNext::Sleep(1_000)
    ));
    assert!(matches!(
        bridge.run(RunEvent::Failed("x".to_owned())).next,
        RunNext::Fail(_)
    ));
    let step = bridge.run(RunEvent::Shutdown);
    let status = step.status.unwrap();
    assert_eq!(status.state, "stopped");
    assert_eq!(status.connection_status, "disconnected");
    assert!(matches!(step.next, RunNext::Stop));
}

#[test]
fn a_silent_relay_is_left() {
    let mut bridge = runtime();
    let metadata = current_bridge_runtime_metadata("/src", None);
    let start = bridge.start_connected("Studio", &metadata);
    assert!(start.registration.contains("relayMacRegistration"));
    assert_eq!(start.news.line, Some("[remodex] connected".to_owned()));
    assert!(matches!(
        bridge.run_connected(RelayEvent::PingTick, 0),
        RelayStep::SendPing
    ));
    assert!(matches!(
        bridge.run_connected(RelayEvent::PingTick, RELAY_WATCHDOG_STALE_AFTER_MS - 1),
        RelayStep::Continue
    ));
    match bridge.run_connected(RelayEvent::HeartbeatTick, RELAY_WATCHDOG_STALE_AFTER_MS) {
        RelayStep::WriteStatus(Some(status)) => {
            assert_eq!(status.connection_status, "disconnected");
            assert_eq!(
                status.last_error,
                "Relay heartbeat stalled; reconnect pending."
            );
        }
        other => panic!("unexpected step {other:?}"),
    }
    match bridge.run_connected(RelayEvent::PingTick, RELAY_WATCHDOG_STALE_AFTER_MS) {
        RelayStep::Reconnect(news) => {
            assert_eq!(news.status.unwrap().connection_status, "disconnected")
        }
        other => panic!("unexpected step {other:?}"),
    }
}

#[test]
fn events_on_a_connection_are_taken_up() {
    let mut bridge = runtime();
    assert!(matches!(
        bridge.run_connected(RelayEvent::Shutdown, 0),
        RelayStep::Close
    ));
    assert!(matches!(
        bridge.run_connected(RelayEvent::Text("x".to_owned()), 0),
        RelayStep::HandleText(text) if text == "x"
    ));
    assert!(matches!(
        bridge.run_connected(RelayEvent::Binary(b"x".to_vec()), 0),
        RelayStep::HandleText(text) if text == "x"
    ));
    assert!(matches!(
        bridge.run_connected(RelayEvent::Binary(vec![0xff]), 0),
        RelayStep::Continue
    ));
    bridge.run_connected(RelayEvent::PingTick, 0);
    bridge.run_connected(RelayEvent::Alive, 1);
    assert!(matches!(
        bridge.run_connected(RelayEvent::PingTick, 1_000_000),
        RelayStep::SendPing
    ));
    assert!(matches!(
        bridge.run_connected(RelayEvent::Codex(None), 0),
        RelayStep::Fail(error) if error == "Codex transport closed"
    ));
    assert!(matches!(
        bridge.run_connected(RelayEvent::Codex(Some(CodexEvent::Error("boom".to_owned()))), 0),
        RelayStep::Fail(error) if error == "boom"
    ));
    match bridge.run_connected(
        RelayEvent::Application(r#"{"id":1,"method":"git/status","params":{"cwd":"/r"}}"#.to_owned()),
        0,
    ) {
        RelayStep::Spawn {
            request_id,
            method,
            params,
            task,
        } => {
            assert_eq!(print_json(&request_id.unwrap()), "1");
            assert_eq!(method, "git/status");
            assert_eq!(params.get_str("cwd"), Some("/r"));
            assert_eq!(task, BridgeTask::Git);
        }
        other => panic!("unexpected step {other:?}"),
    }
    let resume = r#"{"id":2,"method":"thread/resume","params":{"threadId":"thread-1"}}"#;
    match bridge.run_connected(RelayEvent::Application(resume.to_owned()), 0) {
        RelayStep::Forward {
            raw_message,
            thread_id,
        } => {
            assert_eq!(raw_message, resume);
            assert_eq!(thread_id, Some("thread-1".to_owned()));
        }
        other => panic!("unexpected step {other:?}"),
    }
    bridge
        .forward_application_message(resume.to_owned(), None, 0)
        .unwrap();
    assert_eq!(bridge.rollout_live_mirror.as_ref().unwrap().len(), 1);
    assert!(bridge.poll_rollouts(vec![RolloutLook::NoPath], 0).is_empty());
    match bridge.run_connected(RelayEvent::Gone, 0) {
        RelayStep::Reconnect(news) => {
            assert_eq!(news.line, Some("[remodex] disconnected".to_owned()))
        }
        other => panic!("unexpected step {other:?}"),
    }
    assert_eq!(bridge.rollout_live_mirror.as_ref().unwrap().len(), 0);
}

#[test]
fn a_text_that_is_none_of_the_channel_is_answered_by_nothing() {
    let mut bridge = runtime();
    let metadata = current_bridge_runtime_metadata("/src", None);
    let result = bridge.handle_relay_text("{not-json", true);
    let step = bridge.after_relay_text(result, "Studio", &metadata);
    assert_eq!(step.application_message, None);
    assert!(step.introduction.is_none());
}

#[test]
fn keys_are_named_by_their_digest() {
    assert_eq!(short_public_key_fingerprint(" "), "none");
    let hex = |bytes: &[u8]| {
        Sha256::digest(bytes)[..6]
            .iter()
            .map(|byte| format!("{byte:02x}"))
            .collect::<String>()
    };
    assert_eq!(short_public_key_fingerprint(" AQID "), hex(&[1, 2, 3]));
    assert_eq!(short_public_key_fingerprint("not base64!"), hex(b"not base64!"));
    let metadata = current_bridge_runtime_metadata("/src", Some("/bin/remodex".to_owned()));
    assert_eq!(
        log_runtime_context(&metadata, &device()),
        format!(
            "[remodex] runtime=rust source=/src executable=/bin/remodex macKey={} trustedPhoneKey=none",
            hex(&[1, 2, 3])
        )
    );
}

#[test]
fn the_relay_learns_who_comes() {
    let headers = connect_relay("secret-1", &device(), "Studio");
    assert_eq!(headers[0], ("x-role".to_owned(), "mac".to_owned()));
    assert_eq!(
        headers[1],
        ("x-notification-secret".to_owned(), "secret-1".to_owned())
    );
    assert_eq!(
        headers[2],
        ("x-mac-device-id".to_owned(), "mac-1".to_owned())
    );
}

// What the bridge answers itself.

fn empty() -> Json {
    parse_json("{}").unwrap()
}

#[test]
fn the_account_is_asked_for_or_opened() {
    assert!(matches!(
        handle_account_request("getAuthStatus", &empty(), None),
        AccountStep::ReadStatus
    ));
    assert!(matches!(
        handle_account_request("account/login/openOnMac", &empty(), None),
        AccountStep::Fail(error)
            if error == "No pending ChatGPT sign-in URL is available on this bridge."
    ));
    assert!(matches!(
        handle_account_request("account/login/openOnMac", &empty(), Some("https://a".to_owned())),
        AccountStep::Open(url) if url == "https://a"
    ));
    assert!(matches!(
        handle_account_request(
            "account/login/openOnMac",
            &parse_json(r#"{"authUrl":"https://b"}"#).unwrap(),
            Some("https://a".to_owned())
        ),
        AccountStep::Open(url) if url == "https://b"
    ));
    assert!(matches!(
        handle_account_request("account/other", &empty(), None),
        AccountStep::Fail(error)
            if error == "Unsupported bridge-managed account method: account/other"
    ));
    assert_eq!(
        print_json(&opened_login(Ok(true)).unwrap()),
        r#"{"openedOnMac":true,"success":true}"#
    );
    assert_eq!(
        opened_login(Ok(false)).unwrap_err(),
        "Could not open the ChatGPT sign-in URL on this Mac."
    );
}

#[test]
fn requests_to_codex_end_in_one_of_four_ways() {
    assert!(finish_request("m", CodexReply::Answered(Ok(Json::Null))).is_ok());
    assert_eq!(
        finish_request("m", CodexReply::Answered(Err("e".to_owned()))).unwrap_err(),
        "e"
    );
    assert_eq!(
        finish_request("m", CodexReply::Dropped).unwrap_err(),
        "Codex response waiter dropped"
    );
    assert_eq!(
        finish_request("m", CodexReply::TimedOut).unwrap_err(),
        "Codex request timed out: m"
    );
    let told = read_sanitized_auth_status(
        Err("e".to_owned()),
        Ok(parse_json(r#"{"authToken":"t"}"#).unwrap()),
        false,
        version_info("0.1.0", None),
        "0.1.0",
    )
    .unwrap();
    assert_eq!(told.get_str("status"), Some("authenticated"));
    assert!(read_sanitized_auth_status(
        Err("e".to_owned()),
        Err("e".to_owned()),
        false,
        version_info("0.1.0", None),
        "0.1.0"
    )
    .is_err());
}

#[test]
fn the_context_of_a_thread_is_asked_for_by_its_name() {
    let params = parse_json(r#"{"thread_id":"t","turnId":"u"}"#).unwrap();
    assert_eq!(
        handle_thread_context_request(&params).unwrap(),
        ("t".to_owned(), Some("u".to_owned()))
    );
    assert_eq!(
        handle_thread_context_request(&empty()).unwrap_err(),
        "thread/contextWindow/read requires a threadId."
    );
}

#[test]
fn answers_carry_the_identifier_of_the_request() {
    let id = || Some(Json::text("r-1"));
    assert_eq!(
        spawn_bridge_request(id(), "git/status", BridgeTask::Git, Some(Ok(Json::Bool(true)))),
        Some(r#"{"id":"r-1","result":true}"#.to_owned())
    );
    let failed = spawn_bridge_request(
        id(),
        "voice/transcribe",
        BridgeTask::Voice,
        Some(Err("no".to_owned())),
    )
    .unwrap();
    assert!(failed.contains("voice_error") && failed.contains("\"message\":\"no\""));
    let unknown = spawn_bridge_request(id(), "git/x", BridgeTask::Git, None).unwrap();
    assert!(unknown.contains("Unsupported git method"));
    assert_eq!(
        spawn_bridge_request(None, "git/status", BridgeTask::Git, Some(Ok(Json::Null))),
        None
    );
}
