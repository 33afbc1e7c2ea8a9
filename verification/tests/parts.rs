use std::path::Path;

use base64::Engine;
use phodex_bridge::account_status::compose_sanitized_auth_status;
use phodex_bridge::codex_transport::{
    connect, connect_websocket, push_stderr, CodexEndpoint, CodexEvent, Frame, SocketEvent,
    SocketSend, SpawnEvent, SpawnState,
};
use phodex_bridge::config::{defaults_from, parse_boolean_env, read_bridge_config, ConfigEnv};
use phodex_bridge::crypto::{current_time_ms, fresh_token, random_hex};
use phodex_bridge::daemon_state::{
    clear_bridge_status, clear_pairing_session, resolve_bridge_status_path,
    resolve_bridge_stderr_log_path, resolve_daemon_config_path, resolve_pairing_session_path,
    resolve_remodex_state_dir, resolve_store_file,
};
use phodex_bridge::json::{parse_json, parse_json_bytes, print_json, Json};
use phodex_bridge::json_rpc::{error_response, success_response};
use phodex_bridge::package_version_status::{
    version_info, BridgeVersionInfo, PackageVersionCache, FRESH_MS, RETRY_MS,
};
use phodex_bridge::path::{
    file_name_of, join_path, lies_below, parent_of, relative_path, same_path,
};
use phodex_bridge::push::handle_notifications_request;
use phodex_bridge::qr::{compose_qr_page, print_qr};
use phodex_bridge::script::Action;
use phodex_bridge::session_state::{
    open_last_active_thread, opened_last_active_thread, remember_active_thread, state_file,
};
use phodex_bridge::text::{
    after_last, blank, contains_text, ends_with, lines_of, parse_bounded, sort_texts, split_text,
    starts_with, strip_prefix, text_eq, text_less, to_ascii_lower, trim, trim_end_char,
    trim_end_matches, trim_start_char, trim_start_matches, words_of,
};
use phodex_bridge::voice::{
    choose_voice_target, handle_voice_request, read_recording, VoiceReply, VoiceStep,
};

fn json(text: &str) -> Json {
    parse_json(text).unwrap()
}

// JSON.

#[test]
fn json_is_parsed_and_printed_with_sorted_keys() {
    let value = json(" {\"b\": [1, -2, 1.5, true, null], \"a\": \"x\\ny\"} ");
    assert_eq!(print_json(&value), r#"{"a":"x\ny","b":[1,-2,1.5,true,null]}"#);
    assert!(parse_json("{not-json").is_none());
    assert!(parse_json_bytes(b"{\"a\":1}").is_some());
    assert!(parse_json_bytes(&[0xff]).is_none());
    assert_eq!(print_json(&value.clone()), print_json(&value));
}

#[test]
fn numbers_keep_their_kind() {
    assert_eq!(json("18446744073709551615").as_u64(), Some(u64::MAX));
    assert_eq!(json("18446744073709551615").as_i64(), None);
    assert_eq!(json("-5").as_i64(), Some(-5));
    assert_eq!(json("-5").as_u64(), None);
    assert_eq!(json("1.0").as_u64(), None);
    assert_eq!(json("7").as_i64(), Some(7));
}

#[test]
fn responses_carry_the_identifier() {
    assert_eq!(
        success_response(Json::text("a"), Json::Bool(true)),
        r#"{"id":"a","result":true}"#
    );
    assert_eq!(
        error_response(Json::unsigned(7), "some_code", "Some text."),
        r#"{"error":{"code":-32000,"data":{"errorCode":"some_code"},"message":"Some text."},"id":7}"#
    );
}

// Texts and paths.

#[test]
fn texts_are_cut_as_the_standard_library_cuts_them() {
    for s in ["", " ", " a b ", "\u{2003}x\u{85}", "a\r\nb\n\nc", "\n", "a\n"] {
        assert_eq!(trim(s), s.trim());
        assert_eq!(blank(s), s.trim().is_empty());
        assert_eq!(lines_of(s), s.lines().collect::<Vec<_>>());
        assert_eq!(words_of(s), s.split_whitespace().collect::<Vec<_>>());
        assert_eq!(split_text(s, "\n"), s.split('\n').collect::<Vec<_>>());
        assert_eq!(to_ascii_lower(s), s.to_ascii_lowercase());
    }
    for s in ["0", "00", "+5", "-5", "", "18446744073709551615", "18446744073709551616", "x"] {
        assert_eq!(parse_bounded(s, u64::MAX), s.parse::<u64>().ok());
    }
    assert_eq!(
        sort_texts(vec!["b".to_owned(), "a".to_owned(), "ab".to_owned()]),
        vec!["a", "ab", "b"]
    );
}

#[test]
fn texts_are_searched_as_the_standard_library_searches_them() {
    let texts = ["", "a", "aa", "aaa", "ab", "aba", "abab", "b/a/b", "...a..b...", "a:b:c", "\u{e9}a"];
    let parts = ["a", "aa", "ab", "/", "...", ":", "\u{e9}"];
    for s in texts {
        for p in parts {
            assert_eq!(contains_text(s, p), s.contains(p));
            assert_eq!(starts_with(s, p), s.starts_with(p));
            assert_eq!(ends_with(s, p), s.ends_with(p));
            assert_eq!(strip_prefix(s, p), s.strip_prefix(p).map(|rest| rest.to_owned()));
            assert_eq!(trim_start_matches(s, p), s.trim_start_matches(p));
            assert_eq!(trim_end_matches(s, p), s.trim_end_matches(p));
            assert_eq!(split_text(s, p), s.split(p).collect::<Vec<_>>());
            assert_eq!(text_eq(s, p), s == p);
            assert_eq!(text_less(s, p), s < p);
        }
        for x in ['a', '/', ':'] {
            assert_eq!(trim_end_char(s, x), s.trim_end_matches(x));
            assert_eq!(trim_start_char(s, x), s.trim_start_matches(x));
            assert_eq!(
                after_last(s, x),
                s.rsplit_once(x).map(|(_, rest)| rest.to_owned())
            );
        }
    }
}

#[test]
fn paths_are_joined_and_taken_apart_as_the_standard_library_does_it() {
    let paths = [
        "", "/", ".", "..", "./", "./a", "a", "a/", "a//b", "a/./b/", "/a", "//a", "/a/", "/a/b",
        "/a//b/./c", "/a/b/..", "./a/b", "/ab", ".a", "a/.", "./.", "/.", "/./a", "a/../b",
    ];
    for path in paths {
        let std_path = Path::new(path);
        assert_eq!(
            parent_of(path),
            std_path.parent().map(|parent| parent.display().to_string()),
            "parent of {path}"
        );
        assert_eq!(
            file_name_of(path),
            std_path.file_name().map(|name| name.to_str().unwrap().to_owned()),
            "name of {path}"
        );
        for root in paths {
            let std_root = Path::new(root);
            assert_eq!(
                relative_path(path, root),
                std_path
                    .strip_prefix(std_root)
                    .ok()
                    .map(|rest| rest.display().to_string()),
                "{path} below {root}"
            );
            assert_eq!(same_path(path, root), std_path == std_root);
            assert_eq!(
                lies_below(path, root),
                std_path.starts_with(std_root) && std_path != std_root
            );
            assert_eq!(join_path(path, root), std_path.join(std_root).display().to_string());
        }
    }
}

// Chance and time.

#[test]
fn random_texts_are_hexadecimal_and_differ() {
    let one = random_hex(24);
    let two = random_hex(24);
    assert_eq!(one.len(), 48);
    assert!(one.chars().all(|c| c.is_ascii_hexdigit() && !c.is_ascii_uppercase()));
    assert_ne!(one, two);
}

#[test]
fn the_clock_counts_milliseconds() {
    let now = std::time::SystemTime::now()
        .duration_since(std::time::UNIX_EPOCH)
        .unwrap()
        .as_millis();
    let told = current_time_ms();
    assert!(told >= now && told < now + 60_000);
}

// Configuration.

#[test]
fn defaults_are_read_from_a_value() {
    let defaults = defaults_from(&json(r#"{"relayUrl":" wss://r ","pushServiceUrl":7}"#));
    assert_eq!(defaults.relay_url, "wss://r");
    assert_eq!(defaults.push_service_url, "");
}

fn no_env() -> ConfigEnv {
    ConfigEnv {
        relay: None,
        push_service_url: None,
        push_preview_max_chars: None,
        refresh_enabled: None,
        refresh_debounce_ms: None,
        codex_endpoint: None,
        refresh_command: None,
        codex_bundle_id: None,
    }
}

#[test]
fn the_environment_wins_over_the_defaults_of_the_package() {
    let file = r#"{"relayUrl":"wss://packaged","pushServiceUrl":"https://push"}"#;
    let config = read_bridge_config(&no_env(), Some(file));
    assert_eq!(config.relay_url, "wss://packaged");
    assert_eq!(config.push_service_url, "https://push");
    assert_eq!(config.codex_bundle_id, "com.openai.codex");

    let mut env = no_env();
    env.relay = Some(" wss://mine ".to_owned());
    env.refresh_enabled = Some("TRUE".to_owned());
    env.codex_endpoint = Some("ws://127.0.0.1:1".to_owned());
    let config = read_bridge_config(&env, None);
    assert_eq!(config.relay_url, "wss://mine");
    assert!(config.refresh_enabled);
    assert_eq!(config.codex_endpoint, "ws://127.0.0.1:1");
    assert_eq!(config.clone().relay_url, config.relay_url);
}

#[test]
fn previews_have_room() {
    for (setting, expected) in [("0", 160), ("x", 160), ("-1", 160), ("80", 80)] {
        let mut env = no_env();
        env.push_preview_max_chars = Some(setting.to_owned());
        assert_eq!(read_bridge_config(&env, None).push_preview_max_chars, expected);
    }
    let mut env = no_env();
    env.refresh_debounce_ms = Some("x".to_owned());
    assert_eq!(read_bridge_config(&env, None).refresh_debounce_ms, 700);
}

#[test]
fn whatever_does_not_say_no_says_yes() {
    for yes in ["1", "true", "yes", "", "maybe"] {
        assert!(parse_boolean_env(yes));
    }
    for no in ["0", " False ", "NO"] {
        assert!(!parse_boolean_env(no));
    }
}

#[test]
fn the_files_of_the_bridge_have_their_places() {
    assert_eq!(resolve_remodex_state_dir(None, "/home/me"), "/home/me/.remodex");
    assert_eq!(resolve_remodex_state_dir(Some(" "), "/home/me"), "/home/me/.remodex");
    assert_eq!(resolve_remodex_state_dir(Some("/s"), "/home/me"), "/s");
    assert_eq!(resolve_daemon_config_path("/s"), "/s/daemon-config.json");
    assert_eq!(resolve_pairing_session_path("/s"), "/s/pairing-session.json");
    assert_eq!(resolve_bridge_status_path("/s"), "/s/bridge-status.json");
    assert_eq!(resolve_bridge_stderr_log_path("/s"), "/s/logs/bridge.stderr.log");
    assert_eq!(resolve_store_file(None, None, "/s"), "/s/device-state.json");
    assert_eq!(resolve_store_file(None, Some("/d"), "/s"), "/d/device-state.json");
    assert_eq!(resolve_store_file(Some("/f"), Some("/d"), "/s"), "/f");
    assert_eq!(
        clear_bridge_status("/s"),
        Action::RemoveFile("/s/bridge-status.json".to_owned())
    );
    assert_eq!(
        clear_pairing_session("/s"),
        Action::RemoveFile("/s/pairing-session.json".to_owned())
    );
}

#[test]
fn the_active_thread_is_remembered_and_opened() {
    assert_eq!(state_file("/home/me/.remodex"), "/home/me/.remodex/last-thread.json");
    assert!(remember_active_thread(" ", "phone", "now".to_owned()).is_none());
    let state = remember_active_thread("thread-1", "phone", "now".to_owned()).unwrap();
    assert_eq!(state.thread_id, "thread-1");
    assert_eq!(state.source, Some("phone".to_owned()));
    assert_eq!(
        open_last_active_thread(Some(&state), None).unwrap(),
        (
            "com.openai.codex".to_owned(),
            "codex://threads/thread-1".to_owned()
        )
    );
    assert_eq!(
        open_last_active_thread(None, None).unwrap_err(),
        "No remembered Remodex thread found yet."
    );
    assert!(opened_last_active_thread(state, true).is_ok());
    let state = remember_active_thread("thread-1", "phone", "now".to_owned()).unwrap();
    assert_eq!(
        opened_last_active_thread(state, false).unwrap_err(),
        "Failed to open the last active Remodex thread on Mac."
    );
}

// The version of the package.

#[test]
fn the_registry_is_asked_once_in_a_while() {
    let mut cache = PackageVersionCache::new();
    assert_eq!(cache.read(0), None);
    assert_eq!(cache.read(RETRY_MS - 1), Some(None));
    assert_eq!(cache.read(RETRY_MS), None);
    let reply = json(r#"{"version":"1.2.3"}"#);
    assert_eq!(
        cache.refresh_latest(Some(&reply), RETRY_MS),
        Some("1.2.3".to_owned())
    );
    assert_eq!(
        cache.read(RETRY_MS + FRESH_MS - 1),
        Some(Some("1.2.3".to_owned()))
    );
    assert_eq!(cache.read(RETRY_MS + FRESH_MS), None);
    assert_eq!(cache.refresh_latest(None, RETRY_MS + FRESH_MS), None);
    let info = version_info("0.1.0", Some("1.2.3".to_owned()));
    assert_eq!(info.bridge_version, Some("0.1.0".to_owned()));
}

// The account.

fn info() -> Option<BridgeVersionInfo> {
    Some(version_info("0.1.0", Some("1.2.3".to_owned())))
}

#[test]
fn the_status_of_the_account_holds_no_token() {
    let account = json(r#"{"account":{"type":"chatgpt","email":"a@b.c","planType":"plus"}}"#);
    let auth = json(r#"{"authMethod":"chatgpt","authToken":"s3cr3t"}"#);
    let told =
        compose_sanitized_auth_status(Some(&account), Some(&auth), false, info(), "0.1.0").unwrap();
    assert_eq!(
        print_json(&told),
        r#"{"authMethod":"chatgpt","bridgeLatestVersion":"1.2.3","bridgeVersion":"0.1.0","email":"a@b.c","expiresAt":null,"loginInFlight":false,"needsReauth":false,"planType":"plus","status":"authenticated","tokenReady":true}"#
    );
    assert!(!print_json(&told).contains("s3cr3t"));
    assert_eq!(
        compose_sanitized_auth_status(None, None, false, info(), "0.1.0").unwrap_err(),
        "Unable to read ChatGPT account status from the bridge."
    );
}

#[test]
fn the_status_of_the_account_is_one_of_four() {
    let status = |account: &str, in_flight: bool| {
        compose_sanitized_auth_status(Some(&json(account)), None, in_flight, None, "0.1.0")
            .unwrap()
            .get_str("status")
            .unwrap()
            .to_owned()
    };
    assert_eq!(status(r#"{"account":{"loggedIn":true}}"#, false), "authenticated");
    assert_eq!(status("{}", true), "pending_login");
    assert_eq!(
        status(r#"{"requiresOpenaiAuth":true,"account":{"type":"chatgpt"}}"#, false),
        "expired"
    );
    assert_eq!(status("{}", false), "not_logged_in");
}

#[test]
fn push_registrations_are_confirmed() {
    let told = handle_notifications_request(
        "notifications/push/register",
        &json(r#"{"alertsEnabled":true,"appEnvironment":"development"}"#),
    )
    .unwrap();
    assert_eq!(
        print_json(&told),
        r#"{"alertsEnabled":true,"apnsEnvironment":"development","ok":true}"#
    );
    let told = handle_notifications_request("notifications/push/register", &json("{}")).unwrap();
    assert_eq!(
        print_json(&told),
        r#"{"alertsEnabled":false,"apnsEnvironment":"production","ok":true}"#
    );
    assert!(handle_notifications_request("other", &json("{}")).is_none());
}

// The code that is scanned.

#[test]
fn the_pairing_code_is_drawn() {
    let payload = json(r#"{"sessionId":"s-1","macDeviceId":"m-1","expiresAt":12}"#);
    let page = print_qr(&payload).unwrap();
    let picture = qrcode::QrCode::new(print_json(&payload).as_bytes())
        .unwrap()
        .render::<qrcode::render::unicode::Dense1x2>()
        .build();
    assert!(page.contains(&picture));
    assert!(page.contains("Session ID: s-1"));
    assert_eq!(
        compose_qr_page(&payload, "PICTURE"),
        "\nScan this QR with the iPhone:\n\nPICTURE\n\nSession ID: s-1\nDevice ID: m-1\nExpires: 12\n\n"
    );
    let huge = json(&format!("{{\"a\":\"{}\"}}", "x".repeat(8_000)));
    assert!(print_qr(&huge).is_err());
}

// Voice.

fn recording(bytes: &[u8]) -> Json {
    json(&format!(
        r#"{{"mimeType":"audio/wav","sampleRateHz":24000,"durationMs":1000,"audioBase64":"{}"}}"#,
        base64::engine::general_purpose::STANDARD.encode(bytes)
    ))
}

fn wav() -> Vec<u8> {
    let mut bytes = b"RIFF\0\0\0\0WAVE".to_vec();
    bytes.resize(44, 0);
    bytes
}

#[test]
fn recordings_keep_to_every_limit() {
    assert_eq!(read_recording(&recording(&wav())).unwrap(), wav());
    let fault = |text: &str| read_recording(&json(text)).unwrap_err();
    assert_eq!(
        fault("{}"),
        "Only WAV audio is supported for voice transcription."
    );
    assert_eq!(
        fault(r#"{"mimeType":"audio/wav"}"#),
        "Voice transcription requires 24 kHz mono WAV audio."
    );
    assert_eq!(
        fault(r#"{"mimeType":"audio/wav","sampleRateHz":24000}"#),
        "Voice messages must include a positive duration."
    );
    assert_eq!(
        fault(r#"{"mimeType":"audio/wav","sampleRateHz":24000,"durationMs":60001}"#),
        "Voice messages are limited to 60 seconds."
    );
    assert_eq!(
        fault(r#"{"mimeType":"audio/wav","sampleRateHz":24000,"durationMs":60000}"#),
        "The voice request did not include any audio."
    );
    assert_eq!(
        fault(r#"{"mimeType":"audio/wav","sampleRateHz":24000,"durationMs":1,"audioBase64":"%"}"#),
        "The recorded audio could not be decoded."
    );
    assert_eq!(
        read_recording(&recording(b"RIFF")).unwrap_err(),
        "The recorded audio is not a valid WAV file."
    );
    let mut long = wav();
    long.resize(10 * 1024 * 1024 + 1, 0);
    assert_eq!(
        read_recording(&recording(&long)).unwrap_err(),
        "Voice messages are limited to 10 MB."
    );
}

#[test]
fn recordings_are_sent_where_the_account_is() {
    let target = choose_voice_target(&json(r#"{"authMethod":"chatgpt","authToken":"t"}"#)).unwrap();
    assert_eq!(target.url, "https://chatgpt.com/backend-api/transcribe");
    assert_eq!(target.token, "t");
    assert_eq!(target.model, None);
    let target = choose_voice_target(&json(r#"{"authMethod":"apikey","authToken":"t"}"#)).unwrap();
    assert_eq!(target.url, "https://api.openai.com/v1/audio/transcriptions");
    assert_eq!(target.model, Some("gpt-4o-mini-transcribe".to_owned()));
    assert_eq!(
        choose_voice_target(&json("{}")).err().unwrap(),
        "Sign in with ChatGPT before using voice transcription."
    );
}

#[test]
fn a_recording_becomes_a_text() {
    let params = recording(&wav());
    let auth = || Some(Ok(json(r#"{"authMethod":"chatgpt","authToken":"t"}"#)));
    assert!(matches!(
        handle_voice_request("voice/transcribe", &params, None, None),
        VoiceStep::NeedAuth
    ));
    match handle_voice_request("voice/transcribe", &params, auth(), None) {
        VoiceStep::Post { audio, .. } => assert_eq!(audio, wav()),
        _ => panic!("the recording is sent"),
    }
    let done = |reply: VoiceReply| match handle_voice_request(
        "voice/transcribe",
        &params,
        auth(),
        Some(reply),
    ) {
        VoiceStep::Done(result) => result.map(|value| print_json(&value)),
        _ => panic!("the request is answered"),
    };
    assert_eq!(
        done(VoiceReply::Body(json(r#"{"transcript":"hello"}"#))).unwrap(),
        r#"{"text":"hello"}"#
    );
    assert_eq!(
        done(VoiceReply::Body(json("{}"))).unwrap_err(),
        "The transcription response did not include any text."
    );
    assert_eq!(
        done(VoiceReply::Refused("401 Unauthorized".to_owned())).unwrap_err(),
        "Transcription failed with status 401 Unauthorized."
    );
    assert!(matches!(
        handle_voice_request("other", &params, None, None),
        VoiceStep::NotVoice
    ));
    match handle_voice_request("voice/resolveAuth", &params, auth(), None) {
        VoiceStep::Done(Ok(value)) => assert_eq!(print_json(&value), r#"{"token":"t"}"#),
        _ => panic!("the token is told"),
    }
}

#[test]
fn tokens_are_fresh_hexadecimal_digits() {
    let token = fresh_token();
    assert_eq!(token.len(), 32);
    assert!(token.chars().all(|c| c.is_ascii_digit() || ('a'..='f').contains(&c)));
    assert_ne!(token, fresh_token());
}

// The connection to Codex.

#[test]
fn codex_is_spawned_or_reached() {
    assert_eq!(connect("  "), CodexEndpoint::Spawn);
    assert_eq!(
        connect(" ws://127.0.0.1:1 "),
        CodexEndpoint::WebSocket("ws://127.0.0.1:1".to_owned())
    );
}

#[test]
fn the_error_output_is_kept_in_part() {
    assert_eq!(push_stderr("a", " b \n"), Some("ab".to_owned()));
    let kept = push_stderr(&"x".repeat(4096), "yz").unwrap();
    assert_eq!(kept.len(), 4096);
    assert!(kept.ends_with("yz"));
    let mut state = SpawnState::connect_spawn();
    assert!(state.take_stderr_line(&"x".repeat(5000)));
    assert_eq!(state.stderr(), "x".repeat(4096));
    let mut state = SpawnState::connect_spawn();
    assert!(state.take_stderr_line("kept"));
    assert!(!state.take_stderr_line(&format!("\u{e9}{}", "x".repeat(4095))));
    assert_eq!(state.stderr(), "kept");
    let step = state.handle(SpawnEvent::StderrEnd(Err("broken".to_owned())));
    assert_eq!(step.event, Some(CodexEvent::Error("broken".to_owned())));
    assert!(step.stop && !state.is_ready());
}

#[test]
fn a_process_is_listened_to_and_ends() {
    let mut state = SpawnState::connect_spawn();
    assert!(state.is_ready());
    let step = state.handle(SpawnEvent::Stdout(Ok(Some(" {} \n".to_owned()))));
    assert_eq!(step.event, Some(CodexEvent::Message("{}".to_owned())));
    let step = state.handle(SpawnEvent::Stdout(Ok(Some("  ".to_owned()))));
    assert_eq!(step.event, None);
    let step = state.handle(SpawnEvent::Outbound(Some("{}".to_owned())));
    assert_eq!(step.write, Some("{}\n".to_owned()));
    assert!(state.take_stderr_line(" bo \n") && state.take_stderr_line("om"));
    assert_eq!(state.stderr(), "boom");
    assert_eq!(state.handle(SpawnEvent::StderrEnd(Ok(()))).event, None);
    let step = state.handle(SpawnEvent::Exit(Ok(Some((false, "exit status: 1".to_owned())))));
    assert_eq!(
        step.event,
        Some(CodexEvent::Error(
            "Codex launcher `codex app-server` failed: boom".to_owned()
        ))
    );
    assert!(step.stop && !state.is_ready());
}

#[test]
fn a_process_that_was_to_stop_is_no_error() {
    let mut state = SpawnState::connect_spawn();
    assert!(state.handle(SpawnEvent::Shutdown).kill);
    let step = state.handle(SpawnEvent::Exit(Ok(Some((false, "signal: 9".to_owned())))));
    assert_eq!(step.event, Some(CodexEvent::Closed));
    let mut other = SpawnState::connect_spawn();
    let step = other.handle(SpawnEvent::Exit(Ok(Some((false, "exit status: 2".to_owned())))));
    assert_eq!(
        step.event,
        Some(CodexEvent::Error(
            "Codex launcher `codex app-server` failed with status exit status: 2".to_owned()
        ))
    );
}

#[test]
fn frames_of_the_socket_become_events() {
    let step = connect_websocket(SocketEvent::Frame(Frame::Text(" {} ".to_owned())));
    assert_eq!(step.event, Some(CodexEvent::Message(" {} ".to_owned())));
    let step = connect_websocket(SocketEvent::Frame(Frame::Binary(b"{}".to_vec())));
    assert_eq!(step.event, Some(CodexEvent::Message("{}".to_owned())));
    let step = connect_websocket(SocketEvent::Frame(Frame::Binary(vec![0xff])));
    assert_eq!(step.event, None);
    assert!(!step.stop);
    let step = connect_websocket(SocketEvent::Frame(Frame::Ping(vec![1, 2])));
    assert_eq!(step.send, SocketSend::Pong(vec![1, 2]));
    assert!(step.ready && !step.stop);
    let step = connect_websocket(SocketEvent::Frame(Frame::Close));
    assert_eq!(step.event, Some(CodexEvent::Closed));
    assert!(step.stop);
    let step = connect_websocket(SocketEvent::Outbound(Some("{}".to_owned())));
    assert!(matches!(step.send, SocketSend::Text(text) if text == "{}"));
}
