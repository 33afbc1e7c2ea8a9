use phodex_bridge::bridge::support::{
    build_mac_registration_headers, checked_relay_ws_url, error_code_for_method, extract_bridge_message_context,
    relay_ws_url, rewrite_existing_thread_runtime_request,
    sanitize_thread_history_images_for_relay, send_relay_registration_update,
    stringify_request_id, thread_runtime_context_from_value,
};
use phodex_bridge::bridge::thread_runtime::ThreadRuntimeContext;
use phodex_bridge::json::{parse_json, print_json, Json, JsonObject};
use phodex_bridge::secure_device_state::BridgeDeviceState;
use phodex_bridge::text_map::TextMap;

fn object(members: Vec<(&str, Json)>) -> Json {
    let mut out = JsonObject::new();
    for (key, value) in members {
        out.insert(key, value);
    }
    Json::object(out)
}

fn text(s: &str) -> Json {
    Json::text(s)
}

fn member<'a>(value: &'a Json, path: &[&str]) -> &'a Json {
    let mut at = value;
    for key in path {
        at = at.get(key).unwrap();
    }
    at
}

fn item(value: &Json, index: usize) -> &Json {
    &value.as_array().unwrap()[index]
}

#[test]
fn relay_ws_url_converts_http_scheme_and_appends_session() {
    let resolved = relay_ws_url("http://127.0.0.1:9000/relay", "session-123").unwrap();
    assert_eq!(resolved, "ws://127.0.0.1:9000/relay/session-123");
}

#[test]
fn relay_ws_url_keeps_web_socket_schemes_and_refuses_the_rest() {
    assert_eq!(
        relay_ws_url("https://relay.example.com/", "s").unwrap(),
        "wss://relay.example.com/s"
    );
    assert_eq!(
        relay_ws_url("wss://relay.example.com/a//", "s").unwrap(),
        "wss://relay.example.com/a/s"
    );
    assert_eq!(
        relay_ws_url("ws://relay.example.com", "s").unwrap(),
        "ws://relay.example.com/s"
    );
    assert!(relay_ws_url("ftp://relay.example.com", "s").is_err());
    assert!(relay_ws_url("not a url", "s").is_err());
    assert_eq!(
        checked_relay_ws_url("http://relay", "s").unwrap().unwrap(),
        "ws://relay/s"
    );
}

#[test]
fn sanitize_thread_history_images_for_relay_elides_inline_data_urls() {
    let raw_message = print_json(&object(vec![
        ("id", text("req-thread-read")),
        (
            "result",
            object(vec![(
                "thread",
                object(vec![
                    ("id", text("thread-images")),
                    (
                        "turns",
                        Json::array(vec![object(vec![
                            ("id", text("turn-1")),
                            (
                                "items",
                                Json::array(vec![object(vec![
                                    ("id", text("item-user")),
                                    ("type", text("user_message")),
                                    (
                                        "content",
                                        Json::array(vec![
                                            object(vec![
                                                ("type", text("input_text")),
                                                ("text", text("Look at this screenshot")),
                                            ]),
                                            object(vec![
                                                ("type", text("image")),
                                                ("image_url", text("data:image/png;base64,AAAA")),
                                            ]),
                                        ]),
                                    ),
                                ])]),
                            ),
                        ])]),
                    ),
                ]),
            )]),
        ),
    ]));

    let sanitized = sanitize_thread_history_images_for_relay(raw_message, "thread/read");
    let sanitized = parse_json(&sanitized).unwrap();
    let turns = member(&sanitized, &["result", "thread", "turns"]);
    let items = member(item(turns, 0), &["items"]);
    let content = member(item(items, 0), &["content"]);

    assert_eq!(
        print_json(item(content, 0)),
        print_json(&object(vec![
            ("type", text("input_text")),
            ("text", text("Look at this screenshot")),
        ]))
    );
    assert_eq!(
        print_json(item(content, 1)),
        print_json(&object(vec![
            ("type", text("image")),
            ("url", text("remodex://history-image-elided")),
        ]))
    );
}

#[test]
fn what_was_sanitized_stays_as_it_is() {
    let raw = [
        r#"{"result":{"took":0.1,"thread":{"turns":[{"items":[{"content":["#,
        r#"{"type":"Local_Image","path":" DATA:image/png;base64,AAAA","scale":1.5}]}]}]}}}"#,
    ]
    .join("");
    let once = sanitize_thread_history_images_for_relay(raw.clone(), "thread/resume");
    assert_ne!(once, raw);
    assert!(once.contains("remodex://history-image-elided"));
    let twice = sanitize_thread_history_images_for_relay(once.clone(), "thread/resume");
    assert_eq!(twice, once);
}

#[test]
fn sanitize_thread_history_images_for_relay_leaves_unrelated_payloads_unchanged() {
    let raw_message = print_json(&object(vec![
        ("id", text("req-other")),
        ("result", object(vec![("ok", Json::Bool(true))])),
    ]));

    assert_eq!(
        sanitize_thread_history_images_for_relay(raw_message.clone(), "turn/start"),
        raw_message
    );
}

#[test]
fn sanitizing_leaves_addresses_of_images_alone() {
    let raw_message = r#"{"id":1,"result":{"thread":{"turns":[{"items":[{"content":[{"type":"image","url":"https://example.com/a.png"}]}]}]}}}"#.to_owned();
    assert_eq!(
        sanitize_thread_history_images_for_relay(raw_message.clone(), "thread/resume"),
        raw_message
    );
    let broken = "{not-json".to_owned();
    assert_eq!(
        sanitize_thread_history_images_for_relay(broken.clone(), "thread/read"),
        broken
    );
}

fn check_cached_model_and_provider() {
    let mut raw_message = object(vec![
        ("id", text("req-resume")),
        ("method", text("thread/resume")),
        (
            "params",
            object(vec![
                ("threadId", text("thread-1")),
                ("model", text("gpt-5.4")),
            ]),
        ),
    ]);

    let context = ThreadRuntimeContext {
        model: Some("gpt-5.4-mini".to_owned()),
        model_provider: Some("openai".to_owned()),
    };
    assert!(rewrite_existing_thread_runtime_request(
        &mut raw_message,
        Some(&context)
    ));
    assert_eq!(
        member(&raw_message, &["params", "model"]).as_str(),
        Some("gpt-5.4-mini")
    );
    assert_eq!(
        member(&raw_message, &["params", "modelProvider"]).as_str(),
        Some("openai")
    );
}

fn check_unknown_model_is_stripped() {
    let mut raw_message = object(vec![
        ("id", text("req-turn")),
        ("method", text("turn/start")),
        (
            "params",
            object(vec![
                ("threadId", text("thread-1")),
                ("model", text("gpt-5.4")),
                (
                    "collaborationMode",
                    object(vec![(
                        "settings",
                        object(vec![("model", text("gpt-5.4"))]),
                    )]),
                ),
            ]),
        ),
    ]);

    assert!(rewrite_existing_thread_runtime_request(
        &mut raw_message,
        None
    ));
    assert!(member(&raw_message, &["params"]).get("model").is_none());
    assert!(
        member(&raw_message, &["params", "collaborationMode", "settings"])
            .get("model")
            .is_none()
    );
}

fn check_metadata_fallbacks() {
    let context = thread_runtime_context_from_value(&object(vec![
        ("id", text("thread-1")),
        (
            "metadata",
            object(vec![
                ("model_name", text("gpt-5.4-mini")),
                ("model_provider", text("openai")),
            ]),
        ),
    ]));

    assert_eq!(
        context,
        ThreadRuntimeContext {
            model: Some("gpt-5.4-mini".to_owned()),
            model_provider: Some("openai".to_owned()),
        }
    );
}

fn check_thread_start_is_untouched() {
    let mut raw_message = object(vec![
        ("id", text("req-start")),
        ("method", text("thread/start")),
        ("params", object(vec![("model", text("gpt-5.4"))])),
    ]);

    let original = raw_message.clone();
    assert!(!rewrite_existing_thread_runtime_request(
        &mut raw_message,
        None
    ));
    assert_eq!(print_json(&raw_message), print_json(&original));
}

#[test]
fn support_rewrite_existing_thread_runtime_request_uses_cached_model_and_provider() {
    check_cached_model_and_provider();
}

#[test]
fn support_rewrite_existing_thread_runtime_request_strips_unknown_existing_thread_model() {
    check_unknown_model_is_stripped();
}

#[test]
fn support_thread_runtime_context_from_value_reads_metadata_fallbacks() {
    check_metadata_fallbacks();
}

#[test]
fn support_rewrite_existing_thread_runtime_request_leaves_thread_start_untouched() {
    check_thread_start_is_untouched();
}

#[test]
fn request_ids_are_texts_or_numbers() {
    assert_eq!(stringify_request_id(&text("req-1")), Some("req-1".to_owned()));
    assert_eq!(
        stringify_request_id(&parse_json("7").unwrap()),
        Some("7".to_owned())
    );
    assert_eq!(
        stringify_request_id(&parse_json("-7").unwrap()),
        Some("-7".to_owned())
    );
    assert_eq!(
        stringify_request_id(&parse_json("1.5").unwrap()),
        Some("1.5".to_owned())
    );
    assert_eq!(stringify_request_id(&Json::Null), None);
}

#[test]
fn message_contexts_are_read_from_every_spelling() {
    let context = extract_bridge_message_context(
        r#"{"method":"turn/started","params":{"threadId":"thread-1","turn":{"id":"turn-1"}}}"#,
    );
    assert_eq!(context.method, "turn/started");
    assert_eq!(context.thread_id, "thread-1");
    assert_eq!(context.turn_id, Some("turn-1".to_owned()));

    let context = extract_bridge_message_context("{not-json");
    assert_eq!(context.method, "");
    assert_eq!(context.thread_id, "");
    assert_eq!(context.turn_id, None);
}

#[test]
fn error_codes_follow_the_method() {
    assert_eq!(error_code_for_method("getAuthStatus"), "auth_status_failed");
    assert_eq!(error_code_for_method("voice/transcribe"), "voice_error");
    assert_eq!(
        error_code_for_method("thread/contextWindow/read"),
        "thread_context_error"
    );
    assert_eq!(error_code_for_method("desktop/continueOnMac"), "desktop_error");
    assert_eq!(
        error_code_for_method("notifications/push/register"),
        "push_registration_failed"
    );
}

fn device() -> BridgeDeviceState {
    let mut phones = TextMap::new();
    phones.insert("phone-1".to_owned(), "phone-key".to_owned());
    BridgeDeviceState {
        version: 1,
        mac_device_id: "mac-1".to_owned(),
        mac_identity_public_key: "mac-key".to_owned(),
        mac_identity_private_key: "secret".to_owned(),
        trusted_phones: phones,
    }
}

#[test]
fn registration_names_the_mac_and_its_phone_but_no_secret() {
    let update = send_relay_registration_update(&device(), "Studio");
    let parsed = parse_json(&update).unwrap();
    assert_eq!(parsed.get_str("kind"), Some("relayMacRegistration"));
    let registration = parsed.get("registration").unwrap();
    assert_eq!(registration.get_str("macDeviceId"), Some("mac-1"));
    assert_eq!(registration.get_str("displayName"), Some("Studio"));
    assert_eq!(
        registration.get_str("trustedPhoneDeviceId"),
        Some("phone-1")
    );
    assert!(!update.contains("secret"));

    let headers = build_mac_registration_headers(&device(), "Studio");
    assert_eq!(
        headers[0],
        ("x-mac-device-id".to_owned(), "mac-1".to_owned())
    );
    assert_eq!(
        headers[1],
        ("x-mac-identity-public-key".to_owned(), "mac-key".to_owned())
    );
    assert!(headers.iter().all(|(_, value)| value != "secret"));
}

#[test]
fn cleaning_twice_changes_nothing_more() {
    let raw = r#"{"id":1,"result":{"thread":{"turns":[{"items":[{"content":[{"type":"local_image","path":"DATA:image/png;base64,AA"},{"type":"image","url":"data:image/gif;base64,AA"}]}]}]}}}"#;
    let once = sanitize_thread_history_images_for_relay(raw.to_owned(), "thread/read");
    assert_ne!(once, raw);
    assert!(!once.to_ascii_lowercase().contains("data:image"));
    let twice = sanitize_thread_history_images_for_relay(once.clone(), "thread/read");
    assert_eq!(twice, once);
}
