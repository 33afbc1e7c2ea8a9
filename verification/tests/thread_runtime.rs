use phodex_bridge::bridge::thread_runtime::{
    existing_thread_id_from_request, rewrite_existing_thread_runtime_request,
    thread_runtime_context_from_value, ThreadRuntimeContext, ThreadRuntimeRegistry,
    FORWARDED_REQUEST_METHOD_TTL_MS,
};
use phodex_bridge::json::{parse_json, print_json, Json, JsonObject};

fn object(members: Vec<(&str, Json)>) -> Json {
    let mut out = JsonObject::new();
    for (key, value) in members {
        out.insert(key, value);
    }
    Json::object(out)
}

fn text(s: &str) -> Json {
    Json::text(s)
}

fn member<'a>(value: &'a Json, path: &[&str]) -> &'a Json {
    let mut at = value;
    for key in path {
        at = at.get(key).unwrap();
    }
    at
}

#[test]
fn thread_runtime_rewrite_existing_thread_runtime_request_uses_cached_model_and_provider() {
    let mut raw_message = object(vec![
        ("id", text("req-resume")),
        ("method", text("thread/resume")),
        (
            "params",
            object(vec![
                ("threadId", text("thread-1")),
                ("model", text("gpt-5.4")),
            ]),
        ),
    ]);

    let context = ThreadRuntimeContext {
        model: Some("gpt-5.4-mini".to_owned()),
        model_provider: Some("openai".to_owned()),
    };
    assert!(rewrite_existing_thread_runtime_request(
        &mut raw_message,
        Some(&context)
    ));
    assert_eq!(
        member(&raw_message, &["params", "model"]).as_str(),
        Some("gpt-5.4-mini")
    );
    assert_eq!(
        member(&raw_message, &["params", "modelProvider"]).as_str(),
        Some("openai")
    );
}

#[test]
fn thread_runtime_rewrite_existing_thread_runtime_request_strips_unknown_existing_thread_model() {
    let mut raw_message = object(vec![
        ("id", text("req-turn")),
        ("method", text("turn/start")),
        (
            "params",
            object(vec![
                ("threadId", text("thread-1")),
                ("model", text("gpt-5.4")),
                (
                    "collaborationMode",
                    object(vec![(
                        "settings",
                        object(vec![("model", text("gpt-5.4"))]),
                    )]),
                ),
            ]),
        ),
    ]);

    assert!(rewrite_existing_thread_runtime_request(
        &mut raw_message,
        None
    ));
    assert!(member(&raw_message, &["params"]).get("model").is_none());
    assert!(
        member(&raw_message, &["params", "collaborationMode", "settings"])
            .get("model")
            .is_none()
    );
}

#[test]
fn thread_runtime_thread_runtime_context_from_value_reads_metadata_fallbacks() {
    let context = thread_runtime_context_from_value(&object(vec![
        ("id", text("thread-1")),
        (
            "metadata",
            object(vec![
                ("model_name", text("gpt-5.4-mini")),
                ("model_provider", text("openai")),
            ]),
        ),
    ]));

    assert_eq!(
        context,
        ThreadRuntimeContext {
            model: Some("gpt-5.4-mini".to_owned()),
            model_provider: Some("openai".to_owned()),
        }
    );
}

#[test]
fn thread_runtime_rewrite_existing_thread_runtime_request_leaves_thread_start_untouched() {
    let mut raw_message = object(vec![
        ("id", text("req-start")),
        ("method", text("thread/start")),
        ("params", object(vec![("model", text("gpt-5.4"))])),
    ]);

    let original = raw_message.clone();
    assert!(!rewrite_existing_thread_runtime_request(
        &mut raw_message,
        None
    ));
    assert_eq!(print_json(&raw_message), print_json(&original));
}

#[test]
fn existing_threads_are_named_by_requests_on_them() {
    let resume = parse_json(r#"{"method":"thread/resume","params":{"threadId":"thread-1"}}"#).unwrap();
    assert_eq!(
        existing_thread_id_from_request(&resume),
        Some("thread-1".to_owned())
    );
    let other = parse_json(r#"{"method":"thread/read","params":{"thread_id":" thread-2 "}}"#).unwrap();
    assert_eq!(
        existing_thread_id_from_request(&other),
        Some("thread-2".to_owned())
    );
    let start = parse_json(r#"{"method":"thread/start","params":{"model":"gpt-5.4"}}"#).unwrap();
    assert_eq!(existing_thread_id_from_request(&start), None);
}

#[test]
fn the_model_of_a_started_thread_is_kept_for_its_turns() {
    let mut registry = ThreadRuntimeRegistry::new();
    let start = parse_json(
        r#"{"id":"req-1","method":"thread/start","params":{"model":"gpt-5.4-mini","modelProvider":"openai"}}"#,
    )
    .unwrap();
    registry.remember_pending_thread_start_context(&start, 1_000);
    registry.update_from_codex_message(r#"{"id":"req-1","result":{"thread":{"id":"thread-9"}}}"#);

    let raw = r#"{"id":"req-2","method":"turn/start","params":{"model":"gpt-5.4","threadId":"thread-9"}}"#;
    let sent = registry.prepare_outbound_application_message(
        parse_json(raw).unwrap(),
        raw.to_owned(),
        None,
    );
    let sent = parse_json(&sent).unwrap();
    assert_eq!(
        member(&sent, &["params", "model"]).as_str(),
        Some("gpt-5.4-mini")
    );
}

#[test]
fn a_start_that_was_never_answered_is_forgotten() {
    let mut registry = ThreadRuntimeRegistry::new();
    let start = parse_json(
        r#"{"id":"req-1","method":"thread/start","params":{"model":"gpt-5.4-mini"}}"#,
    )
    .unwrap();
    registry.remember_pending_thread_start_context(&start, 1_000);
    registry.prune_stale(1_000 + FORWARDED_REQUEST_METHOD_TTL_MS);
    registry.update_from_codex_message(r#"{"id":"req-1","result":{"thread":{"id":"thread-9"}}}"#);

    let raw = r#"{"id":"req-2","method":"turn/start","params":{"model":"gpt-5.4","threadId":"thread-9"}}"#;
    let sent = registry.prepare_outbound_application_message(
        parse_json(raw).unwrap(),
        raw.to_owned(),
        None,
    );
    let sent = parse_json(&sent).unwrap();
    assert!(member(&sent, &["params"]).get("model").is_none());
}

#[test]
fn the_header_of_a_record_tells_the_model_of_an_unknown_thread() {
    let mut registry = ThreadRuntimeRegistry::new();
    let header = parse_json(r#"{"id":"thread-3","model":"gpt-5.4-mini"}"#).unwrap();
    let raw = r#"{"id":1,"method":"thread/resume","params":{"threadId":"thread-3","model":"gpt-5.4"}}"#;
    let sent = registry.prepare_outbound_application_message(
        parse_json(raw).unwrap(),
        raw.to_owned(),
        Some(&header),
    );
    let sent = parse_json(&sent).unwrap();
    assert_eq!(
        member(&sent, &["params", "model"]).as_str(),
        Some("gpt-5.4-mini")
    );
}

#[test]
fn what_is_known_of_a_thread_stays() {
    let mut registry = ThreadRuntimeRegistry::new();
    registry.update_from_codex_message(
        r#"{"method":"thread/started","params":{"thread":{"id":"thread-1","model":"first"}}}"#,
    );
    registry.update_from_codex_message(
        r#"{"method":"thread/started","params":{"thread":{"id":"thread-1","model":"second","modelProvider":"openai"}}}"#,
    );
    let raw = r#"{"id":1,"method":"thread/resume","params":{"threadId":"thread-1"}}"#;
    let sent = registry.prepare_outbound_application_message(
        parse_json(raw).unwrap(),
        raw.to_owned(),
        None,
    );
    let sent = parse_json(&sent).unwrap();
    assert_eq!(member(&sent, &["params", "model"]).as_str(), Some("first"));
    assert_eq!(
        member(&sent, &["params", "modelProvider"]).as_str(),
        Some("openai")
    );
}

#[test]
fn a_second_rewriting_changes_nothing() {
    let context = ThreadRuntimeContext {
        model: Some("gpt-5.4".to_owned()),
        model_provider: None,
    };
    let mut message = parse_json(
        r#"{"method":"turn/start","params":{"threadId":"t","model":"x","modelProvider":"y","collaborationMode":{"settings":{"model":"z"}}}}"#,
    )
    .unwrap();
    assert!(rewrite_existing_thread_runtime_request(&mut message, Some(&context)));
    let once = print_json(&message);
    assert_eq!(
        once,
        r#"{"method":"turn/start","params":{"collaborationMode":{"settings":{"model":"gpt-5.4"}},"model":"gpt-5.4","threadId":"t"}}"#
    );
    assert!(rewrite_existing_thread_runtime_request(&mut message, Some(&context)));
    assert_eq!(print_json(&message), once);
}
