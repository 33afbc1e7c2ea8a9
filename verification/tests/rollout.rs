use phodex_bridge::json::{parse_json, print_json, Json, JsonObject};
use phodex_bridge::rollout::{
    extract_context_usage_from_rollout_line, find_recent_rollout_file_for_context_read,
    find_rollout_file_for_thread, header_payload, read_latest_context_window_usage,
    read_thread_rollout_session_meta, resolve_codex_home, resolve_sessions_root,
    rollout_matches_thread, sort_recent_first, thread_context_read, watch_step,
    watch_thread_rollout, watched_thread, RolloutFile, SearchStep,
};
use phodex_bridge::rollout_live_mirror::controller::{
    ReadPlan, RolloutLiveMirrorController, RolloutLook, IDLE_TIMEOUT_MS, LOOKUP_TIMEOUT_MS,
};
use phodex_bridge::rollout_live_mirror::state::MirrorState;
use phodex_bridge::rollout_live_mirror::translate::{
    arguments_from, synthesize_notifications_from_rollout_entry, tool_output_notifications,
    tool_start_notifications,
};

fn object(members: Vec<(&str, Json)>) -> Json {
    let mut out = JsonObject::new();
    for (key, value) in members {
        out.insert(key, value);
    }
    Json::object(out)
}

fn text(s: &str) -> Json {
    Json::text(s)
}

#[test]
fn read_thread_rollout_session_meta_returns_session_payload() {
    let sessions = "sessions";
    let rollout_path =
        format!("{sessions}/2026/04/01/rollout-2026-04-01T12-00-27-thread-1.jsonl");
    let paths = vec![
        "sessions/2026/03/31/rollout-2026-03-31T12-00-27-thread-2.jsonl".to_owned(),
        rollout_path.clone(),
    ];
    assert_eq!(
        find_rollout_file_for_thread(&paths, "thread-1"),
        Some(rollout_path)
    );
    let content = format!(
        "{}\n",
        print_json(&object(vec![
            ("type", text("session_meta")),
            (
                "payload",
                object(vec![
                    ("id", text("thread-1")),
                    ("model_provider", text("openai")),
                ]),
            ),
        ]))
    );

    let payload = read_thread_rollout_session_meta(&content).unwrap();
    assert_eq!(payload.get_str("model_provider"), Some("openai"));
}

#[test]
fn headers_are_told_from_other_entries() {
    let header = parse_json(r#"{"type":"session_meta","payload":{"id":"t"}}"#).unwrap();
    let payload = header_payload(&header).unwrap().unwrap();
    assert_eq!(payload.get_str("id"), Some("t"));
    let bare = parse_json(r#"{"type":"session_meta"}"#).unwrap();
    assert!(header_payload(&bare).unwrap().is_none());
    let other = parse_json(r#"{"type":"event_msg","payload":{"id":"t"}}"#).unwrap();
    assert!(header_payload(&other).is_none());
}

#[test]
fn a_record_without_a_header_has_none() {
    assert!(read_thread_rollout_session_meta("").is_none());
    assert!(read_thread_rollout_session_meta("{not-json\n").is_none());
    assert!(read_thread_rollout_session_meta("{\"type\":\"event_msg\"}\n").is_none());
    assert!(find_rollout_file_for_thread(&vec!["thread-1/rollout.jsonl".to_owned()], "thread-1").is_none());
}

// The records of runs.

struct Record {
    path: String,
    content: String,
}

fn write_rollout(thread_id: &str, originator: &str, source: &str, lines: &[String]) -> Record {
    let path =
        format!("sessions/2026/03/15/rollout-2026-03-15T19-47-36-{thread_id}.jsonl");
    let header = print_json(&object(vec![
        ("timestamp", text("2026-03-15T19:47:36.019Z")),
        ("type", text("session_meta")),
        (
            "payload",
            object(vec![
                ("id", text(thread_id)),
                ("cwd", text("/repo")),
                ("originator", text(originator)),
                ("source", text(source)),
            ]),
        ),
    ]));
    let mut contents = vec![header];
    contents.extend(lines.iter().cloned());
    contents.push(String::new());
    Record {
        path,
        content: contents.join("\n"),
    }
}

fn append_rollout_lines(record: &mut Record, lines: &[String]) {
    record.content.push_str(&lines.join("\n"));
    record.content.push('\n');
}

fn task_started(turn_id: &str) -> String {
    print_json(&object(vec![
        ("timestamp", text("2026-03-15T19:47:37.000Z")),
        ("type", text("event_msg")),
        (
            "payload",
            object(vec![
                ("type", text("task_started")),
                ("turn_id", text(turn_id)),
                ("model_context_window", Json::unsigned(258400)),
            ]),
        ),
    ]))
}

fn function_call(call_id: &str, name: &str, arguments: Json) -> String {
    print_json(&object(vec![
        ("timestamp", text("2026-03-15T19:47:38.000Z")),
        ("type", text("response_item")),
        (
            "payload",
            object(vec![
                ("type", text("function_call")),
                ("call_id", text(call_id)),
                ("name", text(name)),
                ("arguments", text(&print_json(&arguments))),
            ]),
        ),
    ]))
}

fn function_call_output(call_id: &str, output: &str) -> String {
    print_json(&object(vec![
        ("timestamp", text("2026-03-15T19:47:39.000Z")),
        ("type", text("response_item")),
        (
            "payload",
            object(vec![
                ("type", text("function_call_output")),
                ("call_id", text(call_id)),
                ("output", text(output)),
            ]),
        ),
    ]))
}

fn thread_request(method: &str, thread_id: &str) -> String {
    print_json(&object(vec![
        ("method", text(method)),
        ("params", object(vec![("threadId", text(thread_id))])),
    ]))
}

/// Looks at the record as a reader of its file would.
fn poll(controller: &mut RolloutLiveMirrorController, record: &Record, now_ms: u64) -> Vec<String> {
    let mut looks = Vec::new();
    for i in 0..controller.len() {
        let size = record.content.len() as u64;
        let read = match controller.mirror(i).read_plan(size) {
            ReadPlan::Nothing => None,
            ReadPlan::Whole => Some(record.content.clone()),
            ReadPlan::Slice { start, end } => {
                Some(record.content[start as usize..end as usize].to_owned())
            }
        };
        looks.push(RolloutLook::File {
            path: record.path.clone(),
            size,
            text: read,
        });
    }
    controller.poll_notifications(looks, now_ms)
}

fn notification_methods(raw_notifications: &[String]) -> Vec<String> {
    raw_notifications
        .iter()
        .filter_map(|raw| parse_json(raw))
        .filter_map(|notification| notification.get_str("method").map(|s| s.to_owned()))
        .collect()
}

#[test]
fn desktop_origin_resume_replays_live_run() {
    let record = write_rollout(
        "thread-desktop",
        "Codex Desktop",
        "vscode",
        &[
            task_started("turn-live"),
            function_call(
                "call-1",
                "exec_command",
                object(vec![("cmd", text("git status")), ("workdir", text("/repo"))]),
            ),
            function_call_output("call-1", "On branch main"),
        ],
    );

    let mut controller = RolloutLiveMirrorController::new();
    controller.observe_inbound(&thread_request("thread/resume", "thread-desktop"), 0);
    assert_eq!(controller.len(), 1);

    let notifications = poll(&mut controller, &record, 0);
    assert_eq!(
        notification_methods(&notifications),
        vec![
            "turn/started",
            "item/reasoning/textDelta",
            "codex/event/exec_command_begin",
            "codex/event/exec_command_output_delta",
            "codex/event/exec_command_end",
        ]
    );
}

#[test]
fn phone_origin_rollouts_do_not_emit_notifications() {
    let record = write_rollout(
        "thread-phone",
        "codexmobile_ios",
        "ios",
        &[task_started("turn-live")],
    );

    let mut controller = RolloutLiveMirrorController::new();
    controller.observe_inbound(&thread_request("thread/read", "thread-phone"), 0);

    assert!(poll(&mut controller, &record, 0).is_empty());
    assert_eq!(controller.len(), 0);
}

#[test]
fn desktop_origin_growth_streams_new_notifications() {
    let mut record = write_rollout("thread-grow", "codex_vscode", "vscode", &[]);

    let mut controller = RolloutLiveMirrorController::new();
    controller.observe_inbound(&thread_request("thread/resume", "thread-grow"), 0);
    assert!(poll(&mut controller, &record, 0).is_empty());

    append_rollout_lines(
        &mut record,
        &[
            task_started("turn-next"),
            function_call("call-2", "apply_patch", object(vec![])),
        ],
    );

    let notifications = poll(&mut controller, &record, 5);
    assert_eq!(
        notification_methods(&notifications),
        vec![
            "turn/started",
            "item/reasoning/textDelta",
            "codex/event/background_event",
        ]
    );
}

#[test]
fn thinking_and_commands_are_told_once() {
    let mut state = MirrorState::new();
    let mut told = Vec::new();
    for line in [
        function_call("call-0", "exec_command", object(vec![])),
        task_started("turn-1"),
        function_call("call-1", "exec_command", object(vec![("cmd", text("ls"))])),
        function_call("call-2", "shell_command", object(vec![])),
        function_call_output("call-1", ""),
        function_call_output("call-1", "again"),
        function_call_output("call-3", "unknown"),
    ] {
        let entry = parse_json(&line).unwrap();
        for note in synthesize_notifications_from_rollout_entry(&entry, &mut state, "thread-1") {
            told.push(note.get_str("method").unwrap().to_owned());
        }
    }
    assert_eq!(
        told,
        vec![
            "turn/started",
            "item/reasoning/textDelta",
            "codex/event/exec_command_begin",
            "codex/event/exec_command_begin",
            "codex/event/exec_command_end",
        ]
    );
}

#[test]
fn what_is_said_is_told_with_its_turn() {
    let mut state = MirrorState::new();
    let mut tell = |line: &str| {
        let entry = parse_json(line).unwrap();
        synthesize_notifications_from_rollout_entry(&entry, &mut state, "t")
            .iter()
            .map(print_json)
            .collect::<Vec<_>>()
    };
    tell(r#"{"type":"event_msg","payload":{"type":"task_started","turn_id":"u"}}"#);
    assert_eq!(
        tell(r#"{"type":"event_msg","payload":{"type":"user_message","message":"hi"}}"#),
        vec![r#"{"method":"codex/event/user_message","params":{"message":"hi","threadId":"t","turnId":"u"}}"#]
    );
    assert_eq!(
        tell(r#"{"type":"event_msg","payload":{"type":"agent_message","text":"yes"}}"#),
        vec![r#"{"method":"codex/event/agent_message","params":{"message":"yes","threadId":"t","turnId":"u"}}"#]
    );
    assert!(tell(
        r#"{"type":"event_msg","payload":{"type":"agent_message","text":"hm","phase":"Commentary"}}"#
    )
    .is_empty());
    assert_eq!(
        tell(r#"{"type":"response_item","payload":{"type":"reasoning","summary":[{"text":"a"},{"summary":"b"},{}]}}"#),
        vec![r#"{"method":"item/reasoning/textDelta","params":{"delta":"a\nb","itemId":"rollout-thinking:t:u","threadId":"t","turnId":"u"}}"#]
    );
    assert_eq!(
        tell(r#"{"type":"event_msg","payload":{"type":"task_complete"}}"#),
        vec![r#"{"method":"turn/completed","params":{"id":"u","threadId":"t","turnId":"u"}}"#]
    );
    assert!(tell(r#"{"type":"event_msg","payload":{"type":"task_complete"}}"#).is_empty());
    assert!(tell(r#"{"type":"event_msg","payload":{"type":"agent_reasoning","text":"x"}}"#).is_empty());
}

#[test]
fn a_line_that_is_cut_is_read_once_it_is_whole() {
    let mut record = write_rollout("thread-grow", "codex_vscode", "vscode", &[]);
    let mut controller = RolloutLiveMirrorController::new();
    controller.observe_inbound(&thread_request("thread/resume", "thread-grow"), 0);
    poll(&mut controller, &record, 0);

    let line = task_started("turn-next");
    let (head, tail) = line.split_at(20);
    record.content.push_str(head);
    assert!(poll(&mut controller, &record, 1).is_empty());
    record.content.push_str(tail);
    record.content.push('\n');
    assert_eq!(
        notification_methods(&poll(&mut controller, &record, 2)),
        vec!["turn/started", "item/reasoning/textDelta"]
    );
    assert!(poll(&mut controller, &record, 3).is_empty());
}

#[test]
fn two_looks_tell_what_one_look_tells() {
    let start = write_rollout("thread-grow", "codex_vscode", "vscode", &[]);
    let grown = format!(
        "{}\n{}\n{}\n",
        task_started("turn-1"),
        function_call("call-1", "exec_command", object(vec![("cmd", text("ls"))])),
        function_call_output("call-1", "done")
    );
    let look_at = |parts: &[&str]| {
        let mut record = Record {
            path: start.path.clone(),
            content: start.content.clone(),
        };
        let mut controller = RolloutLiveMirrorController::new();
        controller.observe_inbound(&thread_request("thread/resume", "thread-grow"), 0);
        poll(&mut controller, &record, 0);
        let mut told = Vec::new();
        for part in parts {
            record.content.push_str(part);
            told.extend(poll(&mut controller, &record, 1));
        }
        told
    };
    let whole = look_at(&[&grown]);
    assert_eq!(
        notification_methods(&whole),
        vec![
            "turn/started",
            "item/reasoning/textDelta",
            "codex/event/exec_command_begin",
            "codex/event/exec_command_output_delta",
            "codex/event/exec_command_end",
        ]
    );
    for at in [1, 30, task_started("turn-1").len(), grown.len() - 1] {
        let (head, tail) = grown.split_at(at);
        assert_eq!(look_at(&[head, tail]), whole);
    }
}

#[test]
fn arguments_are_objects() {
    assert_eq!(print_json(&arguments_from(None)), "{}");
    assert_eq!(print_json(&arguments_from(parse_json("[1]"))), "{}");
    assert_eq!(
        print_json(&arguments_from(parse_json(r#"{"cmd":"ls"}"#))),
        r#"{"cmd":"ls"}"#
    );
}

#[test]
fn a_watched_record_is_read_where_it_has_grown() {
    assert_eq!(watch_step(4, 9), Some((4, 9)));
    assert_eq!(watch_step(4, 4), None);
    assert_eq!(watch_step(4, 3), None);
}

#[test]
fn a_second_answer_to_a_command_changes_nothing() {
    let mut state = MirrorState::new();
    let payload = |line: &str| parse_json(line).unwrap().get("payload").unwrap().clone();
    state.active_turn_id = Some("turn-1".to_owned());
    tool_start_notifications(
        &mut state,
        "t",
        &payload(&function_call("call-1", "exec_command", object(vec![]))),
    );
    let answer = payload(&function_call_output("call-1", "done"));
    let methods: Vec<String> = tool_output_notifications(&mut state, "t", &answer)
        .iter()
        .map(|note| note.get_str("method").unwrap().to_owned())
        .collect();
    assert_eq!(
        methods,
        vec![
            "codex/event/exec_command_output_delta",
            "codex/event/exec_command_end",
        ]
    );
    assert!(tool_output_notifications(&mut state, "t", &answer).is_empty());
    assert_eq!(state.active_turn_id, Some("turn-1".to_owned()));
}

#[test]
fn a_run_is_dropped_when_its_record_stays_away_or_stands_still() {
    let mut controller = RolloutLiveMirrorController::new();
    controller.observe_inbound(&thread_request("thread/resume", "thread-1"), 0);
    controller.poll_notifications(vec![RolloutLook::NoPath], LOOKUP_TIMEOUT_MS - 1);
    assert_eq!(controller.len(), 1);
    controller.poll_notifications(vec![RolloutLook::NoPath], LOOKUP_TIMEOUT_MS);
    assert_eq!(controller.len(), 0);

    let record = write_rollout("thread-2", "codex_vscode", "vscode", &[]);
    controller.observe_inbound(&thread_request("thread/resume", "thread-2"), 0);
    poll(&mut controller, &record, 0);
    poll(&mut controller, &record, IDLE_TIMEOUT_MS - 1);
    assert_eq!(controller.len(), 1);
    poll(&mut controller, &record, IDLE_TIMEOUT_MS);
    assert_eq!(controller.len(), 0);
}

#[test]
fn other_requests_are_not_mirrored() {
    let mut controller = RolloutLiveMirrorController::new();
    controller.observe_inbound(&thread_request("turn/start", "thread-1"), 0);
    controller.observe_inbound("{not-json", 0);
    controller.observe_inbound(r#"{"method":"thread/read","params":{}}"#, 0);
    assert_eq!(controller.len(), 0);
    controller.observe_inbound(&thread_request("thread/read", "thread-1"), 0);
    controller.observe_inbound(&thread_request("thread/read", "thread-1"), 1);
    assert_eq!(controller.len(), 1);
    controller.stop_all();
    assert_eq!(controller.len(), 0);
}

// Finding records, and what they hold of the context.

#[test]
fn the_directory_of_the_sessions_follows_the_settings() {
    assert_eq!(resolve_codex_home(None, "/home/me"), "/home/me/.codex");
    assert_eq!(resolve_codex_home(Some("/opt/codex"), "/home/me"), "/opt/codex");
    assert_eq!(
        resolve_sessions_root(None, "/home/me"),
        "/home/me/.codex/sessions"
    );
}

fn file(path: &str, modified_ns: Option<i128>) -> RolloutFile {
    RolloutFile {
        path: path.to_owned(),
        modified_ns,
    }
}

#[test]
fn the_newest_records_come_first() {
    let sorted = sort_recent_first(vec![
        file("old", Some(1)),
        file("unknown", None),
        file("new", Some(3)),
        file("ancient", Some(-4)),
        file("middle", Some(2)),
    ]);
    let paths: Vec<&str> = sorted.iter().map(|f| f.path.as_str()).collect();
    assert_eq!(paths, vec!["new", "middle", "old", "ancient", "unknown"]);
}

#[test]
fn a_record_of_another_name_is_found_by_what_it_holds() {
    let paths = vec!["sessions/rollout-a.jsonl".to_owned(), "sessions/rollout-b.jsonl".to_owned()];
    assert!(matches!(
        find_recent_rollout_file_for_context_read(&paths, "thread-1", &vec![]),
        SearchStep::Read(0)
    ));
    assert!(matches!(
        find_recent_rollout_file_for_context_read(&paths, "thread-1", &vec![false]),
        SearchStep::Read(1)
    ));
    match find_recent_rollout_file_for_context_read(&paths, "thread-1", &vec![false, true]) {
        SearchStep::Found(path) => assert_eq!(path, "sessions/rollout-b.jsonl"),
        _ => panic!("the second record is the one"),
    }
    assert!(matches!(
        find_recent_rollout_file_for_context_read(&paths, "thread-1", &vec![false, false]),
        SearchStep::NotFound
    ));
    let named = vec!["sessions/rollout-thread-1.jsonl".to_owned()];
    assert!(matches!(
        find_recent_rollout_file_for_context_read(&named, "thread-1", &vec![false]),
        SearchStep::Found(_)
    ));
    assert!(!rollout_matches_thread(None, "thread-1", None));
    assert!(rollout_matches_thread(
        Some("{\"id\":\"thread-1\"}"),
        "thread-1",
        None
    ));
}

const TOKEN_LINE: &str = r#"{"type":"event_msg","payload":{"type":"token_count","info":{"last_token_usage":{"total_tokens":1200},"model_context_window":258400}}}"#;

#[test]
fn the_use_of_the_context_is_read_from_the_last_entry_that_tells_it() {
    let usage = extract_context_usage_from_rollout_line(TOKEN_LINE).unwrap();
    assert_eq!(usage.get_u64("tokensUsed"), Some(1200));
    assert_eq!(usage.get_u64("tokenLimit"), Some(258400));
    assert!(extract_context_usage_from_rollout_line("{}").is_none());

    let later = TOKEN_LINE.replace("1200", "1300");
    let raw = format!("{TOKEN_LINE}\n{later}\n{{not-json\n");
    let usage = read_latest_context_window_usage(&raw).unwrap();
    assert_eq!(usage.get_u64("tokensUsed"), Some(1300));

    let read = thread_context_read("thread-1", Some(&raw), Some("/r.jsonl"));
    assert_eq!(read.get_str("threadId"), Some("thread-1"));
    assert_eq!(
        read.get("usage").unwrap().get_u64("tokensUsed"),
        Some(1300)
    );
    let none = thread_context_read("thread-1", None, None);
    assert!(matches!(none.get("usage"), Some(Json::Null)));
}

#[test]
fn the_watched_thread_is_the_named_one_or_the_last() {
    assert_eq!(
        watched_thread(Some("thread-1"), Some("thread-2")).unwrap(),
        "thread-1"
    );
    assert_eq!(watched_thread(None, Some("thread-2")).unwrap(), "thread-2");
    assert!(watched_thread(None, None).is_err());
    assert!(watch_thread_rollout("thread-1", None).is_err());
    let lines = watch_thread_rollout("thread-1", Some("/r.jsonl")).unwrap();
    assert!(lines.iter().any(|line| line.contains("/r.jsonl")));
}
