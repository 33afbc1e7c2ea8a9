//! What the phone is told of an entry in the record of a run.
use vstd::prelude::*;

use super::state::{
    desktop_origin, is_desktop_rollout_origin, CallView, CommandCall, MirrorState,
    MirrorView,
};
use crate::json::{
    json_parse, or_else, or_empty, parse_json, Json, JsonObject, JsonView,
};
use crate::text::{
    ascii_lower, blank, concat2, is_blank, join, join_texts, text_eq, to_ascii_lower,
};

verus! {

/// What an entry leads to: what is known behind it, and what the phone is told.
pub struct Told {
    pub state: MirrorView,
    pub notes: Seq<JsonView>,
}

pub open spec fn silent(state: MirrorView) -> Told {
    Told { state, notes: seq![] }
}

/// A notification.
pub open spec fn notification(method: Seq<char>, params: JsonView) -> JsonView {
    JsonView::Object(map!["method"@ => JsonView::Text(method), "params"@ => params])
}

fn create_notification(method: &str, params: JsonObject) -> (r: Json)
    ensures
        r@ == notification(method@, JsonView::Object(params.view())),
{
    let mut out = JsonObject::new();
    out.insert("method", Json::text(method));
    out.insert("params", Json::object(params));
    Json::object(out)
}

/// The turn that an entry is about.
pub open spec fn turn_id_of(payload: JsonView) -> Option<Seq<char>> {
    or_else(payload.read("turn_id"@), payload.read("turnId"@))
}

fn turn_id_from_payload(payload: &Json) -> (r: Option<String>)
    ensures
        r.deep_view() == turn_id_of(payload@),
{
    match payload.read("turn_id") {
        Some(id) => Some(id),
        None => payload.read("turnId"),
    }
}

/// The tool call that an entry is about.
pub open spec fn call_id_of(payload: JsonView) -> Option<Seq<char>> {
    or_else(payload.read("call_id"@), payload.read("callId"@))
}

fn call_id_from_payload(payload: &Json) -> (r: Option<String>)
    ensures
        r.deep_view() == call_id_of(payload@),
{
    match payload.read("call_id") {
        Some(id) => Some(id),
        None => payload.read("callId"),
    }
}

pub open spec fn message_of(payload: JsonView) -> Option<Seq<char>> {
    or_else(payload.read("message"@), payload.read("text"@))
}

fn message_from_payload(payload: &Json) -> (r: Option<String>)
    ensures
        r.deep_view() == message_of(payload@),
{
    match payload.read("message") {
        Some(text) => Some(text),
        None => payload.read("text"),
    }
}

// Reasoning.

pub open spec fn reasoning_note(
    thread_id: Seq<char>,
    turn_id: Seq<char>,
    item_id: Seq<char>,
    delta: Seq<char>,
) -> JsonView {
    notification(
        "item/reasoning/textDelta"@,
        JsonView::Object(
            map![
                "threadId"@ => JsonView::Text(thread_id),
                "turnId"@ => JsonView::Text(turn_id),
                "itemId"@ => JsonView::Text(item_id),
                "delta"@ => JsonView::Text(delta),
            ],
        ),
    )
}

fn create_reasoning(thread_id: &str, turn_id: &str, item_id: &str, delta: &str) -> (r: Json)
    ensures
        r@ == reasoning_note(thread_id@, turn_id@, item_id@, delta@),
{
    let mut params = JsonObject::new();
    params.insert("threadId", Json::text(thread_id));
    params.insert("turnId", Json::text(turn_id));
    params.insert("itemId", Json::text(item_id));
    params.insert("delta", Json::text(delta));
    create_notification("item/reasoning/textDelta", params)
}

/// The phone is told that the run is thinking, once a turn.
pub open spec fn ensured_thinking(state: MirrorView, thread_id: Seq<char>) -> Told {
    match state.turn {
        Some(turn_id) => if state.thinking {
            silent(state)
        } else {
            let item_id = state.reasoning_id(thread_id, turn_id);
            Told {
                state: MirrorView { thinking: true, reasoning: Some(item_id), ..state },
                notes: seq![reasoning_note(thread_id, turn_id, item_id, "Thinking..."@)],
            }
        },
        None => silent(state),
    }
}

pub fn ensure_thinking_notifications(state: &mut MirrorState, thread_id: &str) -> (r: Vec<Json>)
    ensures
        (Told { state: final(state)@, notes: r.deep_view() }) == ensured_thinking(
            old(state)@,
            thread_id@,
        ),
{
    let mut notes: Vec<Json> = Vec::new();
    assert(notes.deep_view() =~= seq![]);
    let turn_id = match &state.active_turn_id {
        Some(id) => id.clone(),
        None => {
            return notes;
        },
    };
    if state.has_thinking {
        return notes;
    }
    state.has_thinking = true;
    let item_id = state.ensure_reasoning_item_id(thread_id, turn_id.as_str());
    let note = create_reasoning(thread_id, turn_id.as_str(), item_id.as_str(), "Thinking...");
    notes.push(note);
    assert(notes.deep_view() =~= seq![note@]);
    notes
}

/// The phone is told what the run thinks, or without a text that it is thinking.
pub open spec fn reasoned(state: MirrorView, thread_id: Seq<char>, text: Option<Seq<char>>) -> Told {
    match state.turn {
        Some(turn_id) => match text {
            Some(delta) => {
                let item_id = state.reasoning_id(thread_id, turn_id);
                Told {
                    state: MirrorView { thinking: true, reasoning: Some(item_id), ..state },
                    notes: seq![reasoning_note(thread_id, turn_id, item_id, delta)],
                }
            },
            None => ensured_thinking(state, thread_id),
        },
        None => silent(state),
    }
}

pub fn reasoning_notifications(state: &mut MirrorState, thread_id: &str, text: Option<String>) -> (r:
    Vec<Json>)
    ensures
        (Told { state: final(state)@, notes: r.deep_view() }) == reasoned(
            old(state)@,
            thread_id@,
            text.deep_view(),
        ),
{
    let mut notes: Vec<Json> = Vec::new();
    assert(notes.deep_view() =~= seq![]);
    let turn_id = match &state.active_turn_id {
        Some(id) => id.clone(),
        None => {
            return notes;
        },
    };
    let delta = match text {
        Some(delta) => delta,
        None => {
            return ensure_thinking_notifications(state, thread_id);
        },
    };
    state.has_thinking = true;
    let item_id = state.ensure_reasoning_item_id(thread_id, turn_id.as_str());
    let note = create_reasoning(thread_id, turn_id.as_str(), item_id.as_str(), delta.as_str());
    notes.push(note);
    assert(notes.deep_view() =~= seq![note@]);
    notes
}

/// The text of one part of a summary.
pub open spec fn summary_part(part: JsonView) -> Option<Seq<char>> {
    or_else(part.read("text"@), part.read("summary"@))
}

/// The texts of the parts of a summary.
pub open spec fn summary_texts(parts: Seq<JsonView>) -> Seq<Seq<char>>
    decreases parts.len(),
{
    if parts.len() == 0 {
        seq![]
    } else {
        match summary_part(parts.last()) {
            Some(text) => summary_texts(parts.drop_last()).push(text),
            None => summary_texts(parts.drop_last()),
        }
    }
}

/// The text of a reasoning entry: its summary, else its text.
pub open spec fn reasoning_text(payload: JsonView) -> Option<Seq<char>> {
    let summary = match payload.get("summary"@) {
        Some(JsonView::Array(parts)) => join(summary_texts(parts), "\n"@),
        _ => Seq::empty(),
    };
    if summary.len() > 0 {
        Some(summary)
    } else {
        or_else(payload.read("text"@), payload.read("content"@))
    }
}

pub fn extract_reasoning_text(payload: &Json) -> (r: Option<String>)
    ensures
        r.deep_view() == reasoning_text(payload@),
{
    if let Some(summary) = payload.get("summary") {
        if let Some(parts) = summary.as_array() {
            let ghost all = parts.deep_view();
            let mut texts: Vec<String> = Vec::new();
            let mut i: usize = 0;
            assert(all.take(0) =~= Seq::empty());
            assert(texts.deep_view() =~= Seq::empty());
            while i < parts.len()
                invariant
                    i <= parts@.len(),
                    all == parts.deep_view(),
                    texts.deep_view() == summary_texts(all.take(i as int)),
                decreases parts@.len() - i,
            {
                let ghost before = texts.deep_view();
                assert(all.take(i + 1).drop_last() =~= all.take(i as int));
                assert(all.take(i + 1).last() == parts@[i as int]@);
                let text = match parts[i].read("text") {
                    Some(text) => Some(text),
                    None => parts[i].read("summary"),
                };
                match text {
                    Some(text) => {
                        texts.push(text);
                        assert(texts.deep_view() =~= before.push(text@));
                    },
                    None => {},
                }
                i = i + 1;
            }
            assert(all.take(i as int) =~= all);
            let text = join_texts(&texts, "\n");
            if !text.as_str().is_empty() {
                return Some(text);
            }
        }
    }
    match payload.read("text") {
        Some(text) => Some(text),
        None => payload.read("content"),
    }
}

// Turns and messages.

pub open spec fn turn_note(method: Seq<char>, thread_id: Seq<char>, turn_id: Seq<char>) -> JsonView {
    notification(
        method,
        JsonView::Object(
            map![
                "threadId"@ => JsonView::Text(thread_id),
                "turnId"@ => JsonView::Text(turn_id),
                "id"@ => JsonView::Text(turn_id),
            ],
        ),
    )
}

fn create_turn_note(method: &str, thread_id: &str, turn_id: &str) -> (r: Json)
    ensures
        r@ == turn_note(method@, thread_id@, turn_id@),
{
    let mut params = JsonObject::new();
    params.insert("threadId", Json::text(thread_id));
    params.insert("turnId", Json::text(turn_id));
    params.insert("id", Json::text(turn_id));
    create_notification(method, params)
}

pub open spec fn message_note(
    method: Seq<char>,
    thread_id: Seq<char>,
    turn_id: Seq<char>,
    message: Seq<char>,
) -> JsonView {
    notification(
        method,
        JsonView::Object(
            map![
                "threadId"@ => JsonView::Text(thread_id),
                "turnId"@ => JsonView::Text(turn_id),
                "message"@ => JsonView::Text(message),
            ],
        ),
    )
}

fn create_message_note(method: &str, thread_id: &str, turn_id: &str, message: &str) -> (r: Json)
    ensures
        r@ == message_note(method@, thread_id@, turn_id@, message@),
{
    let mut params = JsonObject::new();
    params.insert("threadId", Json::text(thread_id));
    params.insert("turnId", Json::text(turn_id));
    params.insert("message", Json::text(message));
    create_notification(method, params)
}

/// A turn starts, and with it the thinking.
pub open spec fn task_started(state: MirrorView, payload: JsonView, thread_id: Seq<char>) -> Told {
    match turn_id_of(payload) {
        Some(turn_id) => {
            let next = ensured_thinking(state.turn_started(thread_id, turn_id), thread_id);
            Told {
                state: next.state,
                notes: seq![turn_note("turn/started"@, thread_id, turn_id)] + next.notes,
            }
        },
        None => silent(state),
    }
}

pub fn task_started_notifications(payload: &Json, state: &mut MirrorState, thread_id: &str) -> (r: Vec<
    Json,
>)
    ensures
        (Told { state: final(state)@, notes: r.deep_view() }) == task_started(
            old(state)@,
            payload@,
            thread_id@,
        ),
{
    let mut notes: Vec<Json> = Vec::new();
    assert(notes.deep_view() =~= seq![]);
    let turn_id = match turn_id_from_payload(payload) {
        Some(id) => id,
        None => {
            return notes;
        },
    };
    state.mark_turn_started(thread_id, turn_id.as_str());
    let started = create_turn_note("turn/started", thread_id, turn_id.as_str());
    notes.push(started);
    let mut thinking = ensure_thinking_notifications(state, thread_id);
    let ghost more = thinking.deep_view();
    notes.append(&mut thinking);
    assert(notes.deep_view() =~= seq![started@] + more);
    notes
}

/// The turn that a message belongs to.
pub open spec fn message_turn(state: MirrorView, payload: JsonView) -> Seq<char> {
    or_empty(or_else(turn_id_of(payload), state.turn))
}

fn resolve_message_turn(state: &MirrorState, payload: &Json) -> (r: String)
    ensures
        r@ == message_turn(state@, payload@),
{
    match turn_id_from_payload(payload) {
        Some(id) => id,
        None => match &state.active_turn_id {
            Some(id) => id.clone(),
            None => String::new(),
        },
    }
}

/// The user said something.
pub open spec fn user_message(state: MirrorView, payload: JsonView, thread_id: Seq<char>) -> Told {
    match message_of(payload) {
        Some(message) => Told {
            state,
            notes: seq![
                message_note(
                    "codex/event/user_message"@,
                    thread_id,
                    message_turn(state, payload),
                    message,
                ),
            ],
        },
        None => silent(state),
    }
}

pub fn user_message_notifications(payload: &Json, state: &MirrorState, thread_id: &str) -> (r: Vec<
    Json,
>)
    ensures
        (Told { state: state@, notes: r.deep_view() }) == user_message(
            state@,
            payload@,
            thread_id@,
        ),
{
    let mut notes: Vec<Json> = Vec::new();
    assert(notes.deep_view() =~= seq![]);
    match message_from_payload(payload) {
        Some(message) => {
            let turn_id = resolve_message_turn(state, payload);
            let note = create_message_note(
                "codex/event/user_message",
                thread_id,
                turn_id.as_str(),
                message.as_str(),
            );
            notes.push(note);
            assert(notes.deep_view() =~= seq![note@]);
        },
        None => {},
    }
    notes
}

/// The turn is over.
pub open spec fn task_completed(state: MirrorView, payload: JsonView, thread_id: Seq<char>) -> Told {
    match or_else(turn_id_of(payload), state.turn) {
        Some(turn_id) => Told {
            state: state.run_reset(),
            notes: seq![turn_note("turn/completed"@, thread_id, turn_id)],
        },
        None => silent(state),
    }
}

pub fn task_completed_notifications(payload: &Json, state: &mut MirrorState, thread_id: &str) -> (r:
    Vec<Json>)
    ensures
        (Told { state: final(state)@, notes: r.deep_view() }) == task_completed(
            old(state)@,
            payload@,
            thread_id@,
        ),
{
    let mut notes: Vec<Json> = Vec::new();
    assert(notes.deep_view() =~= seq![]);
    let turn_id = match turn_id_from_payload(payload) {
        Some(id) => id,
        None => match &state.active_turn_id {
            Some(id) => id.clone(),
            None => {
                return notes;
            },
        },
    };
    let note = create_turn_note("turn/completed", thread_id, turn_id.as_str());
    notes.push(note);
    assert(notes.deep_view() =~= seq![note@]);
    state.reset_run_state();
    notes
}

/// Whether a message of the agent is more than a comment on its work.
pub open spec fn is_answer(payload: JsonView) -> bool {
    ascii_lower(payload.read_or_empty("phase"@)) != "commentary"@
}

pub fn should_mirror_agent_message(payload: &Json) -> (r: bool)
    ensures
        r == is_answer(payload@),
{
    let phase = to_ascii_lower(payload.read_or_empty("phase").as_str());
    !text_eq(phase.as_str(), "commentary")
}

/// The agent said something.
pub open spec fn agent_message(state: MirrorView, payload: JsonView, thread_id: Seq<char>) -> Told {
    match message_of(payload) {
        Some(message) => if is_answer(payload) {
            Told {
                state,
                notes: seq![
                    message_note(
                        "codex/event/agent_message"@,
                        thread_id,
                        message_turn(state, payload),
                        message,
                    ),
                ],
            }
        } else {
            silent(state)
        },
        None => silent(state),
    }
}

pub fn agent_message_notifications(payload: &Json, state: &MirrorState, thread_id: &str) -> (r: Vec<
    Json,
>)
    ensures
        (Told { state: state@, notes: r.deep_view() }) == agent_message(
            state@,
            payload@,
            thread_id@,
        ),
{
    let mut notes: Vec<Json> = Vec::new();
    assert(notes.deep_view() =~= seq![]);
    match message_from_payload(payload) {
        Some(message) => {
            if should_mirror_agent_message(payload) {
                let turn_id = resolve_message_turn(state, payload);
                let note = create_message_note(
                    "codex/event/agent_message",
                    thread_id,
                    turn_id.as_str(),
                    message.as_str(),
                );
                notes.push(note);
                assert(notes.deep_view() =~= seq![note@]);
            }
        },
        None => {},
    }
    notes
}

// Tools.

/// The arguments that a value holds: none where it is no object.
pub open spec fn arguments_of(parsed: Option<JsonView>) -> JsonView {
    match parsed {
        Some(JsonView::Object(members)) => JsonView::Object(members),
        _ => JsonView::Object(Map::empty()),
    }
}

pub fn arguments_from(parsed: Option<Json>) -> (r: Json)
    ensures
        r@ == arguments_of(parsed.deep_view()),
{
    if let Some(arguments) = parsed {
        if arguments.is_object() {
            return arguments;
        }
    }
    Json::object(JsonObject::new())
}

/// The arguments of a tool call.
pub open spec fn tool_arguments(raw: Option<JsonView>) -> JsonView {
    arguments_of(
        match raw {
            Some(value) => match value.as_str() {
                Some(text) => json_parse(text),
                None => None,
            },
            None => None,
        },
    )
}

fn parse_tool_arguments(raw: Option<&Json>) -> (r: Json)
    ensures
        r@ == tool_arguments(raw.deep_view()),
{
    if let Some(value) = raw {
        if let Some(text) = value.as_str() {
            return arguments_from(parse_json(text));
        }
    }
    arguments_from(None)
}

pub open spec fn is_command_tool(tool_name: Seq<char>) -> bool {
    ascii_lower(tool_name) == "exec_command"@ || ascii_lower(tool_name) == "shell_command"@
}

pub fn is_command_tool_name(tool_name: &str) -> (r: bool)
    ensures
        r == is_command_tool(tool_name@),
{
    let name = to_ascii_lower(tool_name);
    text_eq(name.as_str(), "exec_command") || text_eq(name.as_str(), "shell_command")
}

/// The command that a tool call runs.
pub open spec fn tool_command(tool_name: Seq<char>, arguments: JsonView) -> Seq<char> {
    if is_command_tool(tool_name) {
        match or_else(
            arguments.read("cmd"@),
            or_else(
                arguments.read("command"@),
                or_else(arguments.read("raw_command"@), arguments.read("rawCommand"@)),
            ),
        ) {
            Some(command) => command,
            None => tool_name,
        }
    } else {
        tool_name
    }
}

pub fn resolve_tool_command(tool_name: &str, arguments: &Json) -> (r: String)
    ensures
        r@ == tool_command(tool_name@, arguments@),
{
    if is_command_tool_name(tool_name) {
        if let Some(command) = arguments.read("cmd") {
            return command;
        }
        if let Some(command) = arguments.read("command") {
            return command;
        }
        if let Some(command) = arguments.read("raw_command") {
            return command;
        }
        if let Some(command) = arguments.read("rawCommand") {
            return command;
        }
    }
    tool_name.to_owned()
}

/// Where a tool call runs.
pub open spec fn tool_directory(arguments: JsonView, state: MirrorView) -> Seq<char> {
    match or_else(
        arguments.read("workdir"@),
        or_else(arguments.read("cwd"@), arguments.read("working_directory"@)),
    ) {
        Some(path) => path,
        None => match state.meta {
            Some(meta) => meta.cwd,
            None => Seq::empty(),
        },
    }
}

pub fn resolve_tool_working_directory(arguments: &Json, state: &MirrorState) -> (r: String)
    ensures
        r@ == tool_directory(arguments@, state@),
{
    if let Some(path) = arguments.read("workdir") {
        return path;
    }
    if let Some(path) = arguments.read("cwd") {
        return path;
    }
    if let Some(path) = arguments.read("working_directory") {
        return path;
    }
    match &state.session_meta {
        Some(meta) => meta.cwd.clone(),
        None => String::new(),
    }
}

/// What the phone is told of a tool that runs no command.
pub open spec fn tool_activity(tool_name: Seq<char>) -> Option<Seq<char>> {
    let name = ascii_lower(tool_name);
    if name == "apply_patch"@ {
        Some("Applying patch"@)
    } else if name == "write_stdin"@ {
        Some("Writing to terminal"@)
    } else if name == "read_thread_terminal"@ {
        Some("Reading terminal output"@)
    } else if !is_blank(tool_name) {
        Some("Running "@ + tool_name)
    } else {
        None
    }
}

pub fn generic_tool_activity_message(tool_name: &str) -> (r: Option<String>)
    ensures
        r.deep_view() == tool_activity(tool_name@),
{
    let name = to_ascii_lower(tool_name);
    if text_eq(name.as_str(), "apply_patch") {
        Some("Applying patch".to_owned())
    } else if text_eq(name.as_str(), "write_stdin") {
        Some("Writing to terminal".to_owned())
    } else if text_eq(name.as_str(), "read_thread_terminal") {
        Some("Reading terminal output".to_owned())
    } else if !blank(tool_name) {
        Some(concat2("Running ", tool_name))
    } else {
        None
    }
}

pub open spec fn command_begin_note(
    thread_id: Seq<char>,
    turn_id: Seq<char>,
    call_id: Seq<char>,
    call: CallView,
) -> JsonView {
    notification(
        "codex/event/exec_command_begin"@,
        JsonView::Object(
            map![
                "threadId"@ => JsonView::Text(thread_id),
                "turnId"@ => JsonView::Text(turn_id),
                "call_id"@ => JsonView::Text(call_id),
                "command"@ => JsonView::Text(call.command),
                "cwd"@ => JsonView::Text(call.cwd),
                "status"@ => JsonView::Text("running"@),
            ],
        ),
    )
}

pub open spec fn activity_note(
    thread_id: Seq<char>,
    turn_id: Seq<char>,
    call_id: Seq<char>,
    message: Seq<char>,
) -> JsonView {
    notification(
        "codex/event/background_event"@,
        JsonView::Object(
            map![
                "threadId"@ => JsonView::Text(thread_id),
                "turnId"@ => JsonView::Text(turn_id),
                "call_id"@ => JsonView::Text(call_id),
                "message"@ => JsonView::Text(message),
            ],
        ),
    )
}

/// What a tool call does.
pub open spec fn tool_call(state: MirrorView, payload: JsonView, tool_name: Seq<char>) -> CallView {
    let arguments = tool_arguments(payload.get("arguments"@));
    CallView {
        tool_name,
        command: tool_command(tool_name, arguments),
        cwd: tool_directory(arguments, state),
    }
}

/// What the phone is told of a tool call itself.
pub open spec fn tool_notes(
    thread_id: Seq<char>,
    turn_id: Seq<char>,
    call_id: Seq<char>,
    call: CallView,
) -> Seq<JsonView> {
    if is_command_tool(call.tool_name) {
        seq![command_begin_note(thread_id, turn_id, call_id, call)]
    } else {
        match tool_activity(call.tool_name) {
            Some(message) => seq![activity_note(thread_id, turn_id, call_id, message)],
            None => seq![],
        }
    }
}

/// A tool is called in the current turn.
pub open spec fn tool_started(state: MirrorView, payload: JsonView, thread_id: Seq<char>) -> Told {
    match (state.turn, call_id_of(payload), payload.read("name"@)) {
        (Some(turn_id), Some(call_id), Some(tool_name)) => {
            let call = tool_call(state, payload, tool_name);
            let next = ensured_thinking(
                MirrorView { calls: state.calls.insert(call_id, call), ..state },
                thread_id,
            );
            Told {
                state: next.state,
                notes: next.notes + tool_notes(thread_id, turn_id, call_id, call),
            }
        },
        _ => silent(state),
    }
}

pub fn tool_start_notifications(state: &mut MirrorState, thread_id: &str, payload: &Json) -> (r: Vec<
    Json,
>)
    ensures
        (Told { state: final(state)@, notes: r.deep_view() }) == tool_started(
            old(state)@,
            payload@,
            thread_id@,
        ),
{
    let none: Vec<Json> = Vec::new();
    assert(none.deep_view() =~= seq![]);
    let turn_id = match &state.active_turn_id {
        Some(id) => id.clone(),
        None => {
            return none;
        },
    };
    let call_id = match call_id_from_payload(payload) {
        Some(id) => id,
        None => {
            return none;
        },
    };
    let tool_name = match payload.read("name") {
        Some(name) => name,
        None => {
            return none;
        },
    };
    let arguments = parse_tool_arguments(payload.get("arguments"));
    let command = resolve_tool_command(tool_name.as_str(), &arguments);
    let cwd = resolve_tool_working_directory(&arguments, state);
    let call = CommandCall {
        tool_name: tool_name.clone(),
        command: command.clone(),
        cwd: cwd.clone(),
    };
    let ghost call_view = call.view();
    let ghost before = state@;
    assert(call_view == tool_call(before, payload@, tool_name@));
    state.command_calls.insert(call_id.as_str(), call);
    assert(state@.calls =~= before.calls.insert(call_id@, call_view));
    let mut notes = ensure_thinking_notifications(state, thread_id);
    let ghost thinking = notes.deep_view();
    if is_command_tool_name(tool_name.as_str()) {
        let mut params = JsonObject::new();
        params.insert("threadId", Json::text(thread_id));
        params.insert("turnId", Json::text(turn_id.as_str()));
        params.insert("call_id", Json::text(call_id.as_str()));
        params.insert("command", Json::text(command.as_str()));
        params.insert("cwd", Json::text(cwd.as_str()));
        params.insert("status", Json::text("running"));
        let note = create_notification("codex/event/exec_command_begin", params);
        notes.push(note);
        assert(notes.deep_view() =~= thinking + seq![note@]);
        return notes;
    }
    match generic_tool_activity_message(tool_name.as_str()) {
        Some(message) => {
            let mut params = JsonObject::new();
            params.insert("threadId", Json::text(thread_id));
            params.insert("turnId", Json::text(turn_id.as_str()));
            params.insert("call_id", Json::text(call_id.as_str()));
            params.insert("message", Json::text(message.as_str()));
            let note = create_notification("codex/event/background_event", params);
            notes.push(note);
            assert(notes.deep_view() =~= thinking + seq![note@]);
        },
        None => {
            assert(notes.deep_view() =~= thinking + seq![]);
        },
    }
    notes
}

pub open spec fn command_output_note(
    thread_id: Seq<char>,
    turn_id: Seq<char>,
    call_id: Seq<char>,
    call: CallView,
    output: Seq<char>,
) -> JsonView {
    notification(
        "codex/event/exec_command_output_delta"@,
        JsonView::Object(
            map![
                "threadId"@ => JsonView::Text(thread_id),
                "turnId"@ => JsonView::Text(turn_id),
                "call_id"@ => JsonView::Text(call_id),
                "command"@ => JsonView::Text(call.command),
                "cwd"@ => JsonView::Text(call.cwd),
                "chunk"@ => JsonView::Text(output),
            ],
        ),
    )
}

pub open spec fn command_end_note(
    thread_id: Seq<char>,
    turn_id: Seq<char>,
    call_id: Seq<char>,
    call: CallView,
    output: Seq<char>,
) -> JsonView {
    notification(
        "codex/event/exec_command_end"@,
        JsonView::Object(
            map![
                "threadId"@ => JsonView::Text(thread_id),
                "turnId"@ => JsonView::Text(turn_id),
                "call_id"@ => JsonView::Text(call_id),
                "command"@ => JsonView::Text(call.command),
                "cwd"@ => JsonView::Text(call.cwd),
                "status"@ => JsonView::Text("completed"@),
                "output"@ => JsonView::Text(output),
            ],
        ),
    )
}

/// A tool that was called answers. Only commands are told of, and each once.
pub open spec fn tool_answered(state: MirrorView, payload: JsonView, thread_id: Seq<char>) -> Told {
    match (state.turn, call_id_of(payload)) {
        (Some(turn_id), Some(call_id)) => if state.calls.dom().contains(call_id) {
            let call = state.calls[call_id];
            let known = MirrorView { calls: state.calls.remove(call_id), ..state };
            if is_command_tool(call.tool_name) {
                let output = payload.read_or_empty("output"@);
                let next = ensured_thinking(known, thread_id);
                Told {
                    state: next.state,
                    notes: next.notes + (if output.len() > 0 {
                        seq![command_output_note(thread_id, turn_id, call_id, call, output)]
                    } else {
                        seq![]
                    }) + seq![command_end_note(thread_id, turn_id, call_id, call, output)],
                }
            } else {
                silent(known)
            }
        } else {
            silent(state)
        },
        _ => silent(state),
    }
}

pub fn tool_output_notifications(state: &mut MirrorState, thread_id: &str, payload: &Json) -> (r: Vec<
    Json,
>)
    ensures
        (Told { state: final(state)@, notes: r.deep_view() }) == tool_answered(
            old(state)@,
            payload@,
            thread_id@,
        ),
{
    let none: Vec<Json> = Vec::new();
    assert(none.deep_view() =~= seq![]);
    let turn_id = match &state.active_turn_id {
        Some(id) => id.clone(),
        None => {
            return none;
        },
    };
    let call_id = match call_id_from_payload(payload) {
        Some(id) => id,
        None => {
            return none;
        },
    };
    let ghost before = state@;
    let call = match state.command_calls.remove(call_id.as_str()) {
        Some(call) => call,
        None => {
            assert(state@.calls =~= before.calls);
            return none;
        },
    };
    assert(state@.calls =~= before.calls.remove(call_id@));
    assert(before.calls[call_id@] == call.view());
    if !is_command_tool_name(call.tool_name.as_str()) {
        return none;
    }
    let output = payload.read_or_empty("output");
    let mut notes = ensure_thinking_notifications(state, thread_id);
    let ghost thinking = notes.deep_view();
    if !output.as_str().is_empty() {
        let mut params = JsonObject::new();
        params.insert("threadId", Json::text(thread_id));
        params.insert("turnId", Json::text(turn_id.as_str()));
        params.insert("call_id", Json::text(call_id.as_str()));
        params.insert("command", Json::text(call.command.as_str()));
        params.insert("cwd", Json::text(call.cwd.as_str()));
        params.insert("chunk", Json::text(output.as_str()));
        let note = create_notification("codex/event/exec_command_output_delta", params);
        notes.push(note);
        assert(notes.deep_view() =~= thinking + seq![note@]);
    } else {
        assert(notes.deep_view() =~= thinking + seq![]);
    }
    let ghost told = notes.deep_view();
    let mut params = JsonObject::new();
    params.insert("threadId", Json::text(thread_id));
    params.insert("turnId", Json::text(turn_id.as_str()));
    params.insert("call_id", Json::text(call_id.as_str()));
    params.insert("command", Json::text(call.command.as_str()));
    params.insert("cwd", Json::text(call.cwd.as_str()));
    params.insert("status", Json::text("completed"));
    params.insert("output", Json::text(output.as_str()));
    let note = create_notification("codex/event/exec_command_end", params);
    notes.push(note);
    assert(notes.deep_view() =~= told + seq![note@]);
    notes
}

// Entries.

/// A header tells where the session comes from. Once it was no desktop session it stays none.
pub open spec fn header_read(state: MirrorView, entry: JsonView) -> MirrorView {
    let next = state.with_meta(entry.get("payload"@));
    MirrorView {
        desktop: if !desktop_origin(next.meta) {
            Some(false)
        } else if next.desktop is None {
            Some(true)
        } else {
            next.desktop
        },
        ..next
    }
}

pub open spec fn payload_of(entry: JsonView) -> JsonView {
    match entry.get("payload"@) {
        Some(payload) => payload,
        None => JsonView::Null,
    }
}

pub open spec fn event_read(state: MirrorView, payload: JsonView, thread_id: Seq<char>) -> Told {
    let kind = payload.read_or_empty("type"@);
    if state.desktop == Some(false) {
        silent(state)
    } else if kind == "task_started"@ {
        task_started(state, payload, thread_id)
    } else if kind == "user_message"@ {
        user_message(state, payload, thread_id)
    } else if kind == "task_complete"@ {
        task_completed(state, payload, thread_id)
    } else if kind == "agent_reasoning"@ {
        reasoned(
            state,
            thread_id,
            or_else(
                payload.read("message"@),
                or_else(payload.read("text"@), payload.read("summary"@)),
            ),
        )
    } else if kind == "agent_message"@ {
        agent_message(state, payload, thread_id)
    } else {
        silent(state)
    }
}

pub open spec fn item_read(state: MirrorView, payload: JsonView, thread_id: Seq<char>) -> Told {
    let kind = payload.read_or_empty("type"@);
    if state.desktop == Some(false) {
        silent(state)
    } else if kind == "reasoning"@ {
        reasoned(state, thread_id, reasoning_text(payload))
    } else if kind == "function_call"@ {
        tool_started(state, payload, thread_id)
    } else if kind == "function_call_output"@ {
        tool_answered(state, payload, thread_id)
    } else {
        silent(state)
    }
}

/// What an entry in the record of a run leads to.
pub open spec fn entry_read(state: MirrorView, entry: JsonView, thread_id: Seq<char>) -> Told {
    let kind = entry.read_or_empty("type"@);
    if kind == "session_meta"@ {
        silent(header_read(state, entry))
    } else if kind == "event_msg"@ {
        event_read(state, payload_of(entry), thread_id)
    } else if kind == "response_item"@ {
        item_read(state, payload_of(entry), thread_id)
    } else {
        silent(state)
    }
}

pub fn session_meta_notifications(entry: &Json, state: &mut MirrorState)
    ensures
        final(state)@ == header_read(old(state)@, entry@),
{
    state.update_session_meta(entry.get("payload"));
    if !is_desktop_rollout_origin(&state.session_meta) {
        state.is_desktop_origin = Some(false);
    } else if state.is_desktop_origin.is_none() {
        state.is_desktop_origin = Some(true);
    }
}

pub fn event_message_notifications(payload: &Json, state: &mut MirrorState, thread_id: &str) -> (r: Vec<
    Json,
>)
    ensures
        (Told { state: final(state)@, notes: r.deep_view() }) == event_read(
            old(state)@,
            payload@,
            thread_id@,
        ),
{
    let none: Vec<Json> = Vec::new();
    assert(none.deep_view() =~= seq![]);
    if let Some(false) = state.is_desktop_origin {
        return none;
    }
    let kind = payload.read_or_empty("type");
    if text_eq(kind.as_str(), "task_started") {
        task_started_notifications(payload, state, thread_id)
    } else if text_eq(kind.as_str(), "user_message") {
        user_message_notifications(payload, state, thread_id)
    } else if text_eq(kind.as_str(), "task_complete") {
        task_completed_notifications(payload, state, thread_id)
    } else if text_eq(kind.as_str(), "agent_reasoning") {
        let text = match payload.read("message") {
            Some(text) => Some(text),
            None => match payload.read("text") {
                Some(text) => Some(text),
                None => payload.read("summary"),
            },
        };
        reasoning_notifications(state, thread_id, text)
    } else if text_eq(kind.as_str(), "agent_message") {
        agent_message_notifications(payload, state, thread_id)
    } else {
        none
    }
}

pub fn response_item_notifications(payload: &Json, state: &mut MirrorState, thread_id: &str) -> (r: Vec<
    Json,
>)
    ensures
        (Told { state: final(state)@, notes: r.deep_view() }) == item_read(
            old(state)@,
            payload@,
            thread_id@,
        ),
{
    let none: Vec<Json> = Vec::new();
    assert(none.deep_view() =~= seq![]);
    if let Some(false) = state.is_desktop_origin {
        return none;
    }
    let kind = payload.read_or_empty("type");
    if text_eq(kind.as_str(), "reasoning") {
        reasoning_notifications(state, thread_id, extract_reasoning_text(payload))
    } else if text_eq(kind.as_str(), "function_call") {
        tool_start_notifications(state, thread_id, payload)
    } else if text_eq(kind.as_str(), "function_call_output") {
        tool_output_notifications(state, thread_id, payload)
    } else {
        none
    }
}

/// What the phone is told of an entry in the record of a run.
pub fn synthesize_notifications_from_rollout_entry(
    entry: &Json,
    state: &mut MirrorState,
    thread_id: &str,
) -> (r: Vec<Json>)
    ensures
        (Told { state: final(state)@, notes: r.deep_view() }) == entry_read(
            old(state)@,
            entry@,
            thread_id@,
        ),
{
    let none: Vec<Json> = Vec::new();
    assert(none.deep_view() =~= seq![]);
    let null = Json::Null;
    let payload = match entry.get("payload") {
        Some(payload) => payload,
        None => &null,
    };
    let kind = entry.read_or_empty("type");
    if text_eq(kind.as_str(), "session_meta") {
        session_meta_notifications(entry, state);
        none
    } else if text_eq(kind.as_str(), "event_msg") {
        event_message_notifications(payload, state, thread_id)
    } else if text_eq(kind.as_str(), "response_item") {
        response_item_notifications(payload, state, thread_id)
    } else {
        none
    }
}

// What holds of every run.

/// Of a session that was not started on the desktop the phone is told nothing, whatever its
/// record holds, and it stays such a session.
pub proof fn law_other_sessions_are_silent(
    state: MirrorView,
    entry: JsonView,
    thread_id: Seq<char>,
)
    requires
        state.desktop == Some(false),
    ensures
        entry_read(state, entry, thread_id).notes.len() == 0,
        entry_read(state, entry, thread_id).state.desktop == Some(false),
{
}

/// That a run is thinking is told once a turn: a second entry that would tell it tells nothing.
pub proof fn law_thinking_is_told_once(state: MirrorView, thread_id: Seq<char>)
    ensures
        ensured_thinking(ensured_thinking(state, thread_id).state, thread_id).notes.len() == 0,
        ensured_thinking(ensured_thinking(state, thread_id).state, thread_id).state
            == ensured_thinking(state, thread_id).state,
{
}

/// The call of a tool is known from its start on.
pub proof fn law_started_calls_are_known(
    state: MirrorView,
    payload: JsonView,
    thread_id: Seq<char>,
    turn_id: Seq<char>,
    call_id: Seq<char>,
    tool_name: Seq<char>,
)
    requires
        state.turn == Some(turn_id),
        call_id_of(payload) == Some(call_id),
        payload.read("name"@) == Some(tool_name),
    ensures
        ({
            let after = tool_started(state, payload, thread_id).state;
            &&& after.turn == Some(turn_id)
            &&& after.calls.dom().contains(call_id)
            &&& after.calls[call_id].tool_name == tool_name
        }),
{
}

/// A command is ended once. The first answer to a call of it ends it, behind its output where there
/// is any; a second answer to the same call tells nothing and changes nothing.
pub proof fn law_command_ends_once(
    state: MirrorView,
    payload: JsonView,
    other: JsonView,
    thread_id: Seq<char>,
    turn_id: Seq<char>,
    call_id: Seq<char>,
)
    requires
        state.turn == Some(turn_id),
        call_id_of(payload) == Some(call_id),
        call_id_of(other) == Some(call_id),
        state.calls.dom().contains(call_id),
        is_command_tool(state.calls[call_id].tool_name),
    ensures
        ({
            let first = tool_answered(state, payload, thread_id);
            &&& first.notes.len() > 0
            &&& first.notes.last().get_str("method"@) == Some("codex/event/exec_command_end"@)
            &&& (exists|i: int|
                0 <= i < first.notes.len() && (#[trigger] first.notes[i]).get_str("method"@)
                    == Some("codex/event/exec_command_output_delta"@)) <==> payload.read("output"@)
                is Some
            &&& tool_answered(first.state, other, thread_id) == silent(first.state)
        }),
{
    reveal_strlit("codex/event/exec_command_end");
    reveal_strlit("codex/event/exec_command_output_delta");
    reveal_strlit("item/reasoning/textDelta");
    reveal_strlit("method");
    reveal_strlit("params");
    assert("method"@[0] == 'm' && "params"@[0] == 'p');
    assert("codex/event/exec_command_end"@.len() == 28
        && "codex/event/exec_command_output_delta"@.len() == 37
        && "item/reasoning/textDelta"@.len() == 24);
    let first = tool_answered(state, payload, thread_id);
    let call = state.calls[call_id];
    let known = MirrorView { calls: state.calls.remove(call_id), ..state };
    let thinking = ensured_thinking(known, thread_id).notes;
    let output = payload.read_or_empty("output"@);
    crate::text::lemma_trimmed_twice(or_empty(payload.get_str("output"@)));
    if payload.read("output"@) is Some {
        assert(output.len() > 0);
        assert(first.notes[thinking.len() as int] == command_output_note(
            thread_id,
            turn_id,
            call_id,
            call,
            output,
        ));
    }
}

/// Outside a turn no tool and no reasoning is told of.
pub proof fn law_nothing_is_told_outside_a_turn(
    state: MirrorView,
    payload: JsonView,
    thread_id: Seq<char>,
)
    requires
        state.turn is None,
    ensures
        item_read(state, payload, thread_id) == silent(state),
{
}

} // verus!
