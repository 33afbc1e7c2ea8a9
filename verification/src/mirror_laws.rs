//! What the phone is told of a run on the desktop.
//!
//! The laws here speak of entries as they stand in the record of a run, and of the members of the
//! notifications that come of them.
use vstd::prelude::*;

use crate::json::{json_parse, json_print, or_else, JsonView};
use crate::rollout_live_mirror::controller::{
    all_polled, boot_lines, bootstrapped, is_mirrored, lines_told, observing, watched_thread,
    LookView, ReadPlan, ThreadView,
};
use crate::rollout_live_mirror::state::{desktop_origin, MetaView, MirrorView};
use crate::rollout_live_mirror::translate::{entry_read, reasoning_text, silent, summary_texts};
use crate::text::{ascii_lower, contains, is_blank, join, lines, trimmed};

verus! {

/// Whether an entry is of a kind, and its payload of another.
pub open spec fn is_entry(entry: JsonView, kind: Seq<char>, payload_kind: Seq<char>) -> bool {
    entry.read("type"@) == Some(kind) && entry.read2("payload"@, "type"@) == Some(payload_kind)
}

/// What a notification tells under a key.
pub open spec fn told(note: JsonView, key: Seq<char>) -> Option<Seq<char>> {
    match note.get2("params"@, key) {
        Some(value) => value.as_str(),
        None => None,
    }
}

/// The text under the first of two keys of the payload, where it is not blank, else under the
/// second.
pub open spec fn payload_text(
    entry: JsonView,
    first: Seq<char>,
    second: Seq<char>,
) -> Option<Seq<char>> {
    match entry.read2("payload"@, first) {
        Some(text) => Some(text),
        None => entry.read2("payload"@, second),
    }
}

/// The start of a turn is told with its identifier, and behind it that the run is thinking. No
/// call of an earlier turn is left.
pub proof fn law_start_of_a_turn_is_told(
    state: MirrorView,
    entry: JsonView,
    thread_id: Seq<char>,
    turn_id: Seq<char>,
)
    requires
        state.desktop != Some(false),
        is_entry(entry, "event_msg"@, "task_started"@),
        payload_text(entry, "turn_id"@, "turnId"@) == Some(turn_id),
    ensures
        ({
            let r = entry_read(state, entry, thread_id);
            let item_id = "rollout-thinking:"@ + thread_id + ":"@ + turn_id;
            &&& r.notes.len() == 2
            &&& r.notes[0].get_str("method"@) == Some("turn/started"@)
            &&& told(r.notes[0], "threadId"@) == Some(thread_id)
            &&& told(r.notes[0], "turnId"@) == Some(turn_id)
            &&& told(r.notes[0], "id"@) == Some(turn_id)
            &&& r.notes[1].get_str("method"@) == Some("item/reasoning/textDelta"@)
            &&& told(r.notes[1], "threadId"@) == Some(thread_id)
            &&& told(r.notes[1], "turnId"@) == Some(turn_id)
            &&& told(r.notes[1], "itemId"@) == Some(item_id)
            &&& told(r.notes[1], "delta"@) == Some("Thinking..."@)
            &&& r.state.turn == Some(turn_id)
            &&& r.state.thinking
            &&& r.state.calls.dom() == Set::<Seq<char>>::empty()
            &&& r.state.meta == state.meta
            &&& r.state.desktop == state.desktop
        }),
{
    reveal_strlit("session_meta");
    reveal_strlit("event_msg");
    reveal_strlit("response_item");
    assert("session_meta"@.len() == 12 && "event_msg"@.len() == 9);
    assert("response_item"@.len() == 13);
    reveal_strlit("task_started");
    reveal_strlit("user_message");
    reveal_strlit("task_complete");
    reveal_strlit("agent_reasoning");
    reveal_strlit("agent_message");
    assert("task_started"@[0] == 't' && "user_message"@[0] == 'u');
    assert("task_complete"@[0] == 't' && "agent_message"@[0] == 'a');
    assert("task_started"@.len() == 12 && "user_message"@.len() == 12);
    assert("task_complete"@.len() == 13 && "agent_reasoning"@.len() == 15);
    assert("agent_message"@.len() == 13);
    reveal_strlit("method");
    reveal_strlit("params");
    assert("method"@[0] == 'm' && "params"@[0] == 'p' && "method"@.len() == 6);
    assert("params"@.len() == 6);
    reveal_strlit("threadId");
    reveal_strlit("turnId");
    reveal_strlit("id");
    reveal_strlit("itemId");
    reveal_strlit("delta");
    assert("turnId"@[0] == 't' && "itemId"@[0] == 'i' && "threadId"@.len() == 8);
    assert("turnId"@.len() == 6 && "id"@.len() == 2 && "itemId"@.len() == 6);
    assert("delta"@.len() == 5);
    assert(entry_read(state, entry, thread_id).state.calls.dom() =~= Set::empty());
}

/// The end of a turn is told with its identifier, which the entry or the turn that goes on gives;
/// behind it no turn goes on.
pub proof fn law_end_of_a_turn_is_told(
    state: MirrorView,
    entry: JsonView,
    thread_id: Seq<char>,
    turn_id: Seq<char>,
)
    requires
        state.desktop != Some(false),
        is_entry(entry, "event_msg"@, "task_complete"@),
        or_else(payload_text(entry, "turn_id"@, "turnId"@), state.turn) == Some(turn_id),
    ensures
        ({
            let r = entry_read(state, entry, thread_id);
            &&& r.notes.len() == 1
            &&& r.notes[0].get_str("method"@) == Some("turn/completed"@)
            &&& told(r.notes[0], "threadId"@) == Some(thread_id)
            &&& told(r.notes[0], "turnId"@) == Some(turn_id)
            &&& told(r.notes[0], "id"@) == Some(turn_id)
            &&& r.state.turn is None
            &&& r.state.reasoning is None
            &&& !r.state.thinking
            &&& r.state.calls.dom() == Set::<Seq<char>>::empty()
        }),
{
    reveal_strlit("session_meta");
    reveal_strlit("event_msg");
    reveal_strlit("response_item");
    assert("session_meta"@.len() == 12 && "event_msg"@.len() == 9);
    assert("response_item"@.len() == 13);
    reveal_strlit("task_started");
    reveal_strlit("user_message");
    reveal_strlit("task_complete");
    reveal_strlit("agent_reasoning");
    reveal_strlit("agent_message");
    assert("task_started"@[0] == 't' && "user_message"@[0] == 'u');
    assert("task_complete"@[0] == 't' && "agent_message"@[0] == 'a');
    assert("task_started"@.len() == 12 && "user_message"@.len() == 12);
    assert("task_complete"@.len() == 13 && "agent_reasoning"@.len() == 15);
    assert("agent_message"@.len() == 13);
    reveal_strlit("method");
    reveal_strlit("params");
    assert("method"@[0] == 'm' && "params"@[0] == 'p' && "method"@.len() == 6);
    assert("params"@.len() == 6);
    reveal_strlit("threadId");
    reveal_strlit("turnId");
    reveal_strlit("id");
    assert("threadId"@.len() == 8 && "turnId"@.len() == 6 && "id"@.len() == 2);
    assert(entry_read(state, entry, thread_id).state.calls.dom() =~= Set::empty());
}

/// What the user said is told word for word, with the turn that it belongs to.
pub proof fn law_what_the_user_said_is_told(
    state: MirrorView,
    entry: JsonView,
    thread_id: Seq<char>,
    message: Seq<char>,
)
    requires
        state.desktop != Some(false),
        is_entry(entry, "event_msg"@, "user_message"@),
        payload_text(entry, "message"@, "text"@) == Some(message),
    ensures
        ({
            let r = entry_read(state, entry, thread_id);
            &&& r.state == state
            &&& r.notes.len() == 1
            &&& r.notes[0].get_str("method"@) == Some("codex/event/user_message"@)
            &&& told(r.notes[0], "threadId"@) == Some(thread_id)
            &&& told(r.notes[0], "message"@) == Some(message)
            &&& or_else(payload_text(entry, "turn_id"@, "turnId"@), state.turn) matches Some(turn)
                ==> told(r.notes[0], "turnId"@) == Some(turn)
        }),
{
    reveal_strlit("session_meta");
    reveal_strlit("event_msg");
    reveal_strlit("response_item");
    assert("session_meta"@.len() == 12 && "event_msg"@.len() == 9);
    assert("response_item"@.len() == 13);
    reveal_strlit("task_started");
    reveal_strlit("user_message");
    reveal_strlit("task_complete");
    reveal_strlit("agent_reasoning");
    reveal_strlit("agent_message");
    assert("task_started"@[0] == 't' && "user_message"@[0] == 'u');
    assert("task_complete"@[0] == 't' && "agent_message"@[0] == 'a');
    assert("task_started"@.len() == 12 && "user_message"@.len() == 12);
    assert("task_complete"@.len() == 13 && "agent_reasoning"@.len() == 15);
    assert("agent_message"@.len() == 13);
    reveal_strlit("method");
    reveal_strlit("params");
    assert("method"@[0] == 'm' && "params"@[0] == 'p' && "method"@.len() == 6);
    assert("params"@.len() == 6);
    reveal_strlit("threadId");
    reveal_strlit("turnId");
    reveal_strlit("message");
    assert("threadId"@.len() == 8 && "turnId"@.len() == 6 && "message"@.len() == 7);
}

/// What the agent said is told word for word, unless it only comments on its work.
pub proof fn law_what_the_agent_said_is_told(
    state: MirrorView,
    entry: JsonView,
    thread_id: Seq<char>,
    message: Seq<char>,
)
    requires
        state.desktop != Some(false),
        is_entry(entry, "event_msg"@, "agent_message"@),
        payload_text(entry, "message"@, "text"@) == Some(message),
    ensures
        ({
            let r = entry_read(state, entry, thread_id);
            let comment = entry.read2("payload"@, "phase"@) matches Some(phase) && ascii_lower(phase)
                == "commentary"@;
            &&& r.state == state
            &&& comment ==> r.notes.len() == 0
            &&& !comment ==> r.notes.len() == 1 && r.notes[0].get_str("method"@) == Some(
                "codex/event/agent_message"@,
            ) && told(r.notes[0], "threadId"@) == Some(thread_id) && told(r.notes[0], "message"@)
                == Some(message)
            &&& !comment ==> (or_else(payload_text(entry, "turn_id"@, "turnId"@), state.turn)
                matches Some(turn) ==> told(r.notes[0], "turnId"@) == Some(turn))
        }),
{
    reveal_strlit("session_meta");
    reveal_strlit("event_msg");
    reveal_strlit("response_item");
    assert("session_meta"@.len() == 12 && "event_msg"@.len() == 9);
    assert("response_item"@.len() == 13);
    reveal_strlit("task_started");
    reveal_strlit("user_message");
    reveal_strlit("task_complete");
    reveal_strlit("agent_reasoning");
    reveal_strlit("agent_message");
    assert("task_started"@[0] == 't' && "user_message"@[0] == 'u');
    assert("task_complete"@[0] == 't' && "agent_message"@[0] == 'a');
    assert("task_started"@.len() == 12 && "user_message"@.len() == 12);
    assert("task_complete"@.len() == 13 && "agent_reasoning"@.len() == 15);
    assert("agent_message"@.len() == 13);
    reveal_strlit("method");
    reveal_strlit("params");
    assert("method"@[0] == 'm' && "params"@[0] == 'p' && "method"@.len() == 6);
    assert("params"@.len() == 6);
    reveal_strlit("threadId");
    reveal_strlit("turnId");
    reveal_strlit("message");
    assert("threadId"@.len() == 8 && "turnId"@.len() == 6 && "message"@.len() == 7);
    reveal_strlit("commentary");
    assert("commentary"@.len() == 10);
    assert(ascii_lower(Seq::<char>::empty()).len() == 0);
}

/// What the run thinks is told in the current turn, under the identifier of its thinking.
pub proof fn law_what_the_run_thinks_is_told(
    state: MirrorView,
    entry: JsonView,
    thread_id: Seq<char>,
    turn_id: Seq<char>,
    text: Seq<char>,
)
    requires
        state.desktop != Some(false),
        state.turn == Some(turn_id),
        (is_entry(entry, "event_msg"@, "agent_reasoning"@) && or_else(
            entry.read2("payload"@, "message"@),
            or_else(entry.read2("payload"@, "text"@), entry.read2("payload"@, "summary"@)),
        ) == Some(text)) || (is_entry(entry, "response_item"@, "reasoning"@) && reasoning_text(
            entry.get("payload"@)->0,
        ) == Some(text)),
    ensures
        ({
            let r = entry_read(state, entry, thread_id);
            &&& r.notes.len() == 1
            &&& r.notes[0].get_str("method"@) == Some("item/reasoning/textDelta"@)
            &&& told(r.notes[0], "threadId"@) == Some(thread_id)
            &&& told(r.notes[0], "turnId"@) == Some(turn_id)
            &&& told(r.notes[0], "itemId"@) == Some(
                match state.reasoning {
                    Some(id) => id,
                    None => "rollout-thinking:"@ + thread_id + ":"@ + turn_id,
                },
            )
            &&& told(r.notes[0], "delta"@) == Some(text)
            &&& r.state.turn == state.turn
            &&& r.state.calls == state.calls
            &&& r.state.thinking
        }),
{
    reveal_strlit("session_meta");
    reveal_strlit("event_msg");
    reveal_strlit("response_item");
    assert("session_meta"@.len() == 12 && "event_msg"@.len() == 9);
    assert("response_item"@.len() == 13);
    reveal_strlit("task_started");
    reveal_strlit("user_message");
    reveal_strlit("task_complete");
    reveal_strlit("agent_reasoning");
    reveal_strlit("agent_message");
    assert("task_started"@[0] == 't' && "user_message"@[0] == 'u');
    assert("task_complete"@[0] == 't' && "agent_message"@[0] == 'a');
    assert("task_started"@.len() == 12 && "user_message"@.len() == 12);
    assert("task_complete"@.len() == 13 && "agent_reasoning"@.len() == 15);
    assert("agent_message"@.len() == 13);
    reveal_strlit("reasoning");
    reveal_strlit("function_call");
    reveal_strlit("function_call_output");
    assert("reasoning"@.len() == 9 && "function_call"@.len() == 13);
    assert("function_call_output"@.len() == 20);
    reveal_strlit("method");
    reveal_strlit("params");
    assert("method"@[0] == 'm' && "params"@[0] == 'p' && "method"@.len() == 6);
    assert("params"@.len() == 6);
    reveal_strlit("threadId");
    reveal_strlit("turnId");
    reveal_strlit("itemId");
    reveal_strlit("delta");
    assert("turnId"@[0] == 't' && "itemId"@[0] == 'i' && "threadId"@.len() == 8);
    assert("turnId"@.len() == 6 && "itemId"@.len() == 6 && "delta"@.len() == 5);
}

/// The text of what a run thinks is its summary, the texts of its parts one below the other; where
/// there is none it is the text, else the content.
pub proof fn law_thoughts_are_summed_up(payload: JsonView, parts: Seq<JsonView>)
    requires
        payload.get("summary"@) == Some(JsonView::Array(parts)),
    ensures
        join(summary_texts(parts), "\n"@).len() > 0 ==> reasoning_text(payload) == Some(
            join(summary_texts(parts), "\n"@),
        ),
        join(summary_texts(parts), "\n"@).len() == 0 ==> reasoning_text(payload) == or_else(
            payload.read("text"@),
            payload.read("content"@),
        ),
{
}

/// Every part of a summary that has a text adds it, and no other text is added.
pub proof fn law_every_part_of_a_summary_counts(parts: Seq<JsonView>, part: JsonView)
    ensures
        part.read("text"@) matches Some(text) ==> summary_texts(parts.push(part))
            == summary_texts(parts).push(text),
        part.read("text"@) is None && part.read("summary"@) is None ==> summary_texts(
            parts.push(part),
        ) == summary_texts(parts),
        summary_texts(Seq::<JsonView>::empty()).len() == 0,
{
    assert(parts.push(part).drop_last() =~= parts);
}

/// The arguments of a call: the object that the text under `arguments` is.
pub open spec fn argument(entry: JsonView, key: Seq<char>) -> Option<Seq<char>> {
    match entry.get2("payload"@, "arguments"@) {
        Some(JsonView::Text(text)) => match json_parse(text) {
            Some(arguments) => arguments.read(key),
            None => None,
        },
        _ => None,
    }
}

/// A command that starts is told with what it runs and where: what the arguments say, else the
/// tool's name, and else the directory of the session.
pub proof fn law_started_command_is_told(
    state: MirrorView,
    entry: JsonView,
    thread_id: Seq<char>,
    turn_id: Seq<char>,
    call_id: Seq<char>,
    tool: Seq<char>,
)
    requires
        state.desktop != Some(false),
        state.turn == Some(turn_id),
        is_entry(entry, "response_item"@, "function_call"@),
        payload_text(entry, "call_id"@, "callId"@) == Some(call_id),
        entry.read2("payload"@, "name"@) == Some(tool),
        ascii_lower(tool) == "exec_command"@ || ascii_lower(tool) == "shell_command"@,
    ensures
        ({
            let r = entry_read(state, entry, thread_id);
            let note = r.notes.last();
            let command = or_else(
                argument(entry, "cmd"@),
                or_else(
                    argument(entry, "command"@),
                    or_else(argument(entry, "raw_command"@), argument(entry, "rawCommand"@)),
                ),
            );
            let directory = or_else(
                argument(entry, "workdir"@),
                or_else(argument(entry, "cwd"@), argument(entry, "working_directory"@)),
            );
            &&& r.notes.len() == if state.thinking {
                1nat
            } else {
                2nat
            }
            &&& note.get_str("method"@) == Some("codex/event/exec_command_begin"@)
            &&& told(note, "threadId"@) == Some(thread_id)
            &&& told(note, "turnId"@) == Some(turn_id)
            &&& told(note, "call_id"@) == Some(call_id)
            &&& told(note, "status"@) == Some("running"@)
            &&& told(note, "command"@) == Some(
                match command {
                    Some(command) => command,
                    None => tool,
                },
            )
            &&& told(note, "cwd"@) == Some(
                match directory {
                    Some(directory) => directory,
                    None => match state.meta {
                        Some(meta) => meta.cwd,
                        None => Seq::empty(),
                    },
                },
            )
            &&& r.state.turn == state.turn
            &&& r.state.calls.dom() == state.calls.dom().insert(call_id)
            &&& r.state.calls[call_id].tool_name == tool
            &&& told(note, "command"@) == Some(r.state.calls[call_id].command)
            &&& told(note, "cwd"@) == Some(r.state.calls[call_id].cwd)
            &&& forall|other: Seq<char>| #[trigger]
                state.calls.dom().contains(other) && other != call_id ==> r.state.calls[other]
                    == state.calls[other]
        }),
{
    reveal_strlit("session_meta");
    reveal_strlit("event_msg");
    reveal_strlit("response_item");
    assert("session_meta"@.len() == 12 && "event_msg"@.len() == 9);
    assert("response_item"@.len() == 13);
    reveal_strlit("task_started");
    reveal_strlit("user_message");
    reveal_strlit("task_complete");
    reveal_strlit("agent_reasoning");
    reveal_strlit("agent_message");
    assert("task_started"@[0] == 't' && "user_message"@[0] == 'u');
    assert("task_complete"@[0] == 't' && "agent_message"@[0] == 'a');
    assert("task_started"@.len() == 12 && "user_message"@.len() == 12);
    assert("task_complete"@.len() == 13 && "agent_reasoning"@.len() == 15);
    assert("agent_message"@.len() == 13);
    reveal_strlit("reasoning");
    reveal_strlit("function_call");
    reveal_strlit("function_call_output");
    assert("reasoning"@.len() == 9 && "function_call"@.len() == 13);
    assert("function_call_output"@.len() == 20);
    reveal_strlit("method");
    reveal_strlit("params");
    assert("method"@[0] == 'm' && "params"@[0] == 'p' && "method"@.len() == 6);
    assert("params"@.len() == 6);
    reveal_strlit("threadId");
    reveal_strlit("turnId");
    reveal_strlit("call_id");
    reveal_strlit("command");
    reveal_strlit("cwd");
    reveal_strlit("status");
    assert("turnId"@[0] == 't' && "status"@[0] == 's' && "call_id"@[1] == 'a');
    assert("command"@[1] == 'o' && "threadId"@.len() == 8 && "turnId"@.len() == 6);
    assert("call_id"@.len() == 7 && "command"@.len() == 7 && "cwd"@.len() == 3);
    assert("status"@.len() == 6);
    assert(entry_read(state, entry, thread_id).state.calls.dom() =~= state.calls.dom().insert(
        call_id,
    ));
}

/// Another tool that starts is told by what it does.
pub proof fn law_started_tool_is_told(
    state: MirrorView,
    entry: JsonView,
    thread_id: Seq<char>,
    turn_id: Seq<char>,
    call_id: Seq<char>,
    tool: Seq<char>,
)
    requires
        state.desktop != Some(false),
        state.turn == Some(turn_id),
        is_entry(entry, "response_item"@, "function_call"@),
        payload_text(entry, "call_id"@, "callId"@) == Some(call_id),
        entry.read2("payload"@, "name"@) == Some(tool),
        !is_blank(tool),
        ascii_lower(tool) != "exec_command"@,
        ascii_lower(tool) != "shell_command"@,
    ensures
        ({
            let r = entry_read(state, entry, thread_id);
            let note = r.notes.last();
            &&& r.notes.len() > 0
            &&& note.get_str("method"@) == Some("codex/event/background_event"@)
            &&& told(note, "threadId"@) == Some(thread_id)
            &&& told(note, "turnId"@) == Some(turn_id)
            &&& told(note, "call_id"@) == Some(call_id)
            &&& told(note, "message"@) == Some(
                if ascii_lower(tool) == "apply_patch"@ {
                    "Applying patch"@
                } else if ascii_lower(tool) == "write_stdin"@ {
                    "Writing to terminal"@
                } else if ascii_lower(tool) == "read_thread_terminal"@ {
                    "Reading terminal output"@
                } else {
                    "Running "@ + tool
                },
            )
        }),
{
    reveal_strlit("session_meta");
    reveal_strlit("event_msg");
    reveal_strlit("response_item");
    assert("session_meta"@.len() == 12 && "event_msg"@.len() == 9);
    assert("response_item"@.len() == 13);
    reveal_strlit("task_started");
    reveal_strlit("user_message");
    reveal_strlit("task_complete");
    reveal_strlit("agent_reasoning");
    reveal_strlit("agent_message");
    assert("task_started"@[0] == 't' && "user_message"@[0] == 'u');
    assert("task_complete"@[0] == 't' && "agent_message"@[0] == 'a');
    assert("task_started"@.len() == 12 && "user_message"@.len() == 12);
    assert("task_complete"@.len() == 13 && "agent_reasoning"@.len() == 15);
    assert("agent_message"@.len() == 13);
    reveal_strlit("reasoning");
    reveal_strlit("function_call");
    reveal_strlit("function_call_output");
    assert("reasoning"@.len() == 9 && "function_call"@.len() == 13);
    assert("function_call_output"@.len() == 20);
    reveal_strlit("method");
    reveal_strlit("params");
    assert("method"@[0] == 'm' && "params"@[0] == 'p' && "method"@.len() == 6);
    assert("params"@.len() == 6);
    reveal_strlit("threadId");
    reveal_strlit("turnId");
    reveal_strlit("call_id");
    reveal_strlit("message");
    assert("call_id"@[0] == 'c' && "message"@[0] == 'm' && "threadId"@.len() == 8);
    assert("turnId"@.len() == 6 && "call_id"@.len() == 7 && "message"@.len() == 7);
}

/// What a command printed is told: as a piece of output where there is any, and again when the
/// command ends; with the command that was told when it started.
pub proof fn law_what_a_command_printed_is_told(
    state: MirrorView,
    entry: JsonView,
    thread_id: Seq<char>,
    turn_id: Seq<char>,
    call_id: Seq<char>,
)
    requires
        state.desktop != Some(false),
        state.turn == Some(turn_id),
        is_entry(entry, "response_item"@, "function_call_output"@),
        payload_text(entry, "call_id"@, "callId"@) == Some(call_id),
        state.calls.dom().contains(call_id),
        ascii_lower(state.calls[call_id].tool_name) == "exec_command"@ || ascii_lower(
            state.calls[call_id].tool_name,
        ) == "shell_command"@,
    ensures
        ({
            let r = entry_read(state, entry, thread_id);
            let printed = entry.read2("payload"@, "output"@);
            let end = r.notes.last();
            let piece = r.notes[r.notes.len() - 2];
            let call = state.calls[call_id];
            &&& r.notes.len() > 0
            &&& end.get_str("method"@) == Some("codex/event/exec_command_end"@)
            &&& told(end, "threadId"@) == Some(thread_id)
            &&& told(end, "turnId"@) == Some(turn_id)
            &&& told(end, "call_id"@) == Some(call_id)
            &&& told(end, "command"@) == Some(call.command)
            &&& told(end, "cwd"@) == Some(call.cwd)
            &&& told(end, "status"@) == Some("completed"@)
            &&& told(end, "output"@) == Some(
                match printed {
                    Some(text) => text,
                    None => Seq::empty(),
                },
            )
            &&& printed matches Some(text) ==> {
                &&& r.notes.len() > 1
                &&& piece.get_str("method"@) == Some("codex/event/exec_command_output_delta"@)
                &&& told(piece, "threadId"@) == Some(thread_id)
                &&& told(piece, "turnId"@) == Some(turn_id)
                &&& told(piece, "call_id"@) == Some(call_id)
                &&& told(piece, "command"@) == Some(call.command)
                &&& told(piece, "cwd"@) == Some(call.cwd)
                &&& told(piece, "chunk"@) == Some(text)
            }
            &&& r.notes.len() == (if state.thinking {
                0int
            } else {
                1int
            }) + (if printed is Some {
                2int
            } else {
                1int
            })
            &&& r.state.calls.dom() == state.calls.dom().remove(call_id)
            &&& r.state.turn == state.turn
        }),
{
    reveal_strlit("session_meta");
    reveal_strlit("event_msg");
    reveal_strlit("response_item");
    assert("session_meta"@.len() == 12 && "event_msg"@.len() == 9);
    assert("response_item"@.len() == 13);
    reveal_strlit("task_started");
    reveal_strlit("user_message");
    reveal_strlit("task_complete");
    reveal_strlit("agent_reasoning");
    reveal_strlit("agent_message");
    assert("task_started"@[0] == 't' && "user_message"@[0] == 'u');
    assert("task_complete"@[0] == 't' && "agent_message"@[0] == 'a');
    assert("task_started"@.len() == 12 && "user_message"@.len() == 12);
    assert("task_complete"@.len() == 13 && "agent_reasoning"@.len() == 15);
    assert("agent_message"@.len() == 13);
    reveal_strlit("reasoning");
    reveal_strlit("function_call");
    reveal_strlit("function_call_output");
    assert("reasoning"@.len() == 9 && "function_call"@.len() == 13);
    assert("function_call_output"@.len() == 20);
    reveal_strlit("method");
    reveal_strlit("params");
    assert("method"@[0] == 'm' && "params"@[0] == 'p' && "method"@.len() == 6);
    assert("params"@.len() == 6);
    reveal_strlit("threadId");
    reveal_strlit("turnId");
    reveal_strlit("call_id");
    reveal_strlit("command");
    reveal_strlit("cwd");
    reveal_strlit("status");
    reveal_strlit("chunk");
    reveal_strlit("output");
    assert("turnId"@[0] == 't' && "status"@[0] == 's' && "output"@[0] == 'o');
    assert("call_id"@[1] == 'a' && "command"@[1] == 'o' && "threadId"@.len() == 8);
    assert("turnId"@.len() == 6 && "call_id"@.len() == 7 && "command"@.len() == 7);
    assert("cwd"@.len() == 3 && "status"@.len() == 6 && "chunk"@.len() == 5);
    assert("output"@.len() == 6);
    let r = entry_read(state, entry, thread_id);
    if let Some(value) = entry.get2("payload"@, "output"@) {
        if let Some(text) = value.as_str() {
            crate::text::lemma_trimmed_twice(text);
        }
    }
    assert(r.state.calls.dom() =~= state.calls.dom().remove(call_id));
}

/// An answer to a call that is not known, or to a tool that runs no command, tells nothing.
pub proof fn law_other_answers_tell_nothing(
    state: MirrorView,
    entry: JsonView,
    thread_id: Seq<char>,
)
    requires
        is_entry(entry, "response_item"@, "function_call_output"@),
        match payload_text(entry, "call_id"@, "callId"@) {
            Some(id) => !state.calls.dom().contains(id) || (ascii_lower(state.calls[id].tool_name)
                != "exec_command"@ && ascii_lower(state.calls[id].tool_name) != "shell_command"@),
            None => true,
        },
    ensures
        entry_read(state, entry, thread_id).notes.len() == 0,
        entry_read(state, entry, thread_id).state.turn == state.turn,
{
    reveal_strlit("session_meta");
    reveal_strlit("event_msg");
    reveal_strlit("response_item");
    assert("session_meta"@.len() == 12 && "event_msg"@.len() == 9);
    assert("response_item"@.len() == 13);
    reveal_strlit("reasoning");
    reveal_strlit("function_call");
    reveal_strlit("function_call_output");
    assert("reasoning"@.len() == 9 && "function_call"@.len() == 13);
    assert("function_call_output"@.len() == 20);
}

/// Entries of other kinds tell nothing and change nothing.
pub proof fn law_other_entries_tell_nothing(state: MirrorView, entry: JsonView, thread_id: Seq<char>)
    requires
        ({
            let kind = entry.read("type"@);
            let payload_kind = entry.read2("payload"@, "type"@);
            &&& kind != Some("session_meta"@)
            &&& kind == Some("event_msg"@) ==> payload_kind != Some("task_started"@)
                && payload_kind != Some("user_message"@) && payload_kind != Some("task_complete"@)
                && payload_kind != Some("agent_reasoning"@) && payload_kind != Some(
                "agent_message"@,
            )
            &&& kind == Some("response_item"@) ==> payload_kind != Some("reasoning"@)
                && payload_kind != Some("function_call"@) && payload_kind != Some(
                "function_call_output"@,
            )
        }),
    ensures
        entry_read(state, entry, thread_id) == silent(state),
{
    reveal_strlit("session_meta");
    reveal_strlit("event_msg");
    reveal_strlit("response_item");
    assert("session_meta"@.len() == 12 && "event_msg"@.len() == 9);
    assert("response_item"@.len() == 13);
    reveal_strlit("task_started");
    reveal_strlit("user_message");
    reveal_strlit("task_complete");
    reveal_strlit("agent_reasoning");
    reveal_strlit("agent_message");
    assert("task_started"@[0] == 't' && "user_message"@[0] == 'u');
    assert("task_complete"@[0] == 't' && "agent_message"@[0] == 'a');
    assert("task_started"@.len() == 12 && "user_message"@.len() == 12);
    assert("task_complete"@.len() == 13 && "agent_reasoning"@.len() == 15);
    assert("agent_message"@.len() == 13);
    reveal_strlit("reasoning");
    reveal_strlit("function_call");
    reveal_strlit("function_call_output");
    assert("reasoning"@.len() == 9 && "function_call"@.len() == 13);
    assert("function_call_output"@.len() == 20);
}

/// The header of a session tells where it runs and who started it; once a session is not from the
/// desktop it stays so.
pub proof fn law_header_tells_the_origin(
    state: MirrorView,
    entry: JsonView,
    thread_id: Seq<char>,
    payload: JsonView,
)
    requires
        entry.read("type"@) == Some("session_meta"@),
        entry.get("payload"@) == Some(payload),
    ensures
        ({
            let r = entry_read(state, entry, thread_id);
            let meta = MetaView {
                originator: payload.read_or_empty("originator"@),
                source: payload.read_or_empty("source"@),
                cwd: payload.read_or_empty("cwd"@),
            };
            &&& r.notes.len() == 0
            &&& r.state.meta == Some(meta)
            &&& r.state.turn == state.turn
            &&& r.state.calls == state.calls
            &&& !desktop_origin(Some(meta)) ==> r.state.desktop == Some(false)
            &&& desktop_origin(Some(meta)) ==> r.state.desktop == if state.desktop == Some(false) {
                Some(false)
            } else {
                Some(true)
            }
        }),
{
}

/// A session is from the desktop exactly if its originator or its source names the desktop or the
/// editor, and its originator names no phone.
pub proof fn law_who_is_the_desktop(meta: MetaView)
    ensures
        ({
            let originator = ascii_lower(meta.originator);
            let source = ascii_lower(meta.source);
            let phone = contains(originator, "mobile"@) || contains(originator, "ios"@);
            let desktop = contains(originator, "desktop"@) || contains(originator, "vscode"@)
                || contains(source, "desktop"@) || contains(source, "vscode"@);
            desktop_origin(Some(meta)) <==> desktop && !phone
        }),
        !desktop_origin(None),
{
    reveal_strlit("desktop");
    reveal_strlit("vscode");
    assert("desktop"@.len() == 7 && "vscode"@.len() == 6);
    lemma_holds_no_more(ascii_lower(meta.originator), "desktop"@);
    lemma_holds_no_more(ascii_lower(meta.originator), "vscode"@);
    lemma_holds_no_more(ascii_lower(meta.source), "desktop"@);
    lemma_holds_no_more(ascii_lower(meta.source), "vscode"@);
}

proof fn lemma_holds_no_more(s: Seq<char>, part: Seq<char>)
    ensures
        contains(s, part) ==> s.len() >= part.len(),
{
}

// Records as a whole.

/// Whether a line of a record is an event of a kind, as an entry.
pub open spec fn is_event(line: Seq<char>, kind: Seq<char>) -> bool {
    !is_blank(line) && (json_parse(trimmed(line)) matches Some(entry) && entry.read("type"@)
        == Some("event_msg"@) && entry.read2("payload"@, "type"@) == Some(kind))
}

/// A run that goes on is read from its start: the line that starts it comes first, behind the last
/// thing that the user said, and every later entry is added to it until it is complete.
pub proof fn law_live_run_is_collected(
    meta: Option<MetaView>,
    lines: Seq<Seq<char>>,
    line: Seq<char>,
)
    ensures
        ({
            let before = boot_lines(meta, lines);
            let after = boot_lines(meta, lines.push(line));
            let is_entry = !is_blank(line) && json_parse(trimmed(line)) is Some;
            let said = if is_event(line, "user_message"@) {
                Some(trimmed(line))
            } else {
                before.prelude
            };
            &&& !is_entry ==> after == before
            &&& is_event(line, "task_started"@) ==> {
                &&& after.inside
                &&& after.run.last() == trimmed(line)
                &&& after.run.len() == if before.prelude is Some {
                    2nat
                } else {
                    1nat
                }
                &&& before.prelude matches Some(prelude) ==> after.run[0] == prelude
                &&& after.turn == {
                    let payload = (json_parse(trimmed(line))->0).get("payload"@)->0;
                    or_else(payload.read("turn_id"@), payload.read("turnId"@))
                }
            }
            &&& is_event(line, "task_complete"@) && before.inside ==> !after.inside
                && after.run.len() == 0 && after.turn is None && after.prelude is None
            &&& is_entry && !is_event(line, "task_started"@) && !is_event(line, "task_complete"@)
                ==> after.inside == before.inside && after.turn == before.turn && after.prelude
                == said && after.run == if before.inside {
                before.run.push(trimmed(line))
            } else {
                before.run
            }
        }),
        boot_lines(meta, Seq::<Seq<char>>::empty()).run.len() == 0,
        !boot_lines(meta, Seq::<Seq<char>>::empty()).inside,
        boot_lines(meta, Seq::<Seq<char>>::empty()).meta == meta,
{
    assert(lines.push(line).drop_last() =~= lines);
    reveal_strlit("user_message");
    reveal_strlit("task_started");
    reveal_strlit("task_complete");
    assert("user_message"@[0] == 'u' && "task_started"@[0] == 't');
    assert("user_message"@.len() == 12 && "task_started"@.len() == 12);
    assert("task_complete"@.len() == 13);
}

/// The header of a record is the one that was read last.
pub proof fn law_last_header_counts(
    meta: Option<MetaView>,
    lines: Seq<Seq<char>>,
    line: Seq<char>,
    entry: JsonView,
    payload: JsonView,
)
    requires
        !is_blank(line),
        json_parse(trimmed(line)) == Some(entry),
        entry.get("payload"@) == Some(payload),
    ensures
        entry.read("type"@) == Some("session_meta"@) ==> boot_lines(meta, lines.push(line)).meta
            == Some(
            MetaView {
                originator: payload.read_or_empty("originator"@),
                source: payload.read_or_empty("source"@),
                cwd: payload.read_or_empty("cwd"@),
            },
        ),
        entry.read("type"@) != Some("session_meta"@) ==> boot_lines(meta, lines.push(line)).meta
            == boot_lines(meta, lines).meta,
{
    assert(lines.push(line).drop_last() =~= lines);
}

/// A record that is read for the first time tells the run that goes on, in its turn, and of a
/// session of the desktop alone.
pub proof fn law_first_look_tells_the_live_run(
    state: MirrorView,
    raw: Seq<char>,
    thread_id: Seq<char>,
)
    ensures
        ({
            let boot = boot_lines(state.meta, lines(raw));
            let r = bootstrapped(state, raw, thread_id);
            &&& !desktop_origin(boot.meta) ==> r.texts.len() == 0 && r.state.desktop == Some(false)
            &&& desktop_origin(boot.meta) ==> r == lines_told(
                MirrorView { meta: boot.meta, desktop: Some(true), turn: boot.turn, ..state },
                boot.run,
                thread_id,
            )
        }),
{
}

/// Every line of a record tells what its entry tells, behind what the lines before it told.
pub proof fn law_lines_are_told_in_order(
    state: MirrorView,
    lines: Seq<Seq<char>>,
    line: Seq<char>,
    thread_id: Seq<char>,
)
    ensures
        ({
            let before = lines_told(state, lines, thread_id);
            let after = lines_told(state, lines.push(line), thread_id);
            &&& is_blank(line) || json_parse(trimmed(line)) is None ==> after == before
            &&& !is_blank(line) ==> (json_parse(trimmed(line)) matches Some(entry) ==> {
                let r = entry_read(before.state, entry, thread_id);
                &&& after.state == r.state
                &&& after.texts.len() == before.texts.len() + r.notes.len()
                &&& forall|i: int|
                    0 <= i < before.texts.len() ==> #[trigger] after.texts[i] == before.texts[i]
                &&& forall|i: int|
                    0 <= i < r.notes.len() ==> after.texts[before.texts.len() + i] == json_print(
                        #[trigger] r.notes[i],
                    )
            })
        }),
        lines_told(state, Seq::<Seq<char>>::empty(), thread_id).texts.len() == 0,
        lines_told(state, Seq::<Seq<char>>::empty(), thread_id).state == state,
{
    assert(lines.push(line).drop_last() =~= lines);
}

// Which runs are mirrored.

/// A thread that the phone reads or resumes is mirrored from then on; one that is mirrored is
/// mirrored on as it is, for longer. No other request starts a mirror.
pub proof fn law_looking_at_a_thread_mirrors_it(
    mirrors: Seq<ThreadView>,
    request: JsonView,
    now_ms: u64,
)
    ensures
        ({
            let looks = request.read("method"@) == Some("thread/read"@) || request.read("method"@)
                == Some("thread/resume"@);
            let thread = or_else(
                request.read2("params"@, "threadId"@),
                request.read2("params"@, "thread_id"@),
            );
            let after = observing(mirrors, watched_thread(request), now_ms);
            &&& !looks || thread is None ==> after == mirrors
            &&& looks ==> (thread matches Some(id) ==> {
                &&& after.len() >= mirrors.len()
                &&& !is_mirrored(mirrors, id) ==> after.len() == mirrors.len() + 1
                    && after.last().thread_id == id && after.last().started_at_ms == now_ms
                    && after.last().last_activity_ms == now_ms && !after.last().booted
                    && after.last().path is None && after.last().last_size == 0
                &&& is_mirrored(mirrors, id) ==> after.len() == mirrors.len()
                &&& forall|i: int|
                    0 <= i < mirrors.len() ==> (#[trigger] after[i]) == if mirrors[i].thread_id == id {
                        ThreadView { last_activity_ms: now_ms, ..mirrors[i] }
                    } else {
                        mirrors[i]
                    }
            })
        }),
{
    reveal_strlit("thread/read");
    reveal_strlit("thread/resume");
    assert("thread/read"@.len() == 11 && "thread/resume"@.len() == 13);
    let thread = or_else(
        request.read2("params"@, "threadId"@),
        request.read2("params"@, "thread_id"@),
    );
    if let Some(id) = thread {
        assert forall|i: int| 0 <= i < mirrors.len() && !is_mirrored(mirrors, id) implies (
        #[trigger] mirrors[i]).thread_id != id by {}
    }
}

/// A record is looked for during five seconds, and a run that stands still is mirrored for a
/// minute.
pub proof fn law_mirrors_give_up_in_time(
    mirror: ThreadView,
    now_ms: u64,
    path: Seq<char>,
    size: u64,
    text: Option<Seq<char>>,
)
    requires
        now_ms >= mirror.started_at_ms,
        now_ms >= mirror.last_activity_ms,
    ensures
        mirror.path is None ==> (mirror.polled(now_ms, LookView::NoPath).keep <==> now_ms
            - mirror.started_at_ms < 5_000),
        mirror.path is None && now_ms - mirror.started_at_ms >= 5_000 ==> !mirror.polled(
            now_ms,
            LookView::File { path, size, text },
        ).keep,
        mirror.path is Some && mirror.booted && size <= mirror.last_size ==> (mirror.polled(
            now_ms,
            LookView::File { path, size, text },
        ).keep <==> now_ms - mirror.last_activity_ms < 60_000) && mirror.polled(
            now_ms,
            LookView::File { path, size, text },
        ).texts.len() == 0,
        mirror.path is Some ==> !mirror.polled(now_ms, LookView::NoFile).keep,
{
}

/// A mirror reads all of a record first and then what has come behind what it read; growth counts
/// as activity.
pub proof fn law_growth_is_read_once(
    mirror: ThreadView,
    now_ms: u64,
    path: Seq<char>,
    size: u64,
    text: Seq<char>,
)
    requires
        mirror.path is Some,
    ensures
        !mirror.booted ==> mirror.read_plan(size) == ReadPlan::Whole,
        mirror.booted && size > mirror.last_size ==> mirror.read_plan(size) == (ReadPlan::Slice {
            start: mirror.last_size,
            end: size,
        }),
        mirror.booted && size <= mirror.last_size ==> mirror.read_plan(size) == ReadPlan::Nothing,
        !mirror.booted || size > mirror.last_size ==> ({
            let after = mirror.polled(now_ms, LookView::File { path, size, text: Some(text) });
            after.mirror.booted && after.mirror.last_size == size && after.mirror.last_activity_ms
                == now_ms && after.mirror.path == Some(path) && after.mirror.thread_id
                == mirror.thread_id
        }),
        !mirror.booted ==> mirror.polled(
            now_ms,
            LookView::File { path, size, text: Some(text) },
        ).texts == bootstrapped(mirror.state, text, mirror.thread_id).texts,
{
}

/// A line that is not complete yet waits for the rest of it; the complete lines in front of it are
/// told.
pub proof fn law_unfinished_line_waits(
    mirror: ThreadView,
    now_ms: u64,
    path: Seq<char>,
    size: u64,
    chunk: Seq<char>,
    complete: Seq<char>,
    open: Seq<char>,
)
    requires
        mirror.path is Some,
        mirror.booted,
        size > mirror.last_size,
        chunk.len() > 0,
        mirror.partial + chunk == complete + seq!['\n'] + open,
        !open.contains('\n'),
    ensures
        ({
            let after = mirror.polled(now_ms, LookView::File { path, size, text: Some(chunk) });
            let told = lines_told(
                mirror.state,
                crate::text::split(complete, "\n"@),
                mirror.thread_id,
            );
            &&& after.mirror.partial == open
            &&& after.texts == told.texts
            &&& after.mirror.state == told.state
            &&& after.keep <==> told.state.desktop != Some(false)
        }),
{
    reveal_strlit("\n");
    assert("\n"@ =~= seq!['\n']);
    crate::text_laws::law_last_piece_of_a_text(complete, '\n', open);
    let pieces = crate::text::split(complete, "\n"@);
    assert(pieces.push(open).drop_last() =~= pieces);
}

/// Without a line end nothing is told, and all of it waits.
pub proof fn law_growth_without_a_line_end_waits(
    mirror: ThreadView,
    now_ms: u64,
    path: Seq<char>,
    size: u64,
    chunk: Seq<char>,
)
    requires
        mirror.path is Some,
        mirror.booted,
        size > mirror.last_size,
        chunk.len() > 0,
        !(mirror.partial + chunk).contains('\n'),
    ensures
        ({
            let after = mirror.polled(now_ms, LookView::File { path, size, text: Some(chunk) });
            &&& after.mirror.partial == mirror.partial + chunk
            &&& after.texts.len() == 0
            &&& after.mirror.state == mirror.state
        }),
{
    reveal_strlit("\n");
    assert("\n"@ =~= seq!['\n']);
    crate::text_laws::law_text_is_cut_at_a_character(mirror.partial + chunk, '\n', Seq::empty());
    assert(seq![mirror.partial + chunk].drop_last() =~= Seq::empty());
}

/// What all mirrors tell is what each tells, in their order.
pub proof fn law_all_mirrors_tell(
    mirrors: Seq<ThreadView>,
    looks: Seq<LookView>,
    mirror: ThreadView,
    look: LookView,
    now_ms: u64,
)
    requires
        mirrors.len() == looks.len(),
    ensures
        all_polled(mirrors.push(mirror), looks.push(look), now_ms).texts == all_polled(
            mirrors,
            looks,
            now_ms,
        ).texts + mirror.polled(now_ms, look).texts,
        all_polled(mirrors.push(mirror), looks.push(look), now_ms).mirrors == if mirror.polled(
            now_ms,
            look,
        ).keep {
            all_polled(mirrors, looks, now_ms).mirrors.push(mirror.polled(now_ms, look).mirror)
        } else {
            all_polled(mirrors, looks, now_ms).mirrors
        },
{
    assert(mirrors.push(mirror).drop_last() =~= mirrors);
    assert(looks.push(look).drop_last() =~= looks);
}

} // verus!
