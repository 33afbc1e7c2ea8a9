//! What the bridge does with the messages that pass through it.
use vstd::prelude::*;

use crate::bridge::messages::{
    codex_answer, managed_id, managed_request, new_core, task_of, BridgeTask, CodexRouteView,
    CoreView, LoginView, RouteView, WatchView,
};
use crate::bridge::support::{
    clean_content, clean_item, clean_message, clean_turn, context_of, error_code, has_image,
    is_inline_image, message_id, registration_headers, registration_view, relay_url,
    relayed_answer, session_path, url_parse, url_path, url_scheme, url_with_path,
    url_with_scheme, ContextOf,
};
use crate::bridge::thread_runtime::{existing_thread, goes_on};
use crate::json::{json_parse, json_print, JsonView, NumberView};
use crate::secure_device_state::DeviceView;
use crate::text::{ascii_lower, contains, decimal, has_prefix, trimmed};

verus! {

/// The message goes to a part of the bridge, with its identifier and its parameters.
pub open spec fn goes_to(core: CoreView, message: JsonView, part: BridgeTask) -> bool {
    core.route(message) matches RouteView::Spawn { request_id, method, params, task }
        && request_id == message.get("id"@) && Some(method) == message.read("method"@) && task
        == part && match message.get("params"@) {
        Some(given) => params == given,
        None => params == JsonView::Object(Map::empty()),
    }
}

/// Who answers a message of the phone: accounts, voices, contexts, the desktop and notifications
/// by their names, workspaces and git by how their names begin.
#[verifier::rlimit(60)]
pub proof fn law_who_answers_a_message(core: CoreView, message: JsonView, method: Seq<char>)
    requires
        message.read("method"@) == Some(method),
    ensures
        method == "account/status/read"@ || method == "getAuthStatus"@ || method
            == "account/login/openOnMac"@ ==> goes_to(core, message, BridgeTask::Account),
        method == "voice/resolveAuth"@ || method == "voice/transcribe"@ ==> goes_to(
            core,
            message,
            BridgeTask::Voice,
        ),
        method == "thread/contextWindow/read"@ ==> goes_to(
            core,
            message,
            BridgeTask::ThreadContext,
        ),
        method == "desktop/continueOnMac"@ ==> goes_to(core, message, BridgeTask::Desktop),
        method == "notifications/push/register"@ ==> goes_to(
            core,
            message,
            BridgeTask::Notifications,
        ),
        has_prefix(method, "workspace/"@) ==> goes_to(core, message, BridgeTask::Workspace),
        has_prefix(method, "git/"@) ==> goes_to(core, message, BridgeTask::Git),
{
    reveal_strlit("account/status/read");
    reveal_strlit("getAuthStatus");
    reveal_strlit("account/login/openOnMac");
    reveal_strlit("voice/resolveAuth");
    reveal_strlit("voice/transcribe");
    reveal_strlit("thread/contextWindow/read");
    reveal_strlit("desktop/continueOnMac");
    reveal_strlit("notifications/push/register");
    reveal_strlit("workspace/");
    reveal_strlit("git/");
    reveal_strlit("initialize");
    reveal_strlit("initialized");
    assert("workspace/"@[0] == 'w' && "initialize"@[0] == 'i');
    assert("account/status/read"@.len() == 19 && "getAuthStatus"@.len() == 13);
    assert("account/login/openOnMac"@.len() == 23 && "voice/resolveAuth"@.len() == 17);
    assert("voice/transcribe"@.len() == 16 && "thread/contextWindow/read"@.len() == 25);
    assert("desktop/continueOnMac"@.len() == 21);
    assert("notifications/push/register"@.len() == 27 && "workspace/"@.len() == 10);
    assert("git/"@.len() == 4 && "initialize"@.len() == 10 && "initialized"@.len() == 11);
    assert("account/status/read"@[0] == 'a' && "account/status/read"@[1] == 'c');
    assert("getAuthStatus"@[0] == 'g' && "getAuthStatus"@[1] == 'e');
    assert("account/login/openOnMac"@[0] == 'a' && "account/login/openOnMac"@[1] == 'c');
    assert("voice/resolveAuth"@[0] == 'v' && "voice/resolveAuth"@[1] == 'o');
    assert("voice/transcribe"@[0] == 'v' && "voice/transcribe"@[1] == 'o');
    assert("thread/contextWindow/read"@[0] == 't' && "thread/contextWindow/read"@[1] == 'h');
    assert("desktop/continueOnMac"@[0] == 'd' && "desktop/continueOnMac"@[1] == 'e');
    assert("notifications/push/register"@[0] == 'n' && "notifications/push/register"@[1] == 'o');
    assert("workspace/"@[0] == 'w' && "workspace/"@[1] == 'o');
    assert("git/"@[0] == 'g' && "git/"@[1] == 'i');
    assert("initialize"@[0] == 'i' && "initialize"@[1] == 'n');
    assert("initialized"@[0] == 'i' && "initialized"@[1] == 'n');
    if has_prefix(method, "workspace/"@) {
        assert(method.subrange(0, "workspace/"@.len() as int)[0] == method[0]);
        assert(method.subrange(0, "workspace/"@.len() as int)[1] == method[1]);
        assert(method.subrange(0, "workspace/"@.len() as int)[2] == method[2]);
        assert(method.subrange(0, "workspace/"@.len() as int)[3] == method[3]);
    }
    if has_prefix(method, "git/"@) {
        assert(method.subrange(0, "git/"@.len() as int)[0] == method[0]);
        assert(method.subrange(0, "git/"@.len() as int)[1] == method[1]);
        assert(method.subrange(0, "git/"@.len() as int)[2] == method[2]);
        assert(method.subrange(0, "git/"@.len() as int)[3] == method[3]);
    }
}

/// Everything else goes to Codex, but for a handshake that Codex has had.
#[verifier::rlimit(60)]
pub proof fn law_other_messages_go_to_codex(core: CoreView, message: JsonView, method: Seq<char>)
    requires
        message.read("method"@) == Some(method),
        method != "account/status/read"@,
        method != "getAuthStatus"@,
        method != "account/login/openOnMac"@,
        method != "voice/resolveAuth"@,
        method != "voice/transcribe"@,
        method != "thread/contextWindow/read"@,
        method != "desktop/continueOnMac"@,
        method != "notifications/push/register"@,
        !has_prefix(method, "workspace/"@),
        !has_prefix(method, "git/"@),
    ensures
        method.len() > 0 && (!core.warm || (method != "initialize"@ && method != "initialized"@))
            ==> core.route(message) is Forward,
        core.warm && method == "initialized"@ ==> core.route(message) is Ignore,
{
    reveal_strlit("initialize");
    reveal_strlit("initialized");
    assert("initialize"@.len() == 10 && "initialized"@.len() == 11);
}

/// A message without a method is ignored.
pub proof fn law_message_without_a_method_is_ignored(core: CoreView, message: JsonView)
    requires
        message.read("method"@) is None,
    ensures
        core.route(message) is Ignore,
        core.routed(message) == core,
{
    reveal_strlit("initialize");
    assert("initialize"@.len() == 10);
}

/// The first handshake of a phone goes to Codex. Once Codex has answered it, or has said that it
/// had one, the next is answered by the bridge, to the one who asks; any other error lets the next
/// one through again.
#[verifier::rlimit(60)]
#[verifier::spinoff_prover]
pub proof fn law_codex_has_one_handshake(
    core: CoreView,
    message: JsonView,
    answer: JsonView,
    next: JsonView,
    now_ms: u64,
)
    requires
        !core.warm,
        message.read("method"@) == Some("initialize"@),
        message_id(message) is Some,
        message_id(answer) == message_id(message),
        !core.waiting.contains(message_id(message)->0),
        next.read("method"@) == Some("initialize"@),
        next.get("id"@) is Some,
    ensures
        core.route(message) is Forward,
        ({
            let after = core.routed(message).codex_message(Some(answer), now_ms);
            let had = answer.get("result"@) is Some || (answer.read2("error"@, "message"@)
                matches Some(text) && contains(ascii_lower(text), "already initialized"@));
            &&& after.warm <==> had
            &&& !after.initialize_ids.contains(message_id(message)->0)
            &&& had ==> after.route(next) == RouteView::Answer(
                json_print(
                    JsonView::Object(
                        map![
                            "id"@ => next.get("id"@)->0,
                            "result"@ => JsonView::Object(
                                map!["bridgeManaged"@ => JsonView::Bool(true)],
                            ),
                        ],
                    ),
                ),
            )
            &&& !had ==> after.route(next) is Forward
        }),
{
    reveal_strlit("account/status/read");
    reveal_strlit("getAuthStatus");
    reveal_strlit("account/login/openOnMac");
    reveal_strlit("voice/resolveAuth");
    reveal_strlit("voice/transcribe");
    reveal_strlit("thread/contextWindow/read");
    reveal_strlit("desktop/continueOnMac");
    reveal_strlit("notifications/push/register");
    reveal_strlit("workspace/");
    reveal_strlit("git/");
    reveal_strlit("initialize");
    reveal_strlit("initialized");
    reveal_strlit("already initialized");
    assert("account/status/read"@[1] == 'c' && "already initialized"@[1] == 'l');
    assert("workspace/"@[0] == 'w' && "initialize"@[0] == 'i');
    assert("account/status/read"@.len() == 19 && "getAuthStatus"@.len() == 13);
    assert("account/login/openOnMac"@.len() == 23 && "voice/resolveAuth"@.len() == 17);
    assert("voice/transcribe"@.len() == 16 && "thread/contextWindow/read"@.len() == 25);
    assert("desktop/continueOnMac"@.len() == 21);
    assert("notifications/push/register"@.len() == 27 && "workspace/"@.len() == 10);
    assert("git/"@.len() == 4 && "initialize"@.len() == 10 && "initialized"@.len() == 11);
    assert("already initialized"@.len() == 19);
    assert("account/status/read"@[0] == 'a' && "account/status/read"@[1] == 'c');
    assert("getAuthStatus"@[0] == 'g' && "getAuthStatus"@[1] == 'e');
    assert("account/login/openOnMac"@[0] == 'a' && "account/login/openOnMac"@[1] == 'c');
    assert("voice/resolveAuth"@[0] == 'v' && "voice/resolveAuth"@[1] == 'o');
    assert("voice/transcribe"@[0] == 'v' && "voice/transcribe"@[1] == 'o');
    assert("thread/contextWindow/read"@[0] == 't' && "thread/contextWindow/read"@[1] == 'h');
    assert("desktop/continueOnMac"@[0] == 'd' && "desktop/continueOnMac"@[1] == 'e');
    assert("notifications/push/register"@[0] == 'n' && "notifications/push/register"@[1] == 'o');
    assert("workspace/"@[0] == 'w' && "workspace/"@[1] == 'o');
    assert("git/"@[0] == 'g' && "git/"@[1] == 'i');
    assert("initialize"@[0] == 'i' && "initialize"@[1] == 'n');
    assert("initialized"@[0] == 'i' && "initialized"@[1] == 'n');
    if has_prefix("initialize"@, "workspace/"@) {
        assert("initialize"@.subrange(0, "workspace/"@.len() as int)[0] == "initialize"@[0]);
        assert("initialize"@.subrange(0, "workspace/"@.len() as int)[1] == "initialize"@[1]);
        assert("initialize"@.subrange(0, "workspace/"@.len() as int)[2] == "initialize"@[2]);
        assert("initialize"@.subrange(0, "workspace/"@.len() as int)[3] == "initialize"@[3]);
    }
    if has_prefix("initialize"@, "git/"@) {
        assert("initialize"@.subrange(0, "git/"@.len() as int)[0] == "initialize"@[0]);
        assert("initialize"@.subrange(0, "git/"@.len() as int)[1] == "initialize"@[1]);
        assert("initialize"@.subrange(0, "git/"@.len() as int)[2] == "initialize"@[2]);
        assert("initialize"@.subrange(0, "git/"@.len() as int)[3] == "initialize"@[3]);
    }
    if answer.read2("error"@, "message"@) is None && contains(
        ascii_lower(Seq::empty()),
        "already initialized"@,
    ) {
        let i = choose|i: int|
            crate::text::occurs_at(ascii_lower(Seq::empty()), "already initialized"@, i);
        assert(crate::text::occurs_at(ascii_lower(Seq::empty()), "already initialized"@, i));
    }
}

/// An answer to a handshake that nobody sent changes nothing of it.
pub proof fn law_other_answers_are_no_handshake(core: CoreView, message: JsonView, now_ms: u64)
    requires
        message_id(message) matches Some(id) ==> !core.initialize_ids.contains(id),
    ensures
        core.codex_message(Some(message), now_ms).warm == core.warm,
        core.codex_message(Some(message), now_ms).initialize_ids == core.initialize_ids,
{
}

/// Signing in: the answer to the request tells where to go. It is kept for as long as somebody may
/// be signing in, and only where the answer came in time.
#[verifier::rlimit(60)]
#[verifier::spinoff_prover]
pub proof fn law_login_is_remembered(
    core: CoreView,
    request: JsonView,
    sent_ms: u64,
    answer: JsonView,
    now_ms: u64,
)
    requires
        request.read("method"@) == Some("account/login/start"@),
        message_id(request) is Some,
        message_id(answer) == message_id(request),
        answer.get("method"@) is None,
        !core.waiting.contains(message_id(request)->0),
    ensures
        ({
            let after = core.tracking(request, sent_ms).codex_message(Some(answer), now_ms);
            let login_id = answer.read2("result"@, "loginId"@);
            let auth_url = answer.read2("result"@, "authUrl"@);
            &&& now_ms < sent_ms + 120_000 && login_id is Some && auth_url is Some ==> after.login
                == LoginView {
                login_id,
                auth_url,
                request_id: message_id(request),
                started_at_ms: Some(now_ms),
            }
            &&& now_ms < sent_ms + 120_000 && (login_id is None || auth_url is None)
                ==> after.login.login_id is None && after.login.auth_url is None
            &&& now_ms >= sent_ms + 120_000 ==> after.login == core.login
            &&& !after.forwarded.dom().contains(message_id(request)->0)
        }),
{
    reveal_strlit("account/login/start");
    reveal_strlit("account/login/cancel");
    reveal_strlit("account/logout");
    reveal_strlit("thread/read");
    reveal_strlit("thread/resume");
    reveal_strlit("account/login/completed");
    reveal_strlit("account/updated");
    assert("account/login/start"@.len() == 19 && "account/login/cancel"@.len() == 20);
    assert("account/logout"@.len() == 14 && "thread/read"@.len() == 11);
    assert("thread/resume"@.len() == 13 && "account/login/completed"@.len() == 23);
    assert("account/updated"@.len() == 15);
    assert(answer.read_or_empty("method"@) == Seq::<char>::empty());
}

/// A login ends when it is cancelled, when somebody signs out, and when Codex says that it is done.
#[verifier::rlimit(60)]
#[verifier::spinoff_prover]
pub proof fn law_login_ends(
    core: CoreView,
    request: JsonView,
    sent_ms: u64,
    answer: JsonView,
    now_ms: u64,
)
    requires
        message_id(answer) matches Some(id) ==> !core.waiting.contains(id),
    ensures
        (request.read("method"@) == Some("account/login/cancel"@) || request.read("method"@)
            == Some("account/logout"@)) && message_id(request) is Some && message_id(answer)
            == message_id(request) && now_ms < sent_ms + 120_000 ==> core.tracking(
            request,
            sent_ms,
        ).codex_message(Some(answer), now_ms).login.login_id is None,
        message_id(answer) is None && (answer.read("method"@) == Some("account/login/completed"@)
            || answer.read("method"@) == Some("account/updated"@)) ==> core.codex_message(
            Some(answer),
            now_ms,
        ).login.login_id is None,
        message_id(answer) is None && answer.read("method"@) != Some("account/login/completed"@)
            && answer.read("method"@) != Some("account/updated"@) ==> core.codex_message(
            Some(answer),
            now_ms,
        ).login == core.login,
{
    reveal_strlit("account/login/start");
    reveal_strlit("account/login/cancel");
    reveal_strlit("account/logout");
    reveal_strlit("thread/read");
    reveal_strlit("thread/resume");
    reveal_strlit("account/login/completed");
    reveal_strlit("account/updated");
    assert("account/login/start"@.len() == 19 && "account/login/cancel"@.len() == 20);
    assert("account/logout"@.len() == 14 && "thread/read"@.len() == 11);
    assert("thread/resume"@.len() == 13 && "account/login/completed"@.len() == 23);
    assert("account/updated"@.len() == 15);
    assert(answer.read_or_empty("method"@).len() == 0 ==> answer.read_or_empty("method"@)
        != "account/updated"@);
}

/// Which requests are remembered when they are sent on: those about logins, and those whose answers
/// are looked through; for each its name and its time.
#[verifier::rlimit(60)]
#[verifier::spinoff_prover]
pub proof fn law_which_requests_are_remembered(
    core: CoreView,
    request: JsonView,
    method: Seq<char>,
    id: Seq<char>,
    now_ms: u64,
)
    requires
        request.read("method"@) == Some(method),
        message_id(request) == Some(id),
    ensures
        ({
            let after = core.tracking(request, now_ms);
            let login = method == "account/login/start"@ || method == "account/login/cancel"@
                || method == "account/logout"@;
            let history = method == "thread/read"@ || method == "thread/resume"@;
            &&& login ==> after.forwarded.dom().contains(id) && after.forwarded[id].method
                == method && after.forwarded[id].created_at_ms == now_ms
            &&& history ==> after.sanitized.dom().contains(id) && after.sanitized[id].method
                == method && after.sanitized[id].created_at_ms == now_ms
            &&& forall|other: Seq<char>|
                other != id || !login ==> (#[trigger] after.forwarded.dom().contains(other)
                    <==> core.forwarded.dom().contains(other) && now_ms
                    < core.forwarded[other].created_at_ms + 120_000)
            &&& forall|other: Seq<char>|
                other != id || !history ==> (#[trigger] after.sanitized.dom().contains(other)
                    <==> core.sanitized.dom().contains(other) && now_ms
                    < core.sanitized[other].created_at_ms + 120_000)
            &&& after.warm == core.warm && after.login == core.login && after.watch == core.watch
                && after.waiting == core.waiting && after.registry == core.registry
        }),
{
}

/// A turn that starts in a thread is watched from then on; one that is watched already stays.
#[verifier::rlimit(60)]
pub proof fn law_started_turn_is_watched(core: CoreView, context: ContextOf, now_ms: u64)
    ensures
        ({
            let after = core.noting(context, now_ms);
            let starts = context.thread_id.len() > 0 && (context.method == "turn/start"@
                || context.method == "turn/started"@);
            let key = context.thread_id + "|"@ + match context.turn_id {
                Some(turn) => turn,
                None => "pending-turn"@,
            };
            &&& !starts ==> after == core
            &&& starts ==> (after.watch matches Some(watch) && watch.key == key)
            &&& starts && (core.watch matches Some(watch) && watch.key == key) ==> after == core
            &&& starts && !(core.watch matches Some(watch) && watch.key == key) ==> (after.watch
                matches Some(watch) && watch.thread_id == context.thread_id && watch.turn_id
                == context.turn_id && watch.started_at_ms == now_ms && watch.last_usage is None)
        }),
{
}

/// A turn is watched for a minute and a half.
pub proof fn law_turn_is_watched_for_a_while(core: CoreView, watch: WatchView, now_ms: u64)
    requires
        core.watch == Some(watch),
    ensures
        now_ms <= watch.started_at_ms + 90_000 ==> core.watched(now_ms) == Some(watch),
        now_ms > watch.started_at_ms + 90_000 ==> core.watched(now_ms) is None,
{
}

/// The use of the context that was read is told, with the thread, where it is not what was told
/// before.
#[verifier::rlimit(60)]
pub proof fn law_use_of_the_context_is_told(core: CoreView, read: JsonView, watch: WatchView)
    requires
        core.watch == Some(watch),
    ensures
        read.get("usage"@) is None ==> core.usage_note(read) is None && core.usage_noted(read)
            == core,
        read.get("usage"@) matches Some(usage) ==> {
            &&& watch.last_usage == Some(json_print(usage)) ==> core.usage_note(read) is None
            &&& watch.last_usage != Some(json_print(usage)) ==> exists|note: JsonView|
                {
                    &&& core.usage_note(read) == Some(#[trigger] json_print(note))
                    &&& note.get_str("method"@) == Some("thread/tokenUsage/updated"@)
                    &&& note.get2("params"@, "threadId"@) == Some(JsonView::Text(watch.thread_id))
                    &&& note.get2("params"@, "usage"@) == Some(usage)
                }
            &&& core.usage_noted(read).watch == Some(
                WatchView { last_usage: Some(json_print(usage)), ..watch },
            )
        },
{
    reveal_strlit("method");
    reveal_strlit("params");
    reveal_strlit("threadId");
    reveal_strlit("usage");
    assert("method"@[0] == 'm' && "params"@[0] == 'p' && "method"@.len() == 6);
    assert("params"@.len() == 6 && "threadId"@.len() == 8 && "usage"@.len() == 5);
    if let Some(usage) = read.get("usage"@) {
        let note = JsonView::Object(
            map![
                "method"@ => JsonView::Text("thread/tokenUsage/updated"@),
                "params"@ => JsonView::Object(
                    map!["threadId"@ => JsonView::Text(watch.thread_id), "usage"@ => usage],
                ),
            ],
        );
        assert(watch.last_usage != Some(json_print(usage)) ==> core.usage_note(read) == Some(
            json_print(note),
        ));
        assert(note.get2("params"@, "threadId"@) == Some(JsonView::Text(watch.thread_id)));
        assert(note.get2("params"@, "usage"@) == Some(usage));
        assert(note.get_str("method"@) == Some("thread/tokenUsage/updated"@));
    }
}

/// What Codex answers to the bridge itself: its result, or the text of its error.
pub proof fn law_answer_to_the_bridge(message: JsonView)
    ensures
        message.get("error"@) is None ==> (message.get("result"@) matches Some(result)
            ==> codex_answer(message) == Ok::<JsonView, Seq<char>>(result)),
        message.get("error"@) is None && message.get("result"@) is None ==> codex_answer(message)
            == Ok::<JsonView, Seq<char>>(JsonView::Null),
        message.get("error"@) is Some ==> (message.read2("error"@, "message"@) matches Some(text)
            ==> codex_answer(message) == Err::<JsonView, Seq<char>>(text)),
        message.get("error"@) is Some && message.read2("error"@, "message"@) is None
            ==> codex_answer(message) == Err::<JsonView, Seq<char>>("Codex request failed"@),
{
}

/// A message of Codex answers the bridge exactly if the bridge waits for it; every other one goes to
/// the phone as it is, unless it answers a request for the history of a thread.
#[verifier::rlimit(60)]
pub proof fn law_who_gets_a_message_of_codex(
    core: CoreView,
    message: JsonView,
    raw: Seq<char>,
    now_ms: u64,
)
    ensures
        message_id(message) matches Some(id) ==> core.waiting.contains(id) ==> core.codex_route(
            Some(message),
            raw,
            now_ms,
        ) == (CodexRouteView::Answer { request_id: id, result: codex_answer(message) })
            && core.codex_message(Some(message), now_ms) == (CoreView {
            waiting: core.waiting.remove(id),
            ..core
        }),
        (message_id(message) matches Some(id) ==> !core.waiting.contains(id)
            && !core.sanitized.dom().contains(id)) ==> core.codex_route(Some(message), raw, now_ms)
            == (CodexRouteView::Pass {
            text: raw,
            active_thread: if context_of(message).thread_id.len() == 0 {
                None
            } else {
                Some(context_of(message).thread_id)
            },
        }),
        core.codex_route(None, raw, now_ms) == (CodexRouteView::Pass {
            text: raw,
            active_thread: None,
        }),
{
}

/// A message of Codex that goes to the phone teaches what it tells of threads, and is looked at as
/// the start of a turn.
#[verifier::rlimit(60)]
pub proof fn law_message_of_codex_is_learned_from(core: CoreView, message: JsonView, now_ms: u64)
    requires
        message_id(message) matches Some(id) ==> !core.waiting.contains(id),
    ensures
        ({
            let after = core.codex_message(Some(message), now_ms);
            &&& after.registry == core.registry.updated(message)
            &&& after.watch == core.noting(context_of(message), now_ms).watch
            &&& after.waiting == core.waiting
            &&& message_id(message) matches Some(id) ==> !after.sanitized.dom().contains(id)
                && !after.forwarded.dom().contains(id)
        }),
{
}

/// A request of the bridge itself carries its identifier, its name and its parameters.
pub proof fn law_own_request_is_written_out(
    token: Seq<char>,
    method: Seq<char>,
    params: JsonView,
)
    ensures
        ({
            let request = managed_request(managed_id(token), method, params);
            &&& request.get_str("id"@) == Some("bridge-managed-"@ + token)
            &&& request.get_str("method"@) == Some(method)
            &&& request.get("params"@) == Some(params)
        }),
{
    reveal_strlit("id");
    reveal_strlit("method");
    reveal_strlit("params");
    assert("method"@[0] == 'm' && "params"@[0] == 'p' && "id"@.len() == 2);
    assert("method"@.len() == 6 && "params"@.len() == 6);
}

/// A request that goes to Codex is sent as the registry of threads rewrites it, where it goes on
/// with a thread, and as it came otherwise.
#[verifier::rlimit(60)]
pub proof fn law_request_is_prepared(
    core: CoreView,
    message: JsonView,
    raw: Seq<char>,
    header: Option<JsonView>,
    now_ms: u64,
)
    ensures
        goes_on(message) ==> core.prepared_text(message, raw, header, now_ms)
            == core.registry.outbound(message, raw, header),
        !goes_on(message) ==> core.prepared_text(message, raw, header, now_ms) == raw,
{
    reveal_strlit("thread/start");
    reveal_strlit("thread/resume");
    reveal_strlit("turn/start");
    assert("thread/start"@.len() == 12 && "thread/resume"@.len() == 13);
    assert("turn/start"@.len() == 10);
    let registry = core.registry.pruned(now_ms).asking(message, now_ms);
    assert(registry.contexts == core.registry.contexts);
    if let Some(thread) = existing_thread(message) {
        assert(registry.known(thread) == core.registry.known(thread));
    }
}

/// Preparing a request forgets what was sent too long ago, remembers the model that a new thread is
/// asked for with, and changes nothing else.
#[verifier::rlimit(60)]
pub proof fn law_preparing_a_request_forgets_and_remembers(
    core: CoreView,
    message: JsonView,
    header: Option<JsonView>,
    now_ms: u64,
    id: Seq<char>,
)
    ensures
        ({
            let after = core.preparing(message, header, now_ms);
            &&& after.warm == core.warm && after.login == core.login && after.watch == core.watch
            &&& after.waiting == core.waiting && after.initialize_ids == core.initialize_ids
            &&& after.forwarded.dom().contains(id) <==> core.forwarded.dom().contains(id) && now_ms
                < core.forwarded[id].created_at_ms + 120_000
            &&& after.sanitized.dom().contains(id) <==> core.sanitized.dom().contains(id) && now_ms
                < core.sanitized[id].created_at_ms + 120_000
            &&& message_id(message) == Some(id) && message.read("method"@) == Some("thread/start"@)
                && message.read2("params"@, "model"@) is Some
                ==> after.registry.pending.dom().contains(id)
                && after.registry.pending[id].context.model == message.read2("params"@, "model"@)
                && after.registry.pending[id].created_at_ms == now_ms
            &&& message_id(message) != Some(id) ==> (after.registry.pending.dom().contains(id)
                <==> core.registry.pending.dom().contains(id) && now_ms
                < core.registry.pending[id].created_at_ms + 120_000)
        }),
{
}

/// A request that was sent is remembered, and a turn that it starts is watched.
pub proof fn law_request_that_was_sent_is_remembered(
    core: CoreView,
    message: JsonView,
    now_ms: u64,
)
    ensures
        core.forwarded(None, now_ms) == core,
        core.forwarded(Some(message), now_ms).forwarded == core.tracking(message, now_ms).forwarded,
        core.forwarded(Some(message), now_ms).sanitized == core.tracking(message, now_ms).sanitized,
        core.forwarded(Some(message), now_ms).watch == core.noting(
            context_of(message),
            now_ms,
        ).watch,
        core.forwarded(Some(message), now_ms).registry == core.registry,
{
}

/// A new bridge remembers nothing.
pub proof fn law_new_bridge_remembers_nothing(warm: bool, id: Seq<char>, now_ms: u64)
    ensures
        ({
            let core = new_core(warm);
            &&& core.warm == warm
            &&& !core.initialize_ids.contains(id)
            &&& !core.forwarded.dom().contains(id)
            &&& !core.sanitized.dom().contains(id)
            &&& !core.waiting.contains(id)
            &&& !core.registry.pending.dom().contains(id)
            &&& !core.registry.contexts.dom().contains(id)
            &&& core.login.login_id is None
            &&& core.watched(now_ms) is None
        }),
{
}

// What messages are about.

/// The identifier of a message: its text without the white space around it, or its digits.
pub proof fn law_identifier_of_a_message(message: JsonView, text: Seq<char>, n: u64)
    ensures
        message.get("id"@) is None ==> message_id(message) is None,
        message.get("id"@) == Some(JsonView::Text(text)) && trimmed(text).len() > 0 ==> message_id(
            message,
        ) == Some(trimmed(text)),
        message.get("id"@) == Some(JsonView::Text(text)) && trimmed(text).len() == 0
            ==> message_id(message) is None,
        message.get("id"@) == Some(JsonView::Number(NumberView::Unsigned(n))) ==> message_id(
            message,
        ) == Some(decimal(n as nat)),
        message.get("id"@) == Some(JsonView::Null) ==> message_id(message) is None,
        message.get("id"@) matches Some(JsonView::Bool(_)) ==> message_id(message) is None,
        message.get("id"@) matches Some(JsonView::Array(_)) ==> message_id(message) is None,
        message.get("id"@) matches Some(JsonView::Object(_)) ==> message_id(message) is None,
{
}

/// The thread of a message about turns or threads: the one that its parameters name, in either
/// spelling, else the one of the turn or the thread in them.
#[verifier::rlimit(80)]
#[verifier::spinoff_prover]
pub proof fn law_thread_of_a_message(
    message: JsonView,
    method: Seq<char>,
    params: JsonView,
    id: Seq<char>,
)
    requires
        message.read("method"@) == Some(method),
        message.get("params"@) == Some(params),
    ensures
        ({
            let found = context_of(message).thread_id;
            let turn = method == "turn/start"@ || method == "turn/started"@ || method
                == "turn/completed"@;
            let thread = method == "thread/start"@ || method == "thread/started"@;
            let none = params.read("threadId"@) is None && params.read("thread_id"@) is None;
            &&& context_of(message).method == method
            &&& !turn && !thread ==> found.len() == 0
            &&& (turn || thread) && params.read("threadId"@) == Some(id) ==> found == id
            &&& (turn || thread) && params.read("threadId"@) is None && params.read("thread_id"@)
                == Some(id) ==> found == id
            &&& turn && none && params.read2("turn"@, "threadId"@) == Some(id) ==> found == id
            &&& turn && none && params.read2("turn"@, "threadId"@) is None && params.read2(
                "turn"@,
                "thread_id"@,
            ) == Some(id) ==> found == id
            &&& thread && none && params.read2("thread"@, "id"@) == Some(id) ==> found == id
            &&& thread && none && params.read2("thread"@, "id"@) is None && params.read2(
                "thread"@,
                "threadId"@,
            ) == Some(id) ==> found == id
            &&& thread && none && params.read2("thread"@, "id"@) is None && params.read2(
                "thread"@,
                "threadId"@,
            ) is None && params.read2("thread"@, "thread_id"@) == Some(id) ==> found == id
        }),
{
    reveal_strlit("turn/start");
    reveal_strlit("turn/started");
    reveal_strlit("turn/completed");
    reveal_strlit("thread/start");
    reveal_strlit("thread/started");
    assert("turn/started"@[1] == 'u' && "thread/start"@[1] == 'h');
    assert("turn/completed"@[1] == 'u' && "thread/started"@[1] == 'h');
    assert("turn/start"@.len() == 10 && "turn/started"@.len() == 12);
    assert("turn/completed"@.len() == 14 && "thread/start"@.len() == 12);
    assert("thread/started"@.len() == 14);
}

/// The turn of a message that tells of the start or the end of one.
#[verifier::rlimit(80)]
#[verifier::spinoff_prover]
pub proof fn law_turn_of_a_message(
    message: JsonView,
    method: Seq<char>,
    params: JsonView,
    id: Seq<char>,
)
    requires
        message.read("method"@) == Some(method),
        message.get("params"@) == Some(params),
    ensures
        ({
            let found = context_of(message).turn_id;
            let told = method == "turn/started"@ || method == "turn/completed"@;
            &&& !told ==> found is None
            &&& told && params.read("turnId"@) == Some(id) ==> found == Some(id)
            &&& told && params.read("turnId"@) is None && params.read("turn_id"@) == Some(id)
                ==> found == Some(id)
            &&& told && params.read("turnId"@) is None && params.read("turn_id"@) is None
                && params.read("id"@) == Some(id) ==> found == Some(id)
            &&& told && params.read("turnId"@) is None && params.read("turn_id"@) is None
                && params.read("id"@) is None && params.read2("turn"@, "id"@) == Some(id) ==> found
                == Some(id)
            &&& told && params.read("turnId"@) is None && params.read("turn_id"@) is None
                && params.read("id"@) is None && params.read2("turn"@, "id"@) is None
                && params.read2("turn"@, "turnId"@) == Some(id) ==> found == Some(id)
            &&& told && params.read("turnId"@) is None && params.read("turn_id"@) is None
                && params.read("id"@) is None && params.read2("turn"@, "id"@) is None
                && params.read2("turn"@, "turnId"@) is None && params.read2("turn"@, "turn_id"@)
                == Some(id) ==> found == Some(id)
        }),
{
    reveal_strlit("turn/started");
    reveal_strlit("turn/completed");
    assert("turn/started"@.len() == 12 && "turn/completed"@.len() == 14);
}

/// What an error in the answer to a request is called, by who answers it.
#[verifier::rlimit(60)]
pub proof fn law_errors_are_named_by_who_answers(method: Seq<char>)
    ensures
        task_of(method) == Some(BridgeTask::Account) ==> error_code(method)
            == "auth_status_failed"@,
        task_of(method) == Some(BridgeTask::Voice) ==> error_code(method) == "voice_error"@,
        task_of(method) == Some(BridgeTask::ThreadContext) ==> error_code(method)
            == "thread_context_error"@,
        task_of(method) == Some(BridgeTask::Desktop) ==> error_code(method) == "desktop_error"@,
        task_of(method) == Some(BridgeTask::Notifications) ==> error_code(method)
            == "push_registration_failed"@,
        task_of(method) == Some(BridgeTask::Workspace) ==> error_code(method)
            == "workspace_error"@,
        task_of(method) == Some(BridgeTask::Git) ==> error_code(method) == "git_error"@,
        task_of(method) is None ==> error_code(method) == "bridge_error"@,
{
    reveal_strlit("account/status/read");
    reveal_strlit("getAuthStatus");
    reveal_strlit("account/login/openOnMac");
    reveal_strlit("voice/resolveAuth");
    reveal_strlit("voice/transcribe");
    reveal_strlit("thread/contextWindow/read");
    reveal_strlit("desktop/continueOnMac");
    reveal_strlit("notifications/push/register");
    reveal_strlit("workspace/");
    reveal_strlit("git/");
    reveal_strlit("initialize");
    reveal_strlit("initialized");
    assert("workspace/"@[0] == 'w' && "initialize"@[0] == 'i');
    assert("account/status/read"@.len() == 19 && "getAuthStatus"@.len() == 13);
    assert("account/login/openOnMac"@.len() == 23 && "voice/resolveAuth"@.len() == 17);
    assert("voice/transcribe"@.len() == 16 && "thread/contextWindow/read"@.len() == 25);
    assert("desktop/continueOnMac"@.len() == 21);
    assert("notifications/push/register"@.len() == 27 && "workspace/"@.len() == 10);
    assert("git/"@.len() == 4 && "initialize"@.len() == 10 && "initialized"@.len() == 11);
    assert("account/status/read"@[0] == 'a' && "account/status/read"@[1] == 'c');
    assert("getAuthStatus"@[0] == 'g' && "getAuthStatus"@[1] == 'e');
    assert("account/login/openOnMac"@[0] == 'a' && "account/login/openOnMac"@[1] == 'c');
    assert("voice/resolveAuth"@[0] == 'v' && "voice/resolveAuth"@[1] == 'o');
    assert("voice/transcribe"@[0] == 'v' && "voice/transcribe"@[1] == 'o');
    assert("thread/contextWindow/read"@[0] == 't' && "thread/contextWindow/read"@[1] == 'h');
    assert("desktop/continueOnMac"@[0] == 'd' && "desktop/continueOnMac"@[1] == 'e');
    assert("notifications/push/register"@[0] == 'n' && "notifications/push/register"@[1] == 'o');
    assert("workspace/"@[0] == 'w' && "workspace/"@[1] == 'o');
    assert("git/"@[0] == 'g' && "git/"@[1] == 'i');
    assert("initialize"@[0] == 'i' && "initialize"@[1] == 'n');
    assert("initialized"@[0] == 'i' && "initialized"@[1] == 'n');
    if has_prefix(method, "workspace/"@) {
        assert(method.subrange(0, "workspace/"@.len() as int)[0] == method[0]);
        assert(method.subrange(0, "workspace/"@.len() as int)[1] == method[1]);
        assert(method.subrange(0, "workspace/"@.len() as int)[2] == method[2]);
        assert(method.subrange(0, "workspace/"@.len() as int)[3] == method[3]);
    }
    if has_prefix(method, "git/"@) {
        assert(method.subrange(0, "git/"@.len() as int)[0] == method[0]);
        assert(method.subrange(0, "git/"@.len() as int)[1] == method[1]);
        assert(method.subrange(0, "git/"@.len() as int)[2] == method[2]);
        assert(method.subrange(0, "git/"@.len() as int)[3] == method[3]);
    }
}

/// Answers carry the identifier of the request, and the result or the error.
pub proof fn law_answers_are_written_out(
    id: JsonView,
    result: JsonView,
    code: Seq<char>,
    text: Seq<char>,
)
    ensures
        ({
            let good = crate::json_rpc::success_view(id, result);
            let bad = crate::json_rpc::error_view(id, code, text);
            &&& good.get("id"@) == Some(id)
            &&& good.get("result"@) == Some(result)
            &&& good.get("error"@) is None
            &&& bad.get("id"@) == Some(id)
            &&& bad.get("result"@) is None
            &&& bad.get2("error"@, "message"@) == Some(JsonView::Text(text))
            &&& bad.get2("error"@, "code"@) == Some(
                JsonView::Number(NumberView::Negative((-32000) as i64)),
            )
            &&& bad.get2("error"@, "data"@) matches Some(data) && data.get_str("errorCode"@)
                == Some(code)
        }),
{
    reveal_strlit("id");
    reveal_strlit("result");
    reveal_strlit("error");
    reveal_strlit("message");
    reveal_strlit("code");
    reveal_strlit("data");
    reveal_strlit("errorCode");
    assert("code"@[0] == 'c' && "data"@[0] == 'd' && "id"@.len() == 2);
    assert("result"@.len() == 6 && "error"@.len() == 5 && "message"@.len() == 7);
    assert("code"@.len() == 4 && "data"@.len() == 4 && "errorCode"@.len() == 9);
}

// Images in the history of a thread.

/// An image that is written out loses its contents and gets a reference; everything else about it
/// stays.
#[verifier::rlimit(60)]
pub proof fn law_inline_image_is_elided(content: JsonView, key: Seq<char>)
    requires
        is_inline_image(content),
    ensures
        ({
            let clean = clean_content(content);
            &&& clean.get_str("url"@) == Some("remodex://history-image-elided"@)
            &&& clean.get("path"@) is None
            &&& clean.get("image_url"@) is None
            &&& key != "url"@ && key != "path"@ && key != "image_url"@ ==> clean.get(key)
                == content.get(key)
        }),
{
    reveal_strlit("url");
    reveal_strlit("path");
    reveal_strlit("image_url");
    reveal_strlit("type");
    assert("path"@[0] == 'p' && "type"@[0] == 't' && "url"@.len() == 3);
    assert("path"@.len() == 4 && "image_url"@.len() == 9 && "type"@.len() == 4);
    if !(content is Object) {
        assert(content.get("type"@) is None);
        assert(content.get("url"@) is None && content.get("path"@) is None && content.get(
            "image_url"@,
        ) is None);
    }
}

/// Which pieces of content are images that are written out: those of the kind, however it is
/// spelled, one of whose addresses begins as such an image does.
pub proof fn law_which_images_are_elided(content: JsonView, text: Seq<char>)
    ensures
        (content.read("type"@) == Some("image"@) || content.read("type"@) == Some("localImage"@)
            || content.read("type"@) == Some("local_image"@)) && (content.read("url"@)
            == Some(text) || content.read("image_url"@) == Some(text) || content.read("path"@)
            == Some(text)) && has_prefix(ascii_lower(text), "data:image"@) ==> is_inline_image(
            content,
        ),
        content.read("type"@) is None ==> !is_inline_image(content),
        (content.read("url"@) matches Some(url) ==> !has_prefix(ascii_lower(url), "data:image"@))
            && (content.read("image_url"@) matches Some(url) ==> !has_prefix(
            ascii_lower(url),
            "data:image"@,
        )) && (content.read("path"@) matches Some(url) ==> !has_prefix(
            ascii_lower(url),
            "data:image"@,
        )) ==> !is_inline_image(content),
{
    reveal_strlit("image");
    reveal_strlit("localImage");
    reveal_strlit("localimage");
    reveal_strlit("local_image");
    let p = crate::text::separator_pred();
    assert(ascii_lower("image"@) =~= "image"@);
    assert(ascii_lower("localImage"@) =~= "localimage"@);
    assert(ascii_lower("local_image"@) =~= "local_image"@);
    assert("local_image"@.take(5) =~= "local"@) by {
        reveal_strlit("local");
    }
    reveal_strlit("local");
    lemma_kept("image"@);
    lemma_kept("localimage"@);
    lemma_kept("local"@);
    lemma_without_all("local_image"@, 6);
    assert("local_image"@.skip(6) =~= "image"@);
    assert("local_image"@.take(6) =~= "local"@.push('_'));
    assert("local"@.push('_').drop_last() =~= "local"@);
    assert(crate::text::without_chars("local"@.push('_'), p) == "local"@);
    assert("local"@ + "image"@ =~= "localimage"@);
    assert(crate::text::without_chars(ascii_lower(Seq::<char>::empty()), p) =~= Seq::empty());
}

/// A text without separators stays as it is.
proof fn lemma_kept(s: Seq<char>)
    requires
        forall|i: int| 0 <= i < s.len() ==> s[i] != ' ' && s[i] != '_' && #[trigger] s[i] != '-',
    ensures
        crate::text::without_chars(s, crate::text::separator_pred()) == s,
    decreases s.len(),
{
    if s.len() > 0 {
        let t = s.drop_last();
        assert forall|i: int| 0 <= i < t.len() implies t[i] != ' ' && t[i] != '_' && #[trigger]
        t[i] != '-' by {
            assert(t[i] == s[i]);
        }
        lemma_kept(t);
        assert(t.push(s.last()) =~= s);
    }
}

/// Characters are dropped on either side of a cut alike.
proof fn lemma_without_all(s: Seq<char>, at: int)
    requires
        0 <= at <= s.len(),
    ensures
        crate::text::without_chars(s, crate::text::separator_pred()) == crate::text::without_chars(
            s.take(at),
            crate::text::separator_pred(),
        ) + crate::text::without_chars(s.skip(at), crate::text::separator_pred()),
    decreases s.len(),
{
    let p = crate::text::separator_pred();
    if at == s.len() {
        assert(s.take(at) =~= s);
        assert(s.skip(at) =~= Seq::empty());
        assert(crate::text::without_chars(s.skip(at), p) =~= Seq::empty());
        assert(crate::text::without_chars(s, p) + Seq::<char>::empty()
            =~= crate::text::without_chars(s, p));
    } else {
        let t = s.drop_last();
        lemma_without_all(t, at);
        assert(t.take(at) =~= s.take(at));
        assert(t.skip(at) =~= s.skip(at).drop_last());
        assert(s.skip(at).last() == s.last());
        let a = crate::text::without_chars(s.take(at), p);
        let b = crate::text::without_chars(t.skip(at), p);
        assert((a + b).push(s.last()) =~= a + b.push(s.last()));
    }
}

/// Cleaning goes through every piece of content of every item of every turn, and leaves the rest.
#[verifier::rlimit(80)]
#[verifier::spinoff_prover]
pub proof fn law_history_is_cleaned_piece_by_piece(
    message: JsonView,
    turns: Seq<JsonView>,
    t: int,
    items: Seq<JsonView>,
    i: int,
    pieces: Seq<JsonView>,
    p: int,
)
    requires
        message.get2("result"@, "thread"@) matches Some(thread) && thread.get("turns"@) == Some(
            JsonView::Array(turns),
        ),
        0 <= t < turns.len(),
        turns[t].get("items"@) == Some(JsonView::Array(items)),
        0 <= i < items.len(),
        items[i].get("content"@) == Some(JsonView::Array(pieces)),
        0 <= p < pieces.len(),
    ensures
        ({
            &&& clean_message(message).get2("result"@, "thread"@) matches Some(thread)
            &&& thread.get("turns"@) matches Some(JsonView::Array(clean_turns))
            &&& clean_turns.len() == turns.len()
            &&& clean_turns[t].get("items"@) matches Some(JsonView::Array(clean_items))
            &&& clean_items.len() == items.len()
            &&& clean_items[i].get("content"@) matches Some(JsonView::Array(clean_pieces))
            &&& clean_pieces.len() == pieces.len()
            &&& clean_pieces[p] == clean_content(pieces[p])
        }),
        is_inline_image(pieces[p]) ==> has_image(message),
{
    assert(clean_turn(turns[t]).get("items"@) is Some);
    assert(clean_item(items[i]).get("content"@) is Some);
    if is_inline_image(pieces[p]) {
        assert(crate::bridge::support::some_inline_image(pieces));
        assert(crate::bridge::support::item_has_image(items[i]));
        assert(crate::bridge::support::some_item_has_image(items));
        assert(crate::bridge::support::turn_has_image(turns[t]));
        assert(crate::bridge::support::some_turn_has_image(turns));
    }
}

/// A history holds an image only where one of its pieces of content is one.
pub proof fn law_image_is_somewhere(message: JsonView)
    requires
        has_image(message),
    ensures
        exists|turns: Seq<JsonView>, t: int, items: Seq<JsonView>, i: int, pieces: Seq<JsonView>, p:
            int|
            {
                &&& message.get2("result"@, "thread"@) matches Some(thread)
                &&& thread.get("turns"@) == Some(JsonView::Array(turns))
                &&& 0 <= t < turns.len()
                &&& (#[trigger] turns[t]).get("items"@) == Some(JsonView::Array(items))
                &&& 0 <= i < items.len()
                &&& (#[trigger] items[i]).get("content"@) == Some(JsonView::Array(pieces))
                &&& 0 <= p < pieces.len()
                &&& is_inline_image(#[trigger] pieces[p])
            },
{
    let turns = crate::bridge::support::answered_turns(message)->0;
    let t = choose|t: int|
        0 <= t < turns.len() && crate::bridge::support::turn_has_image(#[trigger] turns[t]);
    let items = crate::bridge::support::member_array(turns[t], "items"@)->0;
    let i = choose|i: int|
        0 <= i < items.len() && crate::bridge::support::item_has_image(#[trigger] items[i]);
    let pieces = crate::bridge::support::member_array(items[i], "content"@)->0;
    let p = choose|p: int| 0 <= p < pieces.len() && is_inline_image(#[trigger] pieces[p]);
    assert(turns[t].get("items"@) == Some(JsonView::Array(items)));
    assert(items[i].get("content"@) == Some(JsonView::Array(pieces)));
    assert(is_inline_image(pieces[p]));
}

/// The history of a thread is sent on without its images, where it holds some.
pub proof fn law_history_is_sent_clean(raw: Seq<char>, method: Seq<char>, message: JsonView)
    requires
        method == "thread/read"@ || method == "thread/resume"@,
        json_parse(raw) == Some(message),
        has_image(message),
    ensures
        relayed_answer(raw, method) == json_print(clean_message(message)),
{
}

// The relay.

/// The bridge registers with its own identity and that of a phone that it trusts.
#[verifier::rlimit(60)]
pub proof fn law_registration_names_both_sides(device: DeviceView, display_name: Seq<char>)
    ensures
        ({
            let told = registration_view(device, display_name);
            &&& told.get_str("macDeviceId"@) == Some(device.mac_device_id)
            &&& told.get_str("macIdentityPublicKey"@) == Some(device.mac_identity_public_key)
            &&& told.get_str("displayName"@) == Some(display_name)
            &&& told.get_str("trustedPhoneDeviceId"@) matches Some(phone)
                ==> device.trusted_phones.dom().contains(phone) && told.get_str(
                "trustedPhonePublicKey"@,
            ) == Some(device.trusted_phones[phone]) && forall|other: Seq<char>| #[trigger]
                device.trusted_phones.dom().contains(other) ==> !crate::text::text_lt(other, phone)
            &&& device.trusted_phones.dom().is_empty() ==> told.get_str("trustedPhoneDeviceId"@)
                is None && told.get_str("trustedPhonePublicKey"@) is None
        }),
{
    reveal_strlit("macDeviceId");
    reveal_strlit("macIdentityPublicKey");
    reveal_strlit("displayName");
    reveal_strlit("trustedPhoneDeviceId");
    reveal_strlit("trustedPhonePublicKey");
    assert("macDeviceId"@[0] == 'm' && "displayName"@[0] == 'd');
    assert("macIdentityPublicKey"@[0] == 'm' && "trustedPhoneDeviceId"@[0] == 't');
    assert("macDeviceId"@.len() == 11 && "macIdentityPublicKey"@.len() == 20);
    assert("displayName"@.len() == 11 && "trustedPhoneDeviceId"@.len() == 20);
    assert("trustedPhonePublicKey"@.len() == 21);
}

/// The headers with which the bridge registers tell the same.
pub proof fn law_headers_name_both_sides(device: DeviceView, display_name: Seq<char>)
    ensures
        ({
            let headers = registration_headers(device, display_name);
            &&& headers.contains(("x-mac-device-id"@, trimmed(device.mac_device_id)))
            &&& headers.contains(
                ("x-mac-identity-public-key"@, trimmed(device.mac_identity_public_key)),
            )
            &&& headers.contains(("x-machine-name"@, trimmed(display_name)))
            &&& registration_view(device, display_name).get_str("trustedPhoneDeviceId"@)
                matches Some(phone) ==> {
                &&& trimmed(phone).len() > 0 ==> headers.contains(
                    ("x-trusted-phone-device-id"@, trimmed(phone)),
                )
                &&& trimmed(device.trusted_phones[phone]).len() > 0 ==> headers.contains(
                    ("x-trusted-phone-public-key"@, trimmed(device.trusted_phones[phone])),
                )
            }
        }),
{
    law_registration_names_both_sides(device, display_name);
    let headers = registration_headers(device, display_name);
    assert(headers[0] == ("x-mac-device-id"@, trimmed(device.mac_device_id)));
    assert(headers[1] == ("x-mac-identity-public-key"@, trimmed(device.mac_identity_public_key)));
    assert(headers[2] == ("x-machine-name"@, trimmed(display_name)));
    if let Some(phone) = crate::bridge::support::registered_phone(device) {
        let id_header = crate::bridge::support::optional_header(
            "x-trusted-phone-device-id"@,
            Some(phone.0),
        );
        if trimmed(phone.0).len() > 0 {
            assert(headers[3] == ("x-trusted-phone-device-id"@, trimmed(phone.0)));
        }
        if trimmed(phone.1).len() > 0 {
            assert(headers[(3 + id_header.len()) as int] == (
                "x-trusted-phone-public-key"@,
                trimmed(phone.1),
            ));
        }
        reveal_strlit("macDeviceId");
        reveal_strlit("macIdentityPublicKey");
        reveal_strlit("displayName");
        reveal_strlit("trustedPhoneDeviceId");
        reveal_strlit("trustedPhonePublicKey");
        assert("macDeviceId"@[0] == 'm' && "displayName"@[0] == 'd');
        assert("macIdentityPublicKey"@[0] == 'm' && "trustedPhoneDeviceId"@[0] == 't');
        assert("macDeviceId"@.len() == 11 && "macIdentityPublicKey"@.len() == 20);
        assert("displayName"@.len() == 11 && "trustedPhoneDeviceId"@.len() == 20);
        assert("trustedPhonePublicKey"@.len() == 21);
        assert(registration_view(device, display_name).get_str("trustedPhoneDeviceId"@) == Some(
            phone.0,
        ));
    } else {
        reveal_strlit("macDeviceId");
        reveal_strlit("macIdentityPublicKey");
        reveal_strlit("displayName");
        reveal_strlit("trustedPhoneDeviceId");
        reveal_strlit("trustedPhonePublicKey");
        assert("macDeviceId"@[0] == 'm' && "displayName"@[0] == 'd');
        assert("macIdentityPublicKey"@[0] == 'm' && "trustedPhoneDeviceId"@[0] == 't');
        assert("macDeviceId"@.len() == 11 && "macIdentityPublicKey"@.len() == 20);
        assert("displayName"@.len() == 11 && "trustedPhoneDeviceId"@.len() == 20);
        assert("trustedPhonePublicKey"@.len() == 21);
        assert(registration_view(device, display_name).get_str("trustedPhoneDeviceId"@) is None);
    }
}

/// A session at the relay is a WebSocket below the path of the relay: in the open where the relay
/// is, encrypted where the relay is.
#[verifier::rlimit(60)]
pub proof fn law_address_of_a_session(base_url: Seq<char>, session_id: Seq<char>, base: Seq<char>)
    requires
        url_parse(base_url) == Ok::<Seq<char>, Seq<char>>(base),
    ensures
        url_scheme(base) == "ws"@ || url_scheme(base) == "wss"@ ==> relay_url(base_url, session_id)
            == Ok::<Seq<char>, Seq<char>>(
            url_with_path(base, session_path(url_path(base), session_id)),
        ),
        url_scheme(base) == "http"@ ==> relay_url(base_url, session_id) == Ok::<
            Seq<char>,
            Seq<char>,
        >(
            url_with_path(
                url_with_scheme(base, "ws"@),
                session_path(url_path(url_with_scheme(base, "ws"@)), session_id),
            ),
        ),
        url_scheme(base) == "https"@ ==> relay_url(base_url, session_id) == Ok::<
            Seq<char>,
            Seq<char>,
        >(
            url_with_path(
                url_with_scheme(base, "wss"@),
                session_path(url_path(url_with_scheme(base, "wss"@)), session_id),
            ),
        ),
        url_scheme(base) != "ws"@ && url_scheme(base) != "wss"@ && url_scheme(base) != "http"@
            && url_scheme(base) != "https"@ ==> relay_url(base_url, session_id) == Err::<
            Seq<char>,
            Seq<char>,
        >("Unsupported relay URL scheme: "@ + url_scheme(base)),
{
    reveal_strlit("http");
    reveal_strlit("https");
    reveal_strlit("ws");
    reveal_strlit("wss");
    assert("http"@.len() == 4 && "https"@.len() == 5 && "ws"@.len() == 2);
    assert("wss"@.len() == 3);
}

/// The path of a session is that of the relay, one separator, and the identifier of the session.
pub proof fn law_path_of_a_session(path: Seq<char>, session_id: Seq<char>)
    ensures
        path.len() == 0 || path.last() != '/' ==> session_path(path, session_id) == path + "/"@
            + session_id,
        session_path(path.push('/'), session_id) == session_path(path, session_id),
{
    assert(path.push('/').drop_last() =~= path);
}

} // verus!
