//! The messages that pass through the bridge, and what it remembers of them.
use vstd::prelude::*;

use super::support::{
    context_of, message_context, message_id, params_of,
    read_message_id, relayed_answer, sanitize_thread_history_images_for_relay,
    stringify_request_id, ContextOf, MessageContext,
};
use super::thread_runtime::{
    existing_thread, existing_thread_id_from_request, is_fresh, still_fresh, RegistryView,
    ThreadRuntimeRegistry,
};
use crate::crypto::{fresh_uuid, is_uuid_text};
use crate::json::{
    json_parse, json_print, or_empty, parse_json, print_json, Json, JsonObject, JsonView,
};
use crate::json_rpc::{success_response, success_view};
use crate::keyed::Keyed;
use crate::text::{
    ascii_lower, concat2, concat3, contains, contains_text, has_prefix, starts_with, text_eq,
    to_ascii_lower,
};

verus! {

/// How long the context of a turn is watched.
pub const CONTEXT_WATCH_MS: u64 = 90_000;

/// A request that was sent on.
pub struct TrackedRequest {
    pub method: String,
    pub created_at_ms: u64,
}

/// What a `TrackedRequest` stands for.
pub struct TrackedView {
    pub method: Seq<char>,
    pub created_at_ms: u64,
}

impl TrackedRequest {
    pub open spec fn view(&self) -> TrackedView {
        TrackedView { method: self.method@, created_at_ms: self.created_at_ms }
    }
}

/// Somebody who is signing in.
#[derive(Debug)]
pub struct PendingAuthLogin {
    pub login_id: Option<String>,
    pub auth_url: Option<String>,
    pub request_id: Option<String>,
    pub started_at_ms: Option<u64>,
}

/// What a `PendingAuthLogin` stands for.
pub struct LoginView {
    pub login_id: Option<Seq<char>>,
    pub auth_url: Option<Seq<char>>,
    pub request_id: Option<Seq<char>>,
    pub started_at_ms: Option<u64>,
}

pub open spec fn no_login() -> LoginView {
    LoginView { login_id: None, auth_url: None, request_id: None, started_at_ms: None }
}

impl PendingAuthLogin {
    pub open spec fn view(&self) -> LoginView {
        LoginView {
            login_id: self.login_id.deep_view(),
            auth_url: self.auth_url.deep_view(),
            request_id: self.request_id.deep_view(),
            started_at_ms: self.started_at_ms,
        }
    }

    pub fn none() -> (r: PendingAuthLogin)
        ensures
            r.view() == no_login(),
    {
        PendingAuthLogin { login_id: None, auth_url: None, request_id: None, started_at_ms: None }
    }
}

/// A turn whose use of the context is watched.
pub struct ContextUsageWatch {
    pub key: String,
    pub thread_id: String,
    pub turn_id: Option<String>,
    pub started_at_ms: u64,
    pub last_usage_json: Option<String>,
}

/// What a `ContextUsageWatch` stands for.
pub struct WatchView {
    pub key: Seq<char>,
    pub thread_id: Seq<char>,
    pub turn_id: Option<Seq<char>>,
    pub started_at_ms: u64,
    pub last_usage: Option<Seq<char>>,
}

impl ContextUsageWatch {
    pub open spec fn view(&self) -> WatchView {
        WatchView {
            key: self.key@,
            thread_id: self.thread_id@,
            turn_id: self.turn_id.deep_view(),
            started_at_ms: self.started_at_ms,
            last_usage: self.last_usage_json.deep_view(),
        }
    }
}

/// What the bridge remembers of the messages that pass through it.
pub struct BridgeCore {
    codex_handshake_warm: bool,
    forwarded_initialize_request_ids: Keyed<()>,
    forwarded_request_methods_by_id: Keyed<TrackedRequest>,
    relay_sanitized_response_methods_by_id: Keyed<TrackedRequest>,
    thread_runtime_registry: ThreadRuntimeRegistry,
    pending_auth_login: PendingAuthLogin,
    context_usage_watch: Option<ContextUsageWatch>,
    waiting_request_ids: Keyed<()>,
}

/// What a `BridgeCore` stands for.
pub struct CoreView {
    pub warm: bool,
    pub initialize_ids: Set<Seq<char>>,
    pub forwarded: Map<Seq<char>, TrackedView>,
    pub sanitized: Map<Seq<char>, TrackedView>,
    pub registry: RegistryView,
    pub login: LoginView,
    pub watch: Option<WatchView>,
    pub waiting: Set<Seq<char>>,
}

pub open spec fn tracked_view(sent: Map<Seq<char>, TrackedRequest>) -> Map<
    Seq<char>,
    TrackedView,
> {
    Map::new(|id: Seq<char>| sent.dom().contains(id), |id: Seq<char>| sent[id].view())
}

impl View for BridgeCore {
    type V = CoreView;

    closed spec fn view(&self) -> CoreView {
        CoreView {
            warm: self.codex_handshake_warm,
            initialize_ids: self.forwarded_initialize_request_ids.view().dom(),
            forwarded: tracked_view(self.forwarded_request_methods_by_id.view()),
            sanitized: tracked_view(self.relay_sanitized_response_methods_by_id.view()),
            registry: self.thread_runtime_registry@,
            login: self.pending_auth_login.view(),
            watch: match self.context_usage_watch {
                Some(watch) => Some(watch.view()),
                None => None,
            },
            waiting: self.waiting_request_ids.view().dom(),
        }
    }
}

/// Which part of the bridge answers a request.
#[derive(Debug, PartialEq, Eq, Clone, Copy)]
pub enum BridgeTask {
    Account,
    Voice,
    ThreadContext,
    Desktop,
    Notifications,
    Workspace,
    Git,
}

/// The part of the bridge that answers a method, where it is not one of Codex.
pub open spec fn task_of(method: Seq<char>) -> Option<BridgeTask> {
    if method == "account/status/read"@ || method == "getAuthStatus"@ || method
        == "account/login/openOnMac"@ {
        Some(BridgeTask::Account)
    } else if method == "voice/resolveAuth"@ || method == "voice/transcribe"@ {
        Some(BridgeTask::Voice)
    } else if method == "thread/contextWindow/read"@ {
        Some(BridgeTask::ThreadContext)
    } else if method == "desktop/continueOnMac"@ {
        Some(BridgeTask::Desktop)
    } else if method == "notifications/push/register"@ {
        Some(BridgeTask::Notifications)
    } else if has_prefix(method, "workspace/"@) {
        Some(BridgeTask::Workspace)
    } else if has_prefix(method, "git/"@) {
        Some(BridgeTask::Git)
    } else {
        None
    }
}

pub fn task_for_method(method: &str) -> (r: Option<BridgeTask>)
    ensures
        r == task_of(method@),
{
    if text_eq(method, "account/status/read") || text_eq(method, "getAuthStatus") || text_eq(
        method,
        "account/login/openOnMac",
    ) {
        Some(BridgeTask::Account)
    } else if text_eq(method, "voice/resolveAuth") || text_eq(method, "voice/transcribe") {
        Some(BridgeTask::Voice)
    } else if text_eq(method, "thread/contextWindow/read") {
        Some(BridgeTask::ThreadContext)
    } else if text_eq(method, "desktop/continueOnMac") {
        Some(BridgeTask::Desktop)
    } else if text_eq(method, "notifications/push/register") {
        Some(BridgeTask::Notifications)
    } else if starts_with(method, "workspace/") {
        Some(BridgeTask::Workspace)
    } else if starts_with(method, "git/") {
        Some(BridgeTask::Git)
    } else {
        None
    }
}

/// What becomes of a message of the phone.
#[derive(Debug)]
pub enum ApplicationRoute {
    /// Nothing.
    Ignore,
    /// The phone is answered at once.
    Answer(String),
    /// A part of the bridge answers.
    Spawn { request_id: Option<Json>, method: String, params: Json, task: BridgeTask },
    /// It goes to Codex. Where it names a thread, the header of that thread's record is needed.
    Forward { thread_id: Option<String> },
}

/// What an `ApplicationRoute` stands for.
pub enum RouteView {
    Ignore,
    Answer(Seq<char>),
    Spawn { request_id: Option<JsonView>, method: Seq<char>, params: JsonView, task: BridgeTask },
    Forward { thread_id: Option<Seq<char>> },
}

impl ApplicationRoute {
    pub open spec fn view(&self) -> RouteView {
        match self {
            ApplicationRoute::Ignore => RouteView::Ignore,
            ApplicationRoute::Answer(text) => RouteView::Answer(text@),
            ApplicationRoute::Spawn { request_id, method, params, task } => RouteView::Spawn {
                request_id: request_id.deep_view(),
                method: method@,
                params: params@,
                task: *task,
            },
            ApplicationRoute::Forward { thread_id } => RouteView::Forward {
                thread_id: thread_id.deep_view(),
            },
        }
    }
}

/// The answer to a handshake that Codex has had already.
pub open spec fn managed_handshake(id: JsonView) -> Seq<char> {
    json_print(
        success_view(id, JsonView::Object(map!["bridgeManaged"@ => JsonView::Bool(true)])),
    )
}

impl CoreView {
    /// The handshake of the phone is one that Codex has to see.
    pub open spec fn opens_handshake(self, message: JsonView) -> bool {
        message.read_or_empty("method"@) == "initialize"@ && message.get("id"@) is Some
    }

    /// What becomes of a message of the phone.
    pub open spec fn route(self, message: JsonView) -> RouteView {
        let method = message.read_or_empty("method"@);
        if method.len() == 0 {
            RouteView::Ignore
        } else if self.opens_handshake(message) && self.warm {
            RouteView::Answer(managed_handshake(message.get("id"@)->0))
        } else if method == "initialized"@ && self.warm {
            RouteView::Ignore
        } else {
            match task_of(method) {
                Some(task) => RouteView::Spawn {
                    request_id: message.get("id"@),
                    method,
                    params: params_of(message),
                    task,
                },
                None => RouteView::Forward { thread_id: existing_thread(message) },
            }
        }
    }

    /// A message of the phone was looked at: a handshake that goes to Codex is remembered.
    pub open spec fn routed(self, message: JsonView) -> CoreView {
        if self.opens_handshake(message) && !self.warm && message_id(message) is Some {
            CoreView { initialize_ids: self.initialize_ids.insert(message_id(message)->0), ..self }
        } else {
            self
        }
    }

    /// Requests that were sent on too long ago are forgotten.
    pub open spec fn pruned(self, now_ms: u64) -> CoreView {
        CoreView {
            forwarded: fresh_only(self.forwarded, now_ms),
            sanitized: fresh_only(self.sanitized, now_ms),
            ..self
        }
    }

    /// A request is about to be sent on.
    pub open spec fn preparing(
        self,
        message: JsonView,
        header: Option<JsonView>,
        now_ms: u64,
    ) -> CoreView {
        let known = self.pruned(now_ms);
        CoreView {
            registry: self.registry.pruned(now_ms).asking(message, now_ms).sending(
                message,
                header,
            ),
            ..known
        }
    }

    /// The text of a request that is about to be sent on.
    pub open spec fn prepared_text(
        self,
        message: JsonView,
        raw: Seq<char>,
        header: Option<JsonView>,
        now_ms: u64,
    ) -> Seq<char> {
        self.registry.pruned(now_ms).asking(message, now_ms).outbound(message, raw, header)
    }

    /// A request was sent on: those whose answers matter are remembered.
    pub open spec fn tracking(self, message: JsonView, now_ms: u64) -> CoreView {
        let method = message.read_or_empty("method"@);
        let known = self.pruned(now_ms);
        match message_id(message) {
            None => known,
            Some(id) => CoreView {
                forwarded: if method == "account/login/start"@ || method
                    == "account/login/cancel"@ || method == "account/logout"@ {
                    known.forwarded.insert(id, TrackedView { method, created_at_ms: now_ms })
                } else {
                    known.forwarded
                },
                sanitized: if method == "thread/read"@ || method == "thread/resume"@ {
                    known.sanitized.insert(id, TrackedView { method, created_at_ms: now_ms })
                } else {
                    known.sanitized
                },
                ..known
            },
        }
    }

    /// A message names a thread; where it starts a turn, the context of the turn is watched.
    pub open spec fn noting(self, context: ContextOf, now_ms: u64) -> CoreView {
        let key = watch_key(context);
        if context.thread_id.len() == 0 || !(context.method == "turn/start"@ || context.method
            == "turn/started"@) || (self.watch matches Some(watch) && watch.key == key) {
            self
        } else {
            CoreView {
                watch: Some(
                    WatchView {
                        key,
                        thread_id: context.thread_id,
                        turn_id: context.turn_id,
                        started_at_ms: now_ms,
                        last_usage: None,
                    },
                ),
                ..self
            }
        }
    }

    /// A message was sent on.
    pub open spec fn forwarded(self, message: Option<JsonView>, now_ms: u64) -> CoreView {
        match message {
            Some(message) => self.tracking(message, now_ms).noting(context_of(message), now_ms),
            None => self,
        }
    }

    /// Nobody is signing in any more.
    pub open spec fn login_cleared(self) -> CoreView {
        CoreView { login: no_login(), ..self }
    }

    /// A message of Codex tells of somebody who signs in or out.
    pub open spec fn login_updated(self, message: JsonView, now_ms: u64) -> CoreView {
        let id = message_id(message);
        let sent = match id {
            Some(id) => if self.forwarded.dom().contains(id) {
                Some(self.forwarded[id].method)
            } else {
                None
            },
            None => None,
        };
        let known = match id {
            Some(id) => CoreView { forwarded: self.forwarded.remove(id), ..self },
            None => self,
        };
        let login_id = message.read2("result"@, "loginId"@);
        let auth_url = message.read2("result"@, "authUrl"@);
        if sent == Some("account/login/start"@) {
            if login_id is None || auth_url is None {
                known.login_cleared()
            } else {
                CoreView {
                    login: LoginView {
                        login_id,
                        auth_url,
                        request_id: id,
                        started_at_ms: Some(now_ms),
                    },
                    ..known
                }
            }
        } else if sent == Some("account/login/cancel"@) || sent == Some("account/logout"@) {
            known.login_cleared()
        } else if message.read_or_empty("method"@) == "account/login/completed"@
            || message.read_or_empty("method"@) == "account/updated"@ {
            known.login_cleared()
        } else {
            known
        }
    }

    /// A message of Codex answers a handshake.
    pub open spec fn handshake_tracked(self, message: JsonView) -> CoreView {
        match message_id(message) {
            Some(id) => if self.initialize_ids.contains(id) {
                CoreView {
                    initialize_ids: self.initialize_ids.remove(id),
                    warm: self.warm || message.get("result"@) is Some || contains(
                        ascii_lower(or_empty(message.read2("error"@, "message"@))),
                        "already initialized"@,
                    ),
                    ..self
                }
            } else {
                self
            },
            None => self,
        }
    }

    /// The request that a message of Codex answers, where its answer is looked through.
    pub open spec fn sanitized_method(self, message: JsonView) -> Option<Seq<char>> {
        match message_id(message) {
            Some(id) => if self.sanitized.dom().contains(id) {
                Some(self.sanitized[id].method)
            } else {
                None
            },
            None => None,
        }
    }

    /// A message of Codex was sent on.
    pub open spec fn sanitized_forgotten(self, message: JsonView) -> CoreView {
        match message_id(message) {
            Some(id) => CoreView { sanitized: self.sanitized.remove(id), ..self },
            None => self,
        }
    }

    /// A request of the bridge itself that a message of Codex answers.
    pub open spec fn awaited(self, message: Option<JsonView>) -> Option<Seq<char>> {
        match message {
            Some(message) => match message_id(message) {
                Some(id) => if self.waiting.contains(id) {
                    Some(id)
                } else {
                    None
                },
                None => None,
            },
            None => None,
        }
    }

    /// A message of Codex comes in.
    pub open spec fn codex_message(self, message: Option<JsonView>, now_ms: u64) -> CoreView {
        match self.awaited(message) {
            Some(id) => CoreView { waiting: self.waiting.remove(id), ..self },
            None => self.codex_passed(message, now_ms),
        }
    }

    /// What becomes of a message of Codex.
    pub open spec fn codex_route(
        self,
        message: Option<JsonView>,
        raw: Seq<char>,
        now_ms: u64,
    ) -> CodexRouteView {
        match self.awaited(message) {
            Some(id) => CodexRouteView::Answer {
                request_id: id,
                result: codex_answer(message->0),
            },
            None => CodexRouteView::Pass {
                text: self.codex_text(message, raw, now_ms),
                active_thread: named_in(message),
            },
        }
    }

    /// A message of Codex that is meant for the phone comes in.
    pub open spec fn codex_passed(self, message: Option<JsonView>, now_ms: u64) -> CoreView {
        let known = self.pruned(now_ms);
        match message {
            Some(message) => {
                let sent = known.login_updated(message, now_ms).handshake_tracked(message);
                CoreView { registry: sent.registry.updated(message), ..sent }.noting(
                    context_of(message),
                    now_ms,
                ).sanitized_forgotten(message)
            },
            None => known,
        }
    }

    /// What is sent on of a message of Codex.
    pub open spec fn codex_text(
        self,
        message: Option<JsonView>,
        raw: Seq<char>,
        now_ms: u64,
    ) -> Seq<char> {
        match message {
            Some(message) => match self.pruned(now_ms).sanitized_method(message) {
                Some(method) => relayed_answer(raw, method),
                None => raw,
            },
            None => raw,
        }
    }

    /// The turn whose context is to be read, unless it was watched long enough.
    pub open spec fn watched(self, now_ms: u64) -> Option<WatchView> {
        match self.watch {
            Some(watch) => if now_ms > watch.started_at_ms + CONTEXT_WATCH_MS {
                None
            } else {
                Some(watch)
            },
            None => None,
        }
    }

    /// The use of the context was read: what the phone is told, where it has changed.
    pub open spec fn usage_note(self, read: JsonView) -> Option<Seq<char>> {
        match (self.watch, read.get("usage"@)) {
            (Some(watch), Some(usage)) => if watch.last_usage == Some(json_print(usage)) {
                None
            } else {
                Some(
                    json_print(
                        JsonView::Object(
                            map![
                                "method"@ => JsonView::Text("thread/tokenUsage/updated"@),
                                "params"@ => JsonView::Object(
                                    map![
                                        "threadId"@ => JsonView::Text(watch.thread_id),
                                        "usage"@ => usage,
                                    ],
                                ),
                            ],
                        ),
                    ),
                )
            },
            _ => None,
        }
    }

    pub open spec fn usage_noted(self, read: JsonView) -> CoreView {
        match (self.watch, read.get("usage"@)) {
            (Some(watch), Some(usage)) => CoreView {
                watch: Some(WatchView { last_usage: Some(json_print(usage)), ..watch }),
                ..self
            },
            _ => self,
        }
    }
}

pub open spec fn fresh_only(sent: Map<Seq<char>, TrackedView>, now_ms: u64) -> Map<
    Seq<char>,
    TrackedView,
> {
    Map::new(
        |id: Seq<char>|
            sent.dom().contains(id) && is_fresh(sent[id].created_at_ms, now_ms),
        |id: Seq<char>| sent[id],
    )
}

/// What tells one watch from another.
pub open spec fn watch_key(context: ContextOf) -> Seq<char> {
    context.thread_id + "|"@ + match context.turn_id {
        Some(turn) => turn,
        None => "pending-turn"@,
    }
}

/// The thread that a message names, where it names one.
pub open spec fn named_thread(context: ContextOf) -> Option<Seq<char>> {
    if context.thread_id.len() == 0 {
        None
    } else {
        Some(context.thread_id)
    }
}

pub open spec fn named_in(message: Option<JsonView>) -> Option<Seq<char>> {
    match message {
        Some(message) => named_thread(context_of(message)),
        None => None,
    }
}

/// What an answer of Codex to the bridge itself says.
pub open spec fn codex_answer(message: JsonView) -> Result<JsonView, Seq<char>> {
    match message.get("error"@) {
        Some(error) => Err(
            match error.read("message"@) {
                Some(text) => text,
                None => "Codex request failed"@,
            },
        ),
        None => Ok(
            match message.get("result"@) {
                Some(result) => result,
                None => JsonView::Null,
            },
        ),
    }
}

/// The identifier of a message of Codex, and what it says as the answer to a request of the
/// bridge itself.
pub fn read_codex_answer(message: &Json) -> (r: Option<(String, Result<Json, String>)>)
    ensures
        match r {
            Some((id, answer)) => message_id(message@) == Some(id@) && crate::script::json_result(
                Some(answer),
            ) == Some(codex_answer(message@)),
            None => message_id(message@) is None,
        },
{
    let id = match read_message_id(message) {
        Some(id) => id,
        None => {
            return None;
        },
    };
    if let Some(error) = message.get("error") {
        let text = match error.read("message") {
            Some(text) => text,
            None => "Codex request failed".to_owned(),
        };
        return Some((id, Err(text)));
    }
    let result = match message.get("result") {
        Some(result) => result.clone(),
        None => Json::Null,
    };
    Some((id, Ok(result)))
}

/// What is sent on, and the thread that is to be remembered as the active one.
#[derive(Debug)]
pub struct Passed {
    pub text: String,
    pub active_thread: Option<String>,
}

/// What becomes of a message of Codex.
#[derive(Debug)]
pub enum CodexRoute {
    /// It answers a request of the bridge itself.
    Answer { request_id: String, result: Result<Json, String> },
    /// It goes to the phone.
    Pass(Passed),
}

/// What a `CodexRoute` stands for.
pub enum CodexRouteView {
    Answer { request_id: Seq<char>, result: Result<JsonView, Seq<char>> },
    Pass { text: Seq<char>, active_thread: Option<Seq<char>> },
}

impl CodexRoute {
    pub open spec fn view(&self) -> CodexRouteView {
        match self {
            CodexRoute::Answer { request_id, result } => CodexRouteView::Answer {
                request_id: request_id@,
                result: match result {
                    Ok(result) => Ok(result@),
                    Err(error) => Err(error@),
                },
            },
            CodexRoute::Pass(passed) => CodexRouteView::Pass {
                text: passed.text@,
                active_thread: passed.active_thread.deep_view(),
            },
        }
    }
}

/// A request of the bridge itself to Codex.
pub open spec fn managed_request(
    id: Seq<char>,
    method: Seq<char>,
    params: JsonView,
) -> JsonView {
    JsonView::Object(
        map![
            "id"@ => JsonView::Text(id),
            "method"@ => JsonView::Text(method),
            "params"@ => params,
        ],
    )
}

/// The identifier of a request of the bridge itself.
pub open spec fn managed_id(token: Seq<char>) -> Seq<char> {
    "bridge-managed-"@ + token
}

fn prune_tracked(sent: Keyed<TrackedRequest>, now_ms: u64) -> (r: Keyed<TrackedRequest>)
    ensures
        tracked_view(r.view()) == fresh_only(tracked_view(sent.view()), now_ms),
{
    let ghost all = sent.view();
    let mut rest = sent;
    let mut kept: Keyed<TrackedRequest> = Keyed::new();
    loop
        invariant
            forall|id: Seq<char>| #[trigger]
                rest.view().dom().contains(id) ==> all.dom().contains(id) && rest.view()[id]
                    == all[id],
            forall|id: Seq<char>| #[trigger]
                kept.view().dom().contains(id) <==> all.dom().contains(id)
                    && !rest.view().dom().contains(id) && is_fresh(all[id].created_at_ms, now_ms),
            forall|id: Seq<char>| #[trigger]
                kept.view().dom().contains(id) ==> kept.view()[id] == all[id],
        ensures
            rest.view() == Map::<Seq<char>, TrackedRequest>::empty(),
        decreases rest.count(),
    {
        match rest.pop() {
            Some((id, request)) => {
                if still_fresh(request.created_at_ms, now_ms) {
                    kept.insert(id.as_str(), request);
                }
            },
            None => {
                break;
            },
        }
    }
    assert(tracked_view(kept.view()) =~= fresh_only(tracked_view(all), now_ms));
    kept
}

/// A bridge before any message.
pub open spec fn new_core(warm: bool) -> CoreView {
    CoreView {
        warm,
        initialize_ids: Set::empty(),
        forwarded: Map::empty(),
        sanitized: Map::empty(),
        registry: RegistryView { pending: Map::empty(), contexts: Map::empty() },
        login: no_login(),
        watch: None,
        waiting: Set::empty(),
    }
}

impl BridgeCore {
    /// A bridge before any message. `warm` tells whether Codex has had its handshake.
    pub fn new(warm: bool) -> (r: BridgeCore)
        ensures
            r@ == new_core(warm),
    {
        let r = BridgeCore {
            codex_handshake_warm: warm,
            forwarded_initialize_request_ids: Keyed::new(),
            forwarded_request_methods_by_id: Keyed::new(),
            relay_sanitized_response_methods_by_id: Keyed::new(),
            thread_runtime_registry: ThreadRuntimeRegistry::new(),
            pending_auth_login: PendingAuthLogin::none(),
            context_usage_watch: None,
            waiting_request_ids: Keyed::new(),
        };
        assert(r@.forwarded =~= Map::empty());
        assert(r@.sanitized =~= Map::empty());
        assert(r@.initialize_ids =~= Set::empty());
        assert(r@.waiting =~= Set::empty());
        r
    }

    /// Whether somebody is signing in.
    pub fn login_in_flight(&self) -> (r: bool)
        ensures
            r == (self@.login.login_id is Some),
    {
        self.pending_auth_login.login_id.is_some()
    }

    /// Where somebody who is signing in has to go.
    pub fn pending_auth_url(&self) -> (r: Option<String>)
        ensures
            r.deep_view() == self@.login.auth_url,
    {
        self.pending_auth_login.auth_url.clone()
    }

    /// Forgets the watch on a turn.
    pub fn stop_watching(&mut self)
        ensures
            final(self)@ == (CoreView { watch: None, ..old(self)@ }),
    {
        self.context_usage_watch = None;
    }

    /// Looks at a message of the phone.
    pub fn handle_application_message(&mut self, raw_message: &str) -> (r: ApplicationRoute)
        ensures
            match json_parse(raw_message@) {
                Some(message) => r.view() == old(self)@.route(message) && final(self)@ == old(
                    self,
                )@.routed(message),
                None => r.view() == RouteView::Ignore && final(self)@ == old(self)@,
            },
    {
        match parse_json(raw_message) {
            Some(message) => self.route_application_value(&message),
            None => ApplicationRoute::Ignore,
        }
    }

    /// Looks at a message of the phone.
    pub fn route_application_value(&mut self, message: &Json) -> (r: ApplicationRoute)
        ensures
            r.view() == old(self)@.route(message@),
            final(self)@ == old(self)@.routed(message@),
    {
        let method = message.read_or_empty("method");
        if method.as_str().is_empty() {
            proof {
                reveal_strlit("initialize");
                assert("initialize"@.len() > 0);
            }
            return ApplicationRoute::Ignore;
        }
        if text_eq(method.as_str(), "initialize") {
            if let Some(id) = message.get("id") {
                if self.codex_handshake_warm {
                    let mut result = JsonObject::new();
                    result.insert("bridgeManaged", Json::Bool(true));
                    return ApplicationRoute::Answer(
                        success_response(id.clone(), Json::object(result)),
                    );
                }
                if let Some(id) = stringify_request_id(id) {
                    self.forwarded_initialize_request_ids.insert(id.as_str(), ());
                    assert(self@.initialize_ids =~= old(self)@.initialize_ids.insert(id@));
                }
            }
        }
        if text_eq(method.as_str(), "initialized") && self.codex_handshake_warm {
            return ApplicationRoute::Ignore;
        }
        match task_for_method(method.as_str()) {
            Some(task) => {
                let request_id = match message.get("id") {
                    Some(id) => Some(id.clone()),
                    None => None,
                };
                let params = match message.get("params") {
                    Some(params) => params.clone(),
                    None => Json::object(JsonObject::new()),
                };
                ApplicationRoute::Spawn { request_id, method, params, task }
            },
            None => ApplicationRoute::Forward {
                thread_id: existing_thread_id_from_request(message),
            },
        }
    }

    fn prune_tracked_requests(&mut self, now_ms: u64)
        ensures
            final(self)@ == old(self)@.pruned(now_ms),
    {
        let mut forwarded: Keyed<TrackedRequest> = Keyed::new();
        std::mem::swap(&mut forwarded, &mut self.forwarded_request_methods_by_id);
        self.forwarded_request_methods_by_id = prune_tracked(forwarded, now_ms);
        let mut sanitized: Keyed<TrackedRequest> = Keyed::new();
        std::mem::swap(&mut sanitized, &mut self.relay_sanitized_response_methods_by_id);
        self.relay_sanitized_response_methods_by_id = prune_tracked(sanitized, now_ms);
    }

    /// Prepares a request that goes to Codex, given the header of the record of its thread.
    pub fn prepare_forward(
        &mut self,
        message: Json,
        raw_message: String,
        header: Option<&Json>,
        now_ms: u64,
    ) -> (r: String)
        ensures
            r@ == old(self)@.prepared_text(message@, raw_message@, header.deep_view(), now_ms),
            final(self)@ == old(self)@.preparing(message@, header.deep_view(), now_ms),
    {
        self.prune_tracked_requests(now_ms);
        self.thread_runtime_registry.prune_stale(now_ms);
        self.thread_runtime_registry.remember_pending_thread_start_context(&message, now_ms);
        self.thread_runtime_registry.prepare_outbound_application_message(
            message,
            raw_message,
            header,
        )
    }

    fn track(&mut self, id: &str, method: &str, in_forwarded: bool, now_ms: u64)
        ensures
            final(self)@ == if in_forwarded {
                CoreView {
                    forwarded: old(self)@.forwarded.insert(
                        id@,
                        TrackedView { method: method@, created_at_ms: now_ms },
                    ),
                    ..old(self)@
                }
            } else {
                CoreView {
                    sanitized: old(self)@.sanitized.insert(
                        id@,
                        TrackedView { method: method@, created_at_ms: now_ms },
                    ),
                    ..old(self)@
                }
            },
    {
        let request = TrackedRequest { method: method.to_owned(), created_at_ms: now_ms };
        let ghost seen = request.view();
        if in_forwarded {
            self.forwarded_request_methods_by_id.insert(id, request);
            assert(self@.forwarded =~= old(self)@.forwarded.insert(id@, seen));
        } else {
            self.relay_sanitized_response_methods_by_id.insert(id, request);
            assert(self@.sanitized =~= old(self)@.sanitized.insert(id@, seen));
        }
    }

    /// Remembers a request that was sent on, where its answer matters.
    pub fn remember_forwarded_request_method(&mut self, message: &Json, now_ms: u64)
        ensures
            final(self)@ == old(self)@.tracking(message@, now_ms),
    {
        self.prune_tracked_requests(now_ms);
        let method = message.read_or_empty("method");
        let id = match read_message_id(message) {
            Some(id) => id,
            None => {
                return;
            },
        };
        if text_eq(method.as_str(), "account/login/start") || text_eq(
            method.as_str(),
            "account/login/cancel",
        ) || text_eq(method.as_str(), "account/logout") {
            self.track(id.as_str(), method.as_str(), true, now_ms);
        }
        if text_eq(method.as_str(), "thread/read") || text_eq(method.as_str(), "thread/resume") {
            self.track(id.as_str(), method.as_str(), false, now_ms);
        }
    }

    /// Takes up what a message is about; the thread that it names comes out.
    pub fn remember_thread_from_message(&mut self, context: MessageContext, now_ms: u64) -> (r:
        Option<String>)
        ensures
            r.deep_view() == named_thread(context.view()),
            final(self)@ == old(self)@.noting(context.view(), now_ms),
    {
        if context.thread_id.as_str().is_empty() {
            return None;
        }
        let named = context.thread_id.clone();
        if text_eq(context.method.as_str(), "turn/start") || text_eq(
            context.method.as_str(),
            "turn/started",
        ) {
            let key = match &context.turn_id {
                Some(turn) => concat3(context.thread_id.as_str(), "|", turn.as_str()),
                None => concat3(context.thread_id.as_str(), "|", "pending-turn"),
            };
            let same = match &self.context_usage_watch {
                Some(watch) => text_eq(watch.key.as_str(), key.as_str()),
                None => false,
            };
            if !same {
                self.context_usage_watch = Some(
                    ContextUsageWatch {
                        key,
                        thread_id: context.thread_id,
                        turn_id: context.turn_id,
                        started_at_ms: now_ms,
                        last_usage_json: None,
                    },
                );
            }
        }
        Some(named)
    }

    /// Takes up a request that was sent on; the thread that it names comes out.
    pub fn note_forwarded(&mut self, message: Option<&Json>, now_ms: u64) -> (r: Option<String>)
        ensures
            r.deep_view() == named_in(message.deep_view()),
            final(self)@ == old(self)@.forwarded(message.deep_view(), now_ms),
    {
        match message {
            Some(message) => {
                self.remember_forwarded_request_method(message, now_ms);
                self.remember_thread_from_message(message_context(message), now_ms)
            },
            None => None,
        }
    }

    /// What goes to Codex of a message of the phone, given the header of the record of its
    /// thread. What is no message goes nowhere.
    pub fn forward_application_message(
        &mut self,
        raw_message: String,
        header: Option<&Json>,
        now_ms: u64,
    ) -> (r: Option<Passed>)
        ensures
            match json_parse(raw_message@) {
                Some(message) => {
                    let text = old(self)@.prepared_text(
                        message,
                        raw_message@,
                        header.deep_view(),
                        now_ms,
                    );
                    &&& r is Some
                    &&& r->0.text@ == text
                    &&& r->0.active_thread.deep_view() == named_in(json_parse(text))
                    &&& final(self)@ == old(self)@.preparing(
                        message,
                        header.deep_view(),
                        now_ms,
                    ).forwarded(json_parse(text), now_ms)
                },
                None => r is None && final(self)@ == old(self)@,
            },
    {
        let message = match parse_json(raw_message.as_str()) {
            Some(message) => message,
            None => {
                return None;
            },
        };
        let text = self.prepare_forward(message, raw_message, header, now_ms);
        let active_thread = match parse_json(text.as_str()) {
            Some(outbound) => self.note_forwarded(Some(&outbound), now_ms),
            None => self.note_forwarded(None, now_ms),
        };
        Some(Passed { text, active_thread })
    }

    fn update_pending_auth_login(&mut self, message: &Json, now_ms: u64)
        ensures
            final(self)@ == old(self)@.login_updated(message@, now_ms),
    {
        let ghost before = self@;
        if let Some(id) = read_message_id(message) {
            let sent = self.forwarded_request_methods_by_id.remove(id.as_str());
            assert(self@.forwarded =~= before.forwarded.remove(id@));
            if let Some(sent) = sent {
                assert(before.forwarded[id@] == sent.view());
                if text_eq(sent.method.as_str(), "account/login/start") {
                    let login_id = message.read2("result", "loginId");
                    let auth_url = message.read2("result", "authUrl");
                    if login_id.is_none() || auth_url.is_none() {
                        self.pending_auth_login = PendingAuthLogin::none();
                    } else {
                        self.pending_auth_login = PendingAuthLogin {
                            login_id,
                            auth_url,
                            request_id: Some(id),
                            started_at_ms: Some(now_ms),
                        };
                    }
                    return;
                }
                if text_eq(sent.method.as_str(), "account/login/cancel") || text_eq(
                    sent.method.as_str(),
                    "account/logout",
                ) {
                    self.pending_auth_login = PendingAuthLogin::none();
                    return;
                }
            }
        }
        let method = message.read_or_empty("method");
        if text_eq(method.as_str(), "account/login/completed") || text_eq(
            method.as_str(),
            "account/updated",
        ) {
            self.pending_auth_login = PendingAuthLogin::none();
        }
    }

    fn track_codex_handshake_state(&mut self, message: &Json)
        ensures
            final(self)@ == old(self)@.handshake_tracked(message@),
    {
        let id = match read_message_id(message) {
            Some(id) => id,
            None => {
                return;
            },
        };
        if !self.forwarded_initialize_request_ids.contains(id.as_str()) {
            return;
        }
        self.forwarded_initialize_request_ids.remove(id.as_str());
        assert(self@.initialize_ids =~= old(self)@.initialize_ids.remove(id@));
        if message.get("result").is_some() {
            self.codex_handshake_warm = true;
            return;
        }
        let error = match message.read2("error", "message") {
            Some(error) => error,
            None => String::new(),
        };
        if contains_text(to_ascii_lower(error.as_str()).as_str(), "already initialized") {
            self.codex_handshake_warm = true;
        }
    }

    /// A request of the bridge itself to Codex: its identifier, which is made of a token, and its
    /// text.
    pub fn send_request_as(&mut self, token: &str, method: &str, params: Json) -> (r: (
        String,
        String,
    ))
        ensures
            r.0@ == managed_id(token@),
            r.1@ == json_print(managed_request(managed_id(token@), method@, params@)),
            final(self)@ == (CoreView {
                waiting: old(self)@.waiting.insert(managed_id(token@)),
                ..old(self)@
            }),
    {
        let id = concat2("bridge-managed-", token);
        self.waiting_request_ids.insert(id.as_str(), ());
        assert(self@.waiting =~= old(self)@.waiting.insert(id@));
        let mut request = JsonObject::new();
        request.insert("id", Json::text(id.as_str()));
        request.insert("method", Json::text(method));
        request.insert("params", params);
        (id, print_json(&Json::object(request)))
    }

    /// A request of the bridge itself to Codex, under an identifier that is new.
    pub fn send_request(&mut self, method: &str, params: Json) -> (r: (String, String))
        ensures
            exists|token: Seq<char>| #[trigger]
                is_uuid_text(token) && r.0@ == managed_id(token) && r.1@ == json_print(
                    managed_request(managed_id(token), method@, params@),
                ) && final(self)@ == (CoreView {
                    waiting: old(self)@.waiting.insert(managed_id(token)),
                    ..old(self)@
                }),
    {
        let token = fresh_uuid();
        let r = self.send_request_as(token.as_str(), method, params);
        assert(is_uuid_text(token@));
        r
    }

    /// Takes up the answer to a request of the bridge itself.
    fn handle_bridge_managed_codex_response(&mut self, message: &Json) -> (r: Option<
        (String, Result<Json, String>),
    >)
        ensures
            match r {
                Some((id, answer)) => old(self)@.awaited(Some(message@)) == Some(id@)
                    && crate::script::json_result(Some(answer)) == Some(codex_answer(message@))
                    && final(self)@ == (CoreView {
                    waiting: old(self)@.waiting.remove(id@),
                    ..old(self)@
                }),
                None => old(self)@.awaited(Some(message@)) is None && final(self)@ == old(self)@,
            },
    {
        match read_codex_answer(message) {
            Some((id, answer)) => {
                if !self.waiting_request_ids.contains(id.as_str()) {
                    return None;
                }
                self.waiting_request_ids.remove(id.as_str());
                assert(self@.waiting =~= old(self)@.waiting.remove(id@));
                Some((id, answer))
            },
            None => None,
        }
    }

    /// Takes up the value of a message of Codex, where its text has one.
    pub fn handle_codex_value(&mut self, message: Option<&Json>, raw_message: String, now_ms: u64)
        -> (r: CodexRoute)
        ensures
            r.view() == old(self)@.codex_route(message.deep_view(), raw_message@, now_ms),
            final(self)@ == old(self)@.codex_message(message.deep_view(), now_ms),
    {
        if let Some(value) = message {
            if let Some((request_id, result)) = self.handle_bridge_managed_codex_response(value) {
                return CodexRoute::Answer { request_id, result };
            }
        }
        CodexRoute::Pass(self.pass_codex_value(message, raw_message, now_ms))
    }

    fn pass_codex_value(&mut self, message: Option<&Json>, raw_message: String, now_ms: u64) -> (r:
        Passed)
        ensures
            r.text@ == old(self)@.codex_text(message.deep_view(), raw_message@, now_ms),
            r.active_thread.deep_view() == named_in(message.deep_view()),
            final(self)@ == old(self)@.codex_passed(message.deep_view(), now_ms),
    {
        self.prune_tracked_requests(now_ms);
        let message = match message {
            Some(message) => message,
            None => {
                return Passed { text: raw_message, active_thread: None };
            },
        };
        let ghost known = self@;
        self.update_pending_auth_login(message, now_ms);
        self.track_codex_handshake_state(message);
        self.thread_runtime_registry.update_from_codex_value(message);
        let active_thread = self.remember_thread_from_message(message_context(message), now_ms);
        let ghost before = self@;
        assert(before.sanitized == known.sanitized);
        let text = match read_message_id(message) {
            Some(id) => {
                let sent = self.relay_sanitized_response_methods_by_id.remove(id.as_str());
                assert(self@.sanitized =~= before.sanitized.remove(id@));
                match sent {
                    Some(sent) => {
                        assert(before.sanitized[id@] == sent.view());
                        sanitize_thread_history_images_for_relay(
                            raw_message,
                            sent.method.as_str(),
                        )
                    },
                    None => raw_message,
                }
            },
            None => raw_message,
        };
        Passed { text, active_thread }
    }

    /// Takes up a message of Codex: what is sent on to the phone.
    pub fn handle_codex_message(&mut self, raw_message: String, now_ms: u64) -> (r: CodexRoute)
        ensures
            r.view() == old(self)@.codex_route(json_parse(raw_message@), raw_message@, now_ms),
            final(self)@ == old(self)@.codex_message(json_parse(raw_message@), now_ms),
    {
        match parse_json(raw_message.as_str()) {
            Some(message) => self.handle_codex_value(Some(&message), raw_message, now_ms),
            None => self.handle_codex_value(None, raw_message, now_ms),
        }
    }

    /// The thread and the turn whose context is to be read. A watch that has lasted long enough
    /// ends.
    pub fn context_to_read(&mut self, now_ms: u64) -> (r: Option<(String, Option<String>)>)
        ensures
            match r {
                Some((thread_id, turn_id)) => old(self)@.watched(now_ms) matches Some(watch)
                    && watch.thread_id == thread_id@ && watch.turn_id == turn_id.deep_view()
                    && final(self)@ == old(self)@,
                None => old(self)@.watched(now_ms) is None && final(self)@ == (CoreView {
                    watch: None,
                    ..old(self)@
                }),
            },
    {
        let over = match &self.context_usage_watch {
            Some(watch) => now_ms > watch.started_at_ms && now_ms - watch.started_at_ms
                > CONTEXT_WATCH_MS,
            None => {
                return None;
            },
        };
        if over {
            self.context_usage_watch = None;
            return None;
        }
        match &self.context_usage_watch {
            Some(watch) => Some((watch.thread_id.clone(), watch.turn_id.clone())),
            None => None,
        }
    }

    /// Takes up the use of the context: what the phone is told, where it has changed.
    pub fn poll_context_usage(&mut self, read: &Json) -> (r: Option<String>)
        ensures
            r.deep_view() == old(self)@.usage_note(read@),
            final(self)@ == old(self)@.usage_noted(read@),
    {
        let usage = match read.get("usage") {
            Some(usage) => usage,
            None => {
                return None;
            },
        };
        let text = print_json(usage);
        let thread_id = match &self.context_usage_watch {
            Some(watch) => {
                if let Some(last) = &watch.last_usage_json {
                    if text_eq(last.as_str(), text.as_str()) {
                        return None;
                    }
                }
                watch.thread_id.clone()
            },
            None => {
                return None;
            },
        };
        if let Some(watch) = &mut self.context_usage_watch {
            watch.last_usage_json = Some(text);
        }
        let mut params = JsonObject::new();
        params.insert("threadId", Json::Text(thread_id));
        params.insert("usage", usage.clone());
        let mut out = JsonObject::new();
        out.insert("method", Json::text("thread/tokenUsage/updated"));
        out.insert("params", Json::object(params));
        Some(print_json(&Json::object(out)))
    }
}

// What holds of every message.

/// The same use of the context is told once.
pub proof fn law_usage_is_told_once(core: CoreView, read: JsonView)
    ensures
        core.usage_noted(read).usage_note(read) is None,
{
}

/// Once Codex has had its handshake it stays so, whatever comes.
pub proof fn law_handshake_stays_warm(
    core: CoreView,
    message: JsonView,
    codex: Option<JsonView>,
    now_ms: u64,
)
    requires
        core.warm,
    ensures
        core.routed(message).warm,
        core.codex_message(codex, now_ms).warm,
{
}

/// A handshake goes to Codex at most until it is warm: then the bridge answers.
pub proof fn law_warm_handshake_is_answered(core: CoreView, message: JsonView)
    requires
        core.warm,
        message.read_or_empty("method"@) == "initialize"@,
        message.get("id"@) is Some,
    ensures
        core.route(message) is Answer,
        core.routed(message) == core,
{
    reveal_strlit("initialize");
    assert("initialize"@.len() > 0);
}

/// The answer to a request for the history of a thread has its images taken out, where it comes
/// while the request is remembered; later it goes on as it is.
pub proof fn law_history_answers_are_looked_through(
    core: CoreView,
    request: JsonView,
    sent_ms: u64,
    answer: JsonView,
    raw: Seq<char>,
    now_ms: u64,
)
    requires
        request.read_or_empty("method"@) == "thread/read"@ || request.read_or_empty("method"@)
            == "thread/resume"@,
        message_id(request) is Some,
        message_id(answer) == message_id(request),
    ensures
        core.tracking(request, sent_ms).codex_text(Some(answer), raw, now_ms) == if is_fresh(
            sent_ms,
            now_ms,
        ) {
            relayed_answer(raw, request.read_or_empty("method"@))
        } else {
            raw
        },
{
}

/// The answer to a request of the bridge itself is taken up once, and changes nothing else.
pub proof fn law_own_requests_are_answered_once(core: CoreView, message: JsonView, now_ms: u64)
    requires
        core.awaited(Some(message)) is Some,
    ensures
        core.codex_message(Some(message), now_ms).awaited(Some(message)) is None,
        core.codex_message(Some(message), now_ms) == (CoreView {
            waiting: core.waiting.remove(message_id(message)->0),
            ..core
        }),
{
}

/// Somebody who signed out, or whose signing in was ended, is not signing in.
pub proof fn law_logout_clears_the_login(core: CoreView, message: JsonView, now_ms: u64)
    requires
        message_id(message) matches Some(id) && core.forwarded.dom().contains(id) && (
        core.forwarded[id].method == "account/logout"@ || core.forwarded[id].method
            == "account/login/cancel"@),
    ensures
        core.login_updated(message, now_ms).login == no_login(),
{
    reveal_strlit("account/logout");
    reveal_strlit("account/login/cancel");
    reveal_strlit("account/login/start");
    assert("account/logout"@.len() == 14 && "account/login/cancel"@.len() == 20
        && "account/login/start"@.len() == 19);
}

} // verus!
