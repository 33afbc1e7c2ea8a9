//! Which model a thread runs on, and that it stays so.
use vstd::prelude::*;

use super::support::{message_id, read_message_id, with_member};
use crate::json::{
    json_parse, json_print, or_else, parse_json, print_json, Json, JsonObject, JsonView,
};
use crate::keyed::Keyed;
use crate::text::text_eq;

verus! {

/// How long a request that was sent on is remembered.
pub const FORWARDED_REQUEST_METHOD_TTL_MS: u64 = 120_000;

/// The model of a thread and who provides it.
#[derive(Debug, PartialEq, Eq)]
pub struct ThreadRuntimeContext {
    pub model: Option<String>,
    pub model_provider: Option<String>,
}

/// What a `ThreadRuntimeContext` stands for.
pub struct RuntimeView {
    pub model: Option<Seq<char>>,
    pub provider: Option<Seq<char>>,
}

impl RuntimeView {
    pub open spec fn is_empty(self) -> bool {
        self.model is None && self.provider is None
    }

    /// What was known stays; what was not known is taken over.
    pub open spec fn merged(self, incoming: RuntimeView) -> RuntimeView {
        RuntimeView {
            model: or_else(self.model, incoming.model),
            provider: or_else(self.provider, incoming.provider),
        }
    }
}

impl View for ThreadRuntimeContext {
    type V = RuntimeView;

    open spec fn view(&self) -> RuntimeView {
        RuntimeView { model: self.model.deep_view(), provider: self.model_provider.deep_view() }
    }
}

impl DeepView for ThreadRuntimeContext {
    type V = RuntimeView;

    open spec fn deep_view(&self) -> RuntimeView {
        self.view()
    }
}

impl Clone for ThreadRuntimeContext {
    fn clone(&self) -> (r: ThreadRuntimeContext)
        ensures
            r@ == self@,
    {
        ThreadRuntimeContext {
            model: self.model.clone(),
            model_provider: self.model_provider.clone(),
        }
    }
}

pub open spec fn nothing_known() -> RuntimeView {
    RuntimeView { model: None, provider: None }
}

impl ThreadRuntimeContext {
    pub fn empty() -> (r: ThreadRuntimeContext)
        ensures
            r@ == nothing_known(),
    {
        ThreadRuntimeContext { model: None, model_provider: None }
    }

    pub fn is_empty(&self) -> (r: bool)
        ensures
            r == self@.is_empty(),
    {
        self.model.is_none() && self.model_provider.is_none()
    }

    /// Takes over what is not known.
    pub fn merge(&mut self, incoming: &ThreadRuntimeContext)
        ensures
            final(self)@ == old(self)@.merged(incoming@),
    {
        if self.model.is_none() {
            self.model = incoming.model.clone();
        }
        if self.model_provider.is_none() {
            self.model_provider = incoming.model_provider.clone();
        }
    }
}

/// The model that a value names, in it or in its metadata.
pub open spec fn runtime_of(value: JsonView) -> RuntimeView {
    RuntimeView {
        model: or_else(
            value.read("model"@),
            or_else(
                value.read2("metadata"@, "model"@),
                or_else(
                    value.read2("metadata"@, "modelName"@),
                    value.read2("metadata"@, "model_name"@),
                ),
            ),
        ),
        provider: or_else(
            value.read("modelProvider"@),
            or_else(
                value.read("model_provider"@),
                or_else(
                    value.read2("metadata"@, "modelProvider"@),
                    or_else(
                        value.read2("metadata"@, "model_provider"@),
                        or_else(
                            value.read2("metadata"@, "modelProviderId"@),
                            value.read2("metadata"@, "model_provider_id"@),
                        ),
                    ),
                ),
            ),
        ),
    }
}

fn first_of(a: Option<String>, b: Option<String>) -> (r: Option<String>)
    ensures
        r.deep_view() == or_else(a.deep_view(), b.deep_view()),
{
    match a {
        Some(s) => Some(s),
        None => b,
    }
}

pub fn thread_runtime_context_from_value(value: &Json) -> (r: ThreadRuntimeContext)
    ensures
        r@ == runtime_of(value@),
{
    ThreadRuntimeContext {
        model: first_of(
            value.read("model"),
            first_of(
                value.read2("metadata", "model"),
                first_of(
                    value.read2("metadata", "modelName"),
                    value.read2("metadata", "model_name"),
                ),
            ),
        ),
        model_provider: first_of(
            value.read("modelProvider"),
            first_of(
                value.read("model_provider"),
                first_of(
                    value.read2("metadata", "modelProvider"),
                    first_of(
                        value.read2("metadata", "model_provider"),
                        first_of(
                            value.read2("metadata", "modelProviderId"),
                            value.read2("metadata", "model_provider_id"),
                        ),
                    ),
                ),
            ),
        ),
    }
}

// Rewriting requests.

/// A member that says which model is meant: set where it is known, and left out where not.
pub open spec fn identity_field(
    members: Map<Seq<char>, JsonView>,
    key: Seq<char>,
    value: Option<Seq<char>>,
) -> Map<Seq<char>, JsonView> {
    match value {
        Some(text) => members.insert(key, JsonView::Text(text)),
        None => members.remove(key),
    }
}

fn rewrite_runtime_identity_field(object: &mut JsonObject, key: &str, value: &Option<String>)
    ensures
        final(object).view() == identity_field(old(object).view(), key@, value.deep_view()),
{
    match value {
        Some(text) => {
            object.insert(key, Json::text(text.as_str()));
        },
        None => {
            object.remove(key);
        },
    }
}

/// The settings of a turn name the model as well, where there are settings.
pub open spec fn settings_model(
    members: Map<Seq<char>, JsonView>,
    model: Option<Seq<char>>,
) -> Map<Seq<char>, JsonView> {
    match JsonView::Object(members).get("collaborationMode"@) {
        Some(JsonView::Object(mode)) => match JsonView::Object(mode).get("settings"@) {
            Some(JsonView::Object(settings)) => members.insert(
                "collaborationMode"@,
                JsonView::Object(
                    mode.insert(
                        "settings"@,
                        JsonView::Object(identity_field(settings, "model"@, model)),
                    ),
                ),
            ),
            _ => members,
        },
        _ => members,
    }
}

fn rewrite_turn_start_settings_model(params: &mut JsonObject, model: &Option<String>)
    ensures
        final(params).view() == settings_model(old(params).view(), model.deep_view()),
{
    let ghost before = params.view();
    let mode = match params.get("collaborationMode") {
        Some(mode) => mode.clone(),
        None => {
            return;
        },
    };
    let mut mode = match mode.into_object() {
        Some(mode) => mode,
        None => {
            return;
        },
    };
    let settings = match mode.get("settings") {
        Some(settings) => settings.clone(),
        None => {
            return;
        },
    };
    let mut settings = match settings.into_object() {
        Some(settings) => settings,
        None => {
            return;
        },
    };
    rewrite_runtime_identity_field(&mut settings, "model", model);
    mode.insert("settings", Json::object(settings));
    params.insert("collaborationMode", Json::object(mode));
}

/// The parameters of a request with the model that the thread runs on.
pub open spec fn rewritten_params(
    members: Map<Seq<char>, JsonView>,
    context: RuntimeView,
    is_turn: bool,
) -> Map<Seq<char>, JsonView> {
    let named = identity_field(
        identity_field(
            identity_field(members, "model"@, context.model),
            "modelProvider"@,
            context.provider,
        ),
        "model_provider"@,
        context.provider,
    );
    if is_turn {
        settings_model(named, context.model)
    } else {
        named
    }
}

/// The thread that a request names.
pub open spec fn existing_thread(message: JsonView) -> Option<Seq<char>> {
    or_else(message.read2("params"@, "threadId"@), message.read2("params"@, "thread_id"@))
}

pub fn existing_thread_id_from_request(message: &Json) -> (r: Option<String>)
    ensures
        r.deep_view() == existing_thread(message@),
{
    first_of(message.read2("params", "threadId"), message.read2("params", "thread_id"))
}

/// Whether a request goes on with a thread, so that the model of the thread counts.
pub open spec fn goes_on(message: JsonView) -> bool {
    let method = message.read_or_empty("method"@);
    (method == "thread/resume"@ || method == "turn/start"@) && existing_thread(message) is Some
}

/// A request that goes on with a thread names the model that the thread runs on, or none where
/// that is not known.
pub open spec fn rewritten(message: JsonView, context: Option<RuntimeView>) -> JsonView {
    match message.get("params"@) {
        Some(JsonView::Object(members)) => with_member(
            message,
            "params"@,
            JsonView::Object(
                rewritten_params(
                    members,
                    match context {
                        Some(context) => context,
                        None => nothing_known(),
                    },
                    message.read_or_empty("method"@) == "turn/start"@,
                ),
            ),
        ),
        _ => message,
    }
}

/// Writes the model of the thread into a request that goes on with it, and tells whether it is
/// such a request.
pub fn rewrite_existing_thread_runtime_request(
    message: &mut Json,
    context: Option<&ThreadRuntimeContext>,
) -> (r: bool)
    ensures
        r == goes_on(old(message)@),
        final(message)@ == if r {
            rewritten(old(message)@, context.deep_view())
        } else {
            old(message)@
        },
{
    let method = message.read_or_empty("method");
    let is_turn = text_eq(method.as_str(), "turn/start");
    if !text_eq(method.as_str(), "thread/resume") && !is_turn {
        return false;
    }
    if existing_thread_id_from_request(message).is_none() {
        return false;
    }
    let params = match message.get("params") {
        Some(params) => params.clone(),
        None => {
            return false;
        },
    };
    let mut params = match params.into_object() {
        Some(params) => params,
        None => {
            return false;
        },
    };
    let none = ThreadRuntimeContext::empty();
    let context = match context {
        Some(context) => context,
        None => &none,
    };
    rewrite_runtime_identity_field(&mut params, "model", &context.model);
    rewrite_runtime_identity_field(&mut params, "modelProvider", &context.model_provider);
    rewrite_runtime_identity_field(&mut params, "model_provider", &context.model_provider);
    if is_turn {
        rewrite_turn_start_settings_model(&mut params, &context.model);
    }
    match message.clone().into_object() {
        Some(object) => {
            let mut object = object;
            object.insert("params", Json::object(params));
            *message = Json::object(object);
        },
        None => {},
    }
    true
}

// What is known of the threads.

/// A thread that was asked for and is not known by its identifier yet.
pub struct PendingStart {
    pub context: ThreadRuntimeContext,
    pub created_at_ms: u64,
}

/// What a `PendingStart` stands for.
pub struct PendingStartView {
    pub context: RuntimeView,
    pub created_at_ms: u64,
}

impl PendingStart {
    pub open spec fn view(&self) -> PendingStartView {
        PendingStartView { context: self.context@, created_at_ms: self.created_at_ms }
    }
}

pub struct ThreadRuntimeRegistry {
    pending: Keyed<PendingStart>,
    contexts: Keyed<ThreadRuntimeContext>,
}

/// What a `ThreadRuntimeRegistry` stands for.
pub struct RegistryView {
    pub pending: Map<Seq<char>, PendingStartView>,
    pub contexts: Map<Seq<char>, RuntimeView>,
}

pub open spec fn starts_view(pending: Map<Seq<char>, PendingStart>) -> Map<
    Seq<char>,
    PendingStartView,
> {
    Map::new(|id: Seq<char>| pending.dom().contains(id), |id: Seq<char>| pending[id].view())
}

pub open spec fn contexts_view(contexts: Map<Seq<char>, ThreadRuntimeContext>) -> Map<
    Seq<char>,
    RuntimeView,
> {
    Map::new(|id: Seq<char>| contexts.dom().contains(id), |id: Seq<char>| contexts[id]@)
}

/// Whether something that was remembered still counts.
pub open spec fn is_fresh(created_at_ms: u64, now_ms: u64) -> bool {
    now_ms < created_at_ms + FORWARDED_REQUEST_METHOD_TTL_MS
}

pub fn still_fresh(created_at_ms: u64, now_ms: u64) -> (r: bool)
    ensures
        r == is_fresh(created_at_ms, now_ms),
{
    now_ms <= created_at_ms || now_ms - created_at_ms < FORWARDED_REQUEST_METHOD_TTL_MS
}

/// What is told of a thread, and by which identifier.
pub open spec fn thread_told(thread: Option<JsonView>) -> Option<(Seq<char>, RuntimeView)> {
    match thread {
        Some(thread) => match thread.read("id"@) {
            Some(id) => Some((id, runtime_of(thread))),
            None => None,
        },
        None => None,
    }
}

impl RegistryView {
    /// What was remembered too long ago is forgotten.
    pub open spec fn pruned(self, now_ms: u64) -> RegistryView {
        RegistryView {
            pending: Map::new(
                |id: Seq<char>|
                    self.pending.dom().contains(id) && is_fresh(
                        self.pending[id].created_at_ms,
                        now_ms,
                    ),
                |id: Seq<char>| self.pending[id],
            ),
            ..self
        }
    }

    /// A request for a thread is remembered where it names a model.
    pub open spec fn asking(self, message: JsonView, now_ms: u64) -> RegistryView {
        let context = match message.get("params"@) {
            Some(params) => runtime_of(params),
            None => nothing_known(),
        };
        if message.read_or_empty("method"@) == "thread/start"@ && message_id(message) is Some
            && !context.is_empty() {
            RegistryView {
                pending: self.pending.insert(
                    message_id(message)->0,
                    PendingStartView { context, created_at_ms: now_ms },
                ),
                ..self
            }
        } else {
            self
        }
    }

    /// What is known of a thread.
    pub open spec fn known(self, thread_id: Seq<char>) -> RuntimeView {
        if self.contexts.dom().contains(thread_id) {
            self.contexts[thread_id]
        } else {
            nothing_known()
        }
    }

    /// Something is told of a thread; what was known stays.
    pub open spec fn learning(self, thread_id: Seq<char>, incoming: RuntimeView) -> RegistryView {
        if incoming.is_empty() {
            self
        } else {
            RegistryView {
                contexts: self.contexts.insert(
                    thread_id,
                    self.known(thread_id).merged(incoming),
                ),
                ..self
            }
        }
    }

    pub open spec fn learning_from(self, thread: Option<JsonView>) -> RegistryView {
        match thread_told(thread) {
            Some((id, context)) => self.learning(id, context),
            None => self,
        }
    }

    /// A message of Codex tells of a thread, or answers the request for one.
    pub open spec fn updated(self, message: JsonView) -> RegistryView {
        let thread = message.get2("result"@, "thread"@);
        let told = self.learning_from(thread).learning_from(message.get2("params"@, "thread"@));
        match message_id(message) {
            Some(id) => {
                let answered = RegistryView { pending: told.pending.remove(id), ..told };
                match thread_told(thread) {
                    Some((thread_id, _)) => if told.pending.dom().contains(id) {
                        answered.learning(thread_id, told.pending[id].context)
                    } else {
                        answered
                    },
                    None => answered,
                }
            },
            None => told,
        }
    }

    /// The model of a thread, as far as it is known or the header of its record tells it.
    pub open spec fn resolved(self, thread_id: Seq<char>, header: Option<JsonView>) -> RuntimeView {
        match header {
            Some(header) => self.known(thread_id).merged(runtime_of(header)),
            None => self.known(thread_id),
        }
    }

    /// The model of a thread was looked up.
    pub open spec fn resolving(self, thread_id: Seq<char>, header: Option<JsonView>) -> RegistryView {
        let context = self.resolved(thread_id, header);
        if context.is_empty() {
            self
        } else {
            RegistryView { contexts: self.contexts.insert(thread_id, context), ..self }
        }
    }

    /// What is sent on of a request, given the header of the record of its thread.
    pub open spec fn outbound(
        self,
        message: JsonView,
        raw: Seq<char>,
        header: Option<JsonView>,
    ) -> Seq<char> {
        match existing_thread(message) {
            Some(thread_id) => if goes_on(message) {
                json_print(
                    rewritten(
                        message,
                        if self.resolved(thread_id, header).is_empty() {
                            None
                        } else {
                            Some(self.resolved(thread_id, header))
                        },
                    ),
                )
            } else {
                raw
            },
            None => raw,
        }
    }

    pub open spec fn sending(self, message: JsonView, header: Option<JsonView>) -> RegistryView {
        match existing_thread(message) {
            Some(thread_id) => self.resolving(thread_id, header),
            None => self,
        }
    }
}

impl View for ThreadRuntimeRegistry {
    type V = RegistryView;

    closed spec fn view(&self) -> RegistryView {
        RegistryView {
            pending: starts_view(self.pending.view()),
            contexts: contexts_view(self.contexts.view()),
        }
    }
}

impl ThreadRuntimeRegistry {
    pub fn new() -> (r: ThreadRuntimeRegistry)
        ensures
            r@ == (RegistryView { pending: Map::empty(), contexts: Map::empty() }),
    {
        let r = ThreadRuntimeRegistry { pending: Keyed::new(), contexts: Keyed::new() };
        assert(r@.pending =~= Map::empty());
        assert(r@.contexts =~= Map::empty());
        r
    }

    /// Forgets what was remembered too long ago.
    pub fn prune_stale(&mut self, now_ms: u64)
        ensures
            final(self)@ == old(self)@.pruned(now_ms),
    {
        let ghost all = self.pending.view();
        let mut rest: Keyed<PendingStart> = Keyed::new();
        std::mem::swap(&mut rest, &mut self.pending);
        let mut kept: Keyed<PendingStart> = Keyed::new();
        loop
            invariant
                forall|id: Seq<char>| #[trigger]
                    rest.view().dom().contains(id) ==> all.dom().contains(id) && rest.view()[id]
                        == all[id],
                forall|id: Seq<char>| #[trigger]
                    kept.view().dom().contains(id) <==> all.dom().contains(id)
                        && !rest.view().dom().contains(id) && is_fresh(
                        all[id].created_at_ms,
                        now_ms,
                    ),
                forall|id: Seq<char>| #[trigger]
                    kept.view().dom().contains(id) ==> kept.view()[id] == all[id],
            ensures
                rest.view() == Map::<Seq<char>, PendingStart>::empty(),
            decreases rest.count(),
        {
            match rest.pop() {
                Some((id, start)) => {
                    if still_fresh(start.created_at_ms, now_ms) {
                        kept.insert(id.as_str(), start);
                    }
                },
                None => {
                    break;
                },
            }
        }
        self.pending = kept;
        assert(self@.pending =~= old(self)@.pruned(now_ms).pending);
    }

    /// Remembers a request for a thread that names a model.
    pub fn remember_pending_thread_start_context(&mut self, message: &Json, now_ms: u64)
        ensures
            final(self)@ == old(self)@.asking(message@, now_ms),
    {
        let method = message.read_or_empty("method");
        if !text_eq(method.as_str(), "thread/start") {
            return;
        }
        let id = match read_message_id(message) {
            Some(id) => id,
            None => {
                return;
            },
        };
        let context = match message.get("params") {
            Some(params) => thread_runtime_context_from_value(params),
            None => ThreadRuntimeContext::empty(),
        };
        if context.is_empty() {
            return;
        }
        let start = PendingStart { context, created_at_ms: now_ms };
        let ghost start_view = start.view();
        self.pending.insert(id.as_str(), start);
        assert(self@.pending =~= old(self)@.pending.insert(id@, start_view));
    }

    fn get_known(&self, thread_id: &str) -> (r: ThreadRuntimeContext)
        ensures
            r@ == self@.known(thread_id@),
    {
        match self.contexts.get(thread_id) {
            Some(context) => context.clone(),
            None => ThreadRuntimeContext::empty(),
        }
    }

    fn merge_thread_runtime_context(&mut self, thread_id: &str, incoming: &ThreadRuntimeContext)
        ensures
            final(self)@ == old(self)@.learning(thread_id@, incoming@),
    {
        if incoming.is_empty() {
            return;
        }
        let mut context = self.get_known(thread_id);
        context.merge(incoming);
        let ghost merged = context@;
        self.contexts.insert(thread_id, context);
        assert(self@.contexts =~= old(self)@.contexts.insert(thread_id@, merged));
    }

    fn merge_thread_runtime_context_from_thread_value(&mut self, thread: Option<&Json>)
        ensures
            final(self)@ == old(self)@.learning_from(thread.deep_view()),
    {
        if let Some(thread) = thread {
            if let Some(id) = thread.read("id") {
                let context = thread_runtime_context_from_value(thread);
                self.merge_thread_runtime_context(id.as_str(), &context);
            }
        }
    }

    /// Takes up a message of Codex.
    pub fn update_from_codex_message(&mut self, raw_message: &str)
        ensures
            final(self)@ == match json_parse(raw_message@) {
                Some(message) => old(self)@.updated(message),
                None => old(self)@,
            },
    {
        if let Some(message) = parse_json(raw_message) {
            self.update_from_codex_value(&message);
        }
    }

    /// Takes up a message of Codex.
    pub fn update_from_codex_value(&mut self, message: &Json)
        ensures
            final(self)@ == old(self)@.updated(message@),
    {
        let thread = message.get2("result", "thread");
        self.merge_thread_runtime_context_from_thread_value(thread);
        self.merge_thread_runtime_context_from_thread_value(message.get2("params", "thread"));
        let ghost told = self@;
        if let Some(id) = read_message_id(message) {
            let start = self.pending.remove(id.as_str());
            assert(self@.pending =~= told.pending.remove(id@));
            if let Some(start) = start {
                assert(told.pending[id@] == start.view());
                if let Some(thread) = thread {
                    if let Some(thread_id) = thread.read("id") {
                        self.merge_thread_runtime_context(thread_id.as_str(), &start.context);
                    }
                }
            }
        }
    }

    fn resolve_existing_thread_runtime_context(
        &mut self,
        thread_id: &str,
        header: Option<&Json>,
    ) -> (r: Option<ThreadRuntimeContext>)
        ensures
            final(self)@ == old(self)@.resolving(thread_id@, header.deep_view()),
            r.deep_view() == if old(self)@.resolved(thread_id@, header.deep_view()).is_empty() {
                None
            } else {
                Some(old(self)@.resolved(thread_id@, header.deep_view()))
            },
    {
        let mut context = self.get_known(thread_id);
        if let Some(header) = header {
            context.merge(&thread_runtime_context_from_value(header));
        }
        if context.is_empty() {
            return None;
        }
        let ghost resolved = context@;
        self.contexts.insert(thread_id, context.clone());
        assert(self@.contexts =~= old(self)@.contexts.insert(thread_id@, resolved));
        Some(context)
    }

    /// What is sent on of a request, given the header of the record of its thread.
    pub fn prepare_outbound_application_message(
        &mut self,
        message: Json,
        raw_message: String,
        header: Option<&Json>,
    ) -> (r: String)
        ensures
            r@ == old(self)@.outbound(message@, raw_message@, header.deep_view()),
            final(self)@ == old(self)@.sending(message@, header.deep_view()),
    {
        let thread_id = match existing_thread_id_from_request(&message) {
            Some(id) => id,
            None => {
                return raw_message;
            },
        };
        let context = self.resolve_existing_thread_runtime_context(thread_id.as_str(), header);
        let mut message = message;
        let went_on = match &context {
            Some(context) => rewrite_existing_thread_runtime_request(&mut message, Some(context)),
            None => rewrite_existing_thread_runtime_request(&mut message, None),
        };
        if went_on {
            print_json(&message)
        } else {
            raw_message
        }
    }
}

// What holds of every thread.

/// What is known of a thread is never replaced by something else that is told of it.
pub proof fn law_known_model_stays(
    registry: RegistryView,
    thread_id: Seq<char>,
    incoming: RuntimeView,
)
    ensures
        registry.known(thread_id).model is Some ==> registry.learning(thread_id, incoming).known(
            thread_id,
        ).model == registry.known(thread_id).model,
        registry.known(thread_id).provider is Some ==> registry.learning(
            thread_id,
            incoming,
        ).known(thread_id).provider == registry.known(thread_id).provider,
{
}

/// A request that starts a thread is sent on untouched.
pub proof fn law_thread_start_is_untouched(
    registry: RegistryView,
    message: JsonView,
    raw: Seq<char>,
    header: Option<JsonView>,
)
    requires
        message.read_or_empty("method"@) == "thread/start"@,
    ensures
        !goes_on(message),
        registry.outbound(message, raw, header) == raw,
{
    reveal_strlit("thread/start");
    reveal_strlit("thread/resume");
    reveal_strlit("turn/start");
    assert("thread/start"@.len() == 12 && "thread/resume"@.len() == 13 && "turn/start"@.len()
        == 10);
}

/// A request that goes on with a thread names the model that the thread runs on, and no other:
/// where none is known it names none.
pub proof fn law_rewritten_request_names_the_model(
    message: JsonView,
    context: Option<RuntimeView>,
)
    requires
        goes_on(message),
    ensures
        rewritten(message, context).get2("params"@, "model"@) == match context {
            Some(RuntimeView { model: Some(model), .. }) => Some(JsonView::Text(model)),
            _ => None,
        },
{
    reveal_strlit("model");
    reveal_strlit("modelProvider");
    reveal_strlit("model_provider");
    reveal_strlit("collaborationMode");
    assert("model"@.len() == 5 && "modelProvider"@.len() == 13 && "model_provider"@.len() == 14
        && "collaborationMode"@.len() == 17);
}

proof fn lemma_keys()
    ensures
        "model"@ != "modelProvider"@,
        "model"@ != "model_provider"@,
        "modelProvider"@ != "model_provider"@,
        "collaborationMode"@ != "model"@,
        "collaborationMode"@ != "modelProvider"@,
        "collaborationMode"@ != "model_provider"@,
        "method"@ != "params"@,
        "threadId"@ != "model"@,
        "threadId"@ != "modelProvider"@,
        "threadId"@ != "model_provider"@,
        "threadId"@ != "collaborationMode"@,
        "thread_id"@ != "model"@,
        "thread_id"@ != "modelProvider"@,
        "thread_id"@ != "model_provider"@,
        "thread_id"@ != "collaborationMode"@,
{
    reveal_strlit("model");
    reveal_strlit("modelProvider");
    reveal_strlit("model_provider");
    reveal_strlit("collaborationMode");
    reveal_strlit("threadId");
    reveal_strlit("thread_id");
    reveal_strlit("method");
    reveal_strlit("params");
    assert("model"@.len() == 5 && "modelProvider"@.len() == 13 && "model_provider"@.len() == 14
        && "collaborationMode"@.len() == 17 && "threadId"@.len() == 8 && "thread_id"@.len() == 9);
    assert("method"@[0] == 'm' && "params"@[0] == 'p');
}

proof fn lemma_params_twice(
    members: Map<Seq<char>, JsonView>,
    context: RuntimeView,
    is_turn: bool,
)
    ensures
        ({
            let once = rewritten_params(members, context, is_turn);
            &&& rewritten_params(once, context, is_turn) == once
            &&& JsonView::Object(once).get("threadId"@) == JsonView::Object(members).get(
                "threadId"@,
            )
            &&& JsonView::Object(once).get("thread_id"@) == JsonView::Object(members).get(
                "thread_id"@,
            )
        }),
{
    lemma_keys();
    let named = rewritten_params(members, context, false);
    let once = rewritten_params(members, context, is_turn);
    let again = rewritten_params(once, context, false);
    assert(again =~= once);
    if is_turn {
        if let Some(JsonView::Object(mode)) = JsonView::Object(named).get("collaborationMode"@) {
            if let Some(JsonView::Object(settings)) = JsonView::Object(mode).get("settings"@) {
                let set = identity_field(settings, "model"@, context.model);
                assert(identity_field(set, "model"@, context.model) =~= set);
                let next = mode.insert("settings"@, JsonView::Object(set));
                assert(next.insert("settings"@, JsonView::Object(set)) =~= next);
                assert(once == named.insert("collaborationMode"@, JsonView::Object(next)));
                assert(once.insert("collaborationMode"@, JsonView::Object(next)) =~= once);
            }
        }
    }
}

/// A second rewriting of a request under the same context changes nothing: what was rewritten is
/// still a request that goes on with the thread, and it names the model already.
pub proof fn law_rewriting_twice(message: JsonView, context: Option<RuntimeView>)
    ensures
        goes_on(message) ==> goes_on(rewritten(message, context)) && existing_thread(
            rewritten(message, context),
        ) == existing_thread(message),
        rewritten(rewritten(message, context), context) == rewritten(message, context),
{
    lemma_keys();
    if let Some(JsonView::Object(members)) = message.get("params"@) {
        let known = match context {
            Some(context) => context,
            None => nothing_known(),
        };
        let is_turn = message.read_or_empty("method"@) == "turn/start"@;
        lemma_params_twice(members, known, is_turn);
        let params = JsonView::Object(rewritten_params(members, known, is_turn));
        let once = rewritten(message, context);
        assert(once.get("params"@) == Some(params));
        assert(once.get("method"@) == message.get("method"@));
        if let JsonView::Object(all) = once {
            assert(all.insert("params"@, params) =~= all);
        }
    }
}

} // verus!
