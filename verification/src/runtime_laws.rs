//! On which model a thread goes on.
//!
//! The laws here relate what Codex tells of a thread, what the phone asked for, and what is sent on
//! of a later request of the phone.
use vstd::prelude::*;

use crate::bridge::support::message_id;
use crate::bridge::thread_runtime::{goes_on, rewritten, runtime_of, RegistryView, RuntimeView};
use crate::json::{json_print, or_else, JsonView};

verus! {

/// What a value names as its model: what stands in it comes before what its metadata says.
pub proof fn law_named_model(value: JsonView)
    ensures
        value.read("model"@) matches Some(model) ==> runtime_of(value).model == Some(model),
        value.read("model"@) is None ==> runtime_of(value).model == or_else(
            value.read2("metadata"@, "model"@),
            or_else(
                value.read2("metadata"@, "modelName"@),
                value.read2("metadata"@, "model_name"@),
            ),
        ),
        value.read("modelProvider"@) matches Some(provider) ==> runtime_of(value).provider == Some(
            provider,
        ),
        value.read("modelProvider"@) is None ==> (value.read("model_provider"@) matches Some(
            provider,
        ) ==> runtime_of(value).provider == Some(provider)),
        value.read("modelProvider"@) is None && value.read("model_provider"@) is None
            ==> runtime_of(value).provider == or_else(
            value.read2("metadata"@, "modelProvider"@),
            or_else(
                value.read2("metadata"@, "model_provider"@),
                or_else(
                    value.read2("metadata"@, "modelProviderId"@),
                    value.read2("metadata"@, "model_provider_id"@),
                ),
            ),
        ),
{
}

/// What an answer of Codex tells of a thread is learned where it was not known.
pub proof fn law_told_model_is_learned(
    registry: RegistryView,
    message: JsonView,
    thread: JsonView,
    id: Seq<char>,
)
    requires
        message.get2("result"@, "thread"@) == Some(thread),
        thread.read("id"@) == Some(id),
    ensures
        registry.known(id).model is None ==> (thread.read("model"@) matches Some(model)
            ==> registry.updated(message).known(id).model == Some(model)),
        registry.known(id).provider is None ==> (thread.read("modelProvider"@) matches Some(provider)
            ==> registry.updated(message).known(id).provider == Some(provider)),
        registry.known(id).model is None ==> (runtime_of(thread).model matches Some(model)
            ==> registry.updated(message).known(id).model == Some(model)),
        registry.known(id).provider is None ==> (runtime_of(thread).provider matches Some(provider)
            ==> registry.updated(message).known(id).provider == Some(provider)),
        registry.known(id).model is Some ==> registry.updated(message).known(id).model
            == registry.known(id).model,
        registry.known(id).provider is Some ==> registry.updated(message).known(id).provider
            == registry.known(id).provider,
{
}

/// What a notification of Codex tells of a thread is learned where it was not known.
pub proof fn law_notified_model_is_learned(
    registry: RegistryView,
    message: JsonView,
    thread: JsonView,
    id: Seq<char>,
)
    requires
        message.get2("result"@, "thread"@) is None,
        message.get2("params"@, "thread"@) == Some(thread),
        thread.read("id"@) == Some(id),
    ensures
        registry.known(id).model is None ==> registry.updated(message).known(id).model
            == runtime_of(thread).model,
        registry.known(id).provider is None ==> registry.updated(message).known(id).provider
            == runtime_of(thread).provider,
        registry.known(id).model is Some ==> registry.updated(message).known(id).model
            == registry.known(id).model,
        registry.known(id).provider is Some ==> registry.updated(message).known(id).provider
            == registry.known(id).provider,
{
}

/// A thread that was asked for with a model runs on it: once the answer names the thread, the model
/// of the request is known for it, unless the answer names another.
pub proof fn law_asked_model_is_learned(
    registry: RegistryView,
    request: JsonView,
    asked_ms: u64,
    answer: JsonView,
    thread: JsonView,
    request_id: Seq<char>,
    id: Seq<char>,
    model: Seq<char>,
)
    requires
        request.read("method"@) == Some("thread/start"@),
        message_id(request) == Some(request_id),
        request.read2("params"@, "model"@) == Some(model),
        message_id(answer) == Some(request_id),
        answer.get2("result"@, "thread"@) == Some(thread),
        answer.get2("params"@, "thread"@) is None,
        thread.read("id"@) == Some(id),
        registry.known(id).model is None,
    ensures
        ({
            let asked = registry.asking(request, asked_ms);
            let after = asked.updated(answer);
            &&& asked.contexts == registry.contexts
            &&& asked.pending.dom().contains(request_id)
            &&& asked.pending[request_id].created_at_ms == asked_ms
            &&& runtime_of(thread).model is None ==> after.known(id).model == Some(model)
            &&& runtime_of(thread).model is Some ==> after.known(id).model == runtime_of(
                thread,
            ).model
            &&& !after.pending.dom().contains(request_id)
        }),
{
    let params = request.get("params"@)->0;
    assert(runtime_of(params).model == Some(model));
}

/// Only requests for a new thread that name a model are waited for.
pub proof fn law_other_requests_are_not_waited_for(
    registry: RegistryView,
    request: JsonView,
    now_ms: u64,
)
    ensures
        request.read("method"@) != Some("thread/start"@) || message_id(request) is None
            || request.get("params"@) is None || (runtime_of(request.get("params"@)->0).model
            is None && runtime_of(request.get("params"@)->0).provider is None)
            ==> registry.asking(request, now_ms) == registry,
{
    reveal_strlit("thread/start");
    assert("thread/start"@.len() == 12);
}

/// Nothing is learned of any other thread, and no other request is forgotten.
pub proof fn law_other_threads_stay(
    registry: RegistryView,
    message: JsonView,
    other: Seq<char>,
    other_request: Seq<char>,
)
    requires
        match message.get2("result"@, "thread"@) {
            Some(thread) => thread.read("id"@) != Some(other),
            None => true,
        },
        match message.get2("params"@, "thread"@) {
            Some(thread) => thread.read("id"@) != Some(other),
            None => true,
        },
        message_id(message) != Some(other_request),
    ensures
        registry.updated(message).known(other) == registry.known(other),
        registry.updated(message).pending.dom().contains(other_request)
            == registry.pending.dom().contains(other_request),
        registry.pending.dom().contains(other_request) ==> registry.updated(message).pending[
            other_request
        ] == registry.pending[other_request],
{
}

/// A request that was not answered within two minutes is forgotten, and none before that.
pub proof fn law_requests_are_waited_for_two_minutes(
    registry: RegistryView,
    id: Seq<char>,
    now_ms: u64,
)
    ensures
        registry.pruned(now_ms).pending.dom().contains(id) <==> registry.pending.dom().contains(id)
            && now_ms < registry.pending[id].created_at_ms + 120_000,
        registry.pruned(now_ms).pending.dom().contains(id) ==> registry.pruned(now_ms).pending[id]
            == registry.pending[id],
        registry.pruned(now_ms).contexts == registry.contexts,
{
}

/// A request that goes on with a thread: it resumes the thread, or starts a turn in it.
pub proof fn law_what_goes_on_with_a_thread(message: JsonView)
    ensures
        goes_on(message) <==> (message.read("method"@) == Some("thread/resume"@) || message.read(
            "method"@,
        ) == Some("turn/start"@)) && (message.read2("params"@, "threadId"@) is Some
            || message.read2("params"@, "thread_id"@) is Some),
{
    reveal_strlit("thread/resume");
    reveal_strlit("turn/start");
    assert("thread/resume"@.len() == 13 && "turn/start"@.len() == 10);
}

/// The request that goes on with a thread is sent on under the model that the thread runs on,
/// whatever the phone named: what is known counts, else what the header of the record says. The
/// settings of a turn name the same model, and nothing else of the request changes.
pub proof fn law_thread_goes_on_with_its_model(
    registry: RegistryView,
    message: JsonView,
    raw: Seq<char>,
    header: Option<JsonView>,
    thread_id: Seq<char>,
)
    requires
        goes_on(message),
        or_else(message.read2("params"@, "threadId"@), message.read2("params"@, "thread_id"@))
            == Some(thread_id),
    ensures
        ({
            let model = or_else(
                registry.known(thread_id).model,
                match header {
                    Some(header) => runtime_of(header).model,
                    None => None,
                },
            );
            let provider = or_else(
                registry.known(thread_id).provider,
                match header {
                    Some(header) => runtime_of(header).provider,
                    None => None,
                },
            );
            let sent = rewritten(message, Some(RuntimeView { model, provider }));
            &&& registry.outbound(message, raw, header) == json_print(sent)
            &&& sent.get2("params"@, "model"@) == match model {
                Some(model) => Some(JsonView::Text(model)),
                None => None,
            }
            &&& sent.get2("params"@, "modelProvider"@) == match provider {
                Some(provider) => Some(JsonView::Text(provider)),
                None => None,
            }
            &&& sent.get2("params"@, "model_provider"@) == match provider {
                Some(provider) => Some(JsonView::Text(provider)),
                None => None,
            }
            &&& forall|key: Seq<char>|
                key != "params"@ ==> #[trigger] sent.get(key) == message.get(key)
            &&& forall|key: Seq<char>|
                key != "model"@ && key != "modelProvider"@ && key != "model_provider"@ && key
                    != "collaborationMode"@ ==> #[trigger] sent.get2("params"@, key)
                    == message.get2("params"@, key)
            &&& message.read("method"@) == Some("thread/resume"@) ==> sent.get2(
                "params"@,
                "collaborationMode"@,
            ) == message.get2("params"@, "collaborationMode"@)
            &&& message.read("method"@) == Some("turn/start"@) ==> (message.get2(
                "params"@,
                "collaborationMode"@,
            ) matches Some(mode) ==> (mode.get("settings"@) matches Some(JsonView::Object(_)) ==> {
                let after = sent.get2("params"@, "collaborationMode"@)->0;
                &&& after.get2("settings"@, "model"@) == match model {
                    Some(model) => Some(JsonView::Text(model)),
                    None => None,
                }
                &&& forall|key: Seq<char>|
                    key != "model"@ ==> #[trigger] after.get2("settings"@, key) == mode.get2(
                        "settings"@,
                        key,
                    )
            }))
            &&& registry.sending(message, header).known(thread_id) == (RuntimeView {
                model,
                provider,
            })
        }),
{
    reveal_strlit("model");
    reveal_strlit("modelProvider");
    reveal_strlit("model_provider");
    reveal_strlit("collaborationMode");
    reveal_strlit("params");
    reveal_strlit("method");
    reveal_strlit("settings");
    reveal_strlit("thread/resume");
    reveal_strlit("turn/start");
    assert("modelProvider"@[0] == 'm' && "thread/resume"@[0] == 't' && "params"@[0] == 'p');
    assert("method"@[0] == 'm' && "model"@.len() == 5 && "modelProvider"@.len() == 13);
    assert("model_provider"@.len() == 14 && "collaborationMode"@.len() == 17);
    assert("params"@.len() == 6 && "method"@.len() == 6 && "settings"@.len() == 8);
    assert("thread/resume"@.len() == 13 && "turn/start"@.len() == 10);
    let model = or_else(
        registry.known(thread_id).model,
        match header {
            Some(header) => runtime_of(header).model,
            None => None,
        },
    );
    let provider = or_else(
        registry.known(thread_id).provider,
        match header {
            Some(header) => runtime_of(header).provider,
            None => None,
        },
    );
    let context = RuntimeView { model, provider };
    assert(registry.resolved(thread_id, header) == context);
    assert(rewritten(message, None) == rewritten(
        message,
        Some(RuntimeView { model: None, provider: None }),
    ));
}

/// Requests that go on with no thread are sent on as they are.
pub proof fn law_other_requests_are_sent_on(
    registry: RegistryView,
    message: JsonView,
    raw: Seq<char>,
    header: Option<JsonView>,
)
    requires
        !goes_on(message),
    ensures
        registry.outbound(message, raw, header) == raw,
{
}

} // verus!
