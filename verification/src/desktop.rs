//! The requests of the phone that open something on the Mac.
use vstd::prelude::*;

use crate::git_handler::{Answer, RequestStep};
use crate::json::{Json, JsonObject, JsonView};
use crate::script::{
    ask, json_result, ran, replies_of, try_bind, Action, ActionView, Reply, Run, Script,
};
use crate::text::{blank, concat2, has_prefix, is_blank, starts_with, text_eq};

verus! {

/// What the phone is told once a thread was opened.
pub open spec fn continued_view(thread_id: Seq<char>) -> JsonView {
    JsonView::Object(
        map![
            "success"@ => JsonView::Bool(true),
            "relaunched"@ => JsonView::Bool(false),
            "targetUrl"@ => JsonView::Text("codex://threads/"@ + thread_id),
            "threadId"@ => JsonView::Text(thread_id),
            "desktopKnown"@ => JsonView::Bool(true),
        ],
    )
}

/// Opens a thread in the application on the Mac.
pub open spec fn continue_on_mac(params: JsonView, rest: Seq<Reply>) -> Run<Answer> {
    let thread_id = params.get_str("threadId"@);
    if thread_id is None || is_blank(thread_id->0) {
        Run::Got(Err("A thread id is required to continue on Mac."@), rest)
    } else {
        try_bind(
            ask(
                ActionView::Open {
                    bundle_id: "com.openai.codex"@,
                    url: "codex://threads/"@ + thread_id->0,
                },
                rest,
            ),
            |output: Seq<char>, rest: Seq<Reply>|
                Run::Got(
                    if has_prefix(output, "0"@) {
                        Ok(continued_view(thread_id->0))
                    } else {
                        Err("Could not open Codex.app on this Mac."@)
                    },
                    rest,
                ),
        )
    }
}

/// A request that opens something: nothing where the method is another.
pub open spec fn desktop_request(method: Seq<char>, params: JsonView, rest: Seq<Reply>) -> Run<
    Option<Answer>,
> {
    if method != "desktop/continueOnMac"@ {
        Run::Got(None, rest)
    } else {
        crate::script::bind(
            continue_on_mac(params, rest),
            |answer: Answer, rest: Seq<Reply>| Run::Got(Some(answer), rest),
        )
    }
}

fn run_continue_on_mac(params: &Json, script: &mut Script) -> (r: Option<Result<Json, String>>)
    requires
        old(script).wf(),
    ensures
        final(script).wf(),
        ran(continue_on_mac(params@, old(script)@.rest), json_result(r), final(script)@),
{
    let thread_id = match params.get_str("threadId") {
        Some(thread_id) => {
            if blank(thread_id) {
                return Some(Err("A thread id is required to continue on Mac.".to_owned()));
            }
            thread_id
        },
        None => {
            return Some(Err("A thread id is required to continue on Mac.".to_owned()));
        },
    };
    let url = concat2("codex://threads/", thread_id);
    match script.ask(Action::Open { bundle_id: "com.openai.codex".to_owned(), url: url.clone() }) {
        Some(Ok(output)) => {
            if !starts_with(output.as_str(), "0") {
                return Some(Err("Could not open Codex.app on this Mac.".to_owned()));
            }
        },
        Some(Err(error)) => {
            return Some(Err(error));
        },
        None => {
            return None;
        },
    }
    let mut out = JsonObject::new();
    out.insert("success", Json::Bool(true));
    out.insert("relaunched", Json::Bool(false));
    out.insert("targetUrl", Json::Text(url));
    out.insert("threadId", Json::text(thread_id));
    out.insert("desktopKnown", Json::Bool(true));
    Some(Ok(Json::object(out)))
}

/// Runs a request that opens something as far as the replies reach.
pub fn handle_desktop_request(
    method: &str,
    params: &Json,
    replies: Vec<Result<String, String>>,
) -> (r: RequestStep)
    ensures
        r.is_step_of(desktop_request(method@, params@, replies_of(replies@))),
{
    if !text_eq(method, "desktop/continueOnMac") {
        return RequestStep::Done(None);
    }
    let mut script = Script::new(replies);
    match run_continue_on_mac(params, &mut script) {
        Some(answer) => RequestStep::Done(Some(answer)),
        None => match script.into_asked() {
            Some(action) => RequestStep::Ask(action),
            None => RequestStep::Done(None),
        },
    }
}

} // verus!
