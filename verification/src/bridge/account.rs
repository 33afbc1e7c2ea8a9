//! The requests that the bridge answers itself.
use vstd::prelude::*;

use super::messages::BridgeTask;
use super::support::{error_code, error_code_for_method};
use crate::account_status::{compose_sanitized_auth_status, AccountView};
use crate::json::{json_print, or_else, Json, JsonObject, JsonView};
use crate::json_rpc::{error_response, error_view, success_response, success_view};
use crate::package_version_status::BridgeVersionInfo;
use crate::script::json_result;
use crate::text::{concat2, text_eq};

verus! {

// Requests to Codex.

/// What came of a request to Codex.
#[derive(Debug)]
pub enum CodexReply {
    Answered(Result<Json, String>),
    /// Nobody waits for the answer any more.
    Dropped,
    /// The answer did not come in time.
    TimedOut,
}

/// How long an answer of Codex is waited for.
pub const CODEX_REQUEST_TIMEOUT_MS: u64 = 20_000;

pub open spec fn reply_result(method: Seq<char>, reply: CodexReply) -> Result<
    JsonView,
    Seq<char>,
> {
    match reply {
        CodexReply::Answered(Ok(result)) => Ok(result@),
        CodexReply::Answered(Err(error)) => Err(error@),
        CodexReply::Dropped => Err("Codex response waiter dropped"@),
        CodexReply::TimedOut => Err("Codex request timed out: "@ + method),
    }
}

/// What a request to Codex led to.
pub fn finish_request(method: &str, reply: CodexReply) -> (r: Result<Json, String>)
    ensures
        json_result(Some(r)) == Some(reply_result(method@, reply)),
{
    match reply {
        CodexReply::Answered(result) => result,
        CodexReply::Dropped => Err("Codex response waiter dropped".to_owned()),
        CodexReply::TimedOut => Err(concat2("Codex request timed out: ", method)),
    }
}

// The account.

/// Codex is asked for the account.
pub fn account_read_params() -> (r: Json)
    ensures
        r@ == JsonView::Object(map!["refreshToken"@ => JsonView::Bool(false)]),
{
    let mut params = JsonObject::new();
    params.insert("refreshToken", Json::Bool(false));
    Json::object(params)
}

/// Codex is asked how the user is signed in.
pub fn auth_status_params() -> (r: Json)
    ensures
        r@ == JsonView::Object(
            map![
                "includeToken"@ => JsonView::Bool(true),
                "refreshToken"@ => JsonView::Bool(true),
            ],
        ),
{
    let mut params = JsonObject::new();
    params.insert("includeToken", Json::Bool(true));
    params.insert("refreshToken", Json::Bool(true));
    Json::object(params)
}

pub open spec fn answered(reply: Result<Json, String>) -> Option<JsonView> {
    match reply {
        Ok(value) => Some(value@),
        Err(_) => None,
    }
}

/// How the user is signed in, of what Codex answered to the two questions.
pub fn read_sanitized_auth_status(
    account_read: Result<Json, String>,
    auth_status: Result<Json, String>,
    login_in_flight: bool,
    version_info: BridgeVersionInfo,
    package_version: &str,
) -> (r: Result<Json, String>)
    ensures
        match r {
            Ok(told) => (account_read is Ok || auth_status is Ok) && told@ == (AccountView {
                account_read: answered(account_read),
                auth_status: answered(auth_status),
                login_in_flight,
            }).told(
                match version_info.bridge_version {
                    Some(version) => version@,
                    None => package_version@,
                },
                version_info.bridge_latest_version.deep_view(),
            ),
            Err(error) => account_read is Err && auth_status is Err && error@
                == "Unable to read ChatGPT account status from the bridge."@,
        },
{
    let account_read = account_read.ok();
    let auth_status = auth_status.ok();
    compose_sanitized_auth_status(
        account_read.as_ref(),
        auth_status.as_ref(),
        login_in_flight,
        Some(version_info),
        package_version,
    )
}

/// What a request about the account asks for.
#[derive(Debug)]
pub enum AccountStep {
    /// The status, of what Codex answers.
    ReadStatus,
    /// That an address is opened here.
    Open(String),
    Fail(String),
}

/// What an `AccountStep` stands for.
pub enum AccountStepView {
    ReadStatus,
    Open(Seq<char>),
    Fail(Seq<char>),
}

impl AccountStep {
    pub open spec fn view(&self) -> AccountStepView {
        match self {
            AccountStep::ReadStatus => AccountStepView::ReadStatus,
            AccountStep::Open(url) => AccountStepView::Open(url@),
            AccountStep::Fail(error) => AccountStepView::Fail(error@),
        }
    }
}

pub open spec fn account_step(
    method: Seq<char>,
    params: JsonView,
    pending_auth_url: Option<Seq<char>>,
) -> AccountStepView {
    if method == "account/status/read"@ || method == "getAuthStatus"@ {
        AccountStepView::ReadStatus
    } else if method == "account/login/openOnMac"@ {
        match or_else(params.read("authUrl"@), pending_auth_url) {
            Some(url) => AccountStepView::Open(url),
            None => AccountStepView::Fail(
                "No pending ChatGPT sign-in URL is available on this bridge."@,
            ),
        }
    } else {
        AccountStepView::Fail("Unsupported bridge-managed account method: "@ + method)
    }
}

/// What a request about the account asks for, given where somebody who is signing in has to go.
pub fn handle_account_request(method: &str, params: &Json, pending_auth_url: Option<String>) -> (r:
    AccountStep)
    ensures
        r.view() == account_step(method@, params@, pending_auth_url.deep_view()),
{
    if text_eq(method, "account/status/read") || text_eq(method, "getAuthStatus") {
        return AccountStep::ReadStatus;
    }
    if text_eq(method, "account/login/openOnMac") {
        let url = match params.read("authUrl") {
            Some(url) => Some(url),
            None => pending_auth_url,
        };
        return match url {
            Some(url) => AccountStep::Open(url),
            None => AccountStep::Fail(
                "No pending ChatGPT sign-in URL is available on this bridge.".to_owned(),
            ),
        };
    }
    AccountStep::Fail(concat2("Unsupported bridge-managed account method: ", method))
}

/// What is answered once the address was opened, given whether that went well.
pub fn opened_login(opened: Result<bool, String>) -> (r: Result<Json, String>)
    ensures
        json_result(Some(r)) == Some(
            match opened {
                Ok(true) => Ok(
                    JsonView::Object(
                        map![
                            "success"@ => JsonView::Bool(true),
                            "openedOnMac"@ => JsonView::Bool(true),
                        ],
                    ),
                ),
                Ok(false) => Err("Could not open the ChatGPT sign-in URL on this Mac."@),
                Err(error) => Err(error@),
            },
        ),
{
    match opened {
        Ok(true) => {
            let mut out = JsonObject::new();
            out.insert("success", Json::Bool(true));
            out.insert("openedOnMac", Json::Bool(true));
            Ok(Json::object(out))
        },
        Ok(false) => Err("Could not open the ChatGPT sign-in URL on this Mac.".to_owned()),
        Err(error) => Err(error),
    }
}

// The context of a thread.

/// The thread and the turn whose context is asked for.
pub fn handle_thread_context_request(params: &Json) -> (r: Result<
    (String, Option<String>),
    String,
>)
    ensures
        match r {
            Ok((thread_id, turn_id)) => or_else(
                params@.read("threadId"@),
                params@.read("thread_id"@),
            ) == Some(thread_id@) && turn_id.deep_view() == or_else(
                params@.read("turnId"@),
                params@.read("turn_id"@),
            ),
            Err(error) => or_else(params@.read("threadId"@), params@.read("thread_id"@)) is None
                && error@ == "thread/contextWindow/read requires a threadId."@,
        },
{
    let thread_id = match params.read("threadId") {
        Some(id) => id,
        None => match params.read("thread_id") {
            Some(id) => id,
            None => {
                return Err("thread/contextWindow/read requires a threadId.".to_owned());
            },
        },
    };
    let turn_id = match params.read("turnId") {
        Some(id) => Some(id),
        None => params.read("turn_id"),
    };
    Ok((thread_id, turn_id))
}

// Answers.

/// Whether a part of the bridge answers every method that it is asked for.
pub open spec fn answers_all(task: BridgeTask) -> bool {
    task is Account || task is ThreadContext
}

/// What is said of a method that a part of the bridge does not know.
pub open spec fn unsupported(task: BridgeTask) -> Seq<char>
    recommends
        !answers_all(task),
{
    match task {
        BridgeTask::Voice => "Unsupported voice method"@,
        BridgeTask::Desktop => "Unsupported desktop method"@,
        BridgeTask::Notifications => "Unsupported notifications method"@,
        BridgeTask::Workspace => "Unsupported workspace method"@,
        _ => "Unsupported git method"@,
    }
}

/// The answer to a request, of what its part of the bridge gave. Where the request has no
/// identifier there is none.
pub open spec fn answer_text(
    request_id: Option<JsonView>,
    method: Seq<char>,
    task: BridgeTask,
    result: Option<Result<JsonView, Seq<char>>>,
) -> Option<Seq<char>> {
    match request_id {
        Some(id) => Some(
            json_print(
                match result {
                    Some(Ok(value)) => success_view(id, value),
                    Some(Err(error)) => error_view(id, error_code(method), error),
                    None => error_view(id, error_code(method), unsupported(task)),
                },
            ),
        ),
        None => None,
    }
}

/// The answer to a request, of what its part of the bridge gave.
pub fn spawn_bridge_request(
    request_id: Option<Json>,
    method: &str,
    task: BridgeTask,
    result: Option<Result<Json, String>>,
) -> (r: Option<String>)
    requires
        answers_all(task) ==> result is Some,
    ensures
        r.deep_view() == answer_text(request_id.deep_view(), method@, task, json_result(result)),
{
    let id = match request_id {
        Some(id) => id,
        None => {
            return None;
        },
    };
    let code = error_code_for_method(method);
    Some(
        match result {
            Some(Ok(value)) => success_response(id, value),
            Some(Err(error)) => error_response(id, code, error.as_str()),
            None => {
                let text = match task {
                    BridgeTask::Voice => "Unsupported voice method",
                    BridgeTask::Desktop => "Unsupported desktop method",
                    BridgeTask::Notifications => "Unsupported notifications method",
                    BridgeTask::Workspace => "Unsupported workspace method",
                    _ => "Unsupported git method",
                };
                error_response(id, code, text)
            },
        },
    )
}

/// A request with an identifier is answered, and the answer carries it.
pub proof fn law_requests_are_answered(
    id: JsonView,
    method: Seq<char>,
    task: BridgeTask,
    result: Option<Result<JsonView, Seq<char>>>,
)
    ensures
        exists|answer: JsonView|
            answer_text(Some(id), method, task, result) == Some(#[trigger] json_print(answer))
                && answer.get("id"@) == Some(id) && (answer.get("result"@) is Some
                <==> answer.get("error"@) is None),
{
    let answer = match result {
        Some(Ok(value)) => success_view(id, value),
        Some(Err(error)) => error_view(id, error_code(method), error),
        None => error_view(id, error_code(method), unsupported(task)),
    };
    reveal_strlit("id");
    reveal_strlit("result");
    reveal_strlit("error");
    assert("id"@.len() == 2 && "result"@.len() == 6 && "error"@.len() == 5);
    assert(answer_text(Some(id), method, task, result) == Some(json_print(answer)));
}

} // verus!
