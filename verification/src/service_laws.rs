//! What the parts of the bridge answer that speak for the Mac: voices, accounts, the desktop,
//! notifications.
use vstd::prelude::*;

use crate::account_status::AccountView;
use crate::bridge::account::{account_step, answer_text, reply_result, AccountStepView, CodexReply};
use crate::bridge::messages::BridgeTask;
use crate::bridge::support::error_code;
use crate::crypto::base64_bytes;
use crate::desktop::{continue_on_mac, desktop_request};
use crate::git_handler::Answer;
use crate::json::{json_print, JsonView};
use crate::json_rpc::{error_view, success_view};
use crate::package_version_status::CacheView;
use crate::push::registration_view;
use crate::script::{ActionView, Reply, Run};
use crate::text::{has_prefix, space_pred, trimmed, without_chars};
use crate::voice::{
    is_wav, recording, transcription, voice_auth, voice_request, voice_target, TargetView,
    VoiceReplyView, VoiceView,
};

verus! {

// Voices.

/// A recording is taken exactly if it is a WAV file of 24 kHz that is told as one, of at most a
/// minute and ten megabytes; what is taken is the bytes that the request encodes.
pub proof fn law_which_recordings_are_taken(params: JsonView, encoded: Seq<char>, audio: Seq<u8>)
    requires
        params.get_str("audioBase64"@) == Some(encoded),
        base64_bytes(without_chars(encoded, space_pred())) == Some(audio),
    ensures
        recording(params) == Ok::<Seq<u8>, Seq<char>>(audio) <==> {
            &&& params.get_str("mimeType"@) == Some("audio/wav"@)
            &&& params.get_u64("sampleRateHz"@) == Some(24_000u64)
            &&& params.get_u64("durationMs"@) matches Some(ms) && 0 < ms <= 60_000
            &&& without_chars(encoded, space_pred()).len() > 0
            &&& audio.len() <= 10_485_760
            &&& is_wav(audio)
        },
        recording(params) is Ok ==> recording(params) == Ok::<Seq<u8>, Seq<char>>(audio),
{
}

/// A file is a WAV file where it begins with the letters of one and is long enough for a header.
pub proof fn law_what_a_wav_file_is(audio: Seq<u8>)
    ensures
        is_wav(audio) <==> audio.len() >= 44 && audio[0] == 0x52 && audio[1] == 0x49 && audio[2]
            == 0x46 && audio[3] == 0x46 && audio[8] == 0x57 && audio[9] == 0x41 && audio[10] == 0x56
            && audio[11] == 0x45,
{
    if audio.len() >= 44 {
        assert(audio.subrange(0, 4).len() == 4 && audio.subrange(8, 12).len() == 4);
        assert(audio.subrange(0, 4)[0] == audio[0] && audio.subrange(0, 4)[1] == audio[1]
            && audio.subrange(0, 4)[2] == audio[2] && audio.subrange(0, 4)[3] == audio[3]);
        assert(audio.subrange(8, 12)[0] == audio[8] && audio.subrange(8, 12)[1] == audio[9]
            && audio.subrange(8, 12)[2] == audio[10] && audio.subrange(8, 12)[3] == audio[11]);
        if audio[0] == 0x52 && audio[1] == 0x49 && audio[2] == 0x46 && audio[3] == 0x46 {
            assert(audio.subrange(0, 4) =~= seq![82u8, 73, 70, 70]);
        }
        if audio[8] == 0x57 && audio[9] == 0x41 && audio[10] == 0x56 && audio[11] == 0x45 {
            assert(audio.subrange(8, 12) =~= seq![87u8, 65, 86, 69]);
        }
    }
}

/// Why a recording is not taken, the first reason first.
pub proof fn law_why_a_recording_is_not_taken(params: JsonView)
    ensures
        params.get_str("mimeType"@) != Some("audio/wav"@) ==> recording(params) == Err::<
            Seq<u8>,
            Seq<char>,
        >("Only WAV audio is supported for voice transcription."@),
        params.get_str("mimeType"@) == Some("audio/wav"@) && params.get_u64("sampleRateHz"@)
            != Some(24_000u64) ==> recording(params) == Err::<Seq<u8>, Seq<char>>(
            "Voice transcription requires 24 kHz mono WAV audio."@,
        ),
        params.get_str("mimeType"@) == Some("audio/wav"@) && params.get_u64("sampleRateHz"@)
            == Some(24_000u64) ==> {
            &&& params.get_u64("durationMs"@) is None || params.get_u64("durationMs"@) == Some(0u64)
                ==> recording(params) == Err::<Seq<u8>, Seq<char>>(
                "Voice messages must include a positive duration."@,
            )
            &&& params.get_u64("durationMs"@) matches Some(ms) ==> ms > 60_000 ==> recording(params)
                == Err::<Seq<u8>, Seq<char>>("Voice messages are limited to 60 seconds."@)
        },
{
}

/// A recording is sent with the token of the account: to ChatGPT for an account of ChatGPT, and to
/// the API with a model otherwise. Without a token it is not sent.
#[verifier::rlimit(40)]
pub proof fn law_where_a_recording_goes(status: JsonView, token: Seq<char>)
    requires
        status.get_str("authToken"@) == Some(token),
    ensures
        trimmed(token).len() > 0 ==> (voice_target(status) matches Ok(target) && target.token
            == token),
        trimmed(token).len() > 0 && (status.get_str("authMethod"@) == Some("chatgpt"@)
            || status.get_str("authMethod"@) == Some("chatgptAuthTokens"@)) ==> (voice_target(
            status,
        ) matches Ok(target) && target.url == "https://chatgpt.com/backend-api/transcribe"@
            && target.model is None),
        trimmed(token).len() > 0 && status.get_str("authMethod"@) != Some("chatgpt"@)
            && status.get_str("authMethod"@) != Some("chatgptAuthTokens"@) ==> (voice_target(status)
            matches Ok(target) && target.url == "https://api.openai.com/v1/audio/transcriptions"@
            && target.model == Some("gpt-4o-mini-transcribe"@)),
        trimmed(token).len() == 0 ==> voice_target(status) == Err::<TargetView, Seq<char>>(
            "Sign in with ChatGPT before using voice transcription."@,
        ),
{
}

/// A recording that is taken is sent as it is, once the account is known, and to where the account
/// says.
pub proof fn law_taken_recording_is_sent(
    params: JsonView,
    audio: Seq<u8>,
    status: JsonView,
    target: TargetView,
    reply: VoiceReplyView,
    error: Seq<char>,
)
    requires
        recording(params) == Ok::<Seq<u8>, Seq<char>>(audio),
        voice_target(status) == Ok::<TargetView, Seq<char>>(target),
    ensures
        voice_request("voice/transcribe"@, params, None, None) is NeedAuth,
        voice_request("voice/transcribe"@, params, Some(Ok(status)), None) == (VoiceView::Post {
            target,
            audio,
        }),
        voice_request("voice/transcribe"@, params, Some(Ok(status)), Some(reply))
            == VoiceView::Done(transcription(reply)),
        voice_request("voice/transcribe"@, params, Some(Err(error)), None) == VoiceView::Done(
            Err(error),
        ),
{
}

/// What was said is what the reply tells; a reply without a text, a refusal and a failure are told.
pub proof fn law_what_was_said_is_answered(
    payload: JsonView,
    text: Seq<char>,
    status: Seq<char>,
    error: Seq<char>,
)
    ensures
        (payload.get_str("text"@) == Some(text) || (payload.get("text"@) is None && payload.get_str(
            "transcript"@,
        ) == Some(text))) && trimmed(text).len() > 0 ==> (transcription(
            VoiceReplyView::Body(payload),
        ) matches Ok(answer) && answer.get_str("text"@) == Some(text)),
        payload.get("text"@) is None && payload.get("transcript"@) is None ==> transcription(
            VoiceReplyView::Body(payload),
        ) == Err::<JsonView, Seq<char>>("The transcription response did not include any text."@),
        transcription(VoiceReplyView::Refused(status)) == Err::<JsonView, Seq<char>>(
            "Transcription failed with status "@ + status + "."@,
        ),
        transcription(VoiceReplyView::Failed(error)) == Err::<JsonView, Seq<char>>(error),
{
}

/// The phone gets the token of an account of ChatGPT, and of no other.
#[verifier::rlimit(40)]
pub proof fn law_token_for_the_phone(status: JsonView, token: Seq<char>, params: JsonView)
    requires
        status.get_str("authToken"@) == Some(token),
    ensures
        trimmed(token).len() > 0 && (status.get_str("authMethod"@) == Some("chatgpt"@)
            || status.get_str("authMethod"@) == Some("chatgptAuthTokens"@)) ==> (voice_auth(status)
            matches Ok(answer) && answer.get_str("token"@) == Some(token)),
        trimmed(token).len() > 0 && status.get_str("authMethod"@) != Some("chatgpt"@)
            && status.get_str("authMethod"@) != Some("chatgptAuthTokens"@) ==> voice_auth(status)
            == Err::<JsonView, Seq<char>>("Voice transcription requires a ChatGPT account."@),
        trimmed(token).len() == 0 ==> voice_auth(status) is Err,
        voice_request("voice/resolveAuth"@, params, None, None) is NeedAuth,
        voice_request("voice/resolveAuth"@, params, Some(Ok(status)), None) == VoiceView::Done(
            voice_auth(status),
        ),
{
    reveal_strlit("voice/transcribe");
    reveal_strlit("voice/resolveAuth");
    assert("voice/transcribe"@.len() == 16 && "voice/resolveAuth"@.len() == 17);
}

/// Other requests are none about voices.
pub proof fn law_other_requests_are_no_voices(
    method: Seq<char>,
    params: JsonView,
    auth: Option<Result<JsonView, Seq<char>>>,
    reply: Option<VoiceReplyView>,
)
    requires
        method != "voice/transcribe"@,
        method != "voice/resolveAuth"@,
    ensures
        voice_request(method, params, auth, reply) is NotVoice,
{
}

// Accounts.

/// Somebody is signed in where there is a token, or where the account says so, unless signing in
/// anew is asked for.
#[verifier::rlimit(60)]
pub proof fn law_who_is_signed_in(known: AccountView, status: JsonView, token: Seq<char>)
    requires
        known.auth_status == Some(status),
        known.account_read is None,
    ensures
        status.get_str("authToken"@) == Some(token) && trimmed(token).len() > 0 && status.get_bool(
            "requiresOpenaiAuth"@,
        ) != Some(true) ==> known.status() == "authenticated"@,
        status.get("authToken"@) is None && known.login_in_flight ==> known.status()
            == "pending_login"@,
        status.get("authToken"@) is None && !known.login_in_flight && status.get_bool(
            "requiresOpenaiAuth"@,
        ) != Some(true) ==> known.status() == "not_logged_in"@,
        !known.login_in_flight && status.get_bool("requiresOpenaiAuth"@) == Some(true)
            && status.read("authMethod"@) is Some ==> known.status() == "expired"@,
        !known.login_in_flight && status.get_bool("requiresOpenaiAuth"@) == Some(true)
            && status.read("authMethod"@) is None && status.get("authToken"@) is None
            ==> known.status() == "not_logged_in"@,
{
    assert(known.account().get("email"@) is None);
    assert(known.account().get("loggedIn"@) is None);
    assert(known.account().get("logged_in"@) is None);
    assert(known.account().get("isLoggedIn"@) is None);
    assert(known.account().get_str("type"@) is None);
}

/// An account that says that it is signed in, in either spelling or by its address, is.
#[verifier::rlimit(60)]
pub proof fn law_account_that_is_signed_in(known: AccountView, read: JsonView, account: JsonView)
    requires
        known.account_read == Some(read),
        read.get("account"@) == Some(account),
        account.get_bool("loggedIn"@) == Some(true) || account.get_bool("logged_in"@) == Some(true)
            || account.get_bool("isLoggedIn"@) == Some(true) || account.get_str("email"@) is Some,
    ensures
        read.get_bool("requiresOpenaiAuth"@) != Some(true) && known.auth_status is None
            ==> known.status() == "authenticated"@,
        read.get_bool("requiresOpenaiAuth"@) == Some(true) && !known.login_in_flight
            ==> known.status() == "expired"@,
        read.get_bool("requiresOpenaiAuth"@) == Some(true) && known.login_in_flight
            ==> known.status() == "authenticated"@,
{
}

/// The phone is told the status and what it rests on, the account and the versions; of the token
/// only that there is one.
#[verifier::rlimit(80)]
#[verifier::spinoff_prover]
pub proof fn law_account_is_told(
    known: AccountView,
    version: Seq<char>,
    latest: Seq<char>,
    account: JsonView,
)
    requires
        known.account_read matches Some(read) && read.get("account"@) == Some(account),
    ensures
        ({
            let told = known.told(version, Some(latest));
            &&& told.get_str("status"@) == Some(known.status())
            &&& told.get_str("authMethod"@) == known.auth_method()
            &&& told.get_str("email"@) == account.get_str("email"@)
            &&& told.get_str("planType"@) == account.get_str("planType"@)
            &&& told.get_bool("loginInFlight"@) == Some(known.login_in_flight)
            &&& told.get_bool("needsReauth"@) == Some(known.needs_reauth())
            &&& told.get_bool("tokenReady"@) == Some(known.token_ready())
            &&& told.get_str("bridgeVersion"@) == Some(version)
            &&& told.get_str("bridgeLatestVersion"@) == Some(latest)
            &&& told.get("expiresAt"@) == Some(JsonView::Null)
            &&& told.get("authToken"@) is None
        }),
{
    reveal_strlit("status");
    reveal_strlit("authMethod");
    reveal_strlit("email");
    reveal_strlit("planType");
    reveal_strlit("loginInFlight");
    reveal_strlit("needsReauth");
    reveal_strlit("tokenReady");
    reveal_strlit("expiresAt");
    reveal_strlit("bridgeVersion");
    reveal_strlit("bridgeLatestVersion");
    reveal_strlit("authToken");
    assert("authMethod"@[0] == 'a' && "tokenReady"@[0] == 't' && "loginInFlight"@[0] == 'l');
    assert("bridgeVersion"@[0] == 'b' && "expiresAt"@[0] == 'e' && "authToken"@[0] == 'a');
    assert("status"@.len() == 6 && "authMethod"@.len() == 10 && "email"@.len() == 5);
    assert("planType"@.len() == 8 && "loginInFlight"@.len() == 13);
    assert("needsReauth"@.len() == 11 && "tokenReady"@.len() == 10);
    assert("expiresAt"@.len() == 9 && "bridgeVersion"@.len() == 13);
    assert("bridgeLatestVersion"@.len() == 19 && "authToken"@.len() == 9);
}

/// How the account is signed in: as its status says, else as its kind says.
pub proof fn law_method_of_the_account(known: AccountView, status: JsonView, account: JsonView)
    requires
        known.auth_status == Some(status),
        known.account_read matches Some(read) && read.get("account"@) == Some(account),
    ensures
        status.read("authMethod"@) is Some ==> known.auth_method() == status.read("authMethod"@),
        status.read("authMethod"@) is None ==> known.auth_method() == account.read("type"@),
        known.token_ready() <==> (status.get_str("authToken"@) matches Some(token) && trimmed(
            token,
        ).len() > 0),
{
}

/// What is asked of the account: its status, or that the address of a login is opened, which is the
/// one in the request or else the one that is known.
pub proof fn law_requests_about_accounts(
    params: JsonView,
    url: Seq<char>,
    pending: Option<Seq<char>>,
    method: Seq<char>,
)
    ensures
        account_step("account/status/read"@, params, pending) is ReadStatus,
        account_step("getAuthStatus"@, params, pending) is ReadStatus,
        params.read("authUrl"@) == Some(url) ==> account_step(
            "account/login/openOnMac"@,
            params,
            pending,
        ) == AccountStepView::Open(url),
        params.read("authUrl"@) is None && pending == Some(url) ==> account_step(
            "account/login/openOnMac"@,
            params,
            pending,
        ) == AccountStepView::Open(url),
        params.read("authUrl"@) is None && pending is None ==> account_step(
            "account/login/openOnMac"@,
            params,
            pending,
        ) is Fail,
        method != "account/status/read"@ && method != "getAuthStatus"@ && method
            != "account/login/openOnMac"@ ==> account_step(method, params, pending)
            == AccountStepView::Fail("Unsupported bridge-managed account method: "@ + method),
{
    reveal_strlit("account/status/read");
    reveal_strlit("getAuthStatus");
    reveal_strlit("account/login/openOnMac");
    assert("account/status/read"@.len() == 19 && "getAuthStatus"@.len() == 13);
    assert("account/login/openOnMac"@.len() == 23);
}

/// What a part of the bridge gave is answered to the one who asked: a result, or an error under the
/// code of the method. One who gave no identifier is not answered.
pub proof fn law_part_of_the_bridge_answers(
    id: JsonView,
    method: Seq<char>,
    task: BridgeTask,
    value: JsonView,
    error: Seq<char>,
)
    ensures
        answer_text(Some(id), method, task, Some(Ok(value))) == Some(
            json_print(success_view(id, value)),
        ),
        answer_text(Some(id), method, task, Some(Err(error))) == Some(
            json_print(error_view(id, error_code(method), error)),
        ),
        answer_text(None, method, task, Some(Ok(value))) is None,
        answer_text(None, method, task, Some(Err(error))) is None,
        answer_text(Some(id), method, BridgeTask::Git, None) == Some(
            json_print(error_view(id, error_code(method), "Unsupported git method"@)),
        ),
        answer_text(Some(id), method, BridgeTask::Workspace, None) == Some(
            json_print(error_view(id, error_code(method), "Unsupported workspace method"@)),
        ),
        answer_text(Some(id), method, BridgeTask::Voice, None) == Some(
            json_print(error_view(id, error_code(method), "Unsupported voice method"@)),
        ),
        answer_text(Some(id), method, BridgeTask::Desktop, None) == Some(
            json_print(error_view(id, error_code(method), "Unsupported desktop method"@)),
        ),
        answer_text(Some(id), method, BridgeTask::Notifications, None) == Some(
            json_print(error_view(id, error_code(method), "Unsupported notifications method"@)),
        ),
{
}

/// What Codex answers is passed on; that it does not is told.
pub proof fn law_silence_of_codex_is_told(method: Seq<char>)
    ensures
        reply_result(method, CodexReply::Dropped) == Err::<JsonView, Seq<char>>(
            "Codex response waiter dropped"@,
        ),
        reply_result(method, CodexReply::TimedOut) == Err::<JsonView, Seq<char>>(
            "Codex request timed out: "@ + method,
        ),
{
}

// The desktop.

/// A thread is opened in the application by its address; whether that went well is what the system
/// says.
#[verifier::rlimit(40)]
pub proof fn law_thread_is_opened_on_the_mac(params: JsonView, thread: Seq<char>, rest: Seq<Reply>)
    requires
        params.get_str("threadId"@) == Some(thread),
        trimmed(thread).len() > 0,
    ensures
        rest.len() == 0 ==> continue_on_mac(params, rest) == Run::<Answer>::Ask(
            ActionView::Open {
                bundle_id: "com.openai.codex"@,
                url: "codex://threads/"@ + thread,
            },
        ),
        rest.len() > 0 ==> (rest[0] matches Ok(output) ==> has_prefix(output, "0"@) ==> (
        continue_on_mac(params, rest) matches Run::Got(Ok(answer), _) && answer.get_bool("success"@)
            == Some(true) && answer.get_str("threadId"@) == Some(thread) && answer.get_str(
            "targetUrl"@,
        ) == Some("codex://threads/"@ + thread) && answer.get_bool("relaunched"@) == Some(false)
            && answer.get_bool("desktopKnown"@) == Some(true))),
        rest.len() > 0 ==> (rest[0] matches Ok(output) ==> !has_prefix(output, "0"@) ==> (
        continue_on_mac(params, rest) matches Run::Got(Err(_), _))),
        rest.len() > 0 ==> (rest[0] matches Err(error) ==> (continue_on_mac(params, rest)
            matches Run::Got(Err(told), _) && told == error)),
{
    reveal_strlit("success");
    reveal_strlit("relaunched");
    reveal_strlit("targetUrl");
    reveal_strlit("threadId");
    reveal_strlit("desktopKnown");
    assert("success"@.len() == 7 && "relaunched"@.len() == 10 && "targetUrl"@.len() == 9);
    assert("threadId"@.len() == 8 && "desktopKnown"@.len() == 12);
}

/// Without a thread nothing is opened; other requests open nothing.
pub proof fn law_nothing_else_is_opened(
    method: Seq<char>,
    params: JsonView,
    rest: Seq<Reply>,
)
    ensures
        params.get_str("threadId"@) is None || trimmed(params.get_str("threadId"@)->0).len() == 0
            ==> (continue_on_mac(params, rest) matches Run::Got(Err(_), left) && left == rest),
        method != "desktop/continueOnMac"@ ==> desktop_request(method, params, rest) == Run::Got(
            None::<Answer>,
            rest,
        ),
        continue_on_mac(params, rest) matches Run::Ask(action) ==> desktop_request(
            "desktop/continueOnMac"@,
            params,
            rest,
        ) == Run::<Option<Answer>>::Ask(action),
        continue_on_mac(params, rest) matches Run::Got(answer, left) ==> desktop_request(
            "desktop/continueOnMac"@,
            params,
            rest,
        ) == Run::Got(Some(answer), left),
{
}

// Notifications.

/// A registration is told as it was asked for: with alerts only where they are wanted, and for
/// development only where that is said.
pub proof fn law_registration_is_told(params: JsonView)
    ensures
        ({
            let told = registration_view(params);
            &&& told.get_bool("ok"@) == Some(true)
            &&& told.get_bool("alertsEnabled"@) == Some(
                params.get_bool("alertsEnabled"@) == Some(true),
            )
            &&& params.get_str("appEnvironment"@) == Some("development"@) ==> told.get_str(
                "apnsEnvironment"@,
            ) == Some("development"@)
            &&& params.get_str("appEnvironment"@) != Some("development"@) ==> told.get_str(
                "apnsEnvironment"@,
            ) == Some("production"@)
        }),
{
    reveal_strlit("ok");
    reveal_strlit("alertsEnabled");
    reveal_strlit("apnsEnvironment");
    assert("ok"@.len() == 2 && "alertsEnabled"@.len() == 13);
    assert("apnsEnvironment"@.len() == 15);
}

// Versions.

/// The latest version is looked up again after half an hour, or after a minute where it is not
/// known.
pub proof fn law_when_the_version_is_looked_up(cache: CacheView, now_ms: u64)
    ensures
        cache.resolved_at matches Some(at) ==> cache.latest is Some && now_ms < at + 1_800_000
            ==> cache.known(now_ms),
        cache.attempted_at matches Some(at) ==> now_ms < at + 60_000 ==> cache.known(now_ms),
        cache.latest is None && (cache.attempted_at matches Some(at) ==> now_ms >= at + 60_000)
            ==> !cache.known(now_ms),
        (cache.resolved_at matches Some(at) ==> now_ms >= at + 1_800_000) && (
        cache.attempted_at matches Some(at) ==> now_ms >= at + 60_000) ==> !cache.known(now_ms),
{
}

} // verus!
