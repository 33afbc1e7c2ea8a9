//! The voice requests of the phone.
use vstd::prelude::*;

use crate::crypto::{base64_bytes, base64_decode};
use crate::json::{or_else, or_empty, Json, JsonObject, JsonView};
use crate::text::{blank, concat3, is_blank, remove_spaces, space_pred, text_eq, without_chars};

verus! {

/// How many bytes of audio a message may have.
pub const MAX_AUDIO_BYTES: usize = 10_485_760;

/// How long a message may be.
pub const MAX_DURATION_MS: u64 = 60_000;

/// Whether bytes start as a WAV file does.
pub open spec fn is_wav(audio: Seq<u8>) -> bool {
    audio.len() >= 44 && audio.subrange(0, 4) == seq![82u8, 73, 70, 70] && audio.subrange(8, 12)
        == seq![87u8, 65, 86, 69]
}

fn looks_like_wav(audio: &Vec<u8>) -> (r: bool)
    ensures
        r == is_wav(audio@),
{
    if audio.len() < 44 {
        return false;
    }
    let r = audio[0] == 82 && audio[1] == 73 && audio[2] == 70 && audio[3] == 70 && audio[8] == 87
        && audio[9] == 65 && audio[10] == 86 && audio[11] == 69;
    proof {
        let head = audio@.subrange(0, 4);
        let kind = audio@.subrange(8, 12);
        if r {
            assert(head =~= seq![82u8, 73, 70, 70]);
            assert(kind =~= seq![87u8, 65, 86, 69]);
        } else {
            assert(head[0] == audio@[0] && head[1] == audio@[1] && head[2] == audio@[2] && head[3]
                == audio@[3]);
            assert(kind[0] == audio@[8] && kind[1] == audio@[9] && kind[2] == audio@[10] && kind[3]
                == audio@[11]);
        }
    }
    r
}

/// The recording in a request, where it is one that can be transcribed.
pub open spec fn recording(params: JsonView) -> Result<Seq<u8>, Seq<char>> {
    let duration_ms = match params.get_u64("durationMs"@) {
        Some(ms) => ms,
        None => 0,
    };
    let audio_base64 = without_chars(or_empty(params.get_str("audioBase64"@)), space_pred());
    if params.get_str("mimeType"@) != Some("audio/wav"@) {
        Err("Only WAV audio is supported for voice transcription."@)
    } else if params.get_u64("sampleRateHz"@) != Some(24_000u64) {
        Err("Voice transcription requires 24 kHz mono WAV audio."@)
    } else if duration_ms == 0 {
        Err("Voice messages must include a positive duration."@)
    } else if duration_ms > MAX_DURATION_MS {
        Err("Voice messages are limited to 60 seconds."@)
    } else if audio_base64.len() == 0 {
        Err("The voice request did not include any audio."@)
    } else {
        match base64_bytes(audio_base64) {
            None => Err("The recorded audio could not be decoded."@),
            Some(audio) => if audio.len() > MAX_AUDIO_BYTES {
                Err("Voice messages are limited to 10 MB."@)
            } else if !is_wav(audio) {
                Err("The recorded audio is not a valid WAV file."@)
            } else {
                Ok(audio)
            },
        }
    }
}

/// Reads the recording in a request.
pub fn read_recording(params: &Json) -> (r: Result<Vec<u8>, String>)
    ensures
        match r {
            Ok(audio) => recording(params@) == Ok::<Seq<u8>, Seq<char>>(audio@),
            Err(error) => recording(params@) == Err::<Seq<u8>, Seq<char>>(error@),
        },
{
    let wav = match params.get_str("mimeType") {
        Some(kind) => text_eq(kind, "audio/wav"),
        None => false,
    };
    if !wav {
        return Err("Only WAV audio is supported for voice transcription.".to_owned());
    }
    let rate: u64 = match params.get_u64("sampleRateHz") {
        Some(rate) => rate,
        None => 0,
    };
    if rate != 24_000 {
        return Err("Voice transcription requires 24 kHz mono WAV audio.".to_owned());
    }
    let duration_ms: u64 = match params.get_u64("durationMs") {
        Some(ms) => ms,
        None => 0,
    };
    if duration_ms == 0 {
        return Err("Voice messages must include a positive duration.".to_owned());
    }
    if duration_ms > MAX_DURATION_MS {
        return Err("Voice messages are limited to 60 seconds.".to_owned());
    }
    let nothing = String::new();
    let audio_base64 = remove_spaces(
        match params.get_str("audioBase64") {
            Some(text) => text,
            None => nothing.as_str(),
        },
    );
    if audio_base64.as_str().is_empty() {
        return Err("The voice request did not include any audio.".to_owned());
    }
    let audio = match base64_decode(audio_base64.as_str()) {
        Some(audio) => audio,
        None => {
            return Err("The recorded audio could not be decoded.".to_owned());
        },
    };
    if audio.len() > MAX_AUDIO_BYTES {
        return Err("Voice messages are limited to 10 MB.".to_owned());
    }
    if !looks_like_wav(&audio) {
        return Err("The recorded audio is not a valid WAV file.".to_owned());
    }
    Ok(audio)
}

/// Whether the account is one of ChatGPT.
pub open spec fn is_chatgpt(auth_status: JsonView) -> bool {
    auth_status.get_str("authMethod"@) == Some("chatgpt"@) || auth_status.get_str("authMethod"@)
        == Some("chatgptAuthTokens"@)
}

fn uses_chatgpt(auth_status: &Json) -> (r: bool)
    ensures
        r == is_chatgpt(auth_status@),
{
    match auth_status.get_str("authMethod") {
        Some(method) => text_eq(method, "chatgpt") || text_eq(method, "chatgptAuthTokens"),
        None => false,
    }
}

/// The token of the account, where it has one.
pub open spec fn usable_token(auth_status: JsonView) -> Option<Seq<char>> {
    match auth_status.get_str("authToken"@) {
        Some(token) => if is_blank(token) {
            None
        } else {
            Some(token)
        },
        None => None,
    }
}

fn read_token(auth_status: &Json) -> (r: Option<String>)
    ensures
        r.deep_view() == usable_token(auth_status@),
{
    match auth_status.get_str("authToken") {
        Some(token) => {
            if blank(token) {
                None
            } else {
                Some(token.to_owned())
            }
        },
        None => None,
    }
}

/// Where a recording goes, under which token, and the model that is asked for.
#[derive(Debug)]
pub struct VoiceTarget {
    pub url: String,
    pub token: String,
    pub model: Option<String>,
}

/// What a `VoiceTarget` stands for.
pub struct TargetView {
    pub url: Seq<char>,
    pub token: Seq<char>,
    pub model: Option<Seq<char>>,
}

impl VoiceTarget {
    pub open spec fn view(&self) -> TargetView {
        TargetView { url: self.url@, token: self.token@, model: self.model.deep_view() }
    }
}

pub open spec fn voice_target(auth_status: JsonView) -> Result<TargetView, Seq<char>> {
    match usable_token(auth_status) {
        None => Err("Sign in with ChatGPT before using voice transcription."@),
        Some(token) => Ok(
            if is_chatgpt(auth_status) {
                TargetView {
                    url: "https://chatgpt.com/backend-api/transcribe"@,
                    token,
                    model: None,
                }
            } else {
                TargetView {
                    url: "https://api.openai.com/v1/audio/transcriptions"@,
                    token,
                    model: Some("gpt-4o-mini-transcribe"@),
                }
            },
        ),
    }
}

pub fn choose_voice_target(auth_status: &Json) -> (r: Result<VoiceTarget, String>)
    ensures
        match r {
            Ok(target) => voice_target(auth_status@) == Ok::<TargetView, Seq<char>>(target.view()),
            Err(error) => voice_target(auth_status@) == Err::<TargetView, Seq<char>>(error@),
        },
{
    let token = match read_token(auth_status) {
        Some(token) => token,
        None => {
            return Err("Sign in with ChatGPT before using voice transcription.".to_owned());
        },
    };
    if uses_chatgpt(auth_status) {
        Ok(
            VoiceTarget {
                url: "https://chatgpt.com/backend-api/transcribe".to_owned(),
                token,
                model: None,
            },
        )
    } else {
        Ok(
            VoiceTarget {
                url: "https://api.openai.com/v1/audio/transcriptions".to_owned(),
                token,
                model: Some("gpt-4o-mini-transcribe".to_owned()),
            },
        )
    }
}

/// The text in the reply to a recording.
pub open spec fn transcript_text(payload: JsonView) -> Option<Seq<char>> {
    match or_else(payload.get("text"@), payload.get("transcript"@)) {
        Some(value) => match value.as_str() {
            Some(text) => if is_blank(text) {
                None
            } else {
                Some(text)
            },
            None => None,
        },
        None => None,
    }
}

fn read_transcript(payload: &Json) -> (r: Option<String>)
    ensures
        r.deep_view() == transcript_text(payload@),
{
    let value = match payload.get("text") {
        Some(value) => Some(value),
        None => payload.get("transcript"),
    };
    match value {
        Some(value) => match value.as_str() {
            Some(text) => {
                if blank(text) {
                    None
                } else {
                    Some(text.to_owned())
                }
            },
            None => None,
        },
        None => None,
    }
}

/// What came back for a recording: a status that is no success, a value, or an error.
#[derive(Debug)]
pub enum VoiceReply {
    Refused(String),
    Body(Json),
    Failed(String),
}

/// Where a voice request stands.
#[derive(Debug)]
pub enum VoiceStep {
    /// The request is another one.
    NotVoice,
    /// The status of the account is needed.
    NeedAuth,
    /// The recording has to be sent.
    Post { target: VoiceTarget, audio: Vec<u8> },
    Done(Result<Json, String>),
}

/// What a `VoiceStep` stands for.
pub enum VoiceView {
    NotVoice,
    NeedAuth,
    Post { target: TargetView, audio: Seq<u8> },
    Done(Result<JsonView, Seq<char>>),
}

impl VoiceStep {
    pub open spec fn view(&self) -> VoiceView {
        match self {
            VoiceStep::NotVoice => VoiceView::NotVoice,
            VoiceStep::NeedAuth => VoiceView::NeedAuth,
            VoiceStep::Post { target, audio } => VoiceView::Post {
                target: target.view(),
                audio: audio@,
            },
            VoiceStep::Done(Ok(json)) => VoiceView::Done(Ok(json@)),
            VoiceStep::Done(Err(error)) => VoiceView::Done(Err(error@)),
        }
    }
}

pub open spec fn auth_reply(auth: Option<Result<Json, String>>) -> Option<
    Result<JsonView, Seq<char>>,
> {
    crate::script::json_result(auth)
}

/// What a `VoiceReply` stands for.
pub enum VoiceReplyView {
    Refused(Seq<char>),
    Body(JsonView),
    Failed(Seq<char>),
}

impl VoiceReply {
    pub open spec fn view(&self) -> VoiceReplyView {
        match self {
            VoiceReply::Refused(status) => VoiceReplyView::Refused(status@),
            VoiceReply::Body(json) => VoiceReplyView::Body(json@),
            VoiceReply::Failed(error) => VoiceReplyView::Failed(error@),
        }
    }
}

/// The answer once there is a reply to the recording.
pub open spec fn transcription(reply: VoiceReplyView) -> Result<JsonView, Seq<char>> {
    match reply {
        VoiceReplyView::Refused(status) => Err(
            "Transcription failed with status "@ + status + "."@,
        ),
        VoiceReplyView::Failed(error) => Err(error),
        VoiceReplyView::Body(payload) => match transcript_text(payload) {
            Some(text) => Ok(JsonView::Object(map!["text"@ => JsonView::Text(text)])),
            None => Err("The transcription response did not include any text."@),
        },
    }
}

/// A recording is checked before anything else is asked for, then the account, then it is sent.
pub open spec fn transcribe(
    params: JsonView,
    auth: Option<Result<JsonView, Seq<char>>>,
    reply: Option<VoiceReplyView>,
) -> VoiceView {
    match recording(params) {
        Err(error) => VoiceView::Done(Err(error)),
        Ok(audio) => match auth {
            None => VoiceView::NeedAuth,
            Some(Err(error)) => VoiceView::Done(Err(error)),
            Some(Ok(status)) => match voice_target(status) {
                Err(error) => VoiceView::Done(Err(error)),
                Ok(target) => match reply {
                    None => VoiceView::Post { target, audio },
                    Some(reply) => VoiceView::Done(transcription(reply)),
                },
            },
        },
    }
}

/// The token for the phone, where the account is one of ChatGPT.
pub open spec fn voice_auth(auth_status: JsonView) -> Result<JsonView, Seq<char>> {
    match usable_token(auth_status) {
        Some(token) => if is_chatgpt(auth_status) {
            Ok(JsonView::Object(map!["token"@ => JsonView::Text(token)]))
        } else {
            Err("Voice transcription requires a ChatGPT account."@)
        },
        None => Err("No ChatGPT session token available. Sign in to ChatGPT on the Mac."@),
    }
}

pub open spec fn voice_request(
    method: Seq<char>,
    params: JsonView,
    auth: Option<Result<JsonView, Seq<char>>>,
    reply: Option<VoiceReplyView>,
) -> VoiceView {
    if method == "voice/transcribe"@ {
        transcribe(params, auth, reply)
    } else if method == "voice/resolveAuth"@ {
        match auth {
            None => VoiceView::NeedAuth,
            Some(Err(error)) => VoiceView::Done(Err(error)),
            Some(Ok(status)) => VoiceView::Done(voice_auth(status)),
        }
    } else {
        VoiceView::NotVoice
    }
}

pub fn resolve_voice_auth(auth_status: &Json) -> (r: Result<Json, String>)
    ensures
        crate::script::json_result(Some(r)) == Some(voice_auth(auth_status@)),
{
    match read_token(auth_status) {
        Some(token) => {
            if uses_chatgpt(auth_status) {
                let mut out = JsonObject::new();
                out.insert("token", Json::Text(token));
                Ok(Json::object(out))
            } else {
                Err("Voice transcription requires a ChatGPT account.".to_owned())
            }
        },
        None => Err(
            "No ChatGPT session token available. Sign in to ChatGPT on the Mac.".to_owned(),
        ),
    }
}

pub fn transcribe_voice(
    params: &Json,
    auth: Option<Result<Json, String>>,
    reply: Option<VoiceReply>,
) -> (r: VoiceStep)
    ensures
        r.view() == transcribe(
            params@,
            auth_reply(auth),
            match reply {
                Some(reply) => Some(reply.view()),
                None => None,
            },
        ),
{
    let audio = match read_recording(params) {
        Ok(audio) => audio,
        Err(error) => {
            return VoiceStep::Done(Err(error));
        },
    };
    let target = match auth {
        Some(Ok(status)) => match choose_voice_target(&status) {
            Ok(target) => target,
            Err(error) => {
                return VoiceStep::Done(Err(error));
            },
        },
        Some(Err(error)) => {
            return VoiceStep::Done(Err(error));
        },
        None => {
            return VoiceStep::NeedAuth;
        },
    };
    match reply {
        None => VoiceStep::Post { target, audio },
        Some(VoiceReply::Refused(status)) => VoiceStep::Done(
            Err(concat3("Transcription failed with status ", status.as_str(), ".")),
        ),
        Some(VoiceReply::Failed(error)) => VoiceStep::Done(Err(error)),
        Some(VoiceReply::Body(payload)) => match read_transcript(&payload) {
            Some(text) => {
                let mut out = JsonObject::new();
                out.insert("text", Json::Text(text));
                VoiceStep::Done(Ok(Json::object(out)))
            },
            None => VoiceStep::Done(
                Err("The transcription response did not include any text.".to_owned()),
            ),
        },
    }
}

/// Runs a voice request as far as what came back reaches.
pub fn handle_voice_request(
    method: &str,
    params: &Json,
    auth: Option<Result<Json, String>>,
    reply: Option<VoiceReply>,
) -> (r: VoiceStep)
    ensures
        r.view() == voice_request(
            method@,
            params@,
            auth_reply(auth),
            match reply {
                Some(reply) => Some(reply.view()),
                None => None,
            },
        ),
{
    if text_eq(method, "voice/transcribe") {
        transcribe_voice(params, auth, reply)
    } else if text_eq(method, "voice/resolveAuth") {
        match auth {
            None => VoiceStep::NeedAuth,
            Some(Err(error)) => VoiceStep::Done(Err(error)),
            Some(Ok(status)) => VoiceStep::Done(resolve_voice_auth(&status)),
        }
    } else {
        VoiceStep::NotVoice
    }
}

/// Nothing but a recording that keeps to every limit is ever sent.
pub proof fn law_only_checked_recordings_are_sent(
    params: JsonView,
    auth: Option<Result<JsonView, Seq<char>>>,
    reply: Option<VoiceReplyView>,
    target: TargetView,
    audio: Seq<u8>,
)
    requires
        transcribe(params, auth, reply) == (VoiceView::Post { target, audio }),
    ensures
        is_wav(audio),
        audio.len() <= MAX_AUDIO_BYTES,
        !is_blank(target.token),
        params.get_u64("durationMs"@) matches Some(ms) && 0 < ms <= MAX_DURATION_MS,
{
}

} // verus!
