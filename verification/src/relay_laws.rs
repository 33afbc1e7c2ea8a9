//! What the bridge does as a whole and on its connection to the relay.
use vstd::prelude::*;

use crate::bridge::plain_relay_url;
use crate::bridge::messages::{CodexRouteView, RouteView};
use crate::bridge::relay::{
    connect_headers, introduction, key_fingerprint, runtime_context, AnnouncementView,
    RelayEventView, RelayStepView, RunEventView, RunNextView, RuntimeView, SnapshotView,
};
use crate::bridge::support::{registration_headers, registration_view};
use crate::codex_transport::EventView;
use crate::crypto::{base64_bytes, sha256_digest};
use crate::json::{json_parse, json_print, JsonView};
use crate::secure_device_state::DeviceView;
use crate::text::{hex, lemma_lt_total, trimmed};
use crate::text_map::is_least;
use vstd::utf8::{decode_utf8, encode_utf8, valid_utf8};

verus! {

/// A status that is told as it is.
pub open spec fn says(
    status: Option<SnapshotView>,
    state: Seq<char>,
    connection: Seq<char>,
    error: Seq<char>,
) -> bool {
    status matches Some(status) && status.state == state && status.connection_status == connection
        && status.last_error == error
}

/// The bridge starts by connecting, and says so.
pub proof fn law_bridge_starts_by_connecting(runtime: RuntimeView)
    ensures
        ({
            let step = runtime.run_step(RunEventView::Start);
            let after = runtime.ran(RunEventView::Start);
            &&& step.next is Connect
            &&& says(step.status, "starting"@, "starting"@, Seq::empty())
            &&& runtime.connection != Some("connecting"@) ==> says(
                step.news.status,
                "running"@,
                "connecting"@,
                Seq::empty(),
            ) && says(after.published, "running"@, "connecting"@, Seq::empty())
                && step.news.line == Some("[remodex] "@ + "connecting"@)
            &&& after.connection == Some("connecting"@)
            &&& after.attempt == runtime.attempt
        }),
{
}

/// After a wait the bridge connects again.
pub proof fn law_bridge_connects_again(runtime: RuntimeView)
    ensures
        runtime.run_step(RunEventView::Slept).next is Connect,
        runtime.run_step(RunEventView::Slept).status is None,
        runtime.ran(RunEventView::Slept).connection == Some("connecting"@),
        runtime.ran(RunEventView::Slept).attempt == runtime.attempt,
{
}

/// A connection that is there is used, and starts the waits from the beginning.
pub proof fn law_connection_is_used(runtime: RuntimeView)
    ensures
        runtime.run_step(RunEventView::Connected).next is Run,
        runtime.ran(RunEventView::Connected).attempt == 0,
        runtime.ran(RunEventView::Connected).published == runtime.published,
{
}

/// A connection that fails is told, with the error, and tried again: after a second more each time,
/// up to five.
pub proof fn law_failed_connection_is_told_and_tried_again(runtime: RuntimeView, error: Seq<char>)
    requires
        runtime.attempt < u64::MAX,
    ensures
        ({
            let event = RunEventView::ConnectFailed(error);
            let step = runtime.run_step(event);
            &&& says(step.status, "error"@, "error"@, error)
            &&& says(runtime.ran(event).published, "error"@, "error"@, error)
            &&& runtime.ran(event).attempt == runtime.attempt + 1
            &&& runtime.attempt < 5 ==> step.next == RunNextView::Sleep(
                ((runtime.attempt + 1) * 1000) as u64,
            )
            &&& runtime.attempt >= 5 ==> step.next == RunNextView::Sleep(5000)
        }),
{
}

/// A connection that is over is tried again where another one is wanted; otherwise the bridge stops.
pub proof fn law_end_of_a_connection(runtime: RuntimeView, error: Seq<char>)
    requires
        runtime.attempt < u64::MAX,
    ensures
        ({
            let step = runtime.run_step(RunEventView::Ended(true));
            &&& step.status is None
            &&& runtime.ran(RunEventView::Ended(true)).attempt == runtime.attempt + 1
            &&& runtime.attempt < 5 ==> step.next == RunNextView::Sleep(
                ((runtime.attempt + 1) * 1000) as u64,
            )
            &&& runtime.attempt >= 5 ==> step.next == RunNextView::Sleep(5000)
        }),
        runtime.run_step(RunEventView::Ended(false)).next is Stop,
        says(
            runtime.run_step(RunEventView::Ended(false)).status,
            "stopped"@,
            "disconnected"@,
            Seq::empty(),
        ),
        runtime.run_step(RunEventView::Shutdown).next is Stop,
        says(
            runtime.run_step(RunEventView::Shutdown).status,
            "stopped"@,
            "disconnected"@,
            Seq::empty(),
        ),
        runtime.run_step(RunEventView::Failed(error)).next == RunNextView::Fail(error),
        runtime.ran(RunEventView::Failed(error)) == runtime,
{
}

/// The bridge as a whole leaves alone what it knows of messages, phones and runs.
pub proof fn law_running_keeps_what_is_known(runtime: RuntimeView, event: RunEventView)
    ensures
        runtime.ran(event).core == runtime.core,
        runtime.ran(event).transport == runtime.transport,
        runtime.ran(event).mirrors == runtime.mirrors,
        runtime.ran(event).probe == runtime.probe,
{
}

/// A change of the connection is told in a status and a line; no change is not told.
pub proof fn law_change_of_the_connection_is_told(runtime: RuntimeView, status: Seq<char>)
    ensures
        runtime.connection != Some(status) ==> {
            let news = runtime.connection_news(status);
            let after = runtime.connection_logged(status);
            &&& says(news.status, "running"@, status, Seq::empty())
            &&& news.line == Some("[remodex] "@ + status)
            &&& says(after.published, "running"@, status, Seq::empty())
            &&& after.connection == Some(status)
        },
        runtime.connection == Some(status) ==> runtime.connection_news(status)
            == (AnnouncementView { status: None, line: None }) && runtime.connection_logged(status)
            == runtime,
{
}

/// What is written again and again is the last status, unless it says that a relay is there which
/// has not answered for too long.
pub proof fn law_heartbeat_tells_the_last_status(
    runtime: RuntimeView,
    status: SnapshotView,
    sent_ms: u64,
    now_ms: u64,
)
    requires
        runtime.published == Some(status),
        runtime.probe == Some(sent_ms),
        sent_ms <= now_ms,
    ensures
        status.connection_status != "connected"@ || now_ms - sent_ms < 25_000
            ==> runtime.relay_step(RelayEventView::HeartbeatTick, now_ms)
            == RelayStepView::WriteStatus(Some(status)),
        status.connection_status == "connected"@ && now_ms - sent_ms >= 25_000 ==> (
        runtime.relay_step(RelayEventView::HeartbeatTick, now_ms) matches RelayStepView::WriteStatus(
            told,
        ) && says(
            told,
            status.state,
            "disconnected"@,
            "Relay heartbeat stalled; reconnect pending."@,
        )),
        runtime.connected(RelayEventView::HeartbeatTick, now_ms) == runtime,
{
}

/// With no probe out, the last status is told as it is.
pub proof fn law_heartbeat_without_a_probe(runtime: RuntimeView, now_ms: u64)
    requires
        runtime.probe is None,
    ensures
        runtime.relay_step(RelayEventView::HeartbeatTick, now_ms) == RelayStepView::WriteStatus(
            runtime.published,
        ),
{
}

/// A message of Codex for the phone is queued for it; an answer to the bridge is handed over.
pub proof fn law_message_of_codex_is_queued(runtime: RuntimeView, raw: Seq<char>, now_ms: u64)
    ensures
        ({
            let event = RelayEventView::Codex(Some(EventView::Message(raw)));
            let after = runtime.connected(event, now_ms);
            &&& after.core == runtime.core.codex_message(json_parse(raw), now_ms)
            &&& runtime.core.codex_route(json_parse(raw), raw, now_ms) matches CodexRouteView::Pass {
                text,
                active_thread,
            } ==> after.transport == runtime.transport.queueing(text) && runtime.relay_step(
                event,
                now_ms,
            ) == (RelayStepView::Told { active_thread })
            &&& runtime.core.codex_route(
                json_parse(raw),
                raw,
                now_ms,
            ) matches CodexRouteView::Answer { request_id, result } ==> after.transport
                == runtime.transport && runtime.relay_step(event, now_ms)
                == (RelayStepView::Answered { request_id, result })
        }),
{
}

/// What the bridge itself has to say is queued for the phone.
pub proof fn law_response_is_queued(runtime: RuntimeView, text: Seq<char>, now_ms: u64)
    ensures
        runtime.connected(RelayEventView::Response(text), now_ms).transport
            == runtime.transport.queueing(text),
        runtime.connected(RelayEventView::Response(text), now_ms).core == runtime.core,
        runtime.relay_step(RelayEventView::Response(text), now_ms) is Continue,
{
}

/// A message of the phone goes where it belongs: its answer is queued, a part of the bridge gets it,
/// or Codex gets it as it is.
pub proof fn law_message_of_the_phone_goes_on(
    runtime: RuntimeView,
    raw: Seq<char>,
    message: JsonView,
    now_ms: u64,
)
    requires
        json_parse(raw) == Some(message),
    ensures
        ({
            let event = RelayEventView::Application(raw);
            let step = runtime.relay_step(event, now_ms);
            let after = runtime.connected(event, now_ms);
            &&& after.core == runtime.core.routed(message)
            &&& runtime.core.route(message) matches RouteView::Answer(text) ==> after.transport
                == runtime.transport.queueing(text) && step is Continue
            &&& runtime.core.route(message) matches RouteView::Spawn {
                request_id,
                method,
                params,
                task,
            } ==> step == (RelayStepView::Spawn { request_id, method, params, task })
                && after.transport == runtime.transport
            &&& runtime.core.route(message) matches RouteView::Forward { thread_id } ==> step == (
            RelayStepView::Forward { raw_message: raw, thread_id }) && after.transport
                == runtime.transport
            &&& runtime.core.route(message) is Ignore ==> step is Continue && after.transport
                == runtime.transport
        }),
{
}

/// What is no message is left alone.
pub proof fn law_text_that_is_no_message_is_left(runtime: RuntimeView, raw: Seq<char>, now_ms: u64)
    requires
        json_parse(raw) is None,
    ensures
        runtime.relay_step(RelayEventView::Application(raw), now_ms) is Continue,
        runtime.connected(RelayEventView::Application(raw), now_ms) == runtime,
{
}

/// What comes from the relay belongs to the secure channel, as a text or as its bytes.
pub proof fn law_frames_go_to_the_channel(
    runtime: RuntimeView,
    text: Seq<char>,
    bytes: Seq<u8>,
    now_ms: u64,
)
    ensures
        runtime.relay_step(RelayEventView::Text(text), now_ms) == RelayStepView::HandleText(text),
        valid_utf8(bytes) ==> runtime.relay_step(RelayEventView::Binary(bytes), now_ms)
            == RelayStepView::HandleText(decode_utf8(bytes)),
        !valid_utf8(bytes) ==> runtime.relay_step(RelayEventView::Binary(bytes), now_ms)
            is Continue,
        runtime.connected(RelayEventView::Text(text), now_ms) == runtime,
        runtime.connected(RelayEventView::Binary(bytes), now_ms) == runtime,
{
}

/// The bridge ends with Codex, and says why; it closes the connection when it is told to stop.
pub proof fn law_bridge_ends_with_codex(runtime: RuntimeView, error: Seq<char>, now_ms: u64)
    ensures
        runtime.relay_step(RelayEventView::Codex(Some(EventView::Error(error))), now_ms)
            == RelayStepView::Fail(error),
        runtime.relay_step(RelayEventView::Codex(None), now_ms) == RelayStepView::Fail(
            "Codex transport closed"@,
        ),
        runtime.relay_step(RelayEventView::Codex(Some(EventView::Closed)), now_ms)
            == RelayStepView::Fail("Codex transport closed"@),
        runtime.relay_step(RelayEventView::Shutdown, now_ms) is Close,
        runtime.relay_step(RelayEventView::RolloutTick, now_ms) is ReadRollouts,
        runtime.relay_step(RelayEventView::OtherFrame, now_ms) is Continue,
        runtime.connected(RelayEventView::RolloutTick, now_ms) == runtime,
        runtime.connected(RelayEventView::OtherFrame, now_ms) == runtime,
        runtime.connected(RelayEventView::Shutdown, now_ms) == runtime,
{
}

/// A connection that is gone is told and made again; what waits for the phone stays.
pub proof fn law_lost_connection_is_told(runtime: RuntimeView, now_ms: u64)
    ensures
        ({
            let after = runtime.connected(RelayEventView::Gone, now_ms);
            let step = runtime.relay_step(RelayEventView::Gone, now_ms);
            &&& after.transport == runtime.transport
            &&& after.attempt == runtime.attempt
            &&& after.connection == Some("disconnected"@)
            &&& after.core.waiting == runtime.core.waiting
            &&& after.core.registry == runtime.core.registry
            &&& after.core.login == runtime.core.login
            &&& after.core.warm == runtime.core.warm
            &&& runtime.connection != Some("disconnected"@) ==> says(
                after.published,
                "running"@,
                "disconnected"@,
                Seq::empty(),
            ) && (step matches RelayStepView::Reconnect(news) && says(
                news.status,
                "running"@,
                "disconnected"@,
                Seq::empty(),
            ))
            &&& step is Reconnect
            &&& runtime.relay_step(RelayEventView::PingFailed, now_ms) == step
            &&& runtime.connected(RelayEventView::PingFailed, now_ms) == after
        }),
{
}

/// A relay that has not answered a probe for 25 seconds is left, and the status says so; before
/// that the bridge waits.
pub proof fn law_stalled_relay_is_told(runtime: RuntimeView, sent_ms: u64, now_ms: u64)
    requires
        runtime.probe == Some(sent_ms),
        sent_ms <= now_ms,
    ensures
        ({
            let after = runtime.connected(RelayEventView::PingTick, now_ms);
            let step = runtime.relay_step(RelayEventView::PingTick, now_ms);
            &&& now_ms - sent_ms < 25_000 ==> step is Continue && after == runtime
            &&& now_ms - sent_ms >= 25_000 ==> {
                &&& step matches RelayStepView::Reconnect(news) && news.line is None && says(
                    news.status,
                    "running"@,
                    "disconnected"@,
                    "Relay heartbeat stalled; reconnect pending."@,
                )
                &&& says(
                    after.published,
                    "running"@,
                    "disconnected"@,
                    "Relay heartbeat stalled; reconnect pending."@,
                )
                &&& after.probe is None
                &&& after.transport == runtime.transport
            }
        }),
{
}

/// With no probe out, one is sent, and its time remembered.
pub proof fn law_probe_is_sent(runtime: RuntimeView, now_ms: u64)
    requires
        runtime.probe is None,
    ensures
        runtime.relay_step(RelayEventView::PingTick, now_ms) is SendPing,
        runtime.connected(RelayEventView::PingTick, now_ms) == (RuntimeView {
            probe: Some(now_ms),
            ..runtime
        }),
{
}

/// The bridge goes to the relay as the Mac, with its secret, and introduces itself.
pub proof fn law_bridge_introduces_itself(
    secret: Seq<char>,
    device: DeviceView,
    display_name: Seq<char>,
    header: (Seq<char>, Seq<char>),
)
    ensures
        ({
            let headers = connect_headers(secret, device, display_name);
            &&& headers.contains(("x-role"@, "mac"@))
            &&& headers.contains(("x-notification-secret"@, secret))
            &&& registration_headers(device, display_name).contains(header) ==> headers.contains(
                header,
            )
        }),
        exists|message: JsonView|
            {
                &&& introduction(device, display_name) == #[trigger] json_print(message)
                &&& message.get_str("kind"@) == Some("relayMacRegistration"@)
                &&& message.get("registration"@) == Some(registration_view(device, display_name))
            },
{
    let headers = connect_headers(secret, device, display_name);
    assert(headers[0] == ("x-role"@, "mac"@));
    assert(headers[1] == ("x-notification-secret"@, secret));
    let more = registration_headers(device, display_name);
    if more.contains(header) {
        let i = choose|i: int| 0 <= i < more.len() && more[i] == header;
        assert(headers[i + 2] == header);
    }
    reveal_strlit("kind");
    reveal_strlit("registration");
    assert("kind"@.len() == 4 && "registration"@.len() == 12);
    let message = JsonView::Object(
        map![
            "kind"@ => JsonView::Text("relayMacRegistration"@),
            "registration"@ => registration_view(device, display_name),
        ],
    );
    assert(introduction(device, display_name) == json_print(message));
    assert(message.get_str("kind"@) == Some("relayMacRegistration"@));
    assert(message.get("registration"@) == Some(registration_view(device, display_name)));
}

/// A key is named by the first bytes of its hash: that of the bytes that it encodes, or of its text.
pub proof fn law_name_of_a_key(key: Seq<char>)
    ensures
        trimmed(key).len() == 0 ==> key_fingerprint(key) == "none"@,
        trimmed(key).len() > 0 ==> (base64_bytes(trimmed(key)) matches Some(bytes)
            ==> key_fingerprint(key) == hex(sha256_digest(bytes).take(6))),
        trimmed(key).len() > 0 && base64_bytes(trimmed(key)) is None ==> key_fingerprint(key)
            == hex(sha256_digest(encode_utf8(trimmed(key))).take(6)),
{
}

/// The line that tells which program runs names the program and both keys.
pub proof fn law_line_of_the_program(
    kind: Seq<char>,
    source: Seq<char>,
    executable: Seq<char>,
    device: DeviceView,
    phone: Seq<char>,
)
    requires
        device.trusted_phones.dom() == set![phone],
    ensures
        runtime_context(kind, source, executable, device) == "[remodex] runtime="@ + kind
            + " source="@ + source + " executable="@ + executable + " macKey="@ + key_fingerprint(
            device.mac_identity_public_key,
        ) + " trustedPhoneKey="@ + key_fingerprint(device.trusted_phones[phone]),
{
    assert(device.trusted_phones.dom().contains(phone));
    lemma_lt_total(phone, phone);
    assert(is_least(device.trusted_phones, phone));
    let least = choose|key: Seq<char>| is_least(device.trusted_phones, key);
    assert(device.trusted_phones.dom().contains(least));
}

/// The address of the relay is used without separators at its end.
pub proof fn law_address_of_the_relay(url: Seq<char>)
    requires
        trimmed(url) == url,
        url.len() == 0 || url.last() != '/',
    ensures
        plain_relay_url(url) == url,
{
}

} // verus!
