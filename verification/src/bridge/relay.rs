//! The bridge while it runs: its connection to the relay, and what it tells of itself.
//!
//! The caller owns the connections, the timers and the files. It tells what happened, and is told
//! what to do.
use vstd::prelude::*;

use vstd::utf8::{decode_utf8, encode_utf8, valid_utf8};

use super::messages::{
    named_in, new_core, ApplicationRoute, BridgeCore, BridgeTask, CodexRoute, CodexRouteView,
    CoreView, Passed, RouteView,
};
use super::support::{
    build_mac_registration_headers, pairs_view, registration_headers, registration_view,
    send_relay_registration_update,
};
use super::{
    probe_missed, watchdog_action, watchdog_probe, RelayLivenessState, RelayWatchdogAction,
    RELAY_WATCHDOG_STALE_AFTER_MS,
};
use crate::codex_transport::{CodexEvent, EventView};
use crate::crypto::{base64_bytes, base64_decode, sha256, sha256_digest, LAST_TIME_MS};
use crate::daemon_state::BridgeRuntimeMetadata;
use crate::json::{json_parse, json_print, Json, JsonView};
use crate::rollout_live_mirror::controller::{
    all_polled, looks_view, observing, watched_thread, RolloutLiveMirrorController,
    RolloutLook, ThreadView,
};
use crate::secure_device_state::{BridgeDeviceState, DeviceView};
use crate::secure_transport::{BridgeSecureTransport, IncomingWireResult, TransportView};
use crate::text::{blank, concat2, hex, hex_text, is_blank, text_eq, trim, trimmed, utf8_text};
use crate::text_map::least_key;

verus! {

/// What is known of the bridge from outside.
#[derive(Debug)]
pub struct BridgeStatusSnapshot {
    pub state: String,
    pub connection_status: String,
    pub last_error: String,
}

/// What a `BridgeStatusSnapshot` stands for.
pub struct SnapshotView {
    pub state: Seq<char>,
    pub connection_status: Seq<char>,
    pub last_error: Seq<char>,
}

impl BridgeStatusSnapshot {
    pub open spec fn view(&self) -> SnapshotView {
        SnapshotView {
            state: self.state@,
            connection_status: self.connection_status@,
            last_error: self.last_error@,
        }
    }

    fn of(state: &str, connection_status: &str, last_error: &str) -> (r: BridgeStatusSnapshot)
        ensures
            r.view() == snapshot(state@, connection_status@, last_error@),
    {
        BridgeStatusSnapshot {
            state: state.to_owned(),
            connection_status: connection_status.to_owned(),
            last_error: last_error.to_owned(),
        }
    }
}

pub open spec fn snapshot(
    state: Seq<char>,
    connection_status: Seq<char>,
    last_error: Seq<char>,
) -> SnapshotView {
    SnapshotView { state, connection_status, last_error }
}

pub open spec fn snapshot_view(status: Option<BridgeStatusSnapshot>) -> Option<SnapshotView> {
    match status {
        Some(status) => Some(status.view()),
        None => None,
    }
}

/// A bridge while it runs.
pub struct BridgeRuntime {
    pub core: BridgeCore,
    pub secure_transport: BridgeSecureTransport,
    pub relay_liveness: RelayLivenessState,
    pub rollout_live_mirror: Option<RolloutLiveMirrorController>,
    pub last_connection_status: Option<String>,
    pub last_published_status: Option<BridgeStatusSnapshot>,
    pub reconnect_attempt: u64,
}

/// What a `BridgeRuntime` stands for.
pub struct RuntimeView {
    pub core: CoreView,
    pub transport: TransportView,
    pub probe: Option<u64>,
    pub mirrors: Option<Seq<ThreadView>>,
    pub connection: Option<Seq<char>>,
    pub published: Option<SnapshotView>,
    pub attempt: u64,
}

impl View for BridgeRuntime {
    type V = RuntimeView;

    open spec fn view(&self) -> RuntimeView {
        RuntimeView {
            core: self.core@,
            transport: self.secure_transport@,
            probe: self.relay_liveness.pending_ping_sent_at,
            mirrors: match self.rollout_live_mirror {
                Some(mirror) => Some(mirror.view()),
                None => None,
            },
            connection: self.last_connection_status.deep_view(),
            published: snapshot_view(self.last_published_status),
            attempt: self.reconnect_attempt,
        }
    }
}

/// What is done about a status: it is written, and a line is printed.
#[derive(Debug)]
pub struct Announcement {
    pub status: Option<BridgeStatusSnapshot>,
    pub line: Option<String>,
}

/// What an `Announcement` stands for.
pub struct AnnouncementView {
    pub status: Option<SnapshotView>,
    pub line: Option<Seq<char>>,
}

impl Announcement {
    pub open spec fn view(&self) -> AnnouncementView {
        AnnouncementView {
            status: snapshot_view(self.status),
            line: self.line.deep_view(),
        }
    }
}

/// What the status says of a relay that has fallen silent.
pub open spec fn stale_relay_message() -> Seq<char> {
    "Relay heartbeat stalled; reconnect pending."@
}

// The status.

impl RuntimeView {
    /// A status was published.
    pub open spec fn publishing(self, status: SnapshotView) -> RuntimeView {
        RuntimeView { published: Some(status), ..self }
    }

    /// The connection has come to be as told.
    pub open spec fn connection_logged(self, status: Seq<char>) -> RuntimeView {
        if self.connection == Some(status) {
            self
        } else {
            RuntimeView {
                connection: Some(status),
                published: Some(snapshot("running"@, status, Seq::empty())),
                ..self
            }
        }
    }

    /// What is told of that, where it is new.
    pub open spec fn connection_news(self, status: Seq<char>) -> AnnouncementView {
        if self.connection == Some(status) {
            AnnouncementView { status: None, line: None }
        } else {
            AnnouncementView {
                status: Some(snapshot("running"@, status, Seq::empty())),
                line: Some("[remodex] "@ + status),
            }
        }
    }

    /// The status as it is written again, where there is one.
    pub open spec fn heartbeat(self, now_ms: u64) -> Option<SnapshotView> {
        match self.published {
            Some(status) => if status.connection_status == "connected"@ && probe_missed(
                self.probe,
                now_ms,
                RELAY_WATCHDOG_STALE_AFTER_MS,
            ) {
                Some(snapshot(status.state, "disconnected"@, stale_relay_message()))
            } else {
                Some(status)
            },
            None => None,
        }
    }

    /// The connection is gone: nothing that hangs on it is kept.
    pub open spec fn reset(self) -> RuntimeView {
        RuntimeView {
            core: CoreView { watch: None, ..self.core },
            probe: None,
            mirrors: match self.mirrors {
                Some(_) => Some(Seq::empty()),
                None => None,
            },
            ..self
        }
    }
}

impl BridgeRuntime {
    /// What holds of every bridge.
    pub open spec fn wf(&self) -> bool {
        &&& self.secure_transport.wf()
        &&& self.rollout_live_mirror matches Some(mirror) ==> mirror.wf()
    }

    /// A bridge before it runs.
    pub fn new(
        secure_transport: BridgeSecureTransport,
        codex_handshake_warm: bool,
        mirror_rollouts: bool,
    ) -> (r: BridgeRuntime)
        requires
            secure_transport.wf(),
        ensures
            r.wf(),
            r@ == (RuntimeView {
                core: new_core(codex_handshake_warm),
                transport: secure_transport@,
                probe: None,
                mirrors: if mirror_rollouts {
                    Some(Seq::<ThreadView>::empty())
                } else {
                    None
                },
                connection: None,
                published: None,
                attempt: 0,
            }),
    {
        BridgeRuntime {
            core: BridgeCore::new(codex_handshake_warm),
            secure_transport,
            relay_liveness: RelayLivenessState::default(),
            rollout_live_mirror: if mirror_rollouts {
                Some(RolloutLiveMirrorController::new())
            } else {
                None
            },
            last_connection_status: None,
            last_published_status: None,
            reconnect_attempt: 0,
        }
    }

    /// Publishes a status; it is to be written.
    pub fn publish_status(&mut self, state: &str, connection_status: &str, last_error: &str) -> (r:
        BridgeStatusSnapshot)
        requires
            old(self).wf(),
        ensures
            final(self).wf(),
            r.view() == snapshot(state@, connection_status@, last_error@),
            final(self)@ == old(self)@.publishing(r.view()),
    {
        self.last_published_status = Some(
            BridgeStatusSnapshot::of(state, connection_status, last_error),
        );
        BridgeStatusSnapshot::of(state, connection_status, last_error)
    }

    /// Takes up how the connection is; what is told of it where that is new.
    pub fn log_connection_status(&mut self, status: &str) -> (r: Announcement)
        requires
            old(self).wf(),
        ensures
            final(self).wf(),
            r.view() == old(self)@.connection_news(status@),
            final(self)@ == old(self)@.connection_logged(status@),
    {
        if let Some(last) = &self.last_connection_status {
            if text_eq(last.as_str(), status) {
                return Announcement { status: None, line: None };
            }
        }
        self.last_connection_status = Some(status.to_owned());
        let published = self.publish_status("running", status, "");
        proof {
            reveal_strlit("");
            assert(""@ =~= Seq::<char>::empty());
        }
        Announcement { status: Some(published), line: Some(concat2("[remodex] ", status)) }
    }

    /// The status as it is written again.
    pub fn write_heartbeat_status(&self, now_ms: u64) -> (r: Option<BridgeStatusSnapshot>)
        ensures
            snapshot_view(r) == self@.heartbeat(now_ms),
    {
        match &self.last_published_status {
            Some(status) => {
                if text_eq(status.connection_status.as_str(), "connected")
                    && self.relay_liveness.is_stale_at(now_ms, RELAY_WATCHDOG_STALE_AFTER_MS) {
                    return Some(
                        BridgeStatusSnapshot::of(
                            status.state.as_str(),
                            "disconnected",
                            "Relay heartbeat stalled; reconnect pending.",
                        ),
                    );
                }
                Some(
                    BridgeStatusSnapshot::of(
                        status.state.as_str(),
                        status.connection_status.as_str(),
                        status.last_error.as_str(),
                    ),
                )
            },
            None => None,
        }
    }

    /// Forgets what hangs on a connection.
    pub fn handle_transport_reset(&mut self)
        requires
            old(self).wf(),
        ensures
            final(self).wf(),
            final(self)@ == old(self)@.reset(),
    {
        self.relay_liveness = RelayLivenessState::default();
        self.core.stop_watching();
        let mut mirror: Option<RolloutLiveMirrorController> = None;
        std::mem::swap(&mut mirror, &mut self.rollout_live_mirror);
        self.rollout_live_mirror = match mirror {
            Some(mut mirror) => {
                mirror.stop_all();
                Some(mirror)
            },
            None => None,
        };
    }
}

// The line that tells which program runs, and for whom.

/// A short name of a public key.
pub open spec fn key_fingerprint(key: Seq<char>) -> Seq<char> {
    if is_blank(key) {
        "none"@
    } else {
        hex(
            sha256_digest(
                match base64_bytes(trimmed(key)) {
                    Some(bytes) => bytes,
                    None => encode_utf8(trimmed(key)),
                },
            ).take(6),
        )
    }
}

pub fn short_public_key_fingerprint(public_key_base64: &str) -> (r: String)
    ensures
        r@ == key_fingerprint(public_key_base64@),
{
    if blank(public_key_base64) {
        return "none".to_owned();
    }
    let key = trim(public_key_base64);
    let digest = match base64_decode(key.as_str()) {
        Some(bytes) => sha256(bytes.as_slice()),
        None => sha256(key.as_str().as_bytes()),
    };
    let short = vstd::slice::slice_to_vec(vstd::slice::slice_subrange(digest.as_slice(), 0, 6));
    assert(short@ =~= digest@.take(6));
    hex_text(&short)
}

pub open spec fn runtime_context(
    kind: Seq<char>,
    source: Seq<char>,
    executable: Seq<char>,
    device: DeviceView,
) -> Seq<char> {
    let phone = match least_key(device.trusted_phones) {
        Some(id) => device.trusted_phones[id],
        None => Seq::empty(),
    };
    "[remodex] runtime="@ + kind + " source="@ + source + " executable="@ + executable
        + " macKey="@ + key_fingerprint(device.mac_identity_public_key) + " trustedPhoneKey="@
        + key_fingerprint(phone)
}

/// The line that tells which program runs, and for whom.
pub fn log_runtime_context(runtime: &BridgeRuntimeMetadata, device_state: &BridgeDeviceState) -> (r:
    String)
    ensures
        r@ == runtime_context(
            runtime.runtime_kind@,
            runtime.runtime_source@,
            runtime.runtime_executable@,
            device_state@,
        ),
{
    let phone = match device_state.trusted_phones.first() {
        Some((_, key)) => key.clone(),
        None => String::new(),
    };
    let line = concat2("[remodex] runtime=", runtime.runtime_kind.as_str());
    let line = concat2(line.as_str(), " source=");
    let line = concat2(line.as_str(), runtime.runtime_source.as_str());
    let line = concat2(line.as_str(), " executable=");
    let line = concat2(line.as_str(), runtime.runtime_executable.as_str());
    let line = concat2(line.as_str(), " macKey=");
    let line = concat2(
        line.as_str(),
        short_public_key_fingerprint(device_state.mac_identity_public_key.as_str()).as_str(),
    );
    let line = concat2(line.as_str(), " trustedPhoneKey=");
    concat2(line.as_str(), short_public_key_fingerprint(phone.as_str()).as_str())
}

// The bridge as a whole: it connects, runs, waits and connects again.

/// The headers with which the bridge goes to the relay.
pub open spec fn connect_headers(
    notification_secret: Seq<char>,
    device: DeviceView,
    display_name: Seq<char>,
) -> Seq<(Seq<char>, Seq<char>)> {
    seq![("x-role"@, "mac"@), ("x-notification-secret"@, notification_secret)]
        + registration_headers(device, display_name)
}

/// The headers with which the bridge goes to the relay.
pub fn connect_relay(
    notification_secret: &str,
    device_state: &BridgeDeviceState,
    display_name: &str,
) -> (r: Vec<(String, String)>)
    ensures
        pairs_view(r@) == connect_headers(notification_secret@, device_state@, display_name@),
{
    let mut headers: Vec<(String, String)> = Vec::new();
    headers.push(("x-role".to_owned(), "mac".to_owned()));
    headers.push(("x-notification-secret".to_owned(), notification_secret.to_owned()));
    let mut registration = build_mac_registration_headers(device_state, display_name);
    let ghost first = pairs_view(headers@);
    let ghost rest = pairs_view(registration@);
    assert(first =~= seq![("x-role"@, "mac"@), ("x-notification-secret"@, notification_secret@)]);
    headers.append(&mut registration);
    assert(pairs_view(headers@) =~= first + rest);
    headers
}

/// What happened to the bridge as a whole.
pub enum RunEvent {
    Start,
    Connected,
    ConnectFailed(String),
    /// The connection is over; it is told whether another one is wanted.
    Ended(bool),
    /// The connection is over because of an error that ends the bridge.
    Failed(String),
    /// The wait before another try is over.
    Slept,
    Shutdown,
}

/// What a `RunEvent` stands for.
pub enum RunEventView {
    Start,
    Connected,
    ConnectFailed(Seq<char>),
    Ended(bool),
    Failed(Seq<char>),
    Slept,
    Shutdown,
}

impl RunEvent {
    pub open spec fn view(&self) -> RunEventView {
        match self {
            RunEvent::Start => RunEventView::Start,
            RunEvent::Connected => RunEventView::Connected,
            RunEvent::ConnectFailed(error) => RunEventView::ConnectFailed(error@),
            RunEvent::Ended(again) => RunEventView::Ended(*again),
            RunEvent::Failed(error) => RunEventView::Failed(error@),
            RunEvent::Slept => RunEventView::Slept,
            RunEvent::Shutdown => RunEventView::Shutdown,
        }
    }
}

/// What the bridge does next.
#[derive(Debug)]
pub enum RunNext {
    Connect,
    /// Run on the connection that is there.
    Run,
    /// Wait for so many milliseconds.
    Sleep(u64),
    /// Stop Codex, forget the status and end.
    Stop,
    /// End with an error.
    Fail(String),
}

/// What a `RunNext` stands for.
pub enum RunNextView {
    Connect,
    Run,
    Sleep(u64),
    Stop,
    Fail(Seq<char>),
}

impl RunNext {
    pub open spec fn view(&self) -> RunNextView {
        match self {
            RunNext::Connect => RunNextView::Connect,
            RunNext::Run => RunNextView::Run,
            RunNext::Sleep(ms) => RunNextView::Sleep(*ms),
            RunNext::Stop => RunNextView::Stop,
            RunNext::Fail(error) => RunNextView::Fail(error@),
        }
    }
}

/// A step of the bridge: a status that is written, then what is told of the connection, then what
/// is done.
#[derive(Debug)]
pub struct RunStep {
    pub status: Option<BridgeStatusSnapshot>,
    pub news: Announcement,
    pub next: RunNext,
}

/// What a `RunStep` stands for.
pub struct RunStepView {
    pub status: Option<SnapshotView>,
    pub news: AnnouncementView,
    pub next: RunNextView,
}

impl RunStep {
    pub open spec fn view(&self) -> RunStepView {
        RunStepView {
            status: snapshot_view(self.status),
            news: self.news.view(),
            next: self.next.view(),
        }
    }
}

pub open spec fn no_news() -> AnnouncementView {
    AnnouncementView { status: None, line: None }
}

/// How long the bridge waits before a try: a second more each time, and never more than five.
pub open spec fn reconnect_delay(attempt: int) -> int {
    if attempt >= 5 {
        5_000
    } else {
        attempt * 1_000
    }
}

pub open spec fn next_attempt(attempt: u64) -> u64 {
    if attempt < u64::MAX {
        (attempt + 1) as u64
    } else {
        attempt
    }
}

impl RuntimeView {
    /// The bridge after an event.
    pub open spec fn ran(self, event: RunEventView) -> RuntimeView {
        match event {
            RunEventView::Start => self.publishing(
                snapshot("starting"@, "starting"@, Seq::empty()),
            ).connection_logged("connecting"@),
            RunEventView::Slept => self.connection_logged("connecting"@),
            RunEventView::Connected => RuntimeView { attempt: 0, ..self },
            RunEventView::ConnectFailed(error) => RuntimeView {
                attempt: next_attempt(self.attempt),
                ..self.publishing(snapshot("error"@, "error"@, error))
            },
            RunEventView::Ended(true) => RuntimeView {
                attempt: next_attempt(self.attempt),
                ..self
            },
            RunEventView::Failed(_) => self,
            RunEventView::Ended(false) | RunEventView::Shutdown => self.publishing(
                snapshot("stopped"@, "disconnected"@, Seq::empty()),
            ),
        }
    }

    /// What the bridge does about an event.
    pub open spec fn run_step(self, event: RunEventView) -> RunStepView {
        match event {
            RunEventView::Start => RunStepView {
                status: Some(snapshot("starting"@, "starting"@, Seq::empty())),
                news: self.connection_news("connecting"@),
                next: RunNextView::Connect,
            },
            RunEventView::Slept => RunStepView {
                status: None,
                news: self.connection_news("connecting"@),
                next: RunNextView::Connect,
            },
            RunEventView::Connected => RunStepView {
                status: None,
                news: no_news(),
                next: RunNextView::Run,
            },
            RunEventView::ConnectFailed(error) => RunStepView {
                status: Some(snapshot("error"@, "error"@, error)),
                news: no_news(),
                next: RunNextView::Sleep(
                    reconnect_delay(next_attempt(self.attempt) as int) as u64,
                ),
            },
            RunEventView::Ended(true) => RunStepView {
                status: None,
                news: no_news(),
                next: RunNextView::Sleep(
                    reconnect_delay(next_attempt(self.attempt) as int) as u64,
                ),
            },
            RunEventView::Failed(error) => RunStepView {
                status: None,
                news: no_news(),
                next: RunNextView::Fail(error),
            },
            RunEventView::Ended(false) | RunEventView::Shutdown => RunStepView {
                status: Some(snapshot("stopped"@, "disconnected"@, Seq::empty())),
                news: no_news(),
                next: RunNextView::Stop,
            },
        }
    }
}

impl BridgeRuntime {
    fn wait_for_relay(&mut self) -> (r: u64)
        requires
            old(self).wf(),
        ensures
            final(self).wf(),
            final(self)@ == (RuntimeView {
                attempt: next_attempt(old(self)@.attempt),
                ..old(self)@
            }),
            r == reconnect_delay(next_attempt(old(self)@.attempt) as int),
    {
        if self.reconnect_attempt < u64::MAX {
            self.reconnect_attempt = self.reconnect_attempt + 1;
        }
        if self.reconnect_attempt >= 5 {
            5_000
        } else {
            self.reconnect_attempt * 1_000
        }
    }

    /// Takes up an event of the bridge as a whole.
    pub fn run(&mut self, event: RunEvent) -> (r: RunStep)
        requires
            old(self).wf(),
        ensures
            final(self).wf(),
            r.view() == old(self)@.run_step(event.view()),
            final(self)@ == old(self)@.ran(event.view()),
    {
        proof {
            reveal_strlit("");
            assert(""@ =~= Seq::<char>::empty());
        }
        let quiet = Announcement { status: None, line: None };
        match event {
            RunEvent::Start => {
                let status = self.publish_status("starting", "starting", "");
                let news = self.log_connection_status("connecting");
                RunStep { status: Some(status), news, next: RunNext::Connect }
            },
            RunEvent::Slept => {
                let news = self.log_connection_status("connecting");
                RunStep { status: None, news, next: RunNext::Connect }
            },
            RunEvent::Connected => {
                self.reconnect_attempt = 0;
                RunStep { status: None, news: quiet, next: RunNext::Run }
            },
            RunEvent::ConnectFailed(error) => {
                let status = self.publish_status("error", "error", error.as_str());
                let delay: u64 = self.wait_for_relay();
                RunStep { status: Some(status), news: quiet, next: RunNext::Sleep(delay) }
            },
            RunEvent::Ended(true) => {
                let delay: u64 = self.wait_for_relay();
                RunStep { status: None, news: quiet, next: RunNext::Sleep(delay) }
            },
            RunEvent::Failed(error) => {
                RunStep { status: None, news: quiet, next: RunNext::Fail(error) }
            },
            RunEvent::Ended(false) | RunEvent::Shutdown => {
                let status = self.publish_status("stopped", "disconnected", "");
                RunStep { status: Some(status), news: quiet, next: RunNext::Stop }
            },
        }
    }
}

// The bridge on a connection.

/// What happened on a connection.
pub enum RelayEvent {
    Shutdown,
    /// Codex tells something, or is gone.
    Codex(Option<CodexEvent>),
    /// A part of the bridge tells the phone something.
    Response(String),
    /// The phone tells something.
    Application(String),
    Text(String),
    Binary(Vec<u8>),
    /// The relay gave a sign of life.
    Alive,
    /// The connection is gone.
    Gone,
    OtherFrame,
    /// It is time to see whether the relay is there.
    PingTick,
    /// The probe could not be sent.
    PingFailed,
    /// It is time to write the status again.
    HeartbeatTick,
    /// It is time to look at the records of the runs.
    RolloutTick,
}

/// What a `RelayEvent` stands for.
pub enum RelayEventView {
    Shutdown,
    Codex(Option<EventView>),
    Response(Seq<char>),
    Application(Seq<char>),
    Text(Seq<char>),
    Binary(Seq<u8>),
    Alive,
    Gone,
    OtherFrame,
    PingTick,
    PingFailed,
    HeartbeatTick,
    RolloutTick,
}

impl RelayEvent {
    pub open spec fn view(&self) -> RelayEventView {
        match self {
            RelayEvent::Shutdown => RelayEventView::Shutdown,
            RelayEvent::Codex(event) => RelayEventView::Codex(
                crate::codex_transport::event_view(*event),
            ),
            RelayEvent::Response(text) => RelayEventView::Response(text@),
            RelayEvent::Application(text) => RelayEventView::Application(text@),
            RelayEvent::Text(text) => RelayEventView::Text(text@),
            RelayEvent::Binary(bytes) => RelayEventView::Binary(bytes@),
            RelayEvent::Alive => RelayEventView::Alive,
            RelayEvent::Gone => RelayEventView::Gone,
            RelayEvent::OtherFrame => RelayEventView::OtherFrame,
            RelayEvent::PingTick => RelayEventView::PingTick,
            RelayEvent::PingFailed => RelayEventView::PingFailed,
            RelayEvent::HeartbeatTick => RelayEventView::HeartbeatTick,
            RelayEvent::RolloutTick => RelayEventView::RolloutTick,
        }
    }
}

/// What is to be done about an event on a connection.
#[derive(Debug)]
pub enum RelayStep {
    Continue,
    /// Close the connection; no other one is wanted.
    Close,
    /// The bridge ends with an error.
    Fail(String),
    /// Codex answered a request of the bridge itself.
    Answered { request_id: String, result: Result<Json, String> },
    /// Remember the thread as the active one, told of by Codex.
    Told { active_thread: Option<String> },
    /// A part of the bridge answers.
    Spawn { request_id: Option<Json>, method: String, params: Json, task: BridgeTask },
    /// The message goes to Codex.
    Forward { raw_message: String, thread_id: Option<String> },
    /// The text is one of the secure channel.
    HandleText(String),
    SendPing,
    /// The connection is over; another one is wanted.
    Reconnect(Announcement),
    WriteStatus(Option<BridgeStatusSnapshot>),
    /// Look at the records of the runs.
    ReadRollouts,
}

/// What a `RelayStep` stands for.
pub enum RelayStepView {
    Continue,
    Close,
    Fail(Seq<char>),
    Answered { request_id: Seq<char>, result: Result<JsonView, Seq<char>> },
    Told { active_thread: Option<Seq<char>> },
    Spawn { request_id: Option<JsonView>, method: Seq<char>, params: JsonView, task: BridgeTask },
    Forward { raw_message: Seq<char>, thread_id: Option<Seq<char>> },
    HandleText(Seq<char>),
    SendPing,
    Reconnect(AnnouncementView),
    WriteStatus(Option<SnapshotView>),
    ReadRollouts,
}

impl RelayStep {
    pub open spec fn view(&self) -> RelayStepView {
        match self {
            RelayStep::Continue => RelayStepView::Continue,
            RelayStep::Close => RelayStepView::Close,
            RelayStep::Fail(error) => RelayStepView::Fail(error@),
            RelayStep::Answered { request_id, result } => RelayStepView::Answered {
                request_id: request_id@,
                result: match result {
                    Ok(result) => Ok(result@),
                    Err(error) => Err(error@),
                },
            },
            RelayStep::Told { active_thread } => RelayStepView::Told {
                active_thread: active_thread.deep_view(),
            },
            RelayStep::Spawn { request_id, method, params, task } => RelayStepView::Spawn {
                request_id: request_id.deep_view(),
                method: method@,
                params: params@,
                task: *task,
            },
            RelayStep::Forward { raw_message, thread_id } => RelayStepView::Forward {
                raw_message: raw_message@,
                thread_id: thread_id.deep_view(),
            },
            RelayStep::HandleText(text) => RelayStepView::HandleText(text@),
            RelayStep::SendPing => RelayStepView::SendPing,
            RelayStep::Reconnect(news) => RelayStepView::Reconnect(news.view()),
            RelayStep::WriteStatus(status) => RelayStepView::WriteStatus(snapshot_view(*status)),
            RelayStep::ReadRollouts => RelayStepView::ReadRollouts,
        }
    }
}

impl RuntimeView {
    /// A message for the phone is taken up.
    pub open spec fn queueing(self, text: Seq<char>) -> RuntimeView {
        RuntimeView { transport: self.transport.queueing(text), ..self }
    }

    /// The bridge after an event on its connection.
    pub open spec fn connected(self, event: RelayEventView, now_ms: u64) -> RuntimeView {
        match event {
            RelayEventView::Codex(Some(EventView::Message(raw))) => {
                let message = json_parse(raw);
                let after = RuntimeView { core: self.core.codex_message(message, now_ms), ..self };
                match self.core.codex_route(message, raw, now_ms) {
                    CodexRouteView::Answer { .. } => after,
                    CodexRouteView::Pass { text, .. } => after.queueing(text),
                }
            },
            RelayEventView::Response(text) => self.queueing(text),
            RelayEventView::Application(raw) => match json_parse(raw) {
                Some(message) => {
                    let after = RuntimeView { core: self.core.routed(message), ..self };
                    match self.core.route(message) {
                        RouteView::Answer(text) => after.queueing(text),
                        _ => after,
                    }
                },
                None => self,
            },
            RelayEventView::Alive => RuntimeView { probe: None, ..self },
            RelayEventView::Gone | RelayEventView::PingFailed => self.reset().connection_logged(
                "disconnected"@,
            ),
            RelayEventView::PingTick => if watchdog_action(
                self.probe,
                now_ms,
                RELAY_WATCHDOG_STALE_AFTER_MS,
            ) == RelayWatchdogAction::Reconnect {
                self.reset().publishing(
                    snapshot("running"@, "disconnected"@, stale_relay_message()),
                )
            } else {
                RuntimeView { probe: watchdog_probe(self.probe, now_ms), ..self }
            },
            _ => self,
        }
    }

    /// What is to be done about an event on the connection.
    pub open spec fn relay_step(self, event: RelayEventView, now_ms: u64) -> RelayStepView {
        match event {
            RelayEventView::Shutdown => RelayStepView::Close,
            RelayEventView::Codex(Some(EventView::Message(raw))) => match self.core.codex_route(
                json_parse(raw),
                raw,
                now_ms,
            ) {
                CodexRouteView::Answer { request_id, result } => RelayStepView::Answered {
                    request_id,
                    result,
                },
                CodexRouteView::Pass { active_thread, .. } => RelayStepView::Told { active_thread },
            },
            RelayEventView::Codex(Some(EventView::Error(error))) => RelayStepView::Fail(error),
            RelayEventView::Codex(_) => RelayStepView::Fail("Codex transport closed"@),
            RelayEventView::Application(raw) => match json_parse(raw) {
                Some(message) => match self.core.route(message) {
                    RouteView::Spawn { request_id, method, params, task } => RelayStepView::Spawn {
                        request_id,
                        method,
                        params,
                        task,
                    },
                    RouteView::Forward { thread_id } => RelayStepView::Forward {
                        raw_message: raw,
                        thread_id,
                    },
                    _ => RelayStepView::Continue,
                },
                None => RelayStepView::Continue,
            },
            RelayEventView::Text(text) => RelayStepView::HandleText(text),
            RelayEventView::Binary(bytes) => if valid_utf8(bytes) {
                RelayStepView::HandleText(decode_utf8(bytes))
            } else {
                RelayStepView::Continue
            },
            RelayEventView::Gone | RelayEventView::PingFailed => RelayStepView::Reconnect(
                self.connection_news("disconnected"@),
            ),
            RelayEventView::PingTick => match watchdog_action(
                self.probe,
                now_ms,
                RELAY_WATCHDOG_STALE_AFTER_MS,
            ) {
                RelayWatchdogAction::Reconnect => RelayStepView::Reconnect(
                    AnnouncementView {
                        status: Some(
                            snapshot("running"@, "disconnected"@, stale_relay_message()),
                        ),
                        line: None,
                    },
                ),
                RelayWatchdogAction::SendPing => RelayStepView::SendPing,
                RelayWatchdogAction::Wait => RelayStepView::Continue,
            },
            RelayEventView::HeartbeatTick => RelayStepView::WriteStatus(self.heartbeat(now_ms)),
            RelayEventView::RolloutTick => RelayStepView::ReadRollouts,
            RelayEventView::Response(_) | RelayEventView::Alive | RelayEventView::OtherFrame => {
                RelayStepView::Continue
            },
        }
    }
}

/// What is done when a connection is there.
#[derive(Debug)]
pub struct ConnectedStart {
    /// The message with which the bridge introduces itself.
    pub registration: String,
    pub news: Announcement,
    /// The line that tells which program runs.
    pub line: String,
}

/// What follows from a text of the secure channel.
#[derive(Debug)]
pub struct RelayTextStep {
    /// What the phone says.
    pub application_message: Option<String>,
    /// The message with which the bridge introduces itself anew, and the line that tells it.
    pub introduction: Option<(String, String)>,
}

/// The message with which the bridge introduces itself.
pub open spec fn introduction(device: DeviceView, display_name: Seq<char>) -> Seq<char> {
    json_print(
        JsonView::Object(
            map![
                "kind"@ => JsonView::Text("relayMacRegistration"@),
                "registration"@ => registration_view(device, display_name),
            ],
        ),
    )
}

impl BridgeRuntime {
    /// A connection is there.
    pub fn start_connected(&mut self, display_name: &str, runtime: &BridgeRuntimeMetadata) -> (r:
        ConnectedStart)
        requires
            old(self).wf(),
            old(self)@.transport.headroom(),
        ensures
            final(self).wf(),
            final(self)@ == (RuntimeView {
                probe: None,
                transport: old(self)@.transport.bound(),
                ..old(self)@
            }).connection_logged("connected"@),
            r.registration@ == introduction(final(self)@.transport.device, display_name@),
            r.news.view() == old(self)@.connection_news("connected"@),
            r.line@ == runtime_context(
                runtime.runtime_kind@,
                runtime.runtime_source@,
                runtime.runtime_executable@,
                final(self)@.transport.device,
            ),
    {
        self.relay_liveness.mark_activity_at(0);
        self.secure_transport.bind_live_send_wire_message();
        let registration = send_relay_registration_update(
            self.secure_transport.current_device_state(),
            display_name,
        );
        let news = self.log_connection_status("connected");
        let line = log_runtime_context(runtime, self.secure_transport.current_device_state());
        ConnectedStart { registration, news, line }
    }

    fn queue(&mut self, text: String)
        requires
            old(self).wf(),
            old(self)@.transport.headroom(),
        ensures
            final(self).wf(),
            final(self)@ == old(self)@.queueing(text@),
    {
        self.secure_transport.queue_outbound_application_message(text);
    }

    fn lose_connection(&mut self) -> (r: RelayStep)
        requires
            old(self).wf(),
        ensures
            final(self).wf(),
            final(self)@ == old(self)@.reset().connection_logged("disconnected"@),
            r.view() == RelayStepView::Reconnect(old(self)@.connection_news("disconnected"@)),
    {
        self.handle_transport_reset();
        RelayStep::Reconnect(self.log_connection_status("disconnected"))
    }

    /// Takes up an event on the connection.
    pub fn run_connected(&mut self, event: RelayEvent, now_ms: u64) -> (r: RelayStep)
        requires
            old(self).wf(),
            old(self)@.transport.headroom(),
        ensures
            final(self).wf(),
            r.view() == old(self)@.relay_step(event.view(), now_ms),
            final(self)@ == old(self)@.connected(event.view(), now_ms),
    {
        match event {
            RelayEvent::Shutdown => RelayStep::Close,
            RelayEvent::Codex(Some(CodexEvent::Message(raw))) => {
                match self.core.handle_codex_message(raw, now_ms) {
                    CodexRoute::Answer { request_id, result } => {
                        RelayStep::Answered { request_id, result }
                    },
                    CodexRoute::Pass(passed) => {
                        self.queue(passed.text);
                        RelayStep::Told { active_thread: passed.active_thread }
                    },
                }
            },
            RelayEvent::Codex(Some(CodexEvent::Error(error))) => RelayStep::Fail(error),
            RelayEvent::Codex(Some(CodexEvent::Closed)) => {
                RelayStep::Fail("Codex transport closed".to_owned())
            },
            RelayEvent::Codex(None) => RelayStep::Fail("Codex transport closed".to_owned()),
            RelayEvent::Response(text) => {
                self.queue(text);
                RelayStep::Continue
            },
            RelayEvent::Application(raw) => {
                match self.core.handle_application_message(raw.as_str()) {
                    ApplicationRoute::Ignore => RelayStep::Continue,
                    ApplicationRoute::Answer(text) => {
                        self.queue(text);
                        RelayStep::Continue
                    },
                    ApplicationRoute::Spawn { request_id, method, params, task } => {
                        RelayStep::Spawn { request_id, method, params, task }
                    },
                    ApplicationRoute::Forward { thread_id } => {
                        RelayStep::Forward { raw_message: raw, thread_id }
                    },
                }
            },
            RelayEvent::Text(text) => RelayStep::HandleText(text),
            RelayEvent::Binary(bytes) => match utf8_text(bytes) {
                Some(text) => RelayStep::HandleText(text),
                None => RelayStep::Continue,
            },
            RelayEvent::Alive => {
                self.relay_liveness.mark_activity_at(now_ms);
                RelayStep::Continue
            },
            RelayEvent::Gone => self.lose_connection(),
            RelayEvent::PingFailed => self.lose_connection(),
            RelayEvent::OtherFrame => RelayStep::Continue,
            RelayEvent::PingTick => {
                match self.relay_liveness.next_watchdog_action_at(
                    now_ms,
                    RELAY_WATCHDOG_STALE_AFTER_MS,
                ) {
                    RelayWatchdogAction::Reconnect => {
                        self.handle_transport_reset();
                        let status = self.publish_status(
                            "running",
                            "disconnected",
                            "Relay heartbeat stalled; reconnect pending.",
                        );
                        RelayStep::Reconnect(Announcement { status: Some(status), line: None })
                    },
                    RelayWatchdogAction::SendPing => RelayStep::SendPing,
                    RelayWatchdogAction::Wait => RelayStep::Continue,
                }
            },
            RelayEvent::HeartbeatTick => RelayStep::WriteStatus(
                self.write_heartbeat_status(now_ms),
            ),
            RelayEvent::RolloutTick => RelayStep::ReadRollouts,
        }
    }

    /// What goes to Codex of a message of the phone, given the header of the record of its
    /// thread.
    pub fn forward_application_message(
        &mut self,
        raw_message: String,
        header: Option<&Json>,
        now_ms: u64,
    ) -> (r: Option<Passed>)
        requires
            old(self).wf(),
        ensures
            final(self).wf(),
            match json_parse(raw_message@) {
                Some(message) => {
                    let text = old(self)@.core.prepared_text(
                        message,
                        raw_message@,
                        header.deep_view(),
                        now_ms,
                    );
                    &&& r is Some
                    &&& r->0.text@ == text
                    &&& r->0.active_thread.deep_view() == named_in(json_parse(text))
                    &&& final(self)@ == (RuntimeView {
                        core: old(self)@.core.preparing(
                            message,
                            header.deep_view(),
                            now_ms,
                        ).forwarded(json_parse(text), now_ms),
                        mirrors: match old(self)@.mirrors {
                            Some(mirrors) => Some(
                                observing(
                                    mirrors,
                                    match json_parse(text) {
                                        Some(request) => watched_thread(request),
                                        None => None,
                                    },
                                    now_ms,
                                ),
                            ),
                            None => None,
                        },
                        ..old(self)@
                    })
                },
                None => r is None && final(self)@ == old(self)@,
            },
    {
        match self.core.forward_application_message(raw_message, header, now_ms) {
            Some(passed) => {
                let mut mirror: Option<RolloutLiveMirrorController> = None;
                std::mem::swap(&mut mirror, &mut self.rollout_live_mirror);
                self.rollout_live_mirror = match mirror {
                    Some(mut mirror) => {
                        mirror.observe_inbound(passed.text.as_str(), now_ms);
                        Some(mirror)
                    },
                    None => None,
                };
                Some(passed)
            },
            None => None,
        }
    }

    /// What follows from what came of a text of the secure channel.
    pub fn after_relay_text(
        &self,
        result: IncomingWireResult,
        display_name: &str,
        runtime: &BridgeRuntimeMetadata,
    ) -> (r: RelayTextStep)
        ensures
            r.application_message == result.application_message,
            match r.introduction {
                Some((registration, line)) => result.trusted_phone_updated && registration@
                    == introduction(self@.transport.device, display_name@) && line@
                    == runtime_context(
                    runtime.runtime_kind@,
                    runtime.runtime_source@,
                    runtime.runtime_executable@,
                    self@.transport.device,
                ),
                None => !result.trusted_phone_updated,
            },
    {
        let introduction = if result.trusted_phone_updated {
            let device_state = self.secure_transport.current_device_state();
            Some(
                (
                    send_relay_registration_update(device_state, display_name),
                    log_runtime_context(runtime, device_state),
                ),
            )
        } else {
            None
        };
        RelayTextStep { application_message: result.application_message, introduction }
    }

    /// Takes up a text of the secure channel. `stored` tells whether the state that
    /// `state_to_store` gives for it could be stored.
    pub fn handle_relay_text(&mut self, text: &str, stored: bool) -> (r: IncomingWireResult)
        requires
            old(self).wf(),
            old(self)@.transport.headroom(),
            old(self)@.transport.expiry_fits(),
        ensures
            final(self).wf(),
            final(self)@ == (RuntimeView {
                probe: None,
                transport: final(self)@.transport,
                ..old(self)@
            }),
            exists|now_ms: u128, mac_ephemeral_secret: Seq<u8>, server_nonce: Seq<u8>|
                now_ms <= LAST_TIME_MS && mac_ephemeral_secret.len() == 32 && server_nonce.len() == 32
                    && (crate::secure_transport::StepView {
                    after: final(self)@.transport,
                    trusted_phone_updated: r.trusted_phone_updated,
                    application_message: r.application_message.deep_view(),
                }) == #[trigger] old(self)@.transport.step(
                    json_parse(text@),
                    now_ms,
                    mac_ephemeral_secret,
                    server_nonce,
                    stored,
                ),
    {
        self.relay_liveness.mark_activity_at(0);
        self.secure_transport.handle_incoming_wire_message(text, stored)
    }

    /// Every mirror takes up what was found of its record; what the phone is told comes out.
    pub fn poll_rollouts(&mut self, looks: Vec<RolloutLook>, now_ms: u64) -> (r: Vec<String>)
        requires
            old(self).wf(),
            old(self)@.mirrors matches Some(mirrors) ==> looks@.len() == mirrors.len(),
        ensures
            final(self).wf(),
            match old(self)@.mirrors {
                Some(mirrors) => {
                    let polled = all_polled(mirrors, looks_view(looks@), now_ms);
                    &&& r.deep_view() == polled.texts
                    &&& final(self)@ == (RuntimeView {
                        mirrors: Some(polled.mirrors),
                        ..old(self)@
                    })
                },
                None => r.deep_view() == Seq::<Seq<char>>::empty() && final(self)@ == old(self)@,
            },
    {
        let mut mirror: Option<RolloutLiveMirrorController> = None;
        std::mem::swap(&mut mirror, &mut self.rollout_live_mirror);
        match mirror {
            Some(mut mirror) => {
                let told = mirror.poll_notifications(looks, now_ms);
                self.rollout_live_mirror = Some(mirror);
                told
            },
            None => {
                let none: Vec<String> = Vec::new();
                assert(none.deep_view() =~= Seq::empty());
                none
            },
        }
    }
}

// What holds of every bridge.

/// What is told of a connection is told once.
pub proof fn law_connection_is_told_once(runtime: RuntimeView, status: Seq<char>)
    ensures
        runtime.connection_logged(status).connection_news(status) == no_news(),
        runtime.connection_logged(status).connection_logged(status) == runtime.connection_logged(
            status,
        ),
{
}

/// The wait before a try is between one and five seconds, and does not grow shorter from one try
/// to the next.
pub proof fn law_wait_is_bounded(runtime: RuntimeView, error: Seq<char>)
    requires
        runtime.attempt < u64::MAX,
    ensures
        1_000 <= reconnect_delay(runtime.ran(RunEventView::ConnectFailed(error)).attempt as int)
            <= 5_000,
        reconnect_delay(runtime.attempt as int) <= reconnect_delay(
            runtime.ran(RunEventView::ConnectFailed(error)).attempt as int,
        ),
{
}

/// After a connection was there, the first wait is one second.
pub proof fn law_connecting_shortens_the_wait(runtime: RuntimeView)
    ensures
        runtime.ran(RunEventView::Connected).run_step(RunEventView::Ended(true)).next
            == RunNextView::Sleep(1_000),
{
}

/// When the bridge stops, the last status it published says so.
pub proof fn law_stopping_is_published(runtime: RuntimeView, event: RunEventView)
    requires
        runtime.run_step(event).next == RunNextView::Stop,
    ensures
        runtime.ran(event).published == Some(
            snapshot("stopped"@, "disconnected"@, Seq::empty()),
        ),
{
}

/// A relay that was probed and gave no sign of life is left once the deadline is over, and no
/// earlier.
pub proof fn law_silent_relay_is_left(runtime: RuntimeView, sent_ms: u64, now_ms: u64)
    requires
        runtime.probe is None,
        sent_ms <= now_ms,
    ensures
        runtime.relay_step(RelayEventView::PingTick, sent_ms) == RelayStepView::SendPing,
        runtime.connected(RelayEventView::PingTick, sent_ms).relay_step(
            RelayEventView::PingTick,
            now_ms,
        ) is Reconnect <==> now_ms - sent_ms >= RELAY_WATCHDOG_STALE_AFTER_MS,
{
}

/// A sign of life takes back a probe that is out.
pub proof fn law_sign_of_life_clears_the_probe(runtime: RuntimeView, alive_ms: u64, now_ms: u64)
    ensures
        runtime.connected(RelayEventView::Alive, alive_ms).relay_step(
            RelayEventView::PingTick,
            now_ms,
        ) == RelayStepView::SendPing,
{
}

/// A connection that is gone leaves no watch, no probe and no mirrored run behind.
pub proof fn law_reset_leaves_nothing(runtime: RuntimeView, now_ms: u64)
    ensures
        ({
            let after = runtime.connected(RelayEventView::Gone, now_ms);
            &&& after.core.watch is None
            &&& after.probe is None
            &&& after.mirrors matches Some(mirrors) ==> mirrors.len() == 0
            &&& after.transport == runtime.transport
        }),
{
}

} // verus!
