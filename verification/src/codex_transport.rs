//! The connection to Codex: a process of its own, or a WebSocket.
//!
//! The caller owns the process and the socket. It tells what happened, and is told what to do:
//! which event goes on, what is written, and when the connection is over.
use vstd::prelude::*;

use vstd::utf8::{decode_utf8, encode_utf8, valid_utf8};

use crate::text::{
    blank, chars_of, concat2, is_blank, text_from, trim, trim_non_blank, trimmed, utf8_text,
};

verus! {

/// What comes from Codex.
#[derive(Debug, PartialEq, Eq)]
pub enum CodexEvent {
    Message(String),
    Closed,
    Error(String),
}

/// What a `CodexEvent` stands for.
pub enum EventView {
    Message(Seq<char>),
    Closed,
    Error(Seq<char>),
}

impl CodexEvent {
    pub open spec fn view(&self) -> EventView {
        match self {
            CodexEvent::Message(text) => EventView::Message(text@),
            CodexEvent::Closed => EventView::Closed,
            CodexEvent::Error(error) => EventView::Error(error@),
        }
    }
}

pub open spec fn event_view(event: Option<CodexEvent>) -> Option<EventView> {
    match event {
        Some(event) => Some(event.view()),
        None => None,
    }
}

/// Where Codex is.
#[derive(Debug, PartialEq, Eq)]
pub enum CodexEndpoint {
    Spawn,
    WebSocket(String),
}

/// Where Codex is: at the endpoint, or in a process of its own where none is set.
pub fn connect(endpoint: &str) -> (r: CodexEndpoint)
    ensures
        match r {
            CodexEndpoint::Spawn => is_blank(endpoint@),
            CodexEndpoint::WebSocket(url) => !is_blank(endpoint@) && url@ == trimmed(endpoint@),
        },
{
    match trim_non_blank(endpoint) {
        Some(url) => CodexEndpoint::WebSocket(url),
        None => CodexEndpoint::Spawn,
    }
}

// The tail of the error output.

/// How many bytes of its error output are kept.
pub const STDERR_TAIL_BYTES: usize = 4_096;

/// The text without its first characters, so that exactly `limit` bytes are left, where the cut
/// does not fall inside a character.
pub open spec fn cut_to(s: Seq<char>, limit: nat) -> Option<Seq<char>>
    decreases s.len(),
{
    if encode_utf8(s).len() == limit {
        Some(s)
    } else if encode_utf8(s).len() < limit || s.len() == 0 {
        None
    } else {
        cut_to(s.drop_first(), limit)
    }
}

/// The end of a text, as far as it is kept.
pub open spec fn stderr_tail(s: Seq<char>) -> Option<Seq<char>> {
    if encode_utf8(s).len() <= STDERR_TAIL_BYTES {
        Some(s)
    } else {
        cut_to(s, STDERR_TAIL_BYTES as nat)
    }
}

/// How many bytes a character takes.
fn char_width(c: char) -> (r: usize)
    ensures
        r == vstd::utf8::encode_scalar(c as u32).len(),
{
    let n: u32 = c as u32;
    if n <= 0x7F {
        1
    } else if n <= 0x7FF {
        2
    } else if n <= 0xFFFF {
        3
    } else {
        4
    }
}

/// What is kept of the error output behind a line more, where the cut does not fall inside a
/// character.
pub fn push_stderr(buffer: &str, line: &str) -> (r: Option<String>)
    ensures
        r.deep_view() == stderr_tail(buffer@ + trimmed(line@)),
{
    let whole = concat2(buffer, trim(line).as_str());
    let mut left: usize = whole.as_str().as_bytes().len();
    if left <= STDERR_TAIL_BYTES {
        return Some(whole);
    }
    let chars = chars_of(whole.as_str());
    let mut i: usize = 0;
    assert(whole@.skip(0) =~= whole@);
    while left > STDERR_TAIL_BYTES && i < chars.len()
        invariant
            i <= chars@.len(),
            chars@ == whole@,
            left == encode_utf8(whole@.skip(i as int)).len(),
            cut_to(whole@, STDERR_TAIL_BYTES as nat) == cut_to(
                whole@.skip(i as int),
                STDERR_TAIL_BYTES as nat,
            ),
        decreases chars@.len() - i,
    {
        assert(whole@.skip(i as int).drop_first() =~= whole@.skip(i + 1));
        assert(whole@.skip(i as int)[0] == chars@[i as int]);
        left = left - char_width(chars[i]);
        i = i + 1;
    }
    if left == STDERR_TAIL_BYTES {
        let r = text_from(&chars, i, chars.len());
        assert(r@ =~= whole@.skip(i as int));
        Some(r)
    } else {
        None
    }
}

// A process of its own.

/// What is known of the process.
pub struct SpawnState {
    stderr_buffer: String,
    did_request_shutdown: bool,
    ready: bool,
}

/// What a `SpawnState` stands for.
pub struct SpawnView {
    pub stderr: Seq<char>,
    pub stopping: bool,
    pub ready: bool,
}

impl SpawnView {
    /// What holds of every process: no more than the limit is kept of its error output.
    pub open spec fn valid(self) -> bool {
        encode_utf8(self.stderr).len() <= STDERR_TAIL_BYTES
    }

    /// The process wrote a line of error output: its end is kept, where the cut does not fall
    /// inside a character.
    pub open spec fn complaining(self, line: Seq<char>) -> Option<SpawnView> {
        match stderr_tail(self.stderr + trimmed(line)) {
            Some(tail) => Some(SpawnView { stderr: tail, ..self }),
            None => None,
        }
    }
}

/// What happened to the process.
pub enum SpawnEvent {
    /// A line of its output, its end, or an error.
    Stdout(Result<Option<String>, String>),
    /// Its error output ended, or an error.
    StderrEnd(Result<(), String>),
    /// A message for it, or that there will be none any more.
    Outbound(Option<String>),
    /// A message could not be written.
    WriteFailed,
    /// It is to be shut down.
    Shutdown,
    /// It was looked at: it ended, with success or not and how, or it runs, or an error.
    Exit(Result<Option<(bool, String)>, String>),
}

/// What a `SpawnEvent` stands for.
pub enum SpawnEventView {
    Stdout(Result<Option<Seq<char>>, Seq<char>>),
    StderrEnd(Result<(), Seq<char>>),
    Outbound(Option<Seq<char>>),
    WriteFailed,
    Shutdown,
    Exit(Result<Option<(bool, Seq<char>)>, Seq<char>>),
}

pub open spec fn line_view(line: Result<Option<String>, String>) -> Result<
    Option<Seq<char>>,
    Seq<char>,
> {
    match line {
        Ok(line) => Ok(line.deep_view()),
        Err(error) => Err(error@),
    }
}

impl SpawnEvent {
    pub open spec fn view(&self) -> SpawnEventView {
        match self {
            SpawnEvent::Stdout(line) => SpawnEventView::Stdout(line_view(*line)),
            SpawnEvent::StderrEnd(Ok(())) => SpawnEventView::StderrEnd(Ok(())),
            SpawnEvent::StderrEnd(Err(error)) => SpawnEventView::StderrEnd(Err(error@)),
            SpawnEvent::Outbound(message) => SpawnEventView::Outbound(message.deep_view()),
            SpawnEvent::WriteFailed => SpawnEventView::WriteFailed,
            SpawnEvent::Shutdown => SpawnEventView::Shutdown,
            SpawnEvent::Exit(Ok(Some((success, status)))) => SpawnEventView::Exit(
                Ok(Some((*success, status@))),
            ),
            SpawnEvent::Exit(Ok(None)) => SpawnEventView::Exit(Ok(None)),
            SpawnEvent::Exit(Err(error)) => SpawnEventView::Exit(Err(error@)),
        }
    }
}

/// What there is to do: the event that goes on, what is written to the process, and whether it is
/// killed and left.
#[derive(Debug)]
pub struct SpawnStep {
    pub event: Option<CodexEvent>,
    pub write: Option<String>,
    pub kill: bool,
    pub stop: bool,
}

/// What a `SpawnStep` stands for.
pub struct SpawnStepView {
    pub event: Option<EventView>,
    pub write: Option<Seq<char>>,
    pub kill: bool,
    pub stop: bool,
}

impl SpawnStep {
    pub open spec fn view(&self) -> SpawnStepView {
        SpawnStepView {
            event: event_view(self.event),
            write: self.write.deep_view(),
            kill: self.kill,
            stop: self.stop,
        }
    }
}

pub open spec fn nothing_to_do() -> SpawnStepView {
    SpawnStepView { event: None, write: None, kill: false, stop: false }
}

/// Why the process ended.
pub open spec fn exit_reason(stderr: Seq<char>, status: Seq<char>) -> Seq<char> {
    if is_blank(stderr) {
        "Codex launcher `codex app-server` failed with status "@ + status
    } else {
        "Codex launcher `codex app-server` failed: "@ + trimmed(stderr)
    }
}

/// What follows from what happened to the process.
pub open spec fn spawn_step(state: SpawnView, event: SpawnEventView) -> (SpawnView, SpawnStepView) {
    let over = SpawnView { ready: false, ..state };
    match event {
        SpawnEventView::Stdout(Ok(Some(line))) => (
            state,
            SpawnStepView {
                event: if is_blank(line) {
                    None
                } else {
                    Some(EventView::Message(trimmed(line)))
                },
                ..nothing_to_do()
            },
        ),
        SpawnEventView::Stdout(Ok(None)) => (state, nothing_to_do()),
        SpawnEventView::StderrEnd(Ok(_)) => (state, nothing_to_do()),
        SpawnEventView::Stdout(Err(error)) | SpawnEventView::StderrEnd(Err(error))
        | SpawnEventView::Exit(Err(error)) => (
            over,
            SpawnStepView { event: Some(EventView::Error(error)), stop: true, ..nothing_to_do() },
        ),
        SpawnEventView::Outbound(Some(message)) => (
            state,
            SpawnStepView { write: Some(message + "\n"@), ..nothing_to_do() },
        ),
        SpawnEventView::Outbound(None) => (over, SpawnStepView { stop: true, ..nothing_to_do() }),
        SpawnEventView::WriteFailed => (over, SpawnStepView { stop: true, ..nothing_to_do() }),
        SpawnEventView::Shutdown => (
            SpawnView { stopping: true, ready: false, ..state },
            SpawnStepView { kill: true, ..nothing_to_do() },
        ),
        SpawnEventView::Exit(Ok(Some((success, status)))) => (
            over,
            SpawnStepView {
                event: Some(
                    if !state.stopping && !success {
                        EventView::Error(exit_reason(state.stderr, status))
                    } else {
                        EventView::Closed
                    },
                ),
                stop: true,
                ..nothing_to_do()
            },
        ),
        SpawnEventView::Exit(Ok(None)) => (state, nothing_to_do()),
    }
}

fn idle() -> (r: SpawnStep)
    ensures
        r.view() == nothing_to_do(),
{
    SpawnStep { event: None, write: None, kill: false, stop: false }
}

impl SpawnState {
    pub closed spec fn view(&self) -> SpawnView {
        SpawnView {
            stderr: self.stderr_buffer@,
            stopping: self.did_request_shutdown,
            ready: self.ready,
        }
    }

    /// What holds of every process.
    pub open spec fn wf(&self) -> bool {
        self.view().valid()
    }

    /// A process that was just started.
    pub fn connect_spawn() -> (r: SpawnState)
        ensures
            r.wf(),
            r.view() == (SpawnView { stderr: Seq::empty(), stopping: false, ready: true }),
    {
        SpawnState { stderr_buffer: String::new(), did_request_shutdown: false, ready: true }
    }

    /// Whether messages can be sent.
    pub fn is_ready(&self) -> (r: bool)
        ensures
            r == self.view().ready,
    {
        self.ready
    }

    /// What is kept of the error output.
    pub fn stderr(&self) -> (r: &str)
        ensures
            r@ == self.view().stderr,
    {
        self.stderr_buffer.as_str()
    }

    /// Takes up a line of error output. Where the cut falls inside a character, nothing changes and
    /// that is told.
    pub fn take_stderr_line(&mut self, line: &str) -> (r: bool)
        requires
            old(self).wf(),
        ensures
            final(self).wf(),
            match old(self).view().complaining(line@) {
                Some(after) => r && final(self).view() == after,
                None => !r && final(self).view() == old(self).view(),
            },
    {
        proof {
            law_stderr_is_bounded(self.view().stderr + trimmed(line@));
        }
        match push_stderr(self.stderr_buffer.as_str(), line) {
            Some(tail) => {
                self.stderr_buffer = tail;
                true
            },
            None => false,
        }
    }

    /// Takes up what happened to the process.
    pub fn handle(&mut self, event: SpawnEvent) -> (r: SpawnStep)
        requires
            old(self).wf(),
        ensures
            final(self).wf(),
            (final(self).view(), r.view()) == spawn_step(old(self).view(), event.view()),
    {
        match event {
            SpawnEvent::Stdout(Ok(Some(line))) => {
                let event = match trim_non_blank(line.as_str()) {
                    Some(text) => Some(CodexEvent::Message(text)),
                    None => None,
                };
                SpawnStep { event, write: None, kill: false, stop: false }
            },
            SpawnEvent::Stdout(Ok(None)) => idle(),
            SpawnEvent::StderrEnd(Ok(())) => idle(),
            SpawnEvent::Stdout(Err(error)) => {
                self.ready = false;
                SpawnStep {
                    event: Some(CodexEvent::Error(error)),
                    write: None,
                    kill: false,
                    stop: true,
                }
            },
            SpawnEvent::StderrEnd(Err(error)) => {
                self.ready = false;
                SpawnStep {
                    event: Some(CodexEvent::Error(error)),
                    write: None,
                    kill: false,
                    stop: true,
                }
            },
            SpawnEvent::Outbound(Some(message)) => SpawnStep {
                event: None,
                write: Some(concat2(message.as_str(), "\n")),
                kill: false,
                stop: false,
            },
            SpawnEvent::Outbound(None) => {
                self.ready = false;
                SpawnStep { event: None, write: None, kill: false, stop: true }
            },
            SpawnEvent::WriteFailed => {
                self.ready = false;
                SpawnStep { event: None, write: None, kill: false, stop: true }
            },
            SpawnEvent::Shutdown => {
                self.did_request_shutdown = true;
                self.ready = false;
                SpawnStep { event: None, write: None, kill: true, stop: false }
            },
            SpawnEvent::Exit(Ok(Some((success, status)))) => {
                self.ready = false;
                let event = if !self.did_request_shutdown && !success {
                    let reason = if blank(self.stderr_buffer.as_str()) {
                        concat2(
                            "Codex launcher `codex app-server` failed with status ",
                            status.as_str(),
                        )
                    } else {
                        concat2(
                            "Codex launcher `codex app-server` failed: ",
                            trim(self.stderr_buffer.as_str()).as_str(),
                        )
                    };
                    CodexEvent::Error(reason)
                } else {
                    CodexEvent::Closed
                };
                SpawnStep { event: Some(event), write: None, kill: false, stop: true }
            },
            SpawnEvent::Exit(Ok(None)) => idle(),
            SpawnEvent::Exit(Err(error)) => {
                self.ready = false;
                SpawnStep {
                    event: Some(CodexEvent::Error(error)),
                    write: None,
                    kill: false,
                    stop: true,
                }
            },
        }
    }
}

// A WebSocket.

/// What came over a socket.
pub enum Frame {
    Text(String),
    Binary(Vec<u8>),
    Ping(Vec<u8>),
    Close,
    Other,
    Error(String),
    End,
}

/// What a `Frame` stands for.
pub enum FrameView {
    Text(Seq<char>),
    Binary(Seq<u8>),
    Ping(Seq<u8>),
    Close,
    Other,
    Error(Seq<char>),
    End,
}

impl Frame {
    pub open spec fn view(&self) -> FrameView {
        match self {
            Frame::Text(text) => FrameView::Text(text@),
            Frame::Binary(bytes) => FrameView::Binary(bytes@),
            Frame::Ping(payload) => FrameView::Ping(payload@),
            Frame::Close => FrameView::Close,
            Frame::Other => FrameView::Other,
            Frame::Error(error) => FrameView::Error(error@),
            Frame::End => FrameView::End,
        }
    }
}

/// What happened to the socket.
pub enum SocketEvent {
    /// It was opened, or why not.
    Opened(Result<(), String>),
    /// A message for Codex, or that there will be none any more.
    Outbound(Option<String>),
    /// A message could not be sent.
    SendFailed,
    Frame(Frame),
    /// It is to be closed.
    Shutdown,
}

/// What a `SocketEvent` stands for.
pub enum SocketEventView {
    Opened(Result<(), Seq<char>>),
    Outbound(Option<Seq<char>>),
    SendFailed,
    Frame(FrameView),
    Shutdown,
}

impl SocketEvent {
    pub open spec fn view(&self) -> SocketEventView {
        match self {
            SocketEvent::Opened(Ok(_)) => SocketEventView::Opened(Ok(())),
            SocketEvent::Opened(Err(error)) => SocketEventView::Opened(Err(error@)),
            SocketEvent::Outbound(message) => SocketEventView::Outbound(message.deep_view()),
            SocketEvent::SendFailed => SocketEventView::SendFailed,
            SocketEvent::Frame(frame) => SocketEventView::Frame(frame.view()),
            SocketEvent::Shutdown => SocketEventView::Shutdown,
        }
    }
}

/// What goes over the socket.
#[derive(Debug, PartialEq, Eq)]
pub enum SocketSend {
    Nothing,
    Text(String),
    Pong(Vec<u8>),
    Close,
}

/// What a `SocketSend` stands for.
pub enum SendView {
    Nothing,
    Text(Seq<char>),
    Pong(Seq<u8>),
    Close,
}

impl SocketSend {
    pub open spec fn view(&self) -> SendView {
        match self {
            SocketSend::Nothing => SendView::Nothing,
            SocketSend::Text(text) => SendView::Text(text@),
            SocketSend::Pong(payload) => SendView::Pong(payload@),
            SocketSend::Close => SendView::Close,
        }
    }
}

/// What there is to do, and whether messages can be sent from then on.
#[derive(Debug)]
pub struct SocketStep {
    pub event: Option<CodexEvent>,
    pub send: SocketSend,
    pub ready: bool,
    pub stop: bool,
}

/// What a `SocketStep` stands for.
pub struct SocketStepView {
    pub event: Option<EventView>,
    pub send: SendView,
    pub ready: bool,
    pub stop: bool,
}

impl SocketStep {
    pub open spec fn view(&self) -> SocketStepView {
        SocketStepView {
            event: event_view(self.event),
            send: self.send.view(),
            ready: self.ready,
            stop: self.stop,
        }
    }
}

/// A message that came over the socket; a blank one counts for nothing.
pub open spec fn received(text: Seq<char>) -> Option<EventView> {
    if is_blank(text) {
        None
    } else {
        Some(EventView::Message(text))
    }
}

pub open spec fn socket_goes_on() -> SocketStepView {
    SocketStepView { event: None, send: SendView::Nothing, ready: true, stop: false }
}

/// The connection is over.
pub open spec fn socket_over(event: Option<EventView>, send: SendView) -> SocketStepView {
    SocketStepView { event, send, ready: false, stop: true }
}

/// What follows from what came over the socket.
pub open spec fn frame_step(frame: FrameView) -> SocketStepView {
    match frame {
        FrameView::Text(text) => SocketStepView { event: received(text), ..socket_goes_on() },
        FrameView::Binary(bytes) => SocketStepView {
            event: if valid_utf8(bytes) {
                received(decode_utf8(bytes))
            } else {
                None
            },
            ..socket_goes_on()
        },
        FrameView::Ping(payload) => SocketStepView {
            send: SendView::Pong(payload),
            ..socket_goes_on()
        },
        FrameView::Close => socket_over(Some(EventView::Closed), SendView::Nothing),
        FrameView::Other => socket_goes_on(),
        FrameView::Error(error) => socket_over(Some(EventView::Error(error)), SendView::Nothing),
        FrameView::End => socket_over(Some(EventView::Closed), SendView::Nothing),
    }
}

/// What follows from what happened to the socket.
pub open spec fn socket_step(event: SocketEventView) -> SocketStepView {
    match event {
        SocketEventView::Opened(Ok(_)) => socket_goes_on(),
        SocketEventView::Opened(Err(error)) => socket_over(
            Some(EventView::Error(error)),
            SendView::Nothing,
        ),
        SocketEventView::Outbound(Some(message)) => SocketStepView {
            send: SendView::Text(message),
            ..socket_goes_on()
        },
        SocketEventView::Outbound(None) => socket_over(None, SendView::Nothing),
        SocketEventView::SendFailed => socket_over(Some(EventView::Closed), SendView::Nothing),
        SocketEventView::Frame(frame) => frame_step(frame),
        SocketEventView::Shutdown => socket_over(Some(EventView::Closed), SendView::Close),
    }
}

fn receive(text: String) -> (r: Option<CodexEvent>)
    ensures
        event_view(r) == received(text@),
{
    if blank(text.as_str()) {
        None
    } else {
        Some(CodexEvent::Message(text))
    }
}

/// Takes up what came over the socket.
pub fn handle_frame(frame: Frame) -> (r: SocketStep)
    ensures
        r.view() == frame_step(frame.view()),
{
    match frame {
        Frame::Text(text) => SocketStep {
            event: receive(text),
            send: SocketSend::Nothing,
            ready: true,
            stop: false,
        },
        Frame::Binary(bytes) => {
            let event = match utf8_text(bytes) {
                Some(text) => receive(text),
                None => None,
            };
            SocketStep { event, send: SocketSend::Nothing, ready: true, stop: false }
        },
        Frame::Ping(payload) => SocketStep {
            event: None,
            send: SocketSend::Pong(payload),
            ready: true,
            stop: false,
        },
        Frame::Close => SocketStep {
            event: Some(CodexEvent::Closed),
            send: SocketSend::Nothing,
            ready: false,
            stop: true,
        },
        Frame::Other => SocketStep {
            event: None,
            send: SocketSend::Nothing,
            ready: true,
            stop: false,
        },
        Frame::Error(error) => SocketStep {
            event: Some(CodexEvent::Error(error)),
            send: SocketSend::Nothing,
            ready: false,
            stop: true,
        },
        Frame::End => SocketStep {
            event: Some(CodexEvent::Closed),
            send: SocketSend::Nothing,
            ready: false,
            stop: true,
        },
    }
}

/// Takes up what happened to the socket.
pub fn connect_websocket(event: SocketEvent) -> (r: SocketStep)
    ensures
        r.view() == socket_step(event.view()),
{
    match event {
        SocketEvent::Opened(Ok(_)) => SocketStep {
            event: None,
            send: SocketSend::Nothing,
            ready: true,
            stop: false,
        },
        SocketEvent::Opened(Err(error)) => SocketStep {
            event: Some(CodexEvent::Error(error)),
            send: SocketSend::Nothing,
            ready: false,
            stop: true,
        },
        SocketEvent::Outbound(Some(message)) => SocketStep {
            event: None,
            send: SocketSend::Text(message),
            ready: true,
            stop: false,
        },
        SocketEvent::Outbound(None) => SocketStep {
            event: None,
            send: SocketSend::Nothing,
            ready: false,
            stop: true,
        },
        SocketEvent::SendFailed => SocketStep {
            event: Some(CodexEvent::Closed),
            send: SocketSend::Nothing,
            ready: false,
            stop: true,
        },
        SocketEvent::Frame(frame) => handle_frame(frame),
        SocketEvent::Shutdown => SocketStep {
            event: Some(CodexEvent::Closed),
            send: SocketSend::Close,
            ready: false,
            stop: true,
        },
    }
}

// What holds of every connection.

/// No more than the limit is kept of the error output.
pub proof fn law_stderr_is_bounded(s: Seq<char>)
    ensures
        stderr_tail(s) matches Some(tail) ==> encode_utf8(tail).len() <= STDERR_TAIL_BYTES,
{
    lemma_cut_bounded(s, STDERR_TAIL_BYTES as nat);
}

proof fn lemma_cut_bounded(s: Seq<char>, limit: nat)
    ensures
        cut_to(s, limit) matches Some(tail) ==> encode_utf8(tail).len() == limit,
    decreases s.len(),
{
    if encode_utf8(s).len() > limit && s.len() > 0 {
        lemma_cut_bounded(s.drop_first(), limit);
    }
}

/// A process that was told to stop ends without an error, however it ends.
pub proof fn law_asked_stop_is_no_error(
    state: SpawnView,
    success: bool,
    status: Seq<char>,
)
    ensures
        ({
            let stopped = spawn_step(state, SpawnEventView::Shutdown).0;
            spawn_step(stopped, SpawnEventView::Exit(Ok(Some((success, status))))).1.event == Some(
                EventView::Closed,
            )
        }),
{
}

/// Once a connection is over nothing can be sent.
pub proof fn law_over_is_not_ready(state: SpawnView, event: SpawnEventView, other: SocketEventView)
    ensures
        spawn_step(state, event).1.stop ==> !spawn_step(state, event).0.ready,
        socket_step(other).stop <==> !socket_step(other).ready,
{
}

} // verus!
