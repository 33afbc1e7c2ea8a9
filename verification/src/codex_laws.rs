//! What the bridge does with the process of Codex, or with the socket to it.
use vstd::prelude::*;

use crate::codex_transport::{
    cut_to, socket_step, spawn_step, EventView, FrameView, SendView, SocketEventView,
    SpawnEventView, SpawnView,
};
use crate::text::trimmed;
use vstd::utf8::{decode_utf8, encode_utf8, valid_utf8};

verus! {

/// A line of the process is a message, without the white space around it; a blank line is none.
pub proof fn law_line_is_a_message(state: SpawnView, line: Seq<char>)
    ensures
        ({
            let (after, step) = spawn_step(state, SpawnEventView::Stdout(Ok(Some(line))));
            &&& after == state
            &&& trimmed(line).len() > 0 ==> step.event == Some(EventView::Message(trimmed(line)))
            &&& trimmed(line).len() == 0 ==> step.event is None
            &&& step.write is None && !step.kill && !step.stop
        }),
{
}

/// A message for the process is written on a line of its own.
pub proof fn law_message_is_a_line(state: SpawnView, message: Seq<char>)
    ensures
        ({
            let (after, step) = spawn_step(state, SpawnEventView::Outbound(Some(message)));
            &&& after == state
            &&& step.write == Some(message + "\n"@)
            &&& step.event is None && !step.kill && !step.stop
        }),
{
}

/// An error of the process, or of looking at it, is told and ends it.
pub proof fn law_error_of_the_process_is_told(state: SpawnView, error: Seq<char>)
    ensures
        forall|event: SpawnEventView|
            event == SpawnEventView::Stdout(Err(error)) || event == SpawnEventView::StderrEnd(
                Err(error),
            ) || event == SpawnEventView::Exit(Err(error)) ==> {
                let (after, step) = #[trigger] spawn_step(state, event);
                &&& step.event == Some(EventView::Error(error))
                &&& step.stop
                &&& !after.ready
                &&& after.stderr == state.stderr
            },
{
}

/// A process that ends by itself is told as an error unless it ended well; the error says what it
/// complained of last, or how it ended.
pub proof fn law_end_of_the_process_is_told(state: SpawnView, success: bool, status: Seq<char>)
    ensures
        ({
            let (after, step) = spawn_step(
                state,
                SpawnEventView::Exit(Ok(Some((success, status)))),
            );
            &&& step.stop && !after.ready
            &&& success || state.stopping ==> step.event == Some(EventView::Closed)
            &&& !success && !state.stopping && trimmed(state.stderr).len() == 0 ==> step.event
                == Some(
                EventView::Error(
                    "Codex launcher `codex app-server` failed with status "@ + status,
                ),
            )
            &&& !success && !state.stopping && trimmed(state.stderr).len() > 0 ==> step.event
                == Some(
                EventView::Error(
                    "Codex launcher `codex app-server` failed: "@ + trimmed(state.stderr),
                ),
            )
        }),
{
}

/// A process that still runs is left alone; the end of one of its outputs ends nothing.
pub proof fn law_running_process_goes_on(state: SpawnView)
    ensures
        forall|event: SpawnEventView|
            event == SpawnEventView::Stdout(Ok(None)) || event == SpawnEventView::StderrEnd(Ok(()))
                || event == SpawnEventView::Exit(Ok(None)) ==> {
                let (after, step) = #[trigger] spawn_step(state, event);
                &&& after == state
                &&& step.event is None && step.write is None && !step.kill && !step.stop
            },
{
}

/// A process that is to be shut down is killed; one that takes no messages any more is over.
pub proof fn law_process_is_shut_down(state: SpawnView)
    ensures
        ({
            let (after, step) = spawn_step(state, SpawnEventView::Shutdown);
            &&& step.kill && !step.stop && step.event is None
            &&& after.stopping && !after.ready && after.stderr == state.stderr
        }),
        ({
            let (after, step) = spawn_step(state, SpawnEventView::Outbound(None));
            &&& step.stop && !step.kill && step.event is None && step.write is None
            &&& !after.ready && after.stopping == state.stopping
        }),
        ({
            let (after, step) = spawn_step(state, SpawnEventView::WriteFailed);
            &&& step.stop && !step.kill && step.event is None && step.write is None
            &&& !after.ready && after.stopping == state.stopping
        }),
{
}

/// Of what the process complains, the end is kept: all of it where it is short.
pub proof fn law_end_of_the_complaints_is_kept(state: SpawnView, line: Seq<char>)
    ensures
        ({
            let whole = state.stderr + trimmed(line);
            &&& encode_utf8(whole).len() <= 4096 ==> (state.complaining(line) matches Some(after)
                && after.stderr == whole)
            &&& state.complaining(line) matches Some(after) ==> {
                &&& after.stopping == state.stopping && after.ready == state.ready
                &&& exists|n: int|
                    0 <= n <= whole.len() && after.stderr == #[trigger] whole.skip(n)
                &&& encode_utf8(whole).len() > 4096 ==> encode_utf8(after.stderr).len() == 4096
            }
        }),
{
    let whole = state.stderr + trimmed(line);
    assert(whole.skip(0) =~= whole);
    lemma_cut_is_the_end(whole, 4096);
}

proof fn lemma_cut_is_the_end(s: Seq<char>, limit: nat)
    ensures
        cut_to(s, limit) matches Some(tail) ==> encode_utf8(tail).len() == limit && exists|n: int|
            0 <= n <= s.len() && tail == #[trigger] s.skip(n),
    decreases s.len(),
{
    if encode_utf8(s).len() == limit {
        assert(s.skip(0) =~= s);
    } else if !(encode_utf8(s).len() < limit || s.len() == 0) {
        lemma_cut_is_the_end(s.drop_first(), limit);
        if let Some(tail) = cut_to(s.drop_first(), limit) {
            let n = choose|n: int|
                0 <= n <= s.drop_first().len() && tail == #[trigger] s.drop_first().skip(n);
            assert(s.drop_first().skip(n) =~= s.skip(n + 1));
        }
    }
}

/// A message for Codex goes over the socket as it is, and one that comes is told as it is; blank
/// ones and bytes that are no text are not.
pub proof fn law_messages_pass_the_socket(text: Seq<char>, bytes: Seq<u8>)
    ensures
        ({
            let step = socket_step(SocketEventView::Outbound(Some(text)));
            &&& step.send == SendView::Text(text)
            &&& step.event is None && !step.stop
        }),
        ({
            let step = socket_step(SocketEventView::Frame(FrameView::Text(text)));
            &&& trimmed(text).len() > 0 ==> step.event == Some(EventView::Message(text))
            &&& trimmed(text).len() == 0 ==> step.event is None
            &&& step.send is Nothing && !step.stop
        }),
        ({
            let step = socket_step(SocketEventView::Frame(FrameView::Binary(bytes)));
            &&& valid_utf8(bytes) && trimmed(decode_utf8(bytes)).len() > 0 ==> step.event == Some(
                EventView::Message(decode_utf8(bytes)),
            )
            &&& !valid_utf8(bytes) ==> step.event is None
            &&& step.send is Nothing && !step.stop
        }),
{
}

/// A sign of life is answered with what it brings.
pub proof fn law_ping_is_answered(payload: Seq<u8>)
    ensures
        ({
            let step = socket_step(SocketEventView::Frame(FrameView::Ping(payload)));
            &&& step.send == SendView::Pong(payload)
            &&& step.event is None && !step.stop
        }),
{
}

/// The end of a socket is told: with the error, where there is one. It is closed when it is to be,
/// and silently over when there is nothing more to send.
pub proof fn law_end_of_the_socket_is_told(error: Seq<char>)
    ensures
        ({
            let step = socket_step(SocketEventView::Opened(Err(error)));
            &&& step.event == Some(EventView::Error(error)) && step.stop && step.send is Nothing
        }),
        ({
            let step = socket_step(SocketEventView::Frame(FrameView::Error(error)));
            &&& step.event == Some(EventView::Error(error)) && step.stop && step.send is Nothing
        }),
        ({
            let step = socket_step(SocketEventView::Frame(FrameView::Close));
            &&& step.event == Some(EventView::Closed) && step.stop && step.send is Nothing
        }),
        ({
            let step = socket_step(SocketEventView::Frame(FrameView::End));
            &&& step.event == Some(EventView::Closed) && step.stop && step.send is Nothing
        }),
        ({
            let step = socket_step(SocketEventView::SendFailed);
            &&& step.event == Some(EventView::Closed) && step.stop && step.send is Nothing
        }),
        ({
            let step = socket_step(SocketEventView::Shutdown);
            &&& step.event == Some(EventView::Closed) && step.stop && step.send is Close
        }),
        ({
            let step = socket_step(SocketEventView::Outbound(None));
            &&& step.event is None && step.stop && step.send is Nothing
        }),
        ({
            let step = socket_step(SocketEventView::Opened(Ok(())));
            &&& step.event is None && !step.stop && step.send is Nothing
        }),
        ({
            let step = socket_step(SocketEventView::Frame(FrameView::Other));
            &&& step.event is None && !step.stop && step.send is Nothing
        }),
{
}

} // verus!
