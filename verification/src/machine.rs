use vstd::prelude::*;

use crate::frame::frame_bytes;
use crate::handler::{
    handle_handshake, handle_login_start, handle_ping, handle_status, handshake_target,
    login_payload, status_payload, HANDSHAKE_INDICATOR_OFFSET, OPCODE_LOGIN_SUCCESS, OPCODE_PING_REQUEST,
    OPCODE_ZERO,
};
use crate::phase::{phase_step_allowed, ConnectionPhase};

verus! {

/// What one dispatch of a raw buffer asks the connection's owner to do:
/// adopt the next phase, send the response if there is one, and close the
/// connection when `disconnect` is set.
pub struct StepResult {
    /// The phase the connection is in after this frame.
    pub next: ConnectionPhase,
    /// The bytes to write back to the client, if any.
    pub response: Option<Vec<u8>>,
    /// True when the connection is to be closed: the terminal Play phase
    /// was reached earlier, or a handshake frame was too short to carry
    /// its indicator byte and the connection is rejected.
    pub disconnect: bool,
}

/// Whether a nonempty buffer is a handshake frame too short to carry the
/// indicator byte at its fixed offset. Such a frame is rejected and the
/// connection dropped, rather than read out of bounds.
pub open spec fn undersized_handshake(buf: Seq<u8>) -> bool {
    buf.len() > 0 && buf[0] == OPCODE_ZERO && buf.len() <= HANDSHAKE_INDICATOR_OFFSET
}

/// The phase a connection is in after one buffer is dispatched in `cur`.
/// An empty buffer is skipped. Only a handshake frame (branching on its
/// indicator byte) and a login start frame (advancing to Play) move the
/// phase; everything else leaves it where it is.
pub open spec fn next_phase_spec(cur: ConnectionPhase, buf: Seq<u8>) -> ConnectionPhase {
    if buf.len() == 0 {
        cur
    } else {
        match cur {
            ConnectionPhase::Handshake => if buf[0] == OPCODE_ZERO && buf.len()
                > HANDSHAKE_INDICATOR_OFFSET {
                handshake_target(buf[HANDSHAKE_INDICATOR_OFFSET as int])
            } else {
                cur
            },
            ConnectionPhase::Status => cur,
            ConnectionPhase::Login => if buf[0] == OPCODE_ZERO {
                ConnectionPhase::Play
            } else {
                cur
            },
            ConnectionPhase::Play => cur,
        }
    }
}

/// The bytes sent back when one buffer is dispatched in `cur`: the fixed
/// status frame for a status request, the buffer itself for a ping, the
/// login success frame for a login start, and nothing otherwise.
pub open spec fn response_spec(cur: ConnectionPhase, buf: Seq<u8>) -> Option<Seq<u8>> {
    if buf.len() == 0 {
        None
    } else {
        match cur {
            ConnectionPhase::Handshake => None,
            ConnectionPhase::Status => if buf[0] == OPCODE_ZERO {
                Some(frame_bytes(OPCODE_ZERO, status_payload()))
            } else if buf[0] == OPCODE_PING_REQUEST {
                Some(buf)
            } else {
                None
            },
            ConnectionPhase::Login => if buf[0] == OPCODE_ZERO {
                Some(frame_bytes(OPCODE_LOGIN_SUCCESS, login_payload()))
            } else {
                None
            },
            ConnectionPhase::Play => None,
        }
    }
}

/// Whether dispatching one buffer in `cur` ends the connection: always in
/// the terminal Play phase, and on an undersized handshake frame.
pub open spec fn disconnect_spec(cur: ConnectionPhase, buf: Seq<u8>) -> bool {
    ||| cur == ConnectionPhase::Play
    ||| (cur == ConnectionPhase::Handshake && undersized_handshake(buf))
}

/// Dispatches one raw buffer read from the client to the handler of the
/// connection's current phase. Frames arriving in a phase whose handler
/// does not recognise their opcode are ignored.
pub fn step(cur: ConnectionPhase, buffer: &[u8]) -> (r: StepResult)
    ensures
        r.next == next_phase_spec(cur, buffer@),
        (match r.response {
            Some(v) => Some(v@),
            None => None,
        }) == response_spec(cur, buffer@),
        r.disconnect == disconnect_spec(cur, buffer@),
{
    if cur == ConnectionPhase::Play {
        return StepResult { next: cur, response: None, disconnect: true };
    }
    if buffer.len() == 0 {
        return StepResult { next: cur, response: None, disconnect: false };
    }
    match cur {
        ConnectionPhase::Handshake => {
            if buffer[0] == OPCODE_ZERO {
                if buffer.len() > HANDSHAKE_INDICATOR_OFFSET {
                    StepResult { next: handle_handshake(buffer), response: None, disconnect: false }
                } else {
                    StepResult { next: cur, response: None, disconnect: true }
                }
            } else {
                StepResult { next: cur, response: None, disconnect: false }
            }
        },
        ConnectionPhase::Status => {
            if buffer[0] == OPCODE_ZERO {
                StepResult { next: cur, response: Some(handle_status()), disconnect: false }
            } else if buffer[0] == OPCODE_PING_REQUEST {
                StepResult { next: cur, response: Some(handle_ping(buffer)), disconnect: false }
            } else {
                StepResult { next: cur, response: None, disconnect: false }
            }
        },
        ConnectionPhase::Login => {
            if buffer[0] == OPCODE_ZERO {
                StepResult {
                    next: ConnectionPhase::Play,
                    response: Some(handle_login_start()),
                    disconnect: false,
                }
            } else {
                StepResult { next: cur, response: None, disconnect: false }
            }
        },
        ConnectionPhase::Play => {
            StepResult { next: cur, response: None, disconnect: true }
        },
    }
}

/// Every transition the dispatcher can make follows the forward-only
/// progression Handshake -> { Status | Login -> Play }, whatever bytes
/// arrive; in particular no phase ever leads back to Handshake.
pub proof fn lemma_phase_progression(cur: ConnectionPhase, buf: Seq<u8>)
    ensures
        phase_step_allowed(cur, next_phase_spec(cur, buf)),
        next_phase_spec(cur, buf) == ConnectionPhase::Handshake ==> cur
            == ConnectionPhase::Handshake,
{
}

/// The phases one connection passes through: it starts in Handshake, and
/// each buffer read from the client is dispatched in the phase the
/// previous dispatch left behind.
pub open spec fn phase_trace(bufs: Seq<Seq<u8>>) -> Seq<ConnectionPhase>
    decreases bufs.len(),
{
    if bufs.len() == 0 {
        seq![ConnectionPhase::Handshake]
    } else {
        let prefix = phase_trace(bufs.drop_last());
        prefix.push(next_phase_spec(prefix.last(), bufs.last()))
    }
}

/// Whatever a client sends, the phases its connection passes through form
/// a path in the forward-only progression Handshake -> { Status | Login
/// -> Play }: the trace starts in Handshake, every consecutive pair is an
/// allowed step, and once the trace reaches Play it stays there.
#[verifier::rlimit(50)]
pub proof fn lemma_trace_progression(bufs: Seq<Seq<u8>>)
    ensures
        phase_trace(bufs).len() == bufs.len() + 1,
        phase_trace(bufs)[0] == ConnectionPhase::Handshake,
        forall|i: int|
            0 <= i < bufs.len() ==> phase_step_allowed(
                #[trigger] phase_trace(bufs)[i],
                phase_trace(bufs)[i + 1],
            ),
        forall|i: int|
            0 <= i < bufs.len() && #[trigger] phase_trace(bufs)[i] == ConnectionPhase::Play
                ==> phase_trace(bufs)[i + 1] == ConnectionPhase::Play,
    decreases bufs.len(),
{
    if bufs.len() > 0 {
        let prefix = phase_trace(bufs.drop_last());
        let trace = phase_trace(bufs);
        lemma_trace_progression(bufs.drop_last());
        lemma_phase_progression(prefix.last(), bufs.last());
        assert(trace == prefix.push(next_phase_spec(prefix.last(), bufs.last())));
        assert forall|i: int| 0 <= i < bufs.len() implies phase_step_allowed(
            #[trigger] trace[i],
            trace[i + 1],
        ) by {
            if i < bufs.len() - 1 {
                assert(trace[i] == prefix[i]);
                assert(trace[i + 1] == prefix[i + 1]);
            } else {
                assert(trace[i] == prefix.last());
            }
        }
        assert forall|i: int|
            0 <= i < bufs.len() && #[trigger] trace[i] == ConnectionPhase::Play implies trace[i + 1]
            == ConnectionPhase::Play by {
            if i < bufs.len() - 1 {
                assert(trace[i] == prefix[i]);
                assert(trace[i + 1] == prefix[i + 1]);
            } else {
                assert(trace[i] == prefix.last());
            }
        }
    }
}

/// Once a connection has entered the Play phase, no further frame is
/// processed: whatever bytes arrive, the phase stays Play, no response is
/// produced, and the connection is closed.
pub proof fn lemma_play_terminal(buf: Seq<u8>)
    ensures
        next_phase_spec(ConnectionPhase::Play, buf) == ConnectionPhase::Play,
        response_spec(ConnectionPhase::Play, buf) is None,
        disconnect_spec(ConnectionPhase::Play, buf),
{
}

/// A handshake frame carrying indicator 1 at the fixed offset always
/// moves the connection to Status, indicator 2 always to Login, and any
/// other indicator leaves it in Handshake; a handshake never responds.
pub proof fn lemma_handshake_indicator(buf: Seq<u8>)
    requires
        buf.len() > HANDSHAKE_INDICATOR_OFFSET,
        buf[0] == OPCODE_ZERO,
    ensures
        buf[HANDSHAKE_INDICATOR_OFFSET as int] == 1 ==> next_phase_spec(
            ConnectionPhase::Handshake,
            buf,
        ) == ConnectionPhase::Status,
        buf[HANDSHAKE_INDICATOR_OFFSET as int] == 2 ==> next_phase_spec(
            ConnectionPhase::Handshake,
            buf,
        ) == ConnectionPhase::Login,
        buf[HANDSHAKE_INDICATOR_OFFSET as int] != 1 && buf[HANDSHAKE_INDICATOR_OFFSET as int] != 2
            ==> next_phase_spec(ConnectionPhase::Handshake, buf) == ConnectionPhase::Handshake,
        response_spec(ConnectionPhase::Handshake, buf) is None,
{
}

/// A ping request in the Status phase is answered with the request buffer
/// itself, byte for byte, and leaves the phase unchanged.
pub proof fn lemma_ping_echo(buf: Seq<u8>)
    requires
        buf.len() > 0,
        buf[0] == OPCODE_PING_REQUEST,
    ensures
        response_spec(ConnectionPhase::Status, buf) == Some(buf),
        next_phase_spec(ConnectionPhase::Status, buf) == ConnectionPhase::Status,
{
}

/// A login start frame is always answered with a frame that decodes to
/// opcode 2 and the fixed identity payload (the UUID text followed by the
/// username text), and always moves the connection to Play.
pub proof fn lemma_login_success(buf: Seq<u8>)
    requires
        buf.len() > 0,
        buf[0] == OPCODE_ZERO,
    ensures
        next_phase_spec(ConnectionPhase::Login, buf) == ConnectionPhase::Play,
        response_spec(ConnectionPhase::Login, buf) == Some(
            frame_bytes(OPCODE_LOGIN_SUCCESS, login_payload()),
        ),
        crate::frame::decoded(frame_bytes(OPCODE_LOGIN_SUCCESS, login_payload())) == Some(
            (OPCODE_LOGIN_SUCCESS, login_payload()),
        ),
{
    crate::handler::lemma_login_payload_len();
    crate::frame::lemma_encode_decode(OPCODE_LOGIN_SUCCESS, login_payload());
}

/// A status request in the Status phase is always answered with a frame
/// that decodes to opcode 0 and the fixed JSON status payload, and leaves
/// the phase unchanged.
pub proof fn lemma_status_reply(buf: Seq<u8>)
    requires
        buf.len() > 0,
        buf[0] == OPCODE_ZERO,
    ensures
        response_spec(ConnectionPhase::Status, buf) == Some(
            frame_bytes(OPCODE_ZERO, status_payload()),
        ),
        next_phase_spec(ConnectionPhase::Status, buf) == ConnectionPhase::Status,
        crate::frame::decoded(frame_bytes(OPCODE_ZERO, status_payload())) == Some(
            (OPCODE_ZERO, status_payload()),
        ),
{
    crate::handler::lemma_status_payload_len();
    crate::frame::lemma_encode_decode(OPCODE_ZERO, status_payload());
}

} // verus!
