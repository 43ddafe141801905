use vstd::prelude::*;

verus! {

/// The stage a connection has reached in the connection-level protocol
/// state machine. Exactly one phase is active per connection at any time.
#[derive(Clone, Copy, Debug, PartialEq, Eq, Structural)]
pub enum ConnectionPhase {
    /// Initial phase: the client has connected and must announce which
    /// phase it wants to enter next.
    Handshake,
    /// The client queries the server list description and latency.
    Status,
    /// The client performs the login exchange.
    Login,
    /// Terminal phase for this component: gameplay is out of scope, so no
    /// further frames are dispatched once a connection reaches Play.
    Play,
}

/// The edges of the forward-only phase progression
/// Handshake -> { Status | Login -> Play }: a phase may stay where it is,
/// Handshake may branch to Status or Login, and Login may advance to Play.
/// No other transition exists; in particular none leads back to Handshake.
pub open spec fn phase_step_allowed(cur: ConnectionPhase, next: ConnectionPhase) -> bool {
    ||| next == cur
    ||| (cur == ConnectionPhase::Handshake && (next == ConnectionPhase::Status
            || next == ConnectionPhase::Login))
    ||| (cur == ConnectionPhase::Login && next == ConnectionPhase::Play)
}

} // verus!
