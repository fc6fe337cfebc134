//! The accept loop and the start of a session.
//!
//! The loop is the caller's: it calls `accept` for ever and hands each
//! result to [`dispatch`].  Whatever the result, there is a next turn: no
//! failure to accept stops the loop or touches a later call.

use vstd::prelude::*;
use crate::relay::Relay;

verus! {

/// What one call of `accept` came to.  `A` is the type of a target address.
#[derive(Clone, Copy, Debug, PartialEq, Eq)]
pub enum AcceptResult<A> {
    /// A byte-stream connection, with the address that it is meant for.
    Tcp(A),
    /// A datagram session.  Its datagrams carry their own addresses.
    Udp,
    /// The call failed.
    Failed,
}

/// What the accept loop does with a result before it accepts again.
#[derive(Clone, Copy, Debug, PartialEq, Eq)]
pub enum Dispatch<A> {
    /// Spawn a session that connects a byte stream to this address.
    SpawnTcp {
        /// The address to connect to: the one that was accepted.
        target: A,
    },
    /// Spawn a session that opens a datagram stream.
    SpawnUdp,
    /// Log the failure.  No session is spawned.
    LogFailure,
}

/// What a session does once the connector has answered.
#[derive(Clone, Copy, Debug, PartialEq, Eq, Structural)]
pub enum SessionStart {
    /// Relay between the two endpoints, from this state.
    Relay(Relay),
    /// Log the failure and release the inbound endpoint.  Nothing is
    /// retried.
    GiveUp,
}

/// The turn of the accept loop that a result calls for.
pub open spec fn dispatched<A>(accepted: AcceptResult<A>) -> Dispatch<A> {
    match accepted {
        AcceptResult::Tcp(target) => Dispatch::SpawnTcp { target },
        AcceptResult::Udp => Dispatch::SpawnUdp,
        AcceptResult::Failed => Dispatch::LogFailure,
    }
}

/// The start of a session, given whether the connector succeeded.
pub open spec fn session_started(connected: bool) -> SessionStart {
    if connected {
        SessionStart::Relay(Relay::fresh())
    } else {
        SessionStart::GiveUp
    }
}

/// Decides one turn of the accept loop.
///
/// An accepted connection or datagram session gets a session of its own,
/// and a byte-stream session connects to the very address that came with
/// its connection.  A failure is logged and nothing more.
pub fn dispatch<A>(accepted: AcceptResult<A>) -> (turn: Dispatch<A>)
    ensures
        turn == dispatched(accepted),
{
    match accepted {
        AcceptResult::Tcp(target) => Dispatch::SpawnTcp { target },
        AcceptResult::Udp => Dispatch::SpawnUdp,
        AcceptResult::Failed => Dispatch::LogFailure,
    }
}

/// Decides how a session starts once the connector has answered: with a
/// fresh relay where it succeeded, not at all where it failed.
pub fn start_session(connected: bool) -> (start: SessionStart)
    ensures
        start == session_started(connected),
{
    if connected {
        SessionStart::Relay(Relay::new())
    } else {
        SessionStart::GiveUp
    }
}

/// The turns that a series of accept results calls for, one for each.
pub open spec fn dispatched_all<A>(results: Seq<AcceptResult<A>>) -> Seq<Dispatch<A>> {
    Seq::new(results.len(), |i: int| dispatched(results[i]))
}

/// Failures to accept cost nothing but a log line each.
///
/// Over any series of accept results, every result gets its turn, however
/// many failed before it; a turn logs a failure exactly where its own
/// accept failed; and every accepted byte stream is connected to its own
/// address, whatever else was accepted before or after it.
pub proof fn lemma_dispatch_survives_failures<A>(results: Seq<AcceptResult<A>>)
    ensures
        dispatched_all(results).len() == results.len(),
        forall|i: int|
            0 <= i < results.len() ==> ((#[trigger] dispatched_all(results)[i] is LogFailure)
                <==> results[i] is Failed),
        forall|i: int|
            0 <= i < results.len() && results[i] is Tcp ==> #[trigger] dispatched_all(results)[i]
                == (Dispatch::SpawnTcp { target: results[i]->Tcp_0 }),
{
}

} // verus!
