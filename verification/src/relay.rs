//! The relay of one session: two copy loops that race, then teardown.
//!
//! A session joins an inbound endpoint and an outbound endpoint.  Two copy
//! loops run side by side, one in each [`Direction`].  As soon as either of
//! them is over, for whatever reason, the other is abandoned where it
//! stands, and both endpoints are shut down: the inbound one first, then the
//! outbound one, whether or not the first shutdown went well.
//!
//! The caller owns the endpoints.  It starts one read in each direction,
//! reports every completion to [`relay_tcp`] or [`relay_udp`], and carries
//! out the action that comes back.

use vstd::prelude::*;
use crate::copy::{
    copy_tcp, copy_udp, datagram_step, stream_step, CopyOutcome, CopyState, CopyStep,
    DatagramEvent, DatagramRequest, StreamEvent, StreamRequest,
};

verus! {

/// An endpoint of a session.
#[derive(Clone, Copy, Debug, PartialEq, Eq, Structural)]
pub enum Side {
    /// The endpoint that was accepted.
    Inbound,
    /// The endpoint that the connector made.
    Outbound,
}

/// A direction of a session.
#[derive(Clone, Copy, Debug, PartialEq, Eq, Structural)]
pub enum Direction {
    /// From the inbound endpoint to the outbound endpoint.
    Uplink,
    /// From the outbound endpoint to the inbound endpoint.
    Downlink,
}

impl Direction {
    /// The endpoint that the direction reads from.
    pub open spec fn source_of(self) -> Side {
        match self {
            Direction::Uplink => Side::Inbound,
            Direction::Downlink => Side::Outbound,
        }
    }

    /// The endpoint that the direction writes to.
    pub open spec fn sink_of(self) -> Side {
        match self {
            Direction::Uplink => Side::Outbound,
            Direction::Downlink => Side::Inbound,
        }
    }

    /// The other direction.
    pub open spec fn reverse_of(self) -> Direction {
        match self {
            Direction::Uplink => Direction::Downlink,
            Direction::Downlink => Direction::Uplink,
        }
    }

    /// The endpoint that the direction reads from.
    pub fn source(self) -> (side: Side)
        ensures
            side == self.source_of(),
    {
        match self {
            Direction::Uplink => Side::Inbound,
            Direction::Downlink => Side::Outbound,
        }
    }

    /// The endpoint that the direction writes to.
    pub fn sink(self) -> (side: Side)
        ensures
            side == self.sink_of(),
    {
        match self {
            Direction::Uplink => Side::Outbound,
            Direction::Downlink => Side::Inbound,
        }
    }

    /// The other direction.
    pub fn reverse(self) -> (direction: Direction)
        ensures
            direction == self.reverse_of(),
    {
        match self {
            Direction::Uplink => Direction::Downlink,
            Direction::Downlink => Direction::Uplink,
        }
    }
}

/// How far a session has come.
#[derive(Clone, Copy, Debug, PartialEq, Eq, Structural)]
pub enum RelayPhase {
    /// Both copy loops are running.
    Relaying,
    /// A copy loop is over; the inbound endpoint is being shut down.
    ClosingInbound,
    /// The outbound endpoint is being shut down.
    ClosingOutbound,
    /// Both shutdowns have been attempted.  The session is over.
    Ended,
}

/// The relay of one session.
#[derive(Clone, Copy, Debug, PartialEq, Eq, Structural)]
pub struct Relay {
    /// How far the session has come.
    pub phase: RelayPhase,
    /// The copy loop from the inbound to the outbound endpoint.
    pub uplink: CopyState,
    /// The copy loop from the outbound to the inbound endpoint.
    pub downlink: CopyState,
}

/// What the caller reports to a relay.  `E` is the type of a copy loop's
/// reports.
#[derive(Clone, Copy, Debug, PartialEq, Eq)]
pub enum RelayEvent<E> {
    /// The request under way in a direction has completed.
    Io {
        /// The direction.
        direction: Direction,
        /// What came of the request.
        event: E,
    },
    /// The shutdown under way has completed.
    ShutdownDone {
        /// Whether it went well.  The relay goes on alike.
        clean: bool,
    },
}

/// What a relay asks of the caller.  `R` is the type of a copy loop's
/// requests.
#[derive(Clone, Copy, Debug, PartialEq, Eq)]
pub enum RelayAction<R> {
    /// Carry out this request in this direction and report back.
    Io {
        /// The direction.
        direction: Direction,
        /// The request.
        request: R,
    },
    /// Drop whatever is under way in either direction, make this endpoint
    /// whole again from its two halves, shut it down and report back.
    Shutdown(Side),
    /// The session is over.
    End,
    /// Nothing: the report belongs to a request that is no longer waited
    /// for.
    Discard,
}

impl Relay {
    /// The relay of a session that has just been established: both copy
    /// loops are reading.
    pub open spec fn fresh() -> Relay {
        Relay {
            phase: RelayPhase::Relaying,
            uplink: CopyState::Reading,
            downlink: CopyState::Reading,
        }
    }

    /// The copy loop of a direction.
    pub open spec fn state_of(self, direction: Direction) -> CopyState {
        match direction {
            Direction::Uplink => self.uplink,
            Direction::Downlink => self.downlink,
        }
    }

    /// The relay with the copy loop of one direction replaced.
    pub open spec fn with_state(self, direction: Direction, state: CopyState) -> Relay {
        match direction {
            Direction::Uplink => Relay { uplink: state, ..self },
            Direction::Downlink => Relay { downlink: state, ..self },
        }
    }

    /// What holds of every relay that came from [`Relay::new`] by steps:
    /// while the session relays, neither copy loop is over; afterwards
    /// exactly one is, the one that ended the session.
    pub open spec fn wf(self) -> bool {
        if self.phase == RelayPhase::Relaying {
            !(self.uplink is Stopped) && !(self.downlink is Stopped)
        } else {
            (self.uplink is Stopped) != (self.downlink is Stopped)
        }
    }

    /// The direction whose copy loop is over, and how it ended.
    pub open spec fn ended_by_of(self) -> Option<(Direction, CopyOutcome)> {
        match (self.uplink, self.downlink) {
            (CopyState::Stopped(outcome), _) => Some((Direction::Uplink, outcome)),
            (_, CopyState::Stopped(outcome)) => Some((Direction::Downlink, outcome)),
            _ => None,
        }
    }

    /// The relay after a step of the copy loop of one direction, while the
    /// session relays.  A step that goes on is passed to the caller.  A step
    /// that stops the loop starts the teardown.
    pub open spec fn absorbed<R>(self, direction: Direction, stepped: (CopyState, CopyStep<R>)) -> (
        Relay,
        RelayAction<R>,
    ) {
        match stepped.1 {
            CopyStep::Issue(request) => (
                self.with_state(direction, stepped.0),
                RelayAction::Io { direction, request },
            ),
            CopyStep::Stop(outcome) => (
                Relay {
                    phase: RelayPhase::ClosingInbound,
                    ..self.with_state(direction, CopyState::Stopped(outcome))
                },
                RelayAction::Shutdown(Side::Inbound),
            ),
        }
    }

    /// The relay after a shutdown has completed, well or not.
    pub open spec fn after_shutdown<R>(self) -> (Relay, RelayAction<R>) {
        match self.phase {
            RelayPhase::Relaying => (self, RelayAction::Discard),
            RelayPhase::ClosingInbound => (
                Relay { phase: RelayPhase::ClosingOutbound, ..self },
                RelayAction::Shutdown(Side::Outbound),
            ),
            RelayPhase::ClosingOutbound => (
                Relay { phase: RelayPhase::Ended, ..self },
                RelayAction::End,
            ),
            RelayPhase::Ended => (self, RelayAction::End),
        }
    }

    /// Starts the relay of a session that has just been established.  The
    /// caller is to start a read in each direction.
    pub fn new() -> (relay: Relay)
        ensures
            relay == Relay::fresh(),
            relay.wf(),
    {
        Relay {
            phase: RelayPhase::Relaying,
            uplink: CopyState::Reading,
            downlink: CopyState::Reading,
        }
    }

    /// The copy loop of a direction.
    pub fn state(&self, direction: Direction) -> (state: CopyState)
        ensures
            state == self.state_of(direction),
    {
        match direction {
            Direction::Uplink => self.uplink,
            Direction::Downlink => self.downlink,
        }
    }

    /// Whether the session is over.
    pub fn is_ended(&self) -> (ended: bool)
        ensures
            ended == (self.phase == RelayPhase::Ended),
    {
        match self.phase {
            RelayPhase::Ended => true,
            _ => false,
        }
    }

    /// The direction whose copy loop is over, and how it ended; `None` while
    /// both are running.
    pub fn ended_by(&self) -> (cause: Option<(Direction, CopyOutcome)>)
        ensures
            cause == self.ended_by_of(),
    {
        match self.uplink {
            CopyState::Stopped(outcome) => Some((Direction::Uplink, outcome)),
            _ => match self.downlink {
                CopyState::Stopped(outcome) => Some((Direction::Downlink, outcome)),
                _ => None,
            },
        }
    }

    /// Takes in a step of the copy loop of one direction.
    fn absorb<R>(&mut self, direction: Direction, stepped: (CopyState, CopyStep<R>)) -> (action:
        RelayAction<R>)
        ensures
            (*final(self), action) == old(self).absorbed(direction, stepped),
    {
        let (state, step) = stepped;
        match step {
            CopyStep::Issue(request) => {
                self.set_state(direction, state);
                RelayAction::Io { direction, request }
            },
            CopyStep::Stop(outcome) => {
                self.set_state(direction, CopyState::Stopped(outcome));
                self.phase = RelayPhase::ClosingInbound;
                RelayAction::Shutdown(Side::Inbound)
            },
        }
    }

    /// Replaces the copy loop of one direction.
    fn set_state(&mut self, direction: Direction, state: CopyState)
        ensures
            *final(self) == old(self).with_state(direction, state),
    {
        match direction {
            Direction::Uplink => {
                self.uplink = state;
            },
            Direction::Downlink => {
                self.downlink = state;
            },
        }
    }

    /// Takes in the completion of a shutdown.
    fn shutdown_done<R>(&mut self) -> (action: RelayAction<R>)
        ensures
            (*final(self), action) == old(self).after_shutdown::<R>(),
    {
        match self.phase {
            RelayPhase::Relaying => RelayAction::Discard,
            RelayPhase::ClosingInbound => {
                self.phase = RelayPhase::ClosingOutbound;
                RelayAction::Shutdown(Side::Outbound)
            },
            RelayPhase::ClosingOutbound => {
                self.phase = RelayPhase::Ended;
                RelayAction::End
            },
            RelayPhase::Ended => RelayAction::End,
        }
    }
}

/// One step of the relay of a byte-stream session.
///
/// While the session relays, a report from a direction advances the copy
/// loop of that direction.  Once a copy loop is over, reports from either
/// direction are discarded.  The completion of a shutdown, clean or not,
/// leads to the next shutdown and then to the end.
pub open spec fn stream_relay_step(relay: Relay, event: RelayEvent<StreamEvent>) -> (
    Relay,
    RelayAction<StreamRequest>,
) {
    match event {
        RelayEvent::Io { direction, event } => if relay.phase == RelayPhase::Relaying {
            relay.absorbed(direction, stream_step(relay.state_of(direction), event))
        } else {
            (relay, RelayAction::Discard)
        },
        RelayEvent::ShutdownDone { clean } => relay.after_shutdown(),
    }
}

/// One step of the relay of a datagram session.  It differs from
/// [`stream_relay_step`] in the copy loops alone.
pub open spec fn datagram_relay_step<A>(relay: Relay, event: RelayEvent<DatagramEvent<A>>) -> (
    Relay,
    RelayAction<DatagramRequest<A>>,
) {
    match event {
        RelayEvent::Io { direction, event } => if relay.phase == RelayPhase::Relaying {
            relay.absorbed(direction, datagram_step(relay.state_of(direction), event))
        } else {
            (relay, RelayAction::Discard)
        },
        RelayEvent::ShutdownDone { clean } => relay.after_shutdown(),
    }
}

/// Advances the relay of a byte-stream session by one report and says what
/// to do next.
pub fn relay_tcp(relay: &mut Relay, event: RelayEvent<StreamEvent>) -> (action: RelayAction<
    StreamRequest,
>)
    ensures
        (*final(relay), action) == stream_relay_step(*old(relay), event),
{
    match event {
        RelayEvent::Io { direction, event } => match relay.phase {
            RelayPhase::Relaying => {
                let stepped = copy_tcp(relay.state(direction), event);
                relay.absorb(direction, stepped)
            },
            _ => RelayAction::Discard,
        },
        RelayEvent::ShutdownDone { clean: _ } => relay.shutdown_done(),
    }
}

/// Advances the relay of a datagram session by one report and says what to
/// do next.
pub fn relay_udp<A>(relay: &mut Relay, event: RelayEvent<DatagramEvent<A>>) -> (action:
    RelayAction<DatagramRequest<A>>)
    ensures
        (*final(relay), action) == datagram_relay_step(*old(relay), event),
{
    match event {
        RelayEvent::Io { direction, event } => match relay.phase {
            RelayPhase::Relaying => {
                let stepped = copy_udp(relay.state(direction), event);
                relay.absorb(direction, stepped)
            },
            _ => RelayAction::Discard,
        },
        RelayEvent::ShutdownDone { clean: _ } => relay.shutdown_done(),
    }
}

/// Every step of a byte-stream relay keeps it well-formed.
pub proof fn lemma_stream_relay_stays_well_formed(relay: Relay, event: RelayEvent<StreamEvent>)
    requires
        relay.wf(),
    ensures
        stream_relay_step(relay, event).0.wf(),
{
}

/// Every step of a datagram relay keeps it well-formed.
pub proof fn lemma_datagram_relay_stays_well_formed<A>(
    relay: Relay,
    event: RelayEvent<DatagramEvent<A>>,
)
    requires
        relay.wf(),
    ensures
        datagram_relay_step(relay, event).0.wf(),
{
}

/// The two directions of a session do not touch each other.
///
/// While a byte-stream or datagram session relays, a report from one
/// direction advances the copy loop of that direction exactly as the loop
/// would advance on its own, and leaves the copy loop of the other
/// direction as it was.
pub proof fn lemma_directions_are_independent<A>(
    relay: Relay,
    direction: Direction,
    stream_event: StreamEvent,
    datagram_event: DatagramEvent<A>,
)
    requires
        relay.phase == RelayPhase::Relaying,
    ensures
        ({
            let next = stream_relay_step(relay, RelayEvent::Io { direction, event: stream_event }).0;
            &&& next.state_of(direction) == stream_step(relay.state_of(direction), stream_event).0
            &&& next.state_of(direction.reverse_of()) == relay.state_of(direction.reverse_of())
        }),
        ({
            let next = datagram_relay_step(
                relay,
                RelayEvent::Io { direction, event: datagram_event },
            ).0;
            &&& next.state_of(direction) == datagram_step(
                relay.state_of(direction),
                datagram_event,
            ).0
            &&& next.state_of(direction.reverse_of()) == relay.state_of(direction.reverse_of())
        }),
{
}

/// The first copy loop to stop ends a byte-stream session.
///
/// Let the session relay, and let a report stop the copy loop of one
/// direction, cleanly or not.  Whatever the other direction was doing, it
/// is left where it stood.  The relay asks for the shutdown of the inbound
/// endpoint at once; when that has completed, well or not, for the
/// shutdown of the outbound endpoint; and when that has completed, well or
/// not, the session is over.
pub proof fn lemma_stream_stop_tears_down(
    relay: Relay,
    direction: Direction,
    event: StreamEvent,
    inbound_clean: bool,
    outbound_clean: bool,
)
    requires
        relay.phase == RelayPhase::Relaying,
        stream_step(relay.state_of(direction), event).1 is Stop,
    ensures
        ({
            let first = stream_relay_step(relay, RelayEvent::Io { direction, event });
            let second = stream_relay_step(first.0, RelayEvent::ShutdownDone { clean: inbound_clean });
            let third = stream_relay_step(second.0, RelayEvent::ShutdownDone { clean: outbound_clean });
            &&& first.1 == RelayAction::<StreamRequest>::Shutdown(Side::Inbound)
            &&& second.1 == RelayAction::<StreamRequest>::Shutdown(Side::Outbound)
            &&& third.1 == RelayAction::<StreamRequest>::End
            &&& first.0.phase == RelayPhase::ClosingInbound
            &&& second.0.phase == RelayPhase::ClosingOutbound
            &&& third.0.phase == RelayPhase::Ended
            &&& first.0.state_of(direction) is Stopped
            &&& third.0.state_of(direction) == first.0.state_of(direction)
            &&& third.0.state_of(direction.reverse_of()) == relay.state_of(direction.reverse_of())
        }),
{
}

/// The first copy loop to stop ends a datagram session, in the same way as
/// it ends a byte-stream session.
pub proof fn lemma_datagram_stop_tears_down<A>(
    relay: Relay,
    direction: Direction,
    event: DatagramEvent<A>,
    inbound_clean: bool,
    outbound_clean: bool,
)
    requires
        relay.phase == RelayPhase::Relaying,
        datagram_step(relay.state_of(direction), event).1 is Stop,
    ensures
        ({
            let first = datagram_relay_step(relay, RelayEvent::Io { direction, event });
            let second = datagram_relay_step::<A>(
                first.0,
                RelayEvent::ShutdownDone { clean: inbound_clean },
            );
            let third = datagram_relay_step::<A>(
                second.0,
                RelayEvent::ShutdownDone { clean: outbound_clean },
            );
            &&& first.1 == RelayAction::<DatagramRequest<A>>::Shutdown(Side::Inbound)
            &&& second.1 == RelayAction::<DatagramRequest<A>>::Shutdown(Side::Outbound)
            &&& third.1 == RelayAction::<DatagramRequest<A>>::End
            &&& first.0.phase == RelayPhase::ClosingInbound
            &&& second.0.phase == RelayPhase::ClosingOutbound
            &&& third.0.phase == RelayPhase::Ended
            &&& first.0.state_of(direction) is Stopped
            &&& third.0.state_of(direction) == first.0.state_of(direction)
            &&& third.0.state_of(direction.reverse_of()) == relay.state_of(direction.reverse_of())
        }),
{
}

/// A half-close ends a byte-stream session at once.
///
/// Let the session relay and let one direction be reading.  When its read
/// reports length zero, that copy loop stops cleanly and the teardown
/// begins with the shutdown of the inbound endpoint, whatever the other
/// direction is in the middle of; the other copy loop is not stopped, it is
/// abandoned.
pub proof fn lemma_half_close_ends_stream_session(relay: Relay, direction: Direction)
    requires
        relay.wf(),
        relay.phase == RelayPhase::Relaying,
        relay.state_of(direction) == CopyState::Reading,
    ensures
        ({
            let next = stream_relay_step(
                relay,
                RelayEvent::Io { direction, event: StreamEvent::Read { len: 0 } },
            );
            &&& next.1 == RelayAction::<StreamRequest>::Shutdown(Side::Inbound)
            &&& next.0.phase == RelayPhase::ClosingInbound
            &&& next.0.state_of(direction) == CopyState::Stopped(CopyOutcome::EndOfStream)
            &&& next.0.state_of(direction.reverse_of()) == relay.state_of(direction.reverse_of())
            &&& !(next.0.state_of(direction.reverse_of()) is Stopped)
        }),
{
}

/// A datagram of length zero ends a datagram session.
///
/// Let the session relay and let one direction be receiving.  When a
/// datagram of length zero arrives, from whatever address, the copy loop of
/// that direction stops cleanly, and of that direction alone; and the
/// teardown begins with the shutdown of the inbound endpoint.
pub proof fn lemma_empty_datagram_ends_session<A>(relay: Relay, direction: Direction, from: A)
    requires
        relay.wf(),
        relay.phase == RelayPhase::Relaying,
        relay.state_of(direction) == CopyState::Reading,
    ensures
        ({
            let next = datagram_relay_step(
                relay,
                RelayEvent::Io { direction, event: DatagramEvent::Received { len: 0, from } },
            );
            &&& next.1 == RelayAction::<DatagramRequest<A>>::Shutdown(Side::Inbound)
            &&& next.0.phase == RelayPhase::ClosingInbound
            &&& next.0.state_of(direction) == CopyState::Stopped(CopyOutcome::EndOfStream)
            &&& next.0.state_of(direction.reverse_of()) == relay.state_of(direction.reverse_of())
            &&& !(next.0.state_of(direction.reverse_of()) is Stopped)
        }),
{
}

/// Once a copy loop has stopped, nothing that either direction reports is
/// acted on: the relay stays as it is and the report is discarded.
pub proof fn lemma_reports_after_stop_are_discarded<A>(
    relay: Relay,
    direction: Direction,
    stream_event: StreamEvent,
    datagram_event: DatagramEvent<A>,
)
    requires
        relay.phase != RelayPhase::Relaying,
    ensures
        stream_relay_step(relay, RelayEvent::Io { direction, event: stream_event }) == (
            relay,
            RelayAction::<StreamRequest>::Discard,
        ),
        datagram_relay_step(relay, RelayEvent::Io { direction, event: datagram_event }) == (
            relay,
            RelayAction::<DatagramRequest<A>>::Discard,
        ),
{
}

} // verus!
