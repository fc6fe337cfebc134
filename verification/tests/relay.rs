use std::collections::VecDeque;

use veil_proxy::copy_tcp;
use veil_proxy::copy_udp;
use veil_proxy::relay_tcp;
use veil_proxy::relay_udp;
use veil_proxy::CopyOutcome;
use veil_proxy::CopyState;
use veil_proxy::CopyStep;
use veil_proxy::DatagramEvent;
use veil_proxy::DatagramRequest;
use veil_proxy::Direction;
use veil_proxy::Relay;
use veil_proxy::RelayAction;
use veil_proxy::RelayEvent;
use veil_proxy::RelayPhase;
use veil_proxy::Side;
use veil_proxy::StreamEvent;
use veil_proxy::StreamRequest;
use veil_proxy::RELAY_BUFFER_SIZE;

/// One end of a session, as the far side sees it.
struct Peer {
    /// What the peer sends, chunk by chunk.
    sending: VecDeque<Vec<u8>>,
    /// Whether the peer half-closes once it has sent everything.
    half_closes: bool,
    /// Whether the peer sends back whatever it gets.
    echoes: bool,
    /// What the peer got.
    received: Vec<u8>,
    /// What was written to the peer and not yet flushed.
    unflushed: Vec<u8>,
    /// How often the endpoint was shut down.
    shutdowns: usize,
}

impl Peer {
    fn new(sending: &[&[u8]], half_closes: bool, echoes: bool) -> Peer {
        Peer {
            sending: sending.iter().map(|chunk| chunk.to_vec()).collect(),
            half_closes,
            echoes,
            received: Vec::new(),
            unflushed: Vec::new(),
            shutdowns: 0,
        }
    }

    /// Whether a read from this peer would complete now.
    fn readable(&self) -> bool {
        !self.sending.is_empty() || self.half_closes
    }
}

/// A session in memory: two peers, one buffer for each direction, and the
/// request that is under way in each direction.
struct Session {
    relay: Relay,
    inbound: Peer,
    outbound: Peer,
    buffers: [Vec<u8>; 2],
    pending: [Option<StreamRequest>; 2],
    actions: Vec<RelayAction<StreamRequest>>,
}

fn slot(direction: Direction) -> usize {
    match direction {
        Direction::Uplink => 0,
        Direction::Downlink => 1,
    }
}

impl Session {
    fn new(inbound: Peer, outbound: Peer) -> Session {
        Session {
            relay: Relay::new(),
            inbound,
            outbound,
            buffers: [vec![0; RELAY_BUFFER_SIZE], vec![0; RELAY_BUFFER_SIZE]],
            pending: [Some(StreamRequest::Read), Some(StreamRequest::Read)],
            actions: Vec::new(),
        }
    }

    fn peer(&mut self, side: Side) -> &mut Peer {
        match side {
            Side::Inbound => &mut self.inbound,
            Side::Outbound => &mut self.outbound,
        }
    }

    /// Whether the request under way in a direction would complete now.
    fn ready(&mut self, direction: Direction) -> bool {
        match self.pending[slot(direction)] {
            None => false,
            Some(StreamRequest::Read) => self.peer(direction.source()).readable(),
            Some(_) => true,
        }
    }

    /// Completes the request under way in a direction and reports it.
    fn complete(&mut self, direction: Direction) -> RelayAction<StreamRequest> {
        let request = self.pending[slot(direction)].take().unwrap();
        let event = match request {
            StreamRequest::Read => {
                let chunk = self.peer(direction.source()).sending.pop_front().unwrap_or_default();
                self.buffers[slot(direction)][..chunk.len()].copy_from_slice(&chunk);
                StreamEvent::Read { len: chunk.len() }
            },
            StreamRequest::Write { len } => {
                let chunk = self.buffers[slot(direction)][..len].to_vec();
                self.peer(direction.sink()).unflushed.extend_from_slice(&chunk);
                StreamEvent::Written
            },
            StreamRequest::Flush => {
                let peer = self.peer(direction.sink());
                let chunk: Vec<u8> = peer.unflushed.drain(..).collect();
                peer.received.extend_from_slice(&chunk);
                if peer.echoes {
                    peer.sending.push_back(chunk);
                }
                StreamEvent::Flushed
            },
        };
        relay_tcp(&mut self.relay, RelayEvent::Io { direction, event })
    }

    /// Carries the session through to its end.  Where both directions could
    /// go on, the one named first does.
    fn run(&mut self, first: Direction) {
        let order = [first, first.reverse()];
        let mut action = loop {
            let direction = order
                .into_iter()
                .find(|direction| self.ready(*direction))
                .expect("a session in which nothing can go on");
            let action = self.complete(direction);
            self.actions.push(action);
            match action {
                RelayAction::Io { direction, request } => {
                    self.pending[slot(direction)] = Some(request);
                },
                _ => break action,
            }
        };
        while let RelayAction::Shutdown(side) = action {
            self.peer(side).shutdowns += 1;
            action = relay_tcp(&mut self.relay, RelayEvent::ShutdownDone { clean: true });
            self.actions.push(action);
        }
        assert_eq!(action, RelayAction::End);
    }
}

#[test]
fn buffer_is_sixteen_kibibytes() {
    assert_eq!(RELAY_BUFFER_SIZE, 16 * 1024);
}

#[test]
fn round_trip_through_an_echoing_peer() {
    let sent: [&[u8]; 3] = [b"hello, ", b"proxy", b"!"];
    let inbound = Peer::new(&sent, true, false);
    let outbound = Peer::new(&[], false, true);
    let mut session = Session::new(inbound, outbound);
    session.run(Direction::Downlink);
    assert_eq!(session.outbound.received, b"hello, proxy!");
    assert_eq!(session.inbound.received, b"hello, proxy!");
    assert_eq!(session.inbound.shutdowns, 1);
    assert_eq!(session.outbound.shutdowns, 1);
    assert!(session.relay.is_ended());
    assert_eq!(session.relay.ended_by(), Some((Direction::Uplink, CopyOutcome::EndOfStream)));
    let writes: Vec<(Direction, usize)> = session
        .actions
        .iter()
        .filter_map(|action| match action {
            RelayAction::Io { direction, request: StreamRequest::Write { len } } => {
                Some((*direction, *len))
            },
            _ => None,
        })
        .collect();
    assert_eq!(
        writes,
        vec![
            (Direction::Uplink, 7),
            (Direction::Downlink, 7),
            (Direction::Uplink, 5),
            (Direction::Downlink, 5),
            (Direction::Uplink, 1),
            (Direction::Downlink, 1),
        ]
    );
}

#[test]
fn round_trip_of_a_full_buffer() {
    let chunk: Vec<u8> = (0..RELAY_BUFFER_SIZE).map(|i| (i % 251) as u8).collect();
    let sent: [&[u8]; 2] = [&chunk, &chunk[..100]];
    let inbound = Peer::new(&sent, true, false);
    let outbound = Peer::new(&[], false, true);
    let mut session = Session::new(inbound, outbound);
    session.run(Direction::Downlink);
    let mut all = chunk.clone();
    all.extend_from_slice(&chunk[..100]);
    assert_eq!(session.outbound.received, all);
    assert_eq!(session.inbound.received, all);
    assert_eq!(session.inbound.shutdowns, 1);
    assert_eq!(session.outbound.shutdowns, 1);
}

#[test]
fn early_half_close_of_the_outbound_side_ends_the_session() {
    let sent: [&[u8]; 4] = [b"one", b"two", b"three", b"four"];
    let inbound = Peer::new(&sent, false, false);
    let outbound = Peer::new(&[], true, false);
    let mut session = Session::new(inbound, outbound);
    session.run(Direction::Downlink);
    assert_eq!(session.actions[0], RelayAction::Shutdown(Side::Inbound));
    assert_eq!(session.outbound.received, b"");
    assert_eq!(session.inbound.sending.len(), 4);
    assert_eq!(session.inbound.shutdowns, 1);
    assert_eq!(session.outbound.shutdowns, 1);
    assert!(session.relay.is_ended());
    assert_eq!(session.relay.ended_by(), Some((Direction::Downlink, CopyOutcome::EndOfStream)));
    assert_eq!(session.relay.state(Direction::Uplink), CopyState::Reading);
}

#[test]
fn half_close_in_the_middle_of_a_write_abandons_the_chunk() {
    let mut relay = Relay::new();
    let action = relay_tcp(
        &mut relay,
        RelayEvent::Io { direction: Direction::Uplink, event: StreamEvent::Read { len: 512 } },
    );
    assert_eq!(
        action,
        RelayAction::Io { direction: Direction::Uplink, request: StreamRequest::Write { len: 512 } }
    );
    let action = relay_tcp(
        &mut relay,
        RelayEvent::Io { direction: Direction::Downlink, event: StreamEvent::Read { len: 0 } },
    );
    assert_eq!(action, RelayAction::Shutdown(Side::Inbound));
    assert_eq!(relay.phase, RelayPhase::ClosingInbound);
    assert_eq!(relay.uplink, CopyState::Writing);
    assert_eq!(relay.downlink, CopyState::Stopped(CopyOutcome::EndOfStream));
    let action = relay_tcp(
        &mut relay,
        RelayEvent::Io { direction: Direction::Uplink, event: StreamEvent::Written },
    );
    assert_eq!(action, RelayAction::Discard);
    assert_eq!(relay.uplink, CopyState::Writing);
    assert_eq!(relay_tcp(&mut relay, RelayEvent::ShutdownDone { clean: true }), RelayAction::Shutdown(Side::Outbound));
    assert_eq!(relay_tcp(&mut relay, RelayEvent::ShutdownDone { clean: true }), RelayAction::End);
    assert_eq!(relay.phase, RelayPhase::Ended);
}

#[test]
fn failed_shutdowns_do_not_stop_the_teardown() {
    let mut relay = Relay::new();
    let action = relay_tcp(
        &mut relay,
        RelayEvent::Io { direction: Direction::Uplink, event: StreamEvent::Failed },
    );
    assert_eq!(action, RelayAction::Shutdown(Side::Inbound));
    assert_eq!(relay.ended_by(), Some((Direction::Uplink, CopyOutcome::Failed)));
    assert!(!relay.is_ended());
    assert_eq!(
        relay_tcp(&mut relay, RelayEvent::ShutdownDone { clean: false }),
        RelayAction::Shutdown(Side::Outbound)
    );
    assert!(!relay.is_ended());
    assert_eq!(relay_tcp(&mut relay, RelayEvent::ShutdownDone { clean: false }), RelayAction::End);
    assert!(relay.is_ended());
    assert_eq!(relay_tcp(&mut relay, RelayEvent::ShutdownDone { clean: true }), RelayAction::End);
    assert_eq!(
        relay_tcp(
            &mut relay,
            RelayEvent::Io { direction: Direction::Downlink, event: StreamEvent::Read { len: 1 } }
        ),
        RelayAction::Discard
    );
}

#[test]
fn shutdown_report_without_a_shutdown_is_discarded() {
    let mut relay = Relay::new();
    assert_eq!(relay_tcp(&mut relay, RelayEvent::ShutdownDone { clean: true }), RelayAction::Discard);
    assert_eq!(relay, Relay::new());
    assert_eq!(relay.ended_by(), None);
    let action: RelayAction<DatagramRequest<u8>> =
        relay_udp(&mut relay, RelayEvent::ShutdownDone { clean: true });
    assert_eq!(action, RelayAction::Discard);
    assert_eq!(relay, Relay::new());
}

#[test]
fn write_failure_ends_the_session() {
    let mut relay = Relay::new();
    relay_tcp(
        &mut relay,
        RelayEvent::Io { direction: Direction::Downlink, event: StreamEvent::Read { len: 9 } },
    );
    let action = relay_tcp(
        &mut relay,
        RelayEvent::Io { direction: Direction::Downlink, event: StreamEvent::Failed },
    );
    assert_eq!(action, RelayAction::Shutdown(Side::Inbound));
    assert_eq!(relay.ended_by(), Some((Direction::Downlink, CopyOutcome::Failed)));
    assert_eq!(relay.uplink, CopyState::Reading);
}

#[test]
fn stream_copy_loop_step_by_step() {
    assert_eq!(
        copy_tcp(CopyState::Reading, StreamEvent::Read { len: 1 }),
        (CopyState::Writing, CopyStep::Issue(StreamRequest::Write { len: 1 }))
    );
    assert_eq!(
        copy_tcp(CopyState::Reading, StreamEvent::Read { len: RELAY_BUFFER_SIZE }),
        (CopyState::Writing, CopyStep::Issue(StreamRequest::Write { len: RELAY_BUFFER_SIZE }))
    );
    assert_eq!(
        copy_tcp(CopyState::Writing, StreamEvent::Written),
        (CopyState::Flushing, CopyStep::Issue(StreamRequest::Flush))
    );
    assert_eq!(
        copy_tcp(CopyState::Flushing, StreamEvent::Flushed),
        (CopyState::Reading, CopyStep::Issue(StreamRequest::Read))
    );
    assert_eq!(
        copy_tcp(CopyState::Reading, StreamEvent::Read { len: 0 }),
        (CopyState::Stopped(CopyOutcome::EndOfStream), CopyStep::Stop(CopyOutcome::EndOfStream))
    );
}

#[test]
fn stream_copy_loop_fails_on_what_it_cannot_use() {
    let failed = (CopyState::Stopped(CopyOutcome::Failed), CopyStep::Stop(CopyOutcome::Failed));
    assert_eq!(copy_tcp(CopyState::Reading, StreamEvent::Read { len: RELAY_BUFFER_SIZE + 1 }), failed);
    assert_eq!(copy_tcp(CopyState::Reading, StreamEvent::Read { len: usize::MAX }), failed);
    assert_eq!(copy_tcp(CopyState::Reading, StreamEvent::Failed), failed);
    assert_eq!(copy_tcp(CopyState::Writing, StreamEvent::Failed), failed);
    assert_eq!(copy_tcp(CopyState::Flushing, StreamEvent::Failed), failed);
    assert_eq!(copy_tcp(CopyState::Reading, StreamEvent::Written), failed);
    assert_eq!(copy_tcp(CopyState::Reading, StreamEvent::Flushed), failed);
    assert_eq!(copy_tcp(CopyState::Writing, StreamEvent::Read { len: 4 }), failed);
    assert_eq!(copy_tcp(CopyState::Writing, StreamEvent::Flushed), failed);
    assert_eq!(copy_tcp(CopyState::Flushing, StreamEvent::Written), failed);
    assert_eq!(copy_tcp(CopyState::Flushing, StreamEvent::Read { len: 0 }), failed);
}

#[test]
fn stopped_copy_loop_stays_stopped() {
    for outcome in [CopyOutcome::EndOfStream, CopyOutcome::Failed] {
        for event in [
            StreamEvent::Read { len: 3 },
            StreamEvent::Read { len: 0 },
            StreamEvent::Written,
            StreamEvent::Flushed,
            StreamEvent::Failed,
        ] {
            assert_eq!(
                copy_tcp(CopyState::Stopped(outcome), event),
                (CopyState::Stopped(outcome), CopyStep::Stop(outcome))
            );
        }
        assert_eq!(
            copy_udp(CopyState::Stopped(outcome), DatagramEvent::Received { len: 3, from: 'a' }),
            (CopyState::Stopped(outcome), CopyStep::Stop(outcome))
        );
    }
}

#[test]
fn datagram_copy_loop_step_by_step() {
    assert_eq!(
        copy_udp(CopyState::Reading, DatagramEvent::Received { len: 48, from: "10.0.0.1:53" }),
        (
            CopyState::Writing,
            CopyStep::Issue(DatagramRequest::Send { len: 48, to: "10.0.0.1:53" })
        )
    );
    assert_eq!(
        copy_udp(CopyState::Writing, DatagramEvent::<&str>::Sent),
        (CopyState::Reading, CopyStep::Issue(DatagramRequest::Receive))
    );
    assert_eq!(
        copy_udp(CopyState::Reading, DatagramEvent::Received { len: 0, from: "10.0.0.1:53" }),
        (CopyState::Stopped(CopyOutcome::EndOfStream), CopyStep::Stop(CopyOutcome::EndOfStream))
    );
}

#[test]
fn datagram_copy_loop_fails_on_what_it_cannot_use() {
    let failed = (CopyState::Stopped(CopyOutcome::Failed), CopyStep::Stop(CopyOutcome::Failed));
    assert_eq!(
        copy_udp(CopyState::Reading, DatagramEvent::Received { len: RELAY_BUFFER_SIZE + 1, from: 7u16 }),
        failed
    );
    assert_eq!(copy_udp(CopyState::Reading, DatagramEvent::<u16>::Sent), failed);
    assert_eq!(copy_udp(CopyState::Reading, DatagramEvent::<u16>::Failed), failed);
    assert_eq!(copy_udp(CopyState::Writing, DatagramEvent::<u16>::Failed), failed);
    assert_eq!(copy_udp(CopyState::Writing, DatagramEvent::Received { len: 1, from: 7u16 }), failed);
    assert_eq!(copy_udp(CopyState::Flushing, DatagramEvent::<u16>::Sent), failed);
}

#[test]
fn datagrams_go_to_the_address_they_came_with() {
    let mut relay = Relay::new();
    let arrivals = [(Direction::Uplink, 120usize, "a:1"), (Direction::Downlink, 64, "b:2"), (Direction::Uplink, 8, "c:3")];
    for (direction, len, from) in arrivals {
        let action = relay_udp(
            &mut relay,
            RelayEvent::Io { direction, event: DatagramEvent::Received { len, from } },
        );
        assert_eq!(
            action,
            RelayAction::Io { direction, request: DatagramRequest::Send { len, to: from } }
        );
        let action =
            relay_udp(&mut relay, RelayEvent::Io { direction, event: DatagramEvent::<&str>::Sent });
        assert_eq!(action, RelayAction::Io { direction, request: DatagramRequest::Receive });
    }
    assert_eq!(relay, Relay::new());
}

#[test]
fn zero_length_datagram_ends_its_direction_and_the_session() {
    let mut relay = Relay::new();
    let action = relay_udp(
        &mut relay,
        RelayEvent::Io {
            direction: Direction::Downlink,
            event: DatagramEvent::Received { len: 700, from: 1u8 },
        },
    );
    assert_eq!(
        action,
        RelayAction::Io {
            direction: Direction::Downlink,
            request: DatagramRequest::Send { len: 700, to: 1u8 }
        }
    );
    let action = relay_udp(
        &mut relay,
        RelayEvent::Io {
            direction: Direction::Uplink,
            event: DatagramEvent::Received { len: 0, from: 2u8 },
        },
    );
    assert_eq!(action, RelayAction::Shutdown(Side::Inbound));
    assert_eq!(relay.uplink, CopyState::Stopped(CopyOutcome::EndOfStream));
    assert_eq!(relay.downlink, CopyState::Writing);
    assert_eq!(relay.phase, RelayPhase::ClosingInbound);
    let action = relay_udp(
        &mut relay,
        RelayEvent::Io { direction: Direction::Downlink, event: DatagramEvent::<u8>::Sent },
    );
    assert_eq!(action, RelayAction::Discard);
    let action: RelayAction<DatagramRequest<u8>> =
        relay_udp(&mut relay, RelayEvent::ShutdownDone { clean: false });
    assert_eq!(action, RelayAction::Shutdown(Side::Outbound));
    let action: RelayAction<DatagramRequest<u8>> =
        relay_udp(&mut relay, RelayEvent::ShutdownDone { clean: true });
    assert_eq!(action, RelayAction::End);
    assert!(relay.is_ended());
    assert_eq!(relay.ended_by(), Some((Direction::Uplink, CopyOutcome::EndOfStream)));
}

#[test]
fn directions_and_sides() {
    assert_eq!(Direction::Uplink.source(), Side::Inbound);
    assert_eq!(Direction::Uplink.sink(), Side::Outbound);
    assert_eq!(Direction::Downlink.source(), Side::Outbound);
    assert_eq!(Direction::Downlink.sink(), Side::Inbound);
    assert_eq!(Direction::Uplink.reverse(), Direction::Downlink);
    assert_eq!(Direction::Downlink.reverse(), Direction::Uplink);
}
