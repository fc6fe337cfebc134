//! One direction of a relay: the copy loop.
//!
//! A copy loop moves chunks from a reader to a writer through one buffer of
//! [`RELAY_BUFFER_SIZE`] bytes.  The loop itself is the caller's: the caller
//! performs each request and reports what came of it, and the functions here
//! say what to do next.  At most one chunk is ever in flight, so a slow
//! writer holds the reader back.

use vstd::prelude::*;

verus! {

/// The size of the buffer of a copy loop, and so the most that one read can
/// report.
pub const RELAY_BUFFER_SIZE: usize = 0x4000;

/// How a copy loop came to its end.
#[derive(Clone, Copy, Debug, PartialEq, Eq, Structural)]
pub enum CopyOutcome {
    /// The reader reported a read of length zero: its peer is done sending.
    EndOfStream,
    /// A read, a write or a flush failed, or a report made no sense.
    Failed,
}

/// Where a copy loop stands.
#[derive(Clone, Copy, Debug, PartialEq, Eq, Structural)]
pub enum CopyState {
    /// A read is under way.  Every copy loop starts here.
    Reading,
    /// The chunk last read is being written.
    Writing,
    /// The chunk last written is being flushed.  Datagram loops never flush.
    Flushing,
    /// The loop is over.
    Stopped(CopyOutcome),
}

/// What a copy loop does next.
#[derive(Clone, Copy, Debug, PartialEq, Eq)]
pub enum CopyStep<R> {
    /// Go on with this request.
    Issue(R),
    /// Stop.
    Stop(CopyOutcome),
}

/// What came of the last request of a byte-stream copy loop.
#[derive(Clone, Copy, Debug, PartialEq, Eq, Structural)]
pub enum StreamEvent {
    /// The read filled the first `len` bytes of the buffer.
    Read {
        /// The number of bytes read.
        len: usize,
    },
    /// The chunk was written, all of it.
    Written,
    /// The writer was flushed.
    Flushed,
    /// The request failed.
    Failed,
}

/// A request of a byte-stream copy loop.
#[derive(Clone, Copy, Debug, PartialEq, Eq, Structural)]
pub enum StreamRequest {
    /// Read into the buffer.
    Read,
    /// Write the first `len` bytes of the buffer, all of them.
    Write {
        /// The length of the chunk.
        len: usize,
    },
    /// Flush the writer.
    Flush,
}

/// What came of the last request of a datagram copy loop.  `A` is the type
/// of a peer address.
#[derive(Clone, Copy, Debug, PartialEq, Eq)]
pub enum DatagramEvent<A> {
    /// A datagram of `len` bytes arrived in the buffer.
    Received {
        /// The length of the datagram.
        len: usize,
        /// The address that came with it.
        from: A,
    },
    /// The datagram was sent.
    Sent,
    /// The request failed.
    Failed,
}

/// A request of a datagram copy loop.  `A` is the type of a peer address.
#[derive(Clone, Copy, Debug, PartialEq, Eq)]
pub enum DatagramRequest<A> {
    /// Receive a datagram into the buffer.
    Receive,
    /// Send the first `len` bytes of the buffer.
    Send {
        /// The length of the datagram.
        len: usize,
        /// The address to send it to.
        to: A,
    },
}

/// Whether a read may report this length and have its chunk passed on.
pub open spec fn is_chunk(len: usize) -> bool {
    0 < len <= RELAY_BUFFER_SIZE
}

/// The state in which a copy loop is left by a step that stops it.
pub open spec fn stopped<R>(outcome: CopyOutcome) -> (CopyState, CopyStep<R>) {
    (CopyState::Stopped(outcome), CopyStep::Stop(outcome))
}

/// One step of a byte-stream copy loop.
///
/// A chunk that was read is written whole and then flushed before the next
/// read.  A read of length zero ends the loop cleanly.  A failure ends it,
/// and so does a report that does not answer the request under way, or a
/// read longer than the buffer.  A loop that is over stays over.
pub open spec fn stream_step(state: CopyState, event: StreamEvent) -> (
    CopyState,
    CopyStep<StreamRequest>,
) {
    match (state, event) {
        (CopyState::Stopped(outcome), _) => stopped(outcome),
        (CopyState::Reading, StreamEvent::Read { len }) => if len == 0 {
            stopped(CopyOutcome::EndOfStream)
        } else if len <= RELAY_BUFFER_SIZE {
            (CopyState::Writing, CopyStep::Issue(StreamRequest::Write { len }))
        } else {
            stopped(CopyOutcome::Failed)
        },
        (CopyState::Writing, StreamEvent::Written) => (
            CopyState::Flushing,
            CopyStep::Issue(StreamRequest::Flush),
        ),
        (CopyState::Flushing, StreamEvent::Flushed) => (
            CopyState::Reading,
            CopyStep::Issue(StreamRequest::Read),
        ),
        _ => stopped(CopyOutcome::Failed),
    }
}

/// One step of a datagram copy loop.
///
/// A datagram that was received is sent on to the address that came with
/// it, and then the next is received.  A datagram of length zero ends the
/// loop cleanly.  A failure ends it, and so does a report that does not
/// answer the request under way, or a datagram longer than the buffer.  A
/// loop that is over stays over.
pub open spec fn datagram_step<A>(state: CopyState, event: DatagramEvent<A>) -> (
    CopyState,
    CopyStep<DatagramRequest<A>>,
) {
    match (state, event) {
        (CopyState::Stopped(outcome), _) => stopped(outcome),
        (CopyState::Reading, DatagramEvent::Received { len, from }) => if len == 0 {
            stopped(CopyOutcome::EndOfStream)
        } else if len <= RELAY_BUFFER_SIZE {
            (CopyState::Writing, CopyStep::Issue(DatagramRequest::Send { len, to: from }))
        } else {
            stopped(CopyOutcome::Failed)
        },
        (CopyState::Writing, DatagramEvent::Sent) => (
            CopyState::Reading,
            CopyStep::Issue(DatagramRequest::Receive),
        ),
        _ => stopped(CopyOutcome::Failed),
    }
}

/// Advances a byte-stream copy loop by one report.
pub fn copy_tcp(state: CopyState, event: StreamEvent) -> (next: (
    CopyState,
    CopyStep<StreamRequest>,
))
    ensures
        next == stream_step(state, event),
{
    match state {
        CopyState::Stopped(outcome) => (state, CopyStep::Stop(outcome)),
        CopyState::Reading => match event {
            StreamEvent::Read { len } => {
                if len == 0 {
                    stop(CopyOutcome::EndOfStream)
                } else if len <= RELAY_BUFFER_SIZE {
                    (CopyState::Writing, CopyStep::Issue(StreamRequest::Write { len }))
                } else {
                    stop(CopyOutcome::Failed)
                }
            },
            _ => stop(CopyOutcome::Failed),
        },
        CopyState::Writing => match event {
            StreamEvent::Written => (CopyState::Flushing, CopyStep::Issue(StreamRequest::Flush)),
            _ => stop(CopyOutcome::Failed),
        },
        CopyState::Flushing => match event {
            StreamEvent::Flushed => (CopyState::Reading, CopyStep::Issue(StreamRequest::Read)),
            _ => stop(CopyOutcome::Failed),
        },
    }
}

/// Advances a datagram copy loop by one report.
pub fn copy_udp<A>(state: CopyState, event: DatagramEvent<A>) -> (next: (
    CopyState,
    CopyStep<DatagramRequest<A>>,
))
    ensures
        next == datagram_step(state, event),
{
    match state {
        CopyState::Stopped(outcome) => (state, CopyStep::Stop(outcome)),
        CopyState::Reading => match event {
            DatagramEvent::Received { len, from } => {
                if len == 0 {
                    stop(CopyOutcome::EndOfStream)
                } else if len <= RELAY_BUFFER_SIZE {
                    (CopyState::Writing, CopyStep::Issue(DatagramRequest::Send { len, to: from }))
                } else {
                    stop(CopyOutcome::Failed)
                }
            },
            _ => stop(CopyOutcome::Failed),
        },
        CopyState::Writing => match event {
            DatagramEvent::Sent => (CopyState::Reading, CopyStep::Issue(DatagramRequest::Receive)),
            _ => stop(CopyOutcome::Failed),
        },
        CopyState::Flushing => stop(CopyOutcome::Failed),
    }
}

/// Stops a copy loop.
fn stop<R>(outcome: CopyOutcome) -> (next: (CopyState, CopyStep<R>))
    ensures
        next == stopped::<R>(outcome),
{
    (CopyState::Stopped(outcome), CopyStep::Stop(outcome))
}

/// A run of a byte-stream copy loop over a series of reports: the state in
/// which it is left, and the step taken at each report.
pub open spec fn stream_run(state: CopyState, events: Seq<StreamEvent>) -> (
    CopyState,
    Seq<CopyStep<StreamRequest>>,
)
    decreases events.len(),
{
    if events.len() == 0 {
        (state, Seq::empty())
    } else {
        let stepped = stream_step(state, events.first());
        let rest = stream_run(stepped.0, events.drop_first());
        (rest.0, seq![stepped.1] + rest.1)
    }
}

/// The reports that a series of chunks gives rise to where nothing fails:
/// each is read, written and flushed in turn.
pub open spec fn chunk_reports(chunks: Seq<usize>) -> Seq<StreamEvent>
    decreases chunks.len(),
{
    if chunks.len() == 0 {
        Seq::empty()
    } else {
        seq![StreamEvent::Read { len: chunks.first() }, StreamEvent::Written, StreamEvent::Flushed]
            + chunk_reports(chunks.drop_first())
    }
}

/// The steps that pass a series of chunks on: each is written whole, then
/// flushed, and only then is the next read.
pub open spec fn chunk_steps(chunks: Seq<usize>) -> Seq<CopyStep<StreamRequest>>
    decreases chunks.len(),
{
    if chunks.len() == 0 {
        Seq::empty()
    } else {
        seq![
            CopyStep::Issue(StreamRequest::Write { len: chunks.first() }),
            CopyStep::Issue(StreamRequest::Flush),
            CopyStep::Issue(StreamRequest::Read),
        ] + chunk_steps(chunks.drop_first())
    }
}

/// A run of a datagram copy loop over a series of reports: the state in
/// which it is left, and the step taken at each report.
pub open spec fn datagram_run<A>(state: CopyState, events: Seq<DatagramEvent<A>>) -> (
    CopyState,
    Seq<CopyStep<DatagramRequest<A>>>,
)
    decreases events.len(),
{
    if events.len() == 0 {
        (state, Seq::empty())
    } else {
        let stepped = datagram_step(state, events.first());
        let rest = datagram_run(stepped.0, events.drop_first());
        (rest.0, seq![stepped.1] + rest.1)
    }
}

/// The reports that a series of datagrams gives rise to where nothing
/// fails: each is received, with its length and address, and sent.
pub open spec fn unit_reports<A>(units: Seq<(usize, A)>) -> Seq<DatagramEvent<A>>
    decreases units.len(),
{
    if units.len() == 0 {
        Seq::empty()
    } else {
        seq![
            DatagramEvent::Received { len: units.first().0, from: units.first().1 },
            DatagramEvent::Sent,
        ] + unit_reports(units.drop_first())
    }
}

/// The steps that pass a series of datagrams on: each is sent, in its
/// length, to the address that it came with, and then the next is received.
pub open spec fn unit_steps<A>(units: Seq<(usize, A)>) -> Seq<CopyStep<DatagramRequest<A>>>
    decreases units.len(),
{
    if units.len() == 0 {
        Seq::empty()
    } else {
        seq![
            CopyStep::Issue(DatagramRequest::Send { len: units.first().0, to: units.first().1 }),
            CopyStep::Issue(DatagramRequest::Receive),
        ] + unit_steps(units.drop_first())
    }
}

/// A run over a first report and more is the step at the first report
/// followed by the run over the rest.
proof fn lemma_stream_run_unfolds(state: CopyState, event: StreamEvent, more: Seq<StreamEvent>)
    ensures
        stream_run(state, seq![event] + more) == ({
            let stepped = stream_step(state, event);
            let rest = stream_run(stepped.0, more);
            (rest.0, seq![stepped.1] + rest.1)
        }),
{
    let events = seq![event] + more;
    assert(events.first() == event);
    assert(events.drop_first() =~= more);
}

/// A run over a first report and more is the step at the first report
/// followed by the run over the rest.
proof fn lemma_datagram_run_unfolds<A>(
    state: CopyState,
    event: DatagramEvent<A>,
    more: Seq<DatagramEvent<A>>,
)
    ensures
        datagram_run(state, seq![event] + more) == ({
            let stepped = datagram_step(state, event);
            let rest = datagram_run(stepped.0, more);
            (rest.0, seq![stepped.1] + rest.1)
        }),
{
    let events = seq![event] + more;
    assert(events.first() == event);
    assert(events.drop_first() =~= more);
}

/// Chunks pass through a byte-stream copy loop whole and in order.
///
/// Let a reader deliver any series of chunks that fit the buffer and then
/// report a read of length zero, and let no request fail.  Then the loop
/// asks for exactly these writes, in the order of the reads and each of the
/// full length of its chunk; it asks for a flush after each write and for
/// the next read only after that flush; and it stops cleanly at the read of
/// length zero.
pub proof fn lemma_stream_chunks_pass_in_order(chunks: Seq<usize>)
    requires
        forall|i: int| 0 <= i < chunks.len() ==> is_chunk(#[trigger] chunks[i]),
    ensures
        stream_run(CopyState::Reading, chunk_reports(chunks) + seq![StreamEvent::Read { len: 0 }])
            == (
            CopyState::Stopped(CopyOutcome::EndOfStream),
            chunk_steps(chunks) + seq![CopyStep::Stop(CopyOutcome::EndOfStream)],
        ),
    decreases chunks.len(),
{
    let end = seq![StreamEvent::Read { len: 0 }];
    let stop = seq![CopyStep::<StreamRequest>::Stop(CopyOutcome::EndOfStream)];
    if chunks.len() == 0 {
        lemma_stream_run_unfolds(CopyState::Reading, StreamEvent::Read { len: 0 }, Seq::empty());
        assert(seq![StreamEvent::Read { len: 0 }] + Seq::empty() =~= end);
        assert(chunk_reports(chunks) + end =~= end);
        assert(chunk_steps(chunks) + stop =~= stop);
        assert(stop + Seq::empty() =~= stop);
    } else {
        let len = chunks.first();
        let rest = chunks.drop_first();
        assert(is_chunk(chunks[0]));
        assert forall|i: int| 0 <= i < rest.len() implies is_chunk(#[trigger] rest[i]) by {
            assert(rest[i] == chunks[i + 1]);
        }
        lemma_stream_chunks_pass_in_order(rest);
        let tail = chunk_reports(rest) + end;
        let after_flush = seq![StreamEvent::Flushed] + tail;
        let after_write = seq![StreamEvent::Written] + after_flush;
        assert(chunk_reports(chunks) + end =~= seq![StreamEvent::Read { len }] + after_write);
        lemma_stream_run_unfolds(CopyState::Flushing, StreamEvent::Flushed, tail);
        lemma_stream_run_unfolds(CopyState::Writing, StreamEvent::Written, after_flush);
        lemma_stream_run_unfolds(CopyState::Reading, StreamEvent::Read { len }, after_write);
        assert(chunk_steps(chunks) + stop =~= seq![
            CopyStep::Issue(StreamRequest::Write { len }),
        ] + (seq![CopyStep::Issue(StreamRequest::Flush)] + (seq![
            CopyStep::Issue(StreamRequest::Read),
        ] + (chunk_steps(rest) + stop))));
    }
}

/// Datagrams pass through a datagram copy loop in order, each to the
/// address that it came with.
///
/// Let a reader deliver any series of datagrams that fit the buffer and
/// then report a datagram of length zero, from whatever address, and let no
/// request fail.  Then the loop asks for exactly these sends, in the order
/// of arrival, each in the full length of its datagram and to the address
/// that was reported with it; it asks for the next datagram only after the
/// send; and it stops cleanly at the datagram of length zero.
pub proof fn lemma_datagrams_pass_in_order<A>(units: Seq<(usize, A)>, last_from: A)
    requires
        forall|i: int| 0 <= i < units.len() ==> is_chunk(#[trigger] units[i].0),
    ensures
        datagram_run(
            CopyState::Reading,
            unit_reports(units) + seq![DatagramEvent::Received { len: 0, from: last_from }],
        ) == (
            CopyState::Stopped(CopyOutcome::EndOfStream),
            unit_steps(units) + seq![CopyStep::Stop(CopyOutcome::EndOfStream)],
        ),
    decreases units.len(),
{
    let last = DatagramEvent::Received { len: 0, from: last_from };
    let end = seq![last];
    let stop = seq![CopyStep::<DatagramRequest<A>>::Stop(CopyOutcome::EndOfStream)];
    if units.len() == 0 {
        lemma_datagram_run_unfolds(CopyState::Reading, last, Seq::empty());
        assert(seq![last] + Seq::empty() =~= end);
        assert(unit_reports(units) + end =~= end);
        assert(unit_steps(units) + stop =~= stop);
        assert(stop + Seq::empty() =~= stop);
    } else {
        let first = units.first();
        let rest = units.drop_first();
        assert(is_chunk(units[0].0));
        assert forall|i: int| 0 <= i < rest.len() implies is_chunk(#[trigger] rest[i].0) by {
            assert(rest[i] == units[i + 1]);
        }
        lemma_datagrams_pass_in_order(rest, last_from);
        let tail = unit_reports(rest) + end;
        let after_receive = seq![DatagramEvent::Sent] + tail;
        let received = DatagramEvent::Received { len: first.0, from: first.1 };
        assert(unit_reports(units) + end =~= seq![received] + after_receive);
        lemma_datagram_run_unfolds(CopyState::Writing, DatagramEvent::Sent, tail);
        lemma_datagram_run_unfolds(CopyState::Reading, received, after_receive);
        assert(unit_steps(units) + stop =~= seq![
            CopyStep::Issue(DatagramRequest::Send { len: first.0, to: first.1 }),
        ] + (seq![CopyStep::Issue(DatagramRequest::Receive)] + (unit_steps(rest) + stop)));
    }
}

} // verus!
