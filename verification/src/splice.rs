//! The splice: two byte pumps, one for each direction, that run side by
//! side once a session has handed over.
//!
//! A pump never touches a socket. It is told what happened on its two
//! sockets and answers with what to do next: read from one side, write
//! what was read to the other, and, when the reading side ends, close the
//! writing side of the other.

use vstd::prelude::*;

verus! {

/// The most bytes a pump asks for in one read.
pub const PUMP_BUFFER: usize = 8192;

/// Where a pump stands.
#[derive(Debug, Clone, Copy, PartialEq, Eq, Structural)]
pub enum PumpPhase {
    /// Nothing was asked for yet.
    Fresh,
    /// A read is under way.
    Reading,
    /// What was read is being written.
    Writing,
    /// The reading side ended; the writing side is being closed.
    Closing,
    /// The direction ended in good order.
    Finished,
    /// The direction ended on a failure or on an event out of turn.
    Aborted,
}

/// What the embedding program reports to a pump.
#[derive(Debug, Clone, PartialEq, Eq)]
pub enum PumpEvent {
    /// The last write or close completed.
    Done,
    /// The last read brought these bytes.
    Data(Vec<u8>),
    /// The last read found the end of the stream.
    Eof,
    /// The last action failed.
    Failed,
}

/// What a `PumpEvent` says, with its bytes as a sequence.
pub enum PumpEventView {
    Done,
    Data(Seq<u8>),
    Eof,
    Failed,
}

impl View for PumpEvent {
    type V = PumpEventView;

    open spec fn view(&self) -> PumpEventView {
        match self {
            PumpEvent::Done => PumpEventView::Done,
            PumpEvent::Data(b) => PumpEventView::Data(b@),
            PumpEvent::Eof => PumpEventView::Eof,
            PumpEvent::Failed => PumpEventView::Failed,
        }
    }
}

/// What the embedding program is to do next for a pump.
#[derive(Debug, Clone, PartialEq, Eq)]
pub enum PumpAction {
    /// Read at most this many bytes from the source.
    Read(usize),
    /// Write all of these bytes to the sink.
    Write(Vec<u8>),
    /// Close the writing side of the sink.
    Shutdown,
    /// Nothing more: this direction is over.
    Stop,
}

/// What a `PumpAction` asks for, with its bytes as a sequence.
pub enum PumpActionView {
    Read(usize),
    Write(Seq<u8>),
    Shutdown,
    Stop,
}

impl View for PumpAction {
    type V = PumpActionView;

    open spec fn view(&self) -> PumpActionView {
        match self {
            PumpAction::Read(n) => PumpActionView::Read(*n),
            PumpAction::Write(b) => PumpActionView::Write(b@),
            PumpAction::Shutdown => PumpActionView::Shutdown,
            PumpAction::Stop => PumpActionView::Stop,
        }
    }
}

/// The transition function of a pump. What a read brings is written as it
/// is, and only then is the next read asked for; the end of the stream
/// closes the writing side of the sink; a failure, or an event that does
/// not answer what was asked for, ends the direction.
pub open spec fn pump_next(phase: PumpPhase, e: PumpEventView) -> (PumpPhase, PumpActionView) {
    match (phase, e) {
        (PumpPhase::Fresh, PumpEventView::Done) => (
            PumpPhase::Reading,
            PumpActionView::Read(PUMP_BUFFER),
        ),
        (PumpPhase::Reading, PumpEventView::Data(b)) => (
            PumpPhase::Writing,
            PumpActionView::Write(b),
        ),
        (PumpPhase::Reading, PumpEventView::Eof) => (PumpPhase::Closing, PumpActionView::Shutdown),
        (PumpPhase::Writing, PumpEventView::Done) => (
            PumpPhase::Reading,
            PumpActionView::Read(PUMP_BUFFER),
        ),
        (PumpPhase::Closing, PumpEventView::Done) => (PumpPhase::Finished, PumpActionView::Stop),
        _ => (PumpPhase::Aborted, PumpActionView::Stop),
    }
}

/// One direction of a splice.
#[derive(Debug, Clone, Copy, PartialEq, Eq)]
pub struct Pump {
    pub phase: PumpPhase,
}

impl Pump {
    /// A pump that has not begun.
    pub fn new() -> (r: Pump)
        ensures
            r.phase == PumpPhase::Fresh,
    {
        Pump { phase: PumpPhase::Fresh }
    }

    /// Takes one event and answers with the next action, as `pump_next`
    /// says.
    pub fn advance(&mut self, event: PumpEvent) -> (action: PumpAction)
        ensures
            (final(self).phase, action@) == pump_next(old(self).phase, event@),
    {
        match self.phase {
            PumpPhase::Fresh => match event {
                PumpEvent::Done => {
                    self.phase = PumpPhase::Reading;
                    PumpAction::Read(PUMP_BUFFER)
                },
                _ => {
                    self.phase = PumpPhase::Aborted;
                    PumpAction::Stop
                },
            },
            PumpPhase::Reading => match event {
                PumpEvent::Data(b) => {
                    self.phase = PumpPhase::Writing;
                    PumpAction::Write(b)
                },
                PumpEvent::Eof => {
                    self.phase = PumpPhase::Closing;
                    PumpAction::Shutdown
                },
                _ => {
                    self.phase = PumpPhase::Aborted;
                    PumpAction::Stop
                },
            },
            PumpPhase::Writing => match event {
                PumpEvent::Done => {
                    self.phase = PumpPhase::Reading;
                    PumpAction::Read(PUMP_BUFFER)
                },
                _ => {
                    self.phase = PumpPhase::Aborted;
                    PumpAction::Stop
                },
            },
            PumpPhase::Closing => match event {
                PumpEvent::Done => {
                    self.phase = PumpPhase::Finished;
                    PumpAction::Stop
                },
                _ => {
                    self.phase = PumpPhase::Aborted;
                    PumpAction::Stop
                },
            },
            _ => {
                self.phase = PumpPhase::Aborted;
                PumpAction::Stop
            },
        }
    }

    /// Whether this direction ended in good order.
    pub fn finished(&self) -> (r: bool)
        ensures
            r == (self.phase == PumpPhase::Finished),
    {
        self.phase == PumpPhase::Finished
    }
}

/// The bytes that an event brings from the source.
pub open spec fn brought(e: PumpEventView) -> Seq<u8> {
    match e {
        PumpEventView::Data(b) => b,
        _ => Seq::empty(),
    }
}

/// The bytes that an action hands to the sink.
pub open spec fn handed(a: PumpActionView) -> Seq<u8> {
    match a {
        PumpActionView::Write(b) => b,
        _ => Seq::empty(),
    }
}

/// All the bytes that a run of events brought from the source, in order.
pub open spec fn received(events: Seq<PumpEventView>) -> Seq<u8>
    decreases events.len(),
{
    if events.len() == 0 {
        Seq::empty()
    } else {
        brought(events[0]) + received(events.drop_first())
    }
}

/// All the bytes that a pump in `phase` hands to the sink over a run of
/// events, in order.
pub open spec fn forwarded(phase: PumpPhase, events: Seq<PumpEventView>) -> Seq<u8>
    decreases events.len(),
{
    if events.len() == 0 {
        Seq::empty()
    } else {
        handed(pump_next(phase, events[0]).1) + forwarded(
            pump_next(phase, events[0]).0,
            events.drop_first(),
        )
    }
}

/// The phase of a pump that was in `phase` before a run of events.
pub open spec fn phase_after(phase: PumpPhase, events: Seq<PumpEventView>) -> PumpPhase
    decreases events.len(),
{
    if events.len() == 0 {
        phase
    } else {
        phase_after(pump_next(phase, events[0]).0, events.drop_first())
    }
}

/// A pump that was aborted stays aborted and hands nothing more to the
/// sink.
pub proof fn aborted_pump_is_silent(events: Seq<PumpEventView>)
    ensures
        forwarded(PumpPhase::Aborted, events) == Seq::<u8>::empty(),
        phase_after(PumpPhase::Aborted, events) == PumpPhase::Aborted,
    decreases events.len(),
{
    if events.len() > 0 {
        aborted_pump_is_silent(events.drop_first());
        assert(forwarded(PumpPhase::Aborted, events) =~= Seq::<u8>::empty());
    }
}

/// A splice keeps order and content. Whatever happens, what a pump has
/// handed to the sink is a prefix of what was read from the source: the
/// same bytes in the same order, with nothing put in, left out, repeated
/// or rewritten.
pub proof fn pump_forwards_a_prefix(phase: PumpPhase, events: Seq<PumpEventView>)
    ensures
        forwarded(phase, events).is_prefix_of(received(events)),
    decreases events.len(),
{
    if events.len() > 0 {
        let rest = events.drop_first();
        let next = pump_next(phase, events[0]);
        pump_forwards_a_prefix(next.0, rest);
        let f = forwarded(next.0, rest);
        let r = received(rest);
        if handed(next.1).len() > 0 {
            let b = handed(next.1);
            assert(brought(events[0]) == b);
            assert((b + f).is_prefix_of(b + r)) by {
                assert((b + r).subrange(0, (b + f).len() as int) =~= b + f);
            }
        } else {
            assert(handed(next.1) =~= Seq::<u8>::empty());
            assert(handed(next.1) + f =~= f);
            if brought(events[0]).len() > 0 {
                assert(next.0 == PumpPhase::Aborted);
                aborted_pump_is_silent(rest);
                assert(forwarded(phase, events) =~= Seq::<u8>::empty());
                assert(received(events).subrange(0, 0) =~= Seq::<u8>::empty());
            } else {
                assert(brought(events[0]) =~= Seq::<u8>::empty());
                assert(brought(events[0]) + r =~= r);
            }
        }
    }
}

/// A pump that has not been aborted has handed to the sink everything
/// that was read from the source.
pub proof fn orderly_pump_forwards_everything(phase: PumpPhase, events: Seq<PumpEventView>)
    requires
        phase_after(phase, events) != PumpPhase::Aborted,
    ensures
        forwarded(phase, events) == received(events),
    decreases events.len(),
{
    if events.len() > 0 {
        let rest = events.drop_first();
        let next = pump_next(phase, events[0]);
        if next.0 == PumpPhase::Aborted {
            aborted_pump_is_silent(rest);
        } else {
            orderly_pump_forwards_everything(next.0, rest);
            assert(handed(next.1) =~= brought(events[0]));
        }
    }
}

/// The end of the stream on one side closes the writing side of the
/// other, and with that the direction ends in good order.
pub proof fn end_of_stream_half_closes()
    ensures
        pump_next(PumpPhase::Reading, PumpEventView::Eof) == (
            PumpPhase::Closing,
            PumpActionView::Shutdown,
        ),
        pump_next(PumpPhase::Closing, PumpEventView::Done) == (
            PumpPhase::Finished,
            PumpActionView::Stop,
        ),
{
}

} // verus!
