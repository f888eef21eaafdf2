//! Stream negotiation: the decisions between opening a device and holding a
//! capture stream that delivers the one encoding this crate works with.
//!
//! The caller performs each [`Action`] on the device and reports what came of
//! it as an [`Event`]; [`advance`] decides what follows.

use vstd::prelude::*;

verus! {

/// The four-character code of motion JPEG, `MJPG`, as the little-endian
/// number that drivers use.
pub const MJPG: u32 = 0x4750_4A4D;

/// How many capture buffers a stream is given: enough to keep one frame in
/// flight while another is processed, few enough to add little latency.
pub const BUFFER_COUNT: u32 = 4;

/// The number that stands for a four-character code.
pub open spec fn fourcc_code(a: u8, b: u8, c: u8, d: u8) -> int {
    a + 0x100 * b + 0x1_0000 * c + 0x100_0000 * d
}

/// Packs a four-character code into its little-endian number.
pub fn fourcc(a: u8, b: u8, c: u8, d: u8) -> (code: u32)
    ensures
        code == fourcc_code(a, b, c, d),
{
    let low: u32 = a as u32 + 0x100 * (b as u32);
    let high: u32 = c as u32 + 0x100 * (d as u32);
    low + 0x1_0000 * high
}

/// The part of a negotiation that an error belongs to.
#[derive(Clone, Copy, Debug, PartialEq, Eq, Structural)]
pub enum Step {
    Open,
    Format,
    BufferAlloc,
}

/// Why a device could not be brought to stream.
#[derive(Clone, Copy, Debug, PartialEq, Eq, Structural)]
pub enum NegotiationError {
    /// The device is busy or cannot be reached.
    Open,
    /// The device did not report or did not take a format.
    Format,
    /// The device took the format but committed another encoding.
    EncodingMismatch { committed: u32 },
    /// The device did not report its capture parameters.
    Parameters,
    /// The capture buffers could not be set up.
    BufferAlloc,
}

impl NegotiationError {
    /// The step that failed.
    pub open spec fn step(self) -> Step {
        match self {
            NegotiationError::Open => Step::Open,
            NegotiationError::Format => Step::Format,
            NegotiationError::EncodingMismatch { .. } => Step::Format,
            NegotiationError::Parameters => Step::Format,
            NegotiationError::BufferAlloc => Step::BufferAlloc,
        }
    }

    /// Executable form of [`NegotiationError::step`].
    pub fn failed_step(self) -> (s: Step)
        ensures
            s == self.step(),
    {
        match self {
            NegotiationError::Open => Step::Open,
            NegotiationError::Format => Step::Format,
            NegotiationError::EncodingMismatch { .. } => Step::Format,
            NegotiationError::Parameters => Step::Format,
            NegotiationError::BufferAlloc => Step::BufferAlloc,
        }
    }
}

/// What a device delivers: frame size and encoding.
#[derive(Clone, Copy, Debug, PartialEq, Eq, Structural)]
pub struct FrameFormat {
    pub width: u32,
    pub height: u32,
    pub encoding: u32,
}

/// Where a negotiation stands.
#[derive(Clone, Copy, Debug, PartialEq, Eq, Structural)]
pub enum Phase {
    /// Waiting for the device to open.
    Opening,
    /// Waiting for the device's current format.
    ReadingFormat,
    /// Waiting for the format the device committed.
    Committing,
    /// Waiting for the capture parameters of the committed format.
    ReadingParameters,
    /// Waiting for the capture buffers.
    Allocating,
    /// The stream is up and bound to [`MJPG`].
    Streaming,
    /// The attempt is over.
    Failed(NegotiationError),
}

/// What came of the last action.
#[derive(Clone, Copy, Debug, PartialEq, Eq, Structural)]
pub enum Event {
    /// The device is open.
    Opened,
    /// The device reported its current format.
    Format(FrameFormat),
    /// The device took a format and, read back, reports this one.
    Committed(FrameFormat),
    /// The device reported its capture parameters.
    Parameters,
    /// The capture buffers are set up.
    Allocated,
    /// The action failed.
    Failed,
}

/// What the caller does next.
#[derive(Clone, Copy, Debug, PartialEq, Eq, Structural)]
pub enum Action {
    /// Read the device's current format.
    ReadFormat,
    /// Set this format and read back what the device committed.
    Commit(FrameFormat),
    /// Read the capture parameters that go with the committed format.
    ReadParameters,
    /// Set up a capture stream with this many buffers.
    Allocate { buffers: u32 },
    /// Use the stream.
    Stream,
    /// Give up on this device and report the error.
    Abort(NegotiationError),
}

/// The error that ends a negotiation when the action awaited in `phase` does
/// not deliver what it should.
pub open spec fn failure_in(phase: Phase) -> NegotiationError {
    match phase {
        Phase::Opening => NegotiationError::Open,
        Phase::ReadingFormat => NegotiationError::Format,
        Phase::Committing => NegotiationError::Format,
        Phase::ReadingParameters => NegotiationError::Parameters,
        Phase::Allocating => NegotiationError::BufferAlloc,
        Phase::Streaming => NegotiationError::BufferAlloc,
        Phase::Failed(e) => e,
    }
}

/// The phase that follows `phase` on `event`.
pub open spec fn next_phase(phase: Phase, event: Event) -> Phase {
    match (phase, event) {
        (Phase::Opening, Event::Opened) => Phase::ReadingFormat,
        (Phase::ReadingFormat, Event::Format(_)) => Phase::Committing,
        (Phase::Committing, Event::Committed(got)) => if got.encoding == MJPG {
            Phase::ReadingParameters
        } else {
            Phase::Failed(NegotiationError::EncodingMismatch { committed: got.encoding })
        },
        (Phase::ReadingParameters, Event::Parameters) => Phase::Allocating,
        (Phase::Allocating, Event::Allocated) => Phase::Streaming,
        (Phase::Streaming, _) => Phase::Streaming,
        _ => Phase::Failed(failure_in(phase)),
    }
}

/// The action that `phase` waits for after `event` led to it.
pub open spec fn next_action(phase: Phase, event: Event) -> Action {
    match next_phase(phase, event) {
        Phase::Opening => Action::ReadFormat,
        Phase::ReadingFormat => Action::ReadFormat,
        Phase::Committing => match event {
            Event::Format(current) => Action::Commit(
                FrameFormat { width: current.width, height: current.height, encoding: MJPG },
            ),
            _ => Action::ReadFormat,
        },
        Phase::ReadingParameters => Action::ReadParameters,
        Phase::Allocating => Action::Allocate { buffers: BUFFER_COUNT },
        Phase::Streaming => Action::Stream,
        Phase::Failed(e) => Action::Abort(e),
    }
}

/// The phase reached from `phase` by a sequence of events.
pub open spec fn run(phase: Phase, events: Seq<Event>) -> Phase
    decreases events.len(),
{
    if events.len() == 0 {
        phase
    } else {
        next_phase(run(phase, events.drop_last()), events.last())
    }
}

/// The phase a negotiation starts in; the caller's first action is to open
/// the device.
pub fn begin() -> (phase: Phase)
    ensures
        phase == Phase::Opening,
{
    Phase::Opening
}

/// Decides what follows `event` in `phase`. The device is opened, its format
/// is read and committed with [`MJPG`] as its encoding, its capture
/// parameters are read, and its buffers are set up, in that order. Every
/// event but the one that `phase` waits for ends the attempt with the error
/// of the step that was under way; a committed encoding other than [`MJPG`]
/// ends it as well.
pub fn advance(phase: Phase, event: Event) -> (next: (Phase, Action))
    ensures
        next.0 == next_phase(phase, event),
        next.1 == next_action(phase, event),
{
    match phase {
        Phase::Opening => match event {
            Event::Opened => (Phase::ReadingFormat, Action::ReadFormat),
            _ => (Phase::Failed(NegotiationError::Open), Action::Abort(NegotiationError::Open)),
        },
        Phase::ReadingFormat => match event {
            Event::Format(current) => (
                Phase::Committing,
                Action::Commit(
                    FrameFormat { width: current.width, height: current.height, encoding: MJPG },
                ),
            ),
            _ => (Phase::Failed(NegotiationError::Format), Action::Abort(NegotiationError::Format)),
        },
        Phase::Committing => match event {
            Event::Committed(got) => {
                if got.encoding == MJPG {
                    (Phase::ReadingParameters, Action::ReadParameters)
                } else {
                    let e = NegotiationError::EncodingMismatch { committed: got.encoding };
                    (Phase::Failed(e), Action::Abort(e))
                }
            },
            _ => (Phase::Failed(NegotiationError::Format), Action::Abort(NegotiationError::Format)),
        },
        Phase::ReadingParameters => match event {
            Event::Parameters => (Phase::Allocating, Action::Allocate { buffers: BUFFER_COUNT }),
            _ => (
                Phase::Failed(NegotiationError::Parameters),
                Action::Abort(NegotiationError::Parameters),
            ),
        },
        Phase::Allocating => match event {
            Event::Allocated => (Phase::Streaming, Action::Stream),
            _ => (
                Phase::Failed(NegotiationError::BufferAlloc),
                Action::Abort(NegotiationError::BufferAlloc),
            ),
        },
        Phase::Streaming => (Phase::Streaming, Action::Stream),
        Phase::Failed(e) => (Phase::Failed(e), Action::Abort(e)),
    }
}

/// What a finished negotiation amounts to: a stream, or the error that ended
/// it. `None` while the negotiation is still under way.
pub fn outcome(phase: Phase) -> (r: Option<Result<(), NegotiationError>>)
    ensures
        r == match phase {
            Phase::Streaming => Some(Ok::<(), NegotiationError>(())),
            Phase::Failed(e) => Some(Err::<(), NegotiationError>(e)),
            _ => None::<Result<(), NegotiationError>>,
        },
{
    match phase {
        Phase::Streaming => Some(Ok(())),
        Phase::Failed(e) => Some(Err(e)),
        _ => None,
    }
}

/// The code of `MJPG` is the one its four characters pack to.
pub proof fn lemma_mjpg_code()
    ensures
        MJPG == fourcc_code(0x4D, 0x4A, 0x50, 0x47),
{
}

/// A failed negotiation stays failed, with the error it failed with.
pub proof fn lemma_failure_is_final(e: NegotiationError, events: Seq<Event>)
    ensures
        run(Phase::Failed(e), events) == Phase::Failed(e),
    decreases events.len(),
{
    if events.len() > 0 {
        lemma_failure_is_final(e, events.drop_last());
    }
}

/// An error names the step in which it arose: a failure while opening is an
/// open error, one while the format is read or committed or while the
/// parameters are read is a format error, one while buffers are set up is a
/// buffer error.
pub proof fn lemma_error_names_step(phase: Phase, event: Event)
    requires
        !(phase is Failed),
        next_phase(phase, event) is Failed,
    ensures
        phase == Phase::Opening ==> next_phase(phase, event)->Failed_0.step() == Step::Open,
        phase == Phase::ReadingFormat || phase == Phase::Committing || phase
            == Phase::ReadingParameters ==> next_phase(phase, event)->Failed_0.step()
            == Step::Format,
        phase == Phase::Allocating ==> next_phase(phase, event)->Failed_0.step()
            == Step::BufferAlloc,
        phase != Phase::Streaming,
{
}

/// A step fails the negotiation exactly when it does not deliver what it
/// should, or when the device committed another encoding than [`MJPG`].
pub proof fn lemma_failure_exactly(phase: Phase, event: Event)
    requires
        !(phase is Failed),
        phase != Phase::Streaming,
    ensures
        next_phase(phase, event) is Failed <==> !({
            ||| phase == Phase::Opening && event == Event::Opened
            ||| phase == Phase::ReadingFormat && event is Format
            ||| phase == Phase::Committing && (event matches Event::Committed(got) && got.encoding
                == MJPG)
            ||| phase == Phase::ReadingParameters && event == Event::Parameters
            ||| phase == Phase::Allocating && event == Event::Allocated
        }),
{
}

/// A negotiation that ends in a stream went through exactly these events:
/// the device opened, reported a format, committed [`MJPG`], reported its
/// parameters, and set up its buffers. No stream is ever bound to another
/// encoding.
pub proof fn lemma_stream_means_mjpg(events: Seq<Event>)
    requires
        run(Phase::Opening, events) == Phase::Streaming,
    ensures
        events.len() >= 5,
        events[0] == Event::Opened,
        events[1] is Format,
        events[2] matches Event::Committed(got) && got.encoding == MJPG,
        events[3] == Event::Parameters,
        events[4] == Event::Allocated,
{
    lemma_prefix_phase(events, events.len() as int);
}

/// The five events of a negotiation that goes through lead to a stream.
pub proof fn lemma_five_steps_stream(current: FrameFormat, committed: FrameFormat)
    requires
        committed.encoding == MJPG,
    ensures
        run(
            Phase::Opening,
            seq![
                Event::Opened,
                Event::Format(current),
                Event::Committed(committed),
                Event::Parameters,
                Event::Allocated,
            ],
        ) == Phase::Streaming,
{
    let events = seq![
        Event::Opened,
        Event::Format(current),
        Event::Committed(committed),
        Event::Parameters,
        Event::Allocated,
    ];
    assert(events.take(1).drop_last() == events.take(0));
    assert(events.take(2).drop_last() == events.take(1));
    assert(events.take(3).drop_last() == events.take(2));
    assert(events.take(4).drop_last() == events.take(3));
    assert(events.take(5).drop_last() == events.take(4));
    assert(events.take(5) == events);
    assert(run(Phase::Opening, events.take(0)) == Phase::Opening);
    assert(run(Phase::Opening, events.take(1)) == Phase::ReadingFormat);
    assert(run(Phase::Opening, events.take(2)) == Phase::Committing);
    assert(run(Phase::Opening, events.take(3)) == Phase::ReadingParameters);
    assert(run(Phase::Opening, events.take(4)) == Phase::Allocating);
}

/// What the first `n` events of a run from the start say of it, once they
/// have not failed it.
spec fn went_through(events: Seq<Event>, n: int) -> bool {
    &&& n >= 1 ==> events[0] == Event::Opened
    &&& n >= 2 ==> events[1] is Format
    &&& n >= 3 ==> (events[2] matches Event::Committed(got) && got.encoding == MJPG)
    &&& n >= 4 ==> events[3] == Event::Parameters
    &&& n >= 5 ==> events[4] == Event::Allocated
}

/// The phase that `n` steps forward lead to.
spec fn phase_after(n: int) -> Phase {
    if n <= 0 {
        Phase::Opening
    } else if n == 1 {
        Phase::ReadingFormat
    } else if n == 2 {
        Phase::Committing
    } else if n == 3 {
        Phase::ReadingParameters
    } else if n == 4 {
        Phase::Allocating
    } else {
        Phase::Streaming
    }
}

/// Where a run stands after its first `n` events: it has either failed or
/// taken one step forward for each event, up to the stream.
proof fn lemma_prefix_phase(events: Seq<Event>, n: int)
    requires
        0 <= n <= events.len(),
    ensures
        run(Phase::Opening, events.take(n)) is Failed || (run(Phase::Opening, events.take(n))
            == phase_after(n) && went_through(events, n)),
        n == events.len() ==> events.take(n) == events,
    decreases n,
{
    if n > 0 {
        lemma_prefix_phase(events, n - 1);
        let now = events.take(n);
        assert(now.drop_last() == events.take(n - 1));
        assert(now.last() == events[n - 1]);
    }
    if n == events.len() {
        assert(events.take(n) == events);
    }
}

} // verus!
