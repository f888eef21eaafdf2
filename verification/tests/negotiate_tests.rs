use kcam::negotiate::advance;
use kcam::negotiate::begin;
use kcam::negotiate::fourcc;
use kcam::negotiate::outcome;
use kcam::negotiate::Action;
use kcam::negotiate::Event;
use kcam::negotiate::FrameFormat;
use kcam::negotiate::NegotiationError;
use kcam::negotiate::Phase;
use kcam::negotiate::Step;
use kcam::negotiate::BUFFER_COUNT;
use kcam::negotiate::MJPG;

fn yuyv() -> u32 {
    fourcc(b'Y', b'U', b'Y', b'V')
}

fn format(encoding: u32) -> FrameFormat {
    FrameFormat { width: 640, height: 480, encoding }
}

#[test]
fn mjpg_is_the_packed_four_character_code() {
    assert_eq!(fourcc(b'M', b'J', b'P', b'G'), MJPG);
    assert_eq!(MJPG, u32::from_le_bytes(*b"MJPG"));
    assert_eq!(yuyv(), u32::from_le_bytes(*b"YUYV"));
    assert_eq!(fourcc(255, 255, 255, 255), u32::MAX);
    assert_eq!(fourcc(0, 0, 0, 0), 0);
}

#[test]
fn buffer_count_is_small() {
    assert!(BUFFER_COUNT >= 1 && BUFFER_COUNT <= 9);
}

#[test]
fn negotiation_reaches_a_stream() {
    let phase = begin();
    assert_eq!(phase, Phase::Opening);
    assert_eq!(outcome(phase), None);
    let (phase, action) = advance(phase, Event::Opened);
    assert_eq!((phase, action), (Phase::ReadingFormat, Action::ReadFormat));
    let (phase, action) = advance(phase, Event::Format(format(yuyv())));
    assert_eq!((phase, action), (Phase::Committing, Action::Commit(format(MJPG))));
    assert_eq!(outcome(phase), None);
    let (phase, action) = advance(phase, Event::Committed(format(MJPG)));
    assert_eq!((phase, action), (Phase::ReadingParameters, Action::ReadParameters));
    assert_eq!(outcome(phase), None);
    let (phase, action) = advance(phase, Event::Parameters);
    assert_eq!(
        (phase, action),
        (Phase::Allocating, Action::Allocate { buffers: BUFFER_COUNT })
    );
    let (phase, action) = advance(phase, Event::Allocated);
    assert_eq!((phase, action), (Phase::Streaming, Action::Stream));
    assert_eq!(outcome(phase), Some(Ok(())));
    assert_eq!(advance(phase, Event::Failed), (Phase::Streaming, Action::Stream));
}

#[test]
fn commit_keeps_the_frame_size_and_asks_for_mjpg() {
    let current = FrameFormat { width: 1920, height: 1080, encoding: yuyv() };
    let (_, action) = advance(Phase::ReadingFormat, Event::Format(current));
    assert_eq!(
        action,
        Action::Commit(FrameFormat { width: 1920, height: 1080, encoding: MJPG })
    );
}

#[test]
fn open_failure_is_an_open_error() {
    let (phase, action) = advance(begin(), Event::Failed);
    assert_eq!(phase, Phase::Failed(NegotiationError::Open));
    assert_eq!(action, Action::Abort(NegotiationError::Open));
    assert_eq!(outcome(phase), Some(Err(NegotiationError::Open)));
    assert_eq!(NegotiationError::Open.failed_step(), Step::Open);
}

#[test]
fn format_failures_are_format_errors() {
    let (phase, action) = advance(Phase::ReadingFormat, Event::Failed);
    assert_eq!(phase, Phase::Failed(NegotiationError::Format));
    assert_eq!(action, Action::Abort(NegotiationError::Format));
    let (phase, _) = advance(Phase::Committing, Event::Failed);
    assert_eq!(phase, Phase::Failed(NegotiationError::Format));
    assert_eq!(NegotiationError::Format.failed_step(), Step::Format);
}

#[test]
fn substituted_encoding_is_a_mismatch() {
    let (phase, action) = advance(Phase::Committing, Event::Committed(format(yuyv())));
    let e = NegotiationError::EncodingMismatch { committed: yuyv() };
    assert_eq!(phase, Phase::Failed(e));
    assert_eq!(action, Action::Abort(e));
    assert_eq!(e.failed_step(), Step::Format);
}

#[test]
fn parameter_failure_is_a_format_error() {
    let (phase, action) = advance(Phase::ReadingParameters, Event::Failed);
    assert_eq!(phase, Phase::Failed(NegotiationError::Parameters));
    assert_eq!(action, Action::Abort(NegotiationError::Parameters));
    assert_eq!(outcome(phase), Some(Err(NegotiationError::Parameters)));
    assert_eq!(NegotiationError::Parameters.failed_step(), Step::Format);
}

#[test]
fn exactly_one_failing_step_fails_the_negotiation_there() {
    let steps = [
        Event::Opened,
        Event::Format(format(yuyv())),
        Event::Committed(format(MJPG)),
        Event::Parameters,
        Event::Allocated,
    ];
    let errors = [
        NegotiationError::Open,
        NegotiationError::Format,
        NegotiationError::Format,
        NegotiationError::Parameters,
        NegotiationError::BufferAlloc,
    ];
    for failing in 0..steps.len() {
        let mut phase = begin();
        let mut actions = 0;
        for (i, step) in steps.iter().enumerate() {
            let event = if i == failing { Event::Failed } else { *step };
            let (next, action) = advance(phase, event);
            phase = next;
            actions += 1;
            if let Action::Abort(e) = action {
                assert_eq!(i, failing);
                assert_eq!(e, errors[failing]);
                break;
            }
        }
        assert_eq!(actions, failing + 1);
        assert_eq!(outcome(phase), Some(Err(errors[failing])));
    }
}

#[test]
fn buffer_failure_is_a_buffer_error() {
    let (phase, action) = advance(Phase::Allocating, Event::Failed);
    assert_eq!(phase, Phase::Failed(NegotiationError::BufferAlloc));
    assert_eq!(action, Action::Abort(NegotiationError::BufferAlloc));
    assert_eq!(NegotiationError::BufferAlloc.failed_step(), Step::BufferAlloc);
}

#[test]
fn event_out_of_turn_fails_the_step_under_way() {
    assert_eq!(advance(begin(), Event::Allocated).0, Phase::Failed(NegotiationError::Open));
    assert_eq!(
        advance(Phase::ReadingFormat, Event::Opened).0,
        Phase::Failed(NegotiationError::Format)
    );
    assert_eq!(
        advance(Phase::Committing, Event::Format(format(MJPG))).0,
        Phase::Failed(NegotiationError::Format)
    );
    assert_eq!(
        advance(Phase::ReadingParameters, Event::Allocated).0,
        Phase::Failed(NegotiationError::Parameters)
    );
    assert_eq!(
        advance(Phase::Allocating, Event::Committed(format(MJPG))).0,
        Phase::Failed(NegotiationError::BufferAlloc)
    );
}

#[test]
fn failure_is_final() {
    let failed = Phase::Failed(NegotiationError::Format);
    for event in [
        Event::Opened,
        Event::Format(format(MJPG)),
        Event::Committed(format(MJPG)),
        Event::Parameters,
        Event::Allocated,
        Event::Failed,
    ] {
        assert_eq!(advance(failed, event), (failed, Action::Abort(NegotiationError::Format)));
    }
}
