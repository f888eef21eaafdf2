//! What becomes of a failure: whether it stops the application, reaches the
//! status line, is logged, or is passed over for one tick.

use crate::devices::StartupError;
use crate::frame::frame_error_message;
use crate::frame::frame_error_text;
use crate::frame::FrameError;
use crate::negotiate::NegotiationError;
use vstd::prelude::*;

verus! {

/// Everything that can go wrong while the application runs.
#[derive(Clone, Copy, Debug, PartialEq, Eq, Structural)]
pub enum Failure {
    /// Discovery found no device to offer.
    Startup(StartupError),
    /// A device could not be opened or brought to stream.
    Negotiation(NegotiationError),
    /// A control could not be read in this tick.
    ControlRead,
    /// A control write was refused.
    ControlWrite,
    /// This tick has no new frame.
    Frame(FrameError),
    /// A capture could not be saved.
    Filesystem,
}

/// How a failure is dealt with.
#[derive(Clone, Copy, Debug, PartialEq, Eq, Structural)]
pub enum Handling {
    /// The application does not start.
    Halt,
    /// The operator sees a message; the tick loop goes on.
    Status,
    /// The failure is recorded under the control's name and goes no further.
    Log,
    /// The control keeps what it showed; the next tick tries again.
    Skip,
}

/// The handling of each failure. Only a failed discovery stops the
/// application.
pub open spec fn handling_of(failure: Failure) -> Handling {
    match failure {
        Failure::Startup(_) => Handling::Halt,
        Failure::Negotiation(_) => Handling::Status,
        Failure::ControlRead => Handling::Skip,
        Failure::ControlWrite => Handling::Log,
        Failure::Frame(_) => Handling::Status,
        Failure::Filesystem => Handling::Status,
    }
}

/// The message for a negotiation error. It names the step that failed and
/// never the numbers a driver reported.
pub open spec fn negotiation_text(e: NegotiationError) -> Seq<char> {
    match e {
        NegotiationError::Open => "Failed to open video device"@,
        NegotiationError::Format => "Failed to set format"@,
        NegotiationError::EncodingMismatch { .. } => "Video capture device doesn't support jpg"@,
        NegotiationError::Parameters => "Failed to get device params"@,
        NegotiationError::BufferAlloc => "Failed to begin stream"@,
    }
}

/// The message the operator sees for a failure; empty for a failure that is
/// logged or skipped.
pub open spec fn status_text(failure: Failure) -> Seq<char> {
    match failure {
        Failure::Startup(_) => "No capable video devices found"@,
        Failure::Negotiation(e) => negotiation_text(e),
        Failure::ControlRead => Seq::empty(),
        Failure::ControlWrite => Seq::empty(),
        Failure::Frame(e) => frame_error_text(e),
        Failure::Filesystem => "Failed to take photo"@,
    }
}

/// Decides how a failure is dealt with.
pub fn handling(failure: Failure) -> (h: Handling)
    ensures
        h == handling_of(failure),
{
    match failure {
        Failure::Startup(_) => Handling::Halt,
        Failure::Negotiation(_) => Handling::Status,
        Failure::ControlRead => Handling::Skip,
        Failure::ControlWrite => Handling::Log,
        Failure::Frame(_) => Handling::Status,
        Failure::Filesystem => Handling::Status,
    }
}

/// The message for a failure that the operator gets to see.
pub fn status_message(failure: Failure) -> (s: String)
    ensures
        s@ == status_text(failure),
{
    match failure {
        Failure::Startup(_) => "No capable video devices found".to_string(),
        Failure::Negotiation(e) => match e {
            NegotiationError::Open => "Failed to open video device".to_string(),
            NegotiationError::Format => "Failed to set format".to_string(),
            NegotiationError::EncodingMismatch { .. } => "Video capture device doesn't support jpg".to_string(),
            NegotiationError::Parameters => "Failed to get device params".to_string(),
            NegotiationError::BufferAlloc => "Failed to begin stream".to_string(),
        },
        Failure::ControlRead => String::new(),
        Failure::ControlWrite => String::new(),
        Failure::Frame(e) => frame_error_message(e),
        Failure::Filesystem => "Failed to take photo".to_string(),
    }
}

/// Nothing but a failed discovery stops the application.
pub proof fn lemma_only_startup_halts(failure: Failure)
    ensures
        handling_of(failure) == Handling::Halt <==> failure is Startup,
{
}

/// Two negotiation errors with the same message failed in the same step: the
/// message tells the steps apart.
pub proof fn lemma_message_tells_step(a: NegotiationError, b: NegotiationError)
    requires
        negotiation_text(a) == negotiation_text(b),
    ensures
        a.step() == b.step(),
{
    reveal_strlit("Failed to open video device");
    reveal_strlit("Failed to set format");
    reveal_strlit("Video capture device doesn't support jpg");
    reveal_strlit("Failed to begin stream");
    reveal_strlit("Failed to get device params");
    assert("Failed to get device params"@.len() == 27);
    assert("Failed to get device params"@[10] == 'g');
    assert("Failed to open video device"@[10] == 'o');
    assert("Failed to open video device"@.len() == 27);
    assert("Failed to set format"@.len() == 20);
    assert("Video capture device doesn't support jpg"@.len() == 40);
    assert("Failed to begin stream"@.len() == 22);
    assert(negotiation_text(a).len() == negotiation_text(b).len());
}

/// The message for an encoding mismatch does not show the encoding that the
/// driver reported.
pub proof fn lemma_message_hides_driver_code(first: u32, second: u32)
    ensures
        negotiation_text(NegotiationError::EncodingMismatch { committed: first })
            == negotiation_text(NegotiationError::EncodingMismatch { committed: second }),
{
}

} // verus!
