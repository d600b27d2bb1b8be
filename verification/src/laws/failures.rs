//! Laws of what is said where something went wrong.

use vstd::prelude::*;

use crate::engine::{settle, Observation};
use crate::error::{prefixed, Error, MpvError};
use crate::event::{failure, ObserveId, PlaybackEvent};

verus! {

/// A failure is reported with mpv's own code and text where mpv gave a code.
/// Every other failure is reported as the generic one, -20, with mpv's text for
/// that.
pub proof fn law_failures_are_described_by_mpv(
    error: Error,
    generic: String,
    described: (i32, String),
    reported: PlaybackEvent,
)
    requires
        call_ensures(Error::describe, (error, &generic), described),
        call_ensures(failure, (error, &generic), reported),
    ensures
        error matches Error::Mpv(e) ==> {
            &&& e.code matches Some(code) ==> described == (code, e.text)
            &&& e.code is None ==> described == (-20i32, generic)
        },
        !(error is Mpv) ==> described == (-20i32, generic),
        reported == (PlaybackEvent::Failed { code: described.0, message: described.1 }),
{
}

/// Every error shows its own text: mpv's and the setup's with what they say,
/// the others with what the call ran into.
pub proof fn law_errors_show_what_happened(error: Error, text: String)
    requires
        call_ensures(Error::message, (&error,), text),
    ensures
        error matches Error::Mpv(e) ==> text@ == "mpv: "@ + e.text@,
        error is AlreadyAttached ==> text@ == "a render context is already attached"@,
        error is RenderBackendMismatch ==> text@
            == "render call does not match the attached render backend"@,
        error matches Error::ExportSetup(what) ==> text@ == "exported render setup: "@ + what@,
        error matches Error::WgpuImport(what) ==> text@ == "wgpu import: "@ + what@,
        error is NotAttached ==> text@ == "no render context is attached"@,
{
}

/// What mpv answers is what the caller gets: its value, or its error unchanged.
pub proof fn law_replies_are_passed_on<T>(reply: Result<T, MpvError>, r: Result<T, Error>)
    requires
        call_ensures(settle::<T>, (reply,), r),
    ensures
        reply matches Ok(v) ==> r == Ok::<T, Error>(v),
        reply matches Err(e) ==> r == Err::<T, Error>(Error::Mpv(e)),
{
}

/// An observation that mpv took gives its handle; one that it refused gives
/// mpv's error.
pub proof fn law_an_observation_is_registered_or_refused(
    observation: Observation,
    reply: Result<(), MpvError>,
    r: Result<ObserveId, Error>,
)
    requires
        call_ensures(Observation::registered, (observation, reply), r),
    ensures
        reply is Ok ==> r == Ok::<ObserveId, Error>(observation.id),
        reply matches Err(e) ==> r == Err::<ObserveId, Error>(Error::Mpv(e)),
{
}

/// An error of mpv's becomes an error of the library with nothing lost.
pub proof fn law_mpv_errors_convert(error: MpvError, r: Error)
    requires
        call_ensures(<Error as From<MpvError>>::from, (error,), r),
    ensures
        r == Error::Mpv(error),
{
}

/// A text goes in front of another with nothing between them.
pub proof fn law_texts_are_joined(head: &str, tail: String, r: String)
    requires
        call_ensures(prefixed, (head, &tail), r),
    ensures
        r@.len() == head@.len() + tail@.len(),
        forall|i: int| 0 <= i < head@.len() ==> #[trigger] r@[i] == head@[i],
        forall|i: int| 0 <= i < tail@.len() ==> r@[head@.len() + i] == #[trigger] tail@[i],
{
}

} // verus!
