//! Playback events, and how they come out of mpv's event stream.

use vstd::prelude::*;

use crate::error::{Error, MpvError};
#[allow(unused_imports)]
use crate::error::{code_of, tells_code, tells_codes, text_of, MPV_ERROR_GENERIC};
use crate::property::{property_value, PropertyData, PropertyValue};
#[allow(unused_imports)]
use crate::property::delivered;

verus! {

/// The code of an end whose reason has no raw code to forward: mpv's reason
/// codes are not negative, so it is recognizably out of band.
pub const UNNAMED_REASON: i32 = -1;

/// Why mpv says that a file ended.
#[derive(Debug, Clone, Copy, PartialEq, Eq)]
pub enum EndFileReason {
    /// The end of the file was reached.
    Eof,
    /// Playback was stopped by an external action.
    Stop,
    /// Playback was stopped by the player's shutdown.
    Quit,
    /// An error aborted playback.
    Error,
    /// The file was a playlist whose entries replaced it.
    Redirect,
    /// A reason with a raw code that has no name.
    Unknown(i32),
    /// A reason that has a name, but none here.
    Unnamed,
}

/// One event of mpv's queue, with what the engine reads of it.
#[derive(Debug)]
pub enum MpvEvent {
    /// The player is quitting.
    Shutdown,
    /// The file has been loaded and decoding starts.
    FileLoaded,
    /// Playback of a file ended.
    EndFile {
        /// Why.
        reason: EndFileReason,
        /// The error, where one was set.
        error: Option<MpvError>,
    },
    /// Playback was reinitialized after a discontinuity.
    PlaybackRestart,
    /// An observed property changed.
    PropertyChange {
        /// The id that the property was observed under.
        userdata: u64,
        /// The property's name.
        name: String,
        /// Its value.
        data: PropertyData,
    },
    /// Any other event.
    Other,
}

/// Handle of one observation: tags its change events and cancels it.
#[derive(Debug, Clone, Copy, PartialEq, Eq, Structural)]
pub struct ObserveId(u64);

impl View for ObserveId {
    type V = u64;

    closed spec fn view(&self) -> u64 {
        self.0
    }
}

impl ObserveId {
    /// The handle of the observation made under `userdata`.
    pub closed spec fn tagged(userdata: u64) -> ObserveId {
        ObserveId(userdata)
    }

    /// The handle of the observation made under `userdata`.
    pub fn from_userdata(userdata: u64) -> (r: ObserveId)
        ensures
            r == ObserveId::tagged(userdata),
            r@ == userdata,
    {
        ObserveId(userdata)
    }

    /// The id that the observation was made under.
    pub fn userdata(self) -> (r: u64)
        ensures
            r == self@,
            self == ObserveId::tagged(r),
    {
        self.0
    }
}

/// Observations made under different ids have different handles, and a
/// handle gives back its id.
pub proof fn law_observations_stay_apart(a: u64, b: u64)
    ensures
        ObserveId::tagged(a)@ == a,
        ObserveId::tagged(a) == ObserveId::tagged(b) ==> a == b,
{
}

/// Why playback ended.
#[derive(Debug, Clone, Copy, PartialEq, Eq)]
pub enum EndReason {
    /// Natural end of file.
    Eof,
    /// `stop` command or equivalent: user intent, don't auto-advance.
    Stop,
    /// The player is quitting.
    Quit,
    /// The entry redirected to another (e.g. a playlist file).
    Redirect,
    /// A reason that is not recognized; carries mpv's raw code.
    Other(i32),
}

/// Playback lifecycle notifications.
#[derive(Debug, Clone, PartialEq)]
#[non_exhaustive]
pub enum PlaybackEvent {
    /// A file finished loading and playback is starting.
    Loaded,
    /// Playback ended without error. Errored ends arrive as
    /// [`Failed`](Self::Failed) instead.
    Ended {
        /// Why it ended.
        reason: EndReason,
    },
    /// Playback (re)started after a seek completed or a file began playing.
    PlaybackRestart,
    /// An observed property changed; also fires once with the current value
    /// right after observation starts.
    PropertyChanged {
        /// Which observation this notification belongs to.
        id: ObserveId,
        /// The mpv property name.
        name: String,
        /// The new value, in the format the observation chose.
        value: PropertyValue,
    },
    /// The mpv core is shutting down. No further events follow.
    Shutdown,
    /// mpv aborted playback.
    Failed {
        /// Raw `mpv_error` code (always negative).
        code: i32,
        /// Diagnostic text, not user-facing copy.
        message: String,
    },
}

/// The reason that an end without error is reported with.
pub open spec fn reported_reason(reason: EndFileReason) -> EndReason {
    match reason {
        EndFileReason::Eof => EndReason::Eof,
        EndFileReason::Stop => EndReason::Stop,
        EndFileReason::Quit => EndReason::Quit,
        EndFileReason::Redirect => EndReason::Redirect,
        EndFileReason::Unknown(code) => EndReason::Other(code),
        EndFileReason::Error => EndReason::Other(UNNAMED_REASON),
        EndFileReason::Unnamed => EndReason::Other(UNNAMED_REASON),
    }
}

/// The reason that an end without error is reported with.
pub fn end_reason(reason: EndFileReason) -> (r: EndReason)
    ensures
        r == reported_reason(reason),
{
    match reason {
        EndFileReason::Eof => EndReason::Eof,
        EndFileReason::Stop => EndReason::Stop,
        EndFileReason::Quit => EndReason::Quit,
        EndFileReason::Redirect => EndReason::Redirect,
        EndFileReason::Unknown(code) => EndReason::Other(code),
        EndFileReason::Error => EndReason::Other(UNNAMED_REASON),
        EndFileReason::Unnamed => EndReason::Other(UNNAMED_REASON),
    }
}

/// The failure that an error is reported as.
pub open spec fn failed(error: Error, generic: String) -> PlaybackEvent {
    PlaybackEvent::Failed { code: code_of(error), message: text_of(error, generic) }
}

/// The failure that `error` is reported as, where `generic` is mpv's text for
/// a failure without a code.
pub fn failure(error: Error, generic: &String) -> (r: PlaybackEvent)
    ensures
        r == failed(error, *generic),
{
    let (code, message) = error.describe(generic);
    PlaybackEvent::Failed { code, message }
}

/// The failure that an errored end of file is reported as.
pub open spec fn end_failure(error: Option<MpvError>, generic: String) -> PlaybackEvent {
    match error {
        Some(e) => failed(Error::Mpv(e), generic),
        None => PlaybackEvent::Failed { code: MPV_ERROR_GENERIC, message: generic },
    }
}

/// What an mpv event is reported as, if anything.
pub open spec fn reported(event: MpvEvent, generic: String) -> Option<PlaybackEvent> {
    match event {
        MpvEvent::Shutdown => Some(PlaybackEvent::Shutdown),
        MpvEvent::FileLoaded => Some(PlaybackEvent::Loaded),
        MpvEvent::EndFile { reason, error } => if reason is Error {
            Some(end_failure(error, generic))
        } else {
            Some(PlaybackEvent::Ended { reason: reported_reason(reason) })
        },
        MpvEvent::PlaybackRestart => Some(PlaybackEvent::PlaybackRestart),
        MpvEvent::PropertyChange { userdata, name, data } => match delivered(data) {
            Some(value) => Some(
                PlaybackEvent::PropertyChanged { id: ObserveId::tagged(userdata), name, value },
            ),
            None => None,
        },
        MpvEvent::Other => None,
    }
}

/// What a batch of mpv events is reported as, in order.
pub open spec fn reported_all(batch: Seq<MpvEvent>, generic: String) -> Seq<PlaybackEvent>
    decreases batch.len(),
{
    if batch.len() == 0 {
        Seq::empty()
    } else {
        let before = reported_all(batch.drop_last(), generic);
        match reported(batch.last(), generic) {
            Some(event) => before.push(event),
            None => before,
        }
    }
}

/// What an mpv event is reported as, if anything. An errored end of file is
/// a typed failure that carries mpv's error code, never a quiet end.
pub fn playback_event(event: MpvEvent, generic: &String) -> (r: Option<PlaybackEvent>)
    ensures
        r == reported(event, *generic),
{
    match event {
        MpvEvent::Shutdown => Some(PlaybackEvent::Shutdown),
        MpvEvent::FileLoaded => Some(PlaybackEvent::Loaded),
        MpvEvent::EndFile { reason: EndFileReason::Error, error } => match error {
            Some(e) => Some(failure(Error::Mpv(e), generic)),
            None => Some(
                PlaybackEvent::Failed { code: MPV_ERROR_GENERIC, message: generic.clone() },
            ),
        },
        MpvEvent::EndFile { reason, error: _ } => Some(
            PlaybackEvent::Ended { reason: end_reason(reason) },
        ),
        MpvEvent::PlaybackRestart => Some(PlaybackEvent::PlaybackRestart),
        MpvEvent::PropertyChange { userdata, name, data } => match property_value(data) {
            Some(value) => Some(
                PlaybackEvent::PropertyChanged {
                    id: ObserveId::from_userdata(userdata),
                    name,
                    value,
                },
            ),
            None => None,
        },
        MpvEvent::Other => None,
    }
}

/// One drain of mpv's event queue: the events that were waiting in the engine
/// first, then those of the queue in order.
pub struct EventPump {
    out: Vec<PlaybackEvent>,
    generic: String,
    first: Ghost<Seq<PlaybackEvent>>,
    seen: Ghost<Seq<MpvEvent>>,
}

impl EventPump {
    /// The events that come before those of the queue.
    pub closed spec fn first(self) -> Seq<PlaybackEvent> {
        self.first@
    }

    /// The events taken from the queue so far.
    pub closed spec fn seen(self) -> Seq<MpvEvent> {
        self.seen@
    }

    /// mpv's text for a failure without a code.
    pub closed spec fn generic(self) -> String {
        self.generic
    }

    /// What was collected is what was reported.
    pub closed spec fn wf(self) -> bool {
        self.out@ == self.first@ + reported_all(self.seen@, self.generic)
    }

    /// A drain that starts with `first`.
    pub fn new(first: Vec<PlaybackEvent>, generic: String) -> (r: Self)
        ensures
            r.wf(),
            r.first() == first@,
            r.seen() == Seq::<MpvEvent>::empty(),
            r.generic() == generic,
    {
        let ghost start = first@;
        assert(start + reported_all(Seq::empty(), generic) == start);
        EventPump { out: first, generic, first: Ghost(start), seen: Ghost(Seq::empty()) }
    }

    /// Take in the next event of the queue.
    pub fn push(&mut self, event: MpvEvent)
        requires
            old(self).wf(),
        ensures
            final(self).wf(),
            final(self).first() == old(self).first(),
            final(self).seen() == old(self).seen().push(event),
            final(self).generic() == old(self).generic(),
    {
        let ghost before = self.seen@;
        let ghost seen = before.push(event);
        assert(seen.drop_last() =~= before);
        if let Some(reported) = playback_event(event, &self.generic) {
            self.out.push(reported);
        }
        self.seen = Ghost(seen);
        assert(self.out@ =~= self.first@ + reported_all(seen, self.generic));
    }

    /// The drained events.
    pub fn finish(self) -> (r: Vec<PlaybackEvent>)
        requires
            self.wf(),
        ensures
            r@ == self.first() + reported_all(self.seen(), self.generic()),
    {
        self.out
    }
}

/// Draining the queue in two batches reports what draining it in one does.
pub proof fn law_batches_concatenate(a: Seq<MpvEvent>, b: Seq<MpvEvent>, generic: String)
    ensures
        reported_all(a + b, generic) == reported_all(a, generic) + reported_all(b, generic),
    decreases b.len(),
{
    if b.len() == 0 {
        assert(a + b == a);
    } else {
        law_batches_concatenate(a, b.drop_last(), generic);
        assert((a + b).drop_last() == a + b.drop_last());
        assert((a + b).last() == b.last());
    }
}

/// An errored end of file is reported as a failure, any other end as an end:
/// never the one as the other.
pub proof fn law_errored_end_is_failed(
    reason: EndFileReason,
    error: Option<MpvError>,
    generic: String,
)
    ensures
        match reported(MpvEvent::EndFile { reason, error }, generic) {
            Some(PlaybackEvent::Failed { .. }) => reason is Error,
            Some(PlaybackEvent::Ended { .. }) => !(reason is Error),
            _ => false,
        },
{
}

/// A failure carries a negative code: mpv's own, which is negative, or the
/// generic one.
pub proof fn law_failed_code_is_negative(error: Option<MpvError>, generic: String)
    requires
        error matches Some(MpvError { code: Some(code), .. }) ==> code < 0,
    ensures
        end_failure(error, generic) matches PlaybackEvent::Failed { code, message } && code < 0 && (
        error matches Some(MpvError { code: Some(own), text }) ==> code == own && message == text),
{
}

/// A change of an observed property carries the observation's handle, the
/// property's name and the value; an unavailable property is not reported.
pub proof fn law_property_change_is_tagged(
    userdata: u64,
    name: String,
    data: PropertyData,
    generic: String,
)
    ensures
        match reported(MpvEvent::PropertyChange { userdata, name, data }, generic) {
            Some(PlaybackEvent::PropertyChanged { id, name: n, value }) => id@ == userdata && n
                == name && delivered(data) == Some(value),
            Some(_) => false,
            None => delivered(data) is None,
        },
{
    law_observations_stay_apart(userdata, userdata);
}

/// The errors that `batch` carries are mpv's own.
pub open spec fn genuine_batch(
    batch: Seq<MpvEvent>,
    describe: spec_fn(i32) -> Seq<char>,
) -> bool {
    forall|i: int|
        0 <= i < batch.len() ==> (#[trigger] batch[i] matches MpvEvent::EndFile {
            error: Some(e),
            ..
        } ==> e.genuine(describe))
}

/// Where `event` is a failure, its code is negative and its message is what
/// `describe` gives for the code.
pub open spec fn tells_failure(
    event: PlaybackEvent,
    describe: spec_fn(i32) -> Seq<char>,
) -> bool {
    event matches PlaybackEvent::Failed { code, message } ==> code < 0 && message@ == describe(code)
}

/// Every failure among `events` has a negative code and the message for it.
pub open spec fn tells_failures(
    events: Seq<PlaybackEvent>,
    describe: spec_fn(i32) -> Seq<char>,
) -> bool {
    forall|i: int| 0 <= i < events.len() ==> tells_failure(#[trigger] events[i], describe)
}

/// The failures among `events`.
pub open spec fn failures(events: Seq<PlaybackEvent>) -> Seq<PlaybackEvent> {
    events.filter(|e: PlaybackEvent| e is Failed)
}

/// The ends without error among `events`.
pub open spec fn ends(events: Seq<PlaybackEvent>) -> Seq<PlaybackEvent> {
    events.filter(|e: PlaybackEvent| e is Ended)
}

/// The errored ends of file in `batch`.
pub open spec fn errored_ends(batch: Seq<MpvEvent>) -> Seq<MpvEvent> {
    batch.filter(|e: MpvEvent| e is EndFile && e->reason is Error)
}

/// The other ends of file in `batch`.
pub open spec fn clean_ends(batch: Seq<MpvEvent>) -> Seq<MpvEvent> {
    batch.filter(|e: MpvEvent| e is EndFile && !(e->reason is Error))
}

/// Every failure that mpv's own events are reported as has a negative code and
/// mpv's text for that code, which ends in it.
pub proof fn law_every_failure_tells_its_code(
    batch: Seq<MpvEvent>,
    generic: String,
    describe: spec_fn(i32) -> Seq<char>,
)
    requires
        genuine_batch(batch, describe),
        generic@ == describe(MPV_ERROR_GENERIC),
    ensures
        tells_failures(reported_all(batch, generic), describe),
        tells_codes(describe) ==> forall|i: int|
            0 <= i < reported_all(batch, generic).len() ==> (
            #[trigger] reported_all(batch, generic)[i] matches PlaybackEvent::Failed {
                code,
                message,
            } ==> tells_code(message@, code)),
    decreases batch.len(),
{
    if batch.len() > 0 {
        let before = batch.drop_last();
        assert forall|i: int| 0 <= i < before.len() implies (
        #[trigger] before[i] matches MpvEvent::EndFile { error: Some(e), .. } ==> e.genuine(
            describe,
        )) by {
            assert(before[i] == batch[i]);
        }
        law_every_failure_tells_its_code(before, generic, describe);
        assert(batch.last() == batch[batch.len() - 1]);
        let all = reported_all(batch, generic);
        let old = reported_all(before, generic);
        assert forall|i: int| 0 <= i < all.len() implies tells_failure(
            #[trigger] all[i],
            describe,
        ) by {
            if i < old.len() {
                assert(all[i] == old[i]);
            } else {
                assert(reported(batch.last(), generic) == Some(all[i]));
            }
        }
    }
    let all = reported_all(batch, generic);
    if tells_codes(describe) {
        assert forall|i: int| 0 <= i < all.len() implies (
        #[trigger] all[i] matches PlaybackEvent::Failed { code, message } ==> tells_code(
            message@,
            code,
        )) by {
            assert(tells_failure(all[i], describe));
        }
    }
}

/// There are as many failures as errored ends of file, and as many ends as
/// other ends of file: no errored end is also reported as an end.
pub proof fn law_failures_are_the_errored_ends(batch: Seq<MpvEvent>, generic: String)
    ensures
        failures(reported_all(batch, generic)).len() == errored_ends(batch).len(),
        ends(reported_all(batch, generic)).len() == clean_ends(batch).len(),
    decreases batch.len(),
{
    reveal(Seq::filter);
    if batch.len() > 0 {
        law_failures_are_the_errored_ends(batch.drop_last(), generic);
        let old = reported_all(batch.drop_last(), generic);
        if let Some(event) = reported(batch.last(), generic) {
            assert(old.push(event).drop_last() =~= old);
            assert(old.push(event).last() == event);
        }
    }
}

} // verus!
