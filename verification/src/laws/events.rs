//! Laws of the events that a drain of mpv's queue gives.

use vstd::prelude::*;

use crate::engine::{Engine, Observation};
use crate::error::MpvError;
#[allow(unused_imports)]
use crate::event::law_observations_stay_apart;
use crate::event::{
    end_reason, playback_event, EndFileReason, EndReason, EventPump, MpvEvent, ObserveId,
    PlaybackEvent,
};
use crate::property::{property_value, PropertyData, PropertyFormat, PropertyValue};

verus! {

/// What an observed property is reported with is what mpv sent: a flag as that
/// flag, an integer as that integer, a double as that double, and either kind
/// of string as a string of the same text. A property that is unavailable, or
/// in a format that is not delivered, is not reported.
pub proof fn law_payloads_are_delivered_unchanged(data: PropertyData, r: Option<PropertyValue>)
    requires
        call_ensures(property_value, (data,), r),
    ensures
        data matches PropertyData::Flag(v) ==> (r matches Some(PropertyValue::Flag(got)) && got
            == v),
        data matches PropertyData::Int64(v) ==> (r matches Some(PropertyValue::Int(got)) && got
            == v),
        data matches PropertyData::Double(v) ==> (r matches Some(PropertyValue::Double(got))
            && got.bits == v.bits),
        data matches PropertyData::Str(v) ==> (r matches Some(PropertyValue::Str(got)) && got@
            == v@),
        data matches PropertyData::OsdStr(v) ==> (r matches Some(PropertyValue::Str(got)) && got@
            == v@),
        r is None <==> data is Unavailable || data is Node,
{
}

/// Different payloads of one format are delivered as different values.
pub proof fn law_delivered_values_tell_payloads_apart(
    a: PropertyData,
    b: PropertyData,
    of_a: Option<PropertyValue>,
    of_b: Option<PropertyValue>,
)
    requires
        call_ensures(property_value, (a,), of_a),
        call_ensures(property_value, (b,), of_b),
        of_a == of_b,
    ensures
        a is Flag && b is Flag ==> a == b,
        a is Int64 && b is Int64 ==> a == b,
        a is Double && b is Double ==> a == b,
        a is Str && b is Str ==> a == b,
        a is OsdStr && b is OsdStr ==> a == b,
        a is Flag <==> b is Flag,
        a is Int64 <==> b is Int64,
        a is Double <==> b is Double,
{
}

/// An end without error is reported with mpv's reason. A reason without a name
/// is forwarded by its code, and one that has none by -1, which is no code of
/// mpv's.
pub proof fn law_reasons_are_kept(reason: EndFileReason, r: EndReason)
    requires
        call_ensures(end_reason, (reason,), r),
    ensures
        reason is Eof <==> r is Eof,
        reason is Stop <==> r is Stop,
        reason is Quit <==> r is Quit,
        reason is Redirect <==> r is Redirect,
        reason matches EndFileReason::Unknown(code) ==> (r matches EndReason::Other(got) && got
            == code),
        reason is Unnamed || reason is Error ==> (r matches EndReason::Other(got) && got == -1),
{
}

/// Every event of mpv's is reported as what it is: a load, a restart and a
/// shutdown as themselves, an end with its reason, and anything else not at all.
pub proof fn law_events_are_reported_as_they_are(
    event: MpvEvent,
    generic: String,
    r: Option<PlaybackEvent>,
)
    requires
        call_ensures(playback_event, (event, &generic), r),
    ensures
        event is Shutdown <==> r is Some && r->0 is Shutdown,
        event is FileLoaded <==> r is Some && r->0 is Loaded,
        event is PlaybackRestart <==> r is Some && r->0 is PlaybackRestart,
        event is Other ==> r is None,
        event is PropertyChange <== r is Some && r->0 is PropertyChanged,
        event matches MpvEvent::EndFile { reason, .. } ==> {
            &&& reason is Eof <==> r == Some(PlaybackEvent::Ended { reason: EndReason::Eof })
            &&& reason is Stop <==> r == Some(PlaybackEvent::Ended { reason: EndReason::Stop })
            &&& reason is Quit <==> r == Some(PlaybackEvent::Ended { reason: EndReason::Quit })
            &&& reason is Redirect <==> r == Some(
                PlaybackEvent::Ended { reason: EndReason::Redirect },
            )
            &&& reason matches EndFileReason::Unknown(code) ==> r == Some(
                PlaybackEvent::Ended { reason: EndReason::Other(code) },
            )
            &&& reason is Unnamed ==> r == Some(
                PlaybackEvent::Ended { reason: EndReason::Other(-1i32) },
            )
            &&& reason is Error <==> r is Some && r->0 is Failed
        },
{
}

/// An errored end of file is reported as a failure with mpv's code and text.
/// Without a code it is the generic failure, -20, with mpv's text for that.
pub proof fn law_errored_ends_carry_mpvs_error(
    error: Option<MpvError>,
    generic: String,
    r: Option<PlaybackEvent>,
)
    requires
        call_ensures(
            playback_event,
            (MpvEvent::EndFile { reason: EndFileReason::Error, error }, &generic),
            r,
        ),
    ensures
        r matches Some(PlaybackEvent::Failed { code, message }) && match error {
            Some(MpvError { code: Some(own), text }) => code == own && message == text,
            _ => code == -20 && message == generic,
        },
{
}

/// A change of an observed property is reported with the handle that it was
/// observed under, the property's name and the value that mpv sent. One that is
/// unavailable, or in a format that is not delivered, is not reported.
pub proof fn law_changes_carry_what_mpv_sent(
    userdata: u64,
    name: String,
    data: PropertyData,
    generic: String,
    r: Option<PlaybackEvent>,
)
    requires
        call_ensures(
            playback_event,
            (MpvEvent::PropertyChange { userdata, name, data }, &generic),
            r,
        ),
    ensures
        r is None <==> data is Unavailable || data is Node,
        r is Some ==> (r->0 matches PlaybackEvent::PropertyChanged { id, name: told, value }
            && id@ == userdata && told == name && match data {
            PropertyData::Flag(v) => value == PropertyValue::Flag(v),
            PropertyData::Int64(v) => value == PropertyValue::Int(v),
            PropertyData::Double(v) => value == PropertyValue::Double(v),
            PropertyData::Str(v) => value == PropertyValue::Str(v),
            PropertyData::OsdStr(v) => value == PropertyValue::Str(v),
            _ => false,
        }),
{
    law_observations_stay_apart(userdata, userdata);
}

/// Each event that a drain takes in adds what it is reported as behind
/// everything that was there, and nothing else: no event is lost, doubled,
/// changed or moved.
pub proof fn law_a_drain_reports_in_order(
    pump: &mut EventPump,
    event: MpvEvent,
    before: Vec<PlaybackEvent>,
    after: Vec<PlaybackEvent>,
    r: Option<PlaybackEvent>,
)
    requires
        old(pump).wf(),
        call_ensures(EventPump::finish, (*old(pump),), before),
        call_ensures(EventPump::push, (pump, event), ()),
        call_ensures(EventPump::finish, (*final(pump),), after),
        call_ensures(playback_event, (event, &old(pump).generic()), r),
    ensures
        final(pump).generic() == old(pump).generic(),
        match r {
            Some(told) => after@ == before@.push(told),
            None => after@ == before@,
        },
{
    assert(old(pump).seen().push(event).drop_last() =~= old(pump).seen());
}

/// A drain that has taken nothing in gives back the events that it was started
/// with.
pub proof fn law_a_new_drain_holds_what_it_was_given(
    first: Vec<PlaybackEvent>,
    generic: String,
    pump: EventPump,
    events: Vec<PlaybackEvent>,
)
    requires
        call_ensures(EventPump::new, (first, generic), pump),
        call_ensures(EventPump::finish, (pump,), events),
    ensures
        events@ == first@,
        pump.generic() == generic,
        pump.wf(),
{
}

/// A drain starts with the events that waited in the engine, takes them out of
/// it, and leaves the rest of the engine alone.
pub proof fn law_a_drain_starts_with_what_waited<C, H>(
    e: &mut Engine<C, H>,
    pump: EventPump,
    events: Vec<PlaybackEvent>,
)
    requires
        call_ensures(Engine::<C, H>::pump_events, (e,), pump),
        call_ensures(EventPump::finish, (pump,), events),
    ensures
        events@ == old(e)@.deferred,
        pump.generic() == old(e)@.generic,
        pump.wf(),
        final(e)@.deferred.len() == 0,
        final(e)@.render == old(e)@.render,
        final(e)@.update_callback == old(e)@.update_callback,
        final(e)@.orphan == old(e)@.orphan,
        final(e)@.next_observe_id == old(e)@.next_observe_id,
        final(e)@.pending == old(e)@.pending,
        final(e)@.generic == old(e)@.generic,
{
}

/// A handle keeps the id that it was made for.
pub proof fn law_handles_keep_their_ids(userdata: u64, id: ObserveId, back: u64)
    requires
        call_ensures(ObserveId::from_userdata, (userdata,), id),
        call_ensures(ObserveId::userdata, (id,), back),
    ensures
        back == userdata,
        id@ == userdata,
{
}

/// An observation names the property and the format that were asked for, under
/// the next id: the one after an engine's last is one more, and after the
/// largest come the ids from zero on. Nothing else of the engine changes.
pub proof fn law_observations_are_made_as_asked<C, H>(
    e: &mut Engine<C, H>,
    name: &str,
    format: PropertyFormat,
    r: Observation,
)
    requires
        call_ensures(Engine::<C, H>::observe, (e, name, format), r),
    ensures
        r.name@ == name@,
        r.format == format,
        r.id@ == old(e)@.next_observe_id,
        final(e)@.next_observe_id == (if old(e)@.next_observe_id == u64::MAX {
            0
        } else {
            old(e)@.next_observe_id + 1
        }),
        final(e)@.render == old(e)@.render,
        final(e)@.update_callback == old(e)@.update_callback,
        final(e)@.orphan == old(e)@.orphan,
        final(e)@.pending == old(e)@.pending,
        final(e)@.deferred == old(e)@.deferred,
        final(e)@.generic == old(e)@.generic,
{
}

/// Two observations one after the other have different handles.
pub proof fn law_two_observations_differ<C, H>(
    e: &mut Engine<C, H>,
    f: &mut Engine<C, H>,
    name: &str,
    other: &str,
    format: PropertyFormat,
    first: Observation,
    second: Observation,
)
    requires
        call_ensures(Engine::<C, H>::observe, (e, name, format), first),
        *old(f) == *final(e),
        call_ensures(Engine::<C, H>::observe, (f, other, format), second),
    ensures
        first.id@ != second.id@,
        first.id != second.id,
{
}

} // verus!
