//! Laws of property values, and of the properties that the transport calls
//! read and write.

use vstd::prelude::*;

use crate::engine::Engine;
use crate::error::{Error, MpvError};
use crate::event::ObserveId;
use crate::property::{Double, PropertyFormat, PropertyGet, PropertyValue};
use crate::sealed::PropertyGetImpl;

verus! {

/// What is no number: the exponent is all ones, and the fraction is not zero.
pub open spec fn not_a_number(bits: u64) -> bool {
    bits / 0x10_0000_0000_0000 % 2048 == 2047 && bits % 0x10_0000_0000_0000 != 0
}

/// Doubles are equal as numbers: their bits are the same, or both are a zero,
/// whatever its sign; what is no number equals nothing.
pub proof fn law_doubles_are_equal_as_numbers(a: Double, b: Double, r: bool)
    requires
        call_ensures(<Double as PartialEq>::eq, (&a, &b), r),
    ensures
        r <==> !not_a_number(a.bits) && !not_a_number(b.bits) && (a.bits == b.bits || (a.bits
            % 0x8000_0000_0000_0000 == 0 && b.bits % 0x8000_0000_0000_0000 == 0)),
{
    lemma_not_a_number(a);
    lemma_not_a_number(b);
}

/// A magnitude above that of infinity is no number.
proof fn lemma_not_a_number(a: Double)
    ensures
        a.is_nan() == not_a_number(a.bits),
{
    let bits: u64 = a.bits;
    assert((bits % 0x8000_0000_0000_0000 > 0x7FF0_0000_0000_0000) == (bits / 0x10_0000_0000_0000
        % 2048 == 2047 && bits % 0x10_0000_0000_0000 != 0)) by (bit_vector);
}

/// Equality of doubles goes both ways and is passed on, and every number equals
/// itself.
pub proof fn law_equality_of_doubles_is_one(
    a: Double,
    b: Double,
    c: Double,
    ab: bool,
    ba: bool,
    bc: bool,
    ac: bool,
    aa: bool,
)
    requires
        call_ensures(<Double as PartialEq>::eq, (&a, &b), ab),
        call_ensures(<Double as PartialEq>::eq, (&b, &a), ba),
        call_ensures(<Double as PartialEq>::eq, (&b, &c), bc),
        call_ensures(<Double as PartialEq>::eq, (&a, &c), ac),
        call_ensures(<Double as PartialEq>::eq, (&a, &a), aa),
    ensures
        ab == ba,
        ab && bc ==> ac,
        aa == !not_a_number(a.bits),
{
    lemma_not_a_number(a);
}

/// A value converts to the property value that holds it: a flag, an integer of
/// the same number, a double of the same bits, a string of the same text.
pub proof fn law_values_convert_unchanged(
    flag: bool,
    long: i64,
    small: i32,
    natural: u32,
    double: Double,
    string: String,
    text: &str,
    of_flag: PropertyValue,
    of_long: PropertyValue,
    of_small: PropertyValue,
    of_natural: PropertyValue,
    of_double: PropertyValue,
    of_string: PropertyValue,
    of_text: PropertyValue,
)
    requires
        call_ensures(<PropertyValue as From<bool>>::from, (flag,), of_flag),
        call_ensures(<PropertyValue as From<i64>>::from, (long,), of_long),
        call_ensures(<PropertyValue as From<i32>>::from, (small,), of_small),
        call_ensures(<PropertyValue as From<u32>>::from, (natural,), of_natural),
        call_ensures(<PropertyValue as From<Double>>::from, (double,), of_double),
        call_ensures(<PropertyValue as From<String>>::from, (string,), of_string),
        call_ensures(<PropertyValue as From<&str>>::from, (text,), of_text),
    ensures
        of_flag matches PropertyValue::Flag(v) && v == flag,
        of_long matches PropertyValue::Int(v) && v == long,
        of_small matches PropertyValue::Int(v) && v == small,
        of_natural matches PropertyValue::Int(v) && v == natural,
        of_double matches PropertyValue::Double(v) && v.bits == double.bits,
        of_string matches PropertyValue::Str(v) && v@ == string@,
        of_text matches PropertyValue::Str(v) && v@ == text@,
{
}

/// Each type is read in its own format.
pub proof fn law_types_are_read_in_their_format(
    flag: PropertyFormat,
    integer: PropertyFormat,
    double: PropertyFormat,
    string: PropertyFormat,
)
    requires
        call_ensures(<bool as PropertyGetImpl>::format, (), flag),
        call_ensures(<i64 as PropertyGetImpl>::format, (), integer),
        call_ensures(<Double as PropertyGetImpl>::format, (), double),
        call_ensures(<String as PropertyGetImpl>::format, (), string),
    ensures
        flag == PropertyFormat::Flag,
        integer == PropertyFormat::Int,
        double == PropertyFormat::Double,
        string == PropertyFormat::Str,
{
}

/// mpv was asked once and answered `reply`, which is what the caller gets.
pub open spec fn passed_on<T>(reply: Result<T, MpvError>, r: Result<T, Error>) -> bool {
    match reply {
        Ok(v) => r == Ok::<T, Error>(v),
        Err(e) => r == Err::<T, Error>(Error::Mpv(e)),
    }
}

/// A pause writes the state that was asked for to `pause`, a mute to `mute`, as
/// a flag, and mpv's answer is passed on.
pub proof fn law_flags_are_written_as_asked<W: FnOnce(&str, PropertyValue) -> Result<(), MpvError>>(
    write: W,
    on: bool,
    paused: Result<(), Error>,
    muted: Result<(), Error>,
)
    requires
        call_ensures(Engine::<(), ()>::set_paused::<W>, (write, on), paused),
        call_ensures(Engine::<(), ()>::set_muted::<W>, (write, on), muted),
    ensures
        exists|reply: Result<(), MpvError>| #[trigger]
            call_ensures(write, ("pause", PropertyValue::Flag(on)), reply) && passed_on(
                reply,
                paused,
            ),
        exists|reply: Result<(), MpvError>| #[trigger]
            call_ensures(write, ("mute", PropertyValue::Flag(on)), reply) && passed_on(
                reply,
                muted,
            ),
{
    let reply = choose|reply: Result<(), MpvError>| #[trigger]
        call_ensures(write, ("pause", PropertyValue::Flag(on)), reply) && paused
            == crate::engine::outcome(reply);
    assert(passed_on(reply, paused));
    let reply = choose|reply: Result<(), MpvError>| #[trigger]
        call_ensures(write, ("mute", PropertyValue::Flag(on)), reply) && muted
            == crate::engine::outcome(reply);
    assert(passed_on(reply, muted));
}

/// A volume is written to `volume` and a speed to `speed`, as the double that
/// was given, and mpv's answer is passed on.
pub proof fn law_doubles_are_written_as_asked<
    W: FnOnce(&str, PropertyValue) -> Result<(), MpvError>,
>(write: W, value: Double, volume: Result<(), Error>, speed: Result<(), Error>)
    requires
        call_ensures(Engine::<(), ()>::set_volume::<W>, (write, value), volume),
        call_ensures(Engine::<(), ()>::set_speed::<W>, (write, value), speed),
    ensures
        exists|reply: Result<(), MpvError>| #[trigger]
            call_ensures(write, ("volume", PropertyValue::Double(value)), reply) && passed_on(
                reply,
                volume,
            ),
        exists|reply: Result<(), MpvError>| #[trigger]
            call_ensures(write, ("speed", PropertyValue::Double(value)), reply) && passed_on(
                reply,
                speed,
            ),
{
    let reply = choose|reply: Result<(), MpvError>| #[trigger]
        call_ensures(write, ("volume", PropertyValue::Double(value)), reply) && volume
            == crate::engine::outcome(reply);
    assert(passed_on(reply, volume));
    let reply = choose|reply: Result<(), MpvError>| #[trigger]
        call_ensures(write, ("speed", PropertyValue::Double(value)), reply) && speed
            == crate::engine::outcome(reply);
    assert(passed_on(reply, speed));
}

/// A property is written under the name and with the value that the caller
/// gave, and mpv's answer is passed on.
pub proof fn law_properties_are_written_as_asked<
    V: Into<PropertyValue>,
    W: FnOnce(&str, PropertyValue) -> Result<(), MpvError>,
>(write: W, name: &str, value: V, r: Result<(), Error>)
    requires
        call_ensures(Engine::<(), ()>::set_property::<V, W>, (write, name, value), r),
    ensures
        exists|v: PropertyValue, reply: Result<(), MpvError>|
            {
                &&& call_ensures(V::into, (value,), v)
                &&& #[trigger] call_ensures(write, (name, v), reply)
                &&& passed_on(reply, r)
            },
{
    let (v, reply) = choose|v: PropertyValue, reply: Result<(), MpvError>|
        {
            &&& call_ensures(V::into, (value,), v)
            &&& #[trigger] call_ensures(write, (name, v), reply)
            &&& r == crate::engine::outcome(reply)
        };
    assert(passed_on(reply, r));
}

/// A property is read under the name that the caller gave, in the format of the
/// type asked for, and mpv's answer is passed on.
pub proof fn law_properties_are_read_as_asked<
    T: PropertyGet,
    R: FnOnce(&str, PropertyFormat) -> Result<T, MpvError>,
>(read: R, name: &str, r: Result<T, Error>)
    requires
        call_ensures(Engine::<(), ()>::get_property::<T, R>, (read, name), r),
    ensures
        exists|reply: Result<T, MpvError>| #[trigger]
            call_ensures(read, (name, T::wire_format()), reply) && passed_on(reply, r),
{
    let reply = choose|reply: Result<T, MpvError>| #[trigger]
        call_ensures(read, (name, T::wire_format()), reply) && r == crate::engine::outcome(reply);
    assert(passed_on(reply, r));
}

/// Paused and muted are what mpv says, and no where it cannot say. Idle is what
/// mpv says, and yes where it cannot say.
pub proof fn law_flags_are_read_with_their_fallback<
    R: FnOnce(&str, PropertyFormat) -> Result<bool, MpvError>,
>(read: R, paused: bool, muted: bool, idle: bool)
    requires
        call_ensures(Engine::<(), ()>::is_paused::<R>, (read,), paused),
        call_ensures(Engine::<(), ()>::is_muted::<R>, (read,), muted),
        call_ensures(Engine::<(), ()>::is_idle::<R>, (read,), idle),
    ensures
        exists|reply: Result<bool, MpvError>| #[trigger]
            call_ensures(read, ("pause", PropertyFormat::Flag), reply) && paused == (match reply {
                Ok(v) => v,
                Err(_) => false,
            }),
        exists|reply: Result<bool, MpvError>| #[trigger]
            call_ensures(read, ("mute", PropertyFormat::Flag), reply) && muted == (match reply {
                Ok(v) => v,
                Err(_) => false,
            }),
        exists|reply: Result<bool, MpvError>| #[trigger]
            call_ensures(read, ("idle-active", PropertyFormat::Flag), reply) && idle == (
            match reply {
                Ok(v) => v,
                Err(_) => true,
            }),
{
}

/// Volume, speed, position and duration are what mpv says, each under its own
/// property, and nothing where it cannot say.
pub proof fn law_numbers_are_read_where_they_can_be<
    R: FnOnce(&str, PropertyFormat) -> Result<Double, MpvError>,
>(
    read: R,
    volume: Option<Double>,
    speed: Option<Double>,
    position: Option<Double>,
    duration: Option<Double>,
)
    requires
        call_ensures(Engine::<(), ()>::volume::<R>, (read,), volume),
        call_ensures(Engine::<(), ()>::speed::<R>, (read,), speed),
        call_ensures(Engine::<(), ()>::position::<R>, (read,), position),
        call_ensures(Engine::<(), ()>::duration::<R>, (read,), duration),
    ensures
        exists|reply: Result<Double, MpvError>| #[trigger]
            call_ensures(read, ("volume", PropertyFormat::Double), reply) && volume == (
            match reply {
                Ok(v) => Some(v),
                Err(_) => None,
            }),
        exists|reply: Result<Double, MpvError>| #[trigger]
            call_ensures(read, ("speed", PropertyFormat::Double), reply) && speed == (match reply {
                Ok(v) => Some(v),
                Err(_) => None,
            }),
        exists|reply: Result<Double, MpvError>| #[trigger]
            call_ensures(read, ("time-pos", PropertyFormat::Double), reply) && position == (
            match reply {
                Ok(v) => Some(v),
                Err(_) => None,
            }),
        exists|reply: Result<Double, MpvError>| #[trigger]
            call_ensures(read, ("duration", PropertyFormat::Double), reply) && duration == (
            match reply {
                Ok(v) => Some(v),
                Err(_) => None,
            }),
{
}

/// An observation is canceled by the id that it was made under, and mpv's
/// answer is passed on.
pub proof fn law_an_observation_is_canceled_by_its_id<W: FnOnce(u64) -> Result<(), MpvError>>(
    cancel: W,
    userdata: u64,
    id: ObserveId,
    r: Result<(), Error>,
)
    requires
        call_ensures(ObserveId::from_userdata, (userdata,), id),
        call_ensures(Engine::<(), ()>::unobserve::<W>, (cancel, id), r),
    ensures
        exists|reply: Result<(), MpvError>| #[trigger]
            call_ensures(cancel, (userdata,), reply) && passed_on(reply, r),
{
    let reply = choose|reply: Result<(), MpvError>| #[trigger]
        call_ensures(cancel, (id@,), reply) && r == crate::engine::outcome(reply);
    assert(call_ensures(cancel, (userdata,), reply));
    assert(passed_on(reply, r));
}

} // verus!
