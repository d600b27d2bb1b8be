//! Property values and the types a property can be read as.

use vstd::prelude::*;

use crate::sealed::PropertyGetImpl;

verus! {

/// A double, held as its IEEE 754 bit pattern.
#[derive(Debug, Clone, Copy)]
pub struct Double {
    /// The bit pattern.
    pub bits: u64,
}

impl Double {
    /// The bits without the sign.
    pub open spec fn magnitude(self) -> int {
        self.bits as int % 0x8000_0000_0000_0000
    }

    /// No number: the exponent is all ones, and the fraction is not zero.
    pub open spec fn is_nan(self) -> bool {
        self.magnitude() > 0x7FF0_0000_0000_0000
    }

    /// Zero, of either sign.
    pub open spec fn is_zero(self) -> bool {
        self.magnitude() == 0
    }
}

/// Equality of the numbers: zero equals zero of the other sign, and what is
/// no number equals nothing, itself included.
impl PartialEq for Double {
    fn eq(&self, other: &Self) -> (r: bool) {
        let a: u64 = self.bits % 0x8000_0000_0000_0000;
        let b: u64 = other.bits % 0x8000_0000_0000_0000;
        a <= 0x7FF0_0000_0000_0000 && b <= 0x7FF0_0000_0000_0000 && (self.bits == other.bits || (a
            == 0 && b == 0))
    }
}

impl vstd::std_specs::cmp::PartialEqSpecImpl for Double {
    open spec fn obeys_eq_spec() -> bool {
        true
    }

    open spec fn eq_spec(&self, other: &Self) -> bool {
        !self.is_nan() && !other.is_nan() && (self.bits == other.bits || (self.is_zero()
            && other.is_zero()))
    }
}

/// Owned property value.
#[derive(Debug, Clone, PartialEq)]
#[non_exhaustive]
pub enum PropertyValue {
    /// An mpv flag (`MPV_FORMAT_FLAG`).
    Flag(bool),
    /// A 64-bit integer (`MPV_FORMAT_INT64`).
    Int(i64),
    /// A double (`MPV_FORMAT_DOUBLE`).
    Double(Double),
    /// A string (`MPV_FORMAT_STRING`).
    Str(String),
}

/// Wire format of an observation: picks which [`PropertyValue`] variant its
/// change notifications carry (mpv coerces where it can).
#[derive(Debug, Clone, Copy, PartialEq, Eq, Structural)]
pub enum PropertyFormat {
    /// Deliver as [`PropertyValue::Flag`].
    Flag,
    /// Deliver as [`PropertyValue::Int`].
    Int,
    /// Deliver as [`PropertyValue::Double`].
    Double,
    /// Deliver as [`PropertyValue::Str`].
    Str,
}

/// A property's payload as a property event carries it.
#[derive(Debug)]
pub enum PropertyData {
    /// No data: the property is unavailable.
    Unavailable,
    /// Raw string value.
    Str(String),
    /// OSD string value.
    OsdStr(String),
    /// Boolean flag.
    Flag(bool),
    /// 64-bit integer.
    Int64(i64),
    /// Double.
    Double(Double),
    /// Structured value.
    Node,
}

/// The value that a payload delivers: none where the property is unavailable
/// or its format is not delivered.
pub open spec fn delivered(data: PropertyData) -> Option<PropertyValue> {
    match data {
        PropertyData::Flag(v) => Some(PropertyValue::Flag(v)),
        PropertyData::Int64(v) => Some(PropertyValue::Int(v)),
        PropertyData::Double(v) => Some(PropertyValue::Double(v)),
        PropertyData::Str(s) => Some(PropertyValue::Str(s)),
        PropertyData::OsdStr(s) => Some(PropertyValue::Str(s)),
        PropertyData::Unavailable => None,
        PropertyData::Node => None,
    }
}

/// The owned value of an event's payload. `None` when the property is
/// unavailable or in a format that is not delivered: such notifications are
/// skipped, not surfaced as bogus values.
pub fn property_value(data: PropertyData) -> (r: Option<PropertyValue>)
    ensures
        r == delivered(data),
{
    match data {
        PropertyData::Flag(v) => Some(PropertyValue::Flag(v)),
        PropertyData::Int64(v) => Some(PropertyValue::Int(v)),
        PropertyData::Double(v) => Some(PropertyValue::Double(v)),
        PropertyData::Str(s) => Some(PropertyValue::Str(s)),
        PropertyData::OsdStr(s) => Some(PropertyValue::Str(s)),
        PropertyData::Unavailable => None,
        PropertyData::Node => None,
    }
}

impl From<bool> for PropertyValue {
    fn from(v: bool) -> (r: Self) {
        PropertyValue::Flag(v)
    }
}

impl vstd::std_specs::convert::FromSpecImpl<bool> for PropertyValue {
    open spec fn obeys_from_spec() -> bool {
        true
    }

    open spec fn from_spec(v: bool) -> Self {
        PropertyValue::Flag(v)
    }
}

impl From<i64> for PropertyValue {
    fn from(v: i64) -> (r: Self) {
        PropertyValue::Int(v)
    }
}

impl vstd::std_specs::convert::FromSpecImpl<i64> for PropertyValue {
    open spec fn obeys_from_spec() -> bool {
        true
    }

    open spec fn from_spec(v: i64) -> Self {
        PropertyValue::Int(v)
    }
}

impl From<i32> for PropertyValue {
    fn from(v: i32) -> (r: Self) {
        PropertyValue::Int(v as i64)
    }
}

impl vstd::std_specs::convert::FromSpecImpl<i32> for PropertyValue {
    open spec fn obeys_from_spec() -> bool {
        true
    }

    open spec fn from_spec(v: i32) -> Self {
        PropertyValue::Int(v as i64)
    }
}

impl From<u32> for PropertyValue {
    fn from(v: u32) -> (r: Self) {
        PropertyValue::Int(v as i64)
    }
}

impl vstd::std_specs::convert::FromSpecImpl<u32> for PropertyValue {
    open spec fn obeys_from_spec() -> bool {
        true
    }

    open spec fn from_spec(v: u32) -> Self {
        PropertyValue::Int(v as i64)
    }
}

impl From<Double> for PropertyValue {
    fn from(v: Double) -> (r: Self) {
        PropertyValue::Double(v)
    }
}

impl vstd::std_specs::convert::FromSpecImpl<Double> for PropertyValue {
    open spec fn obeys_from_spec() -> bool {
        true
    }

    open spec fn from_spec(v: Double) -> Self {
        PropertyValue::Double(v)
    }
}

impl From<String> for PropertyValue {
    fn from(v: String) -> (r: Self) {
        PropertyValue::Str(v)
    }
}

impl vstd::std_specs::convert::FromSpecImpl<String> for PropertyValue {
    open spec fn obeys_from_spec() -> bool {
        true
    }

    open spec fn from_spec(v: String) -> Self {
        PropertyValue::Str(v)
    }
}

impl From<&str> for PropertyValue {
    fn from(v: &str) -> (r: Self)
        ensures
            r matches PropertyValue::Str(s) && s@ == v@,
    {
        PropertyValue::Str(v.to_owned())
    }
}

// Two strings may hold the same text, so what comes out is stated by its text
// on `from` itself.
impl vstd::std_specs::convert::FromSpecImpl<&str> for PropertyValue {
    open spec fn obeys_from_spec() -> bool {
        false
    }

    open spec fn from_spec(v: &str) -> Self {
        arbitrary()
    }
}

impl PropertyGetImpl for bool {
    open spec fn wire_format() -> PropertyFormat {
        PropertyFormat::Flag
    }

    fn format() -> (r: PropertyFormat) {
        PropertyFormat::Flag
    }
}

impl PropertyGetImpl for i64 {
    open spec fn wire_format() -> PropertyFormat {
        PropertyFormat::Int
    }

    fn format() -> (r: PropertyFormat) {
        PropertyFormat::Int
    }
}

impl PropertyGetImpl for Double {
    open spec fn wire_format() -> PropertyFormat {
        PropertyFormat::Double
    }

    fn format() -> (r: PropertyFormat) {
        PropertyFormat::Double
    }
}

impl PropertyGetImpl for String {
    open spec fn wire_format() -> PropertyFormat {
        PropertyFormat::Str
    }

    fn format() -> (r: PropertyFormat) {
        PropertyFormat::Str
    }
}

/// Types a property can be read as: `bool`, `i64`, [`Double`], `String`, and no
/// others.
pub trait PropertyGet: PropertyGetImpl {

}

impl PropertyGet for bool {

}

impl PropertyGet for i64 {

}

impl PropertyGet for Double {

}

impl PropertyGet for String {

}

} // verus!
