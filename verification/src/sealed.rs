//! Closes the set of types that a property can be read as.

use vstd::prelude::*;

use crate::property::PropertyFormat;

verus! {

/// What a type that a property can be read as says of itself.
pub trait PropertyGetImpl: Sized {
    /// The wire format that the type is read in.
    spec fn wire_format() -> PropertyFormat;

    /// The wire format to ask mpv for.
    fn format() -> (r: PropertyFormat)
        ensures
            r == Self::wire_format(),
    ;
}

} // verus!
