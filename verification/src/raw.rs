//! Conversion of structured values into the flat numeric arrays that are
//! uploaded to the graphics API.

use vstd::prelude::*;

verus! {

/// A value that serializes to a flat array of `T` components, in the
/// declared field order of the value and with no implicit padding.
/// Each implementation says what that array is through [`AsRaw::raw_spec`],
/// and `as_raw` is bound to return exactly it.
pub trait AsRaw<T> {
    /// The flat component array this value serializes to.
    spec fn raw_spec(&self) -> Seq<T>;

    fn as_raw(self) -> (r: Vec<T>)
        ensures
            r@ == self.raw_spec(),
    ;
}

} // verus!
