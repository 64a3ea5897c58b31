//! Types that wrap a single value.
use vstd::prelude::*;

verus! {

/// A type that wraps one value and hands it out unchanged.
pub trait ValueStruct: Sized {
    type ValueType;

    /// The wrapped value.
    spec fn wrapped(&self) -> Self::ValueType;

    /// The wrapped value, borrowed.
    fn value(&self) -> (value: &Self::ValueType)
        ensures
            *value == self.wrapped(),
    ;

    /// The wrapped value, taken out.
    fn into_value(self) -> (value: Self::ValueType)
        ensures
            value == self.wrapped(),
    ;
}

} // verus!
