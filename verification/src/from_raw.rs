//! Building a value back from a pointer.
use crate::handle::{ConstPtr, MutPtr};
use vstd::prelude::*;

verus! {

/// Values that can be built back from a pointer to a `T`.
///
/// The value that comes back holds whatever the pointer stood for, and
/// releases it when it goes. Nothing is tested here but what an impl says it
/// tests: which pointers may be handed in is the caller's to keep, and
/// [`admits`](FromRaw::admits) says which those are.
pub trait FromRaw<T>: Sized {
    /// Whether a value may be built from `raw`.
    spec fn admits(raw: MutPtr<T>) -> bool;

    /// Whether this is a value that building from `raw` may give.
    spec fn rebuilt_from(self, raw: MutPtr<T>) -> bool;

    /// Builds the value from its pointer.
    fn from_raw(raw: MutPtr<T>) -> (out: Self)
        requires
            Self::admits(raw),
        ensures
            out.rebuilt_from(raw),
    ;
}

/// Every pointer is admitted, the null pointer too, and comes back as it is.
impl<T> FromRaw<T> for MutPtr<T> {
    open spec fn admits(raw: MutPtr<T>) -> bool {
        true
    }

    open spec fn rebuilt_from(self, raw: MutPtr<T>) -> bool {
        self == raw
    }

    fn from_raw(raw: MutPtr<T>) -> (out: MutPtr<T>)
        ensures
            out == raw,
    {
        raw
    }
}

/// Every pointer is admitted, the null pointer too, and comes back read-only.
impl<T> FromRaw<T> for ConstPtr<T> {
    open spec fn admits(raw: MutPtr<T>) -> bool {
        true
    }

    open spec fn rebuilt_from(self, raw: MutPtr<T>) -> bool {
        self@ == raw@
    }

    fn from_raw(raw: MutPtr<T>) -> (out: ConstPtr<T>)
        ensures
            out@ == raw@,
    {
        raw.cast_const()
    }
}

/// The null pointer is always admitted and gives the absent value, without a
/// call of `T`'s own `from_raw`; any other pointer is handed on to it.
impl<T, U> FromRaw<U> for Option<T> where T: FromRaw<U> {
    open spec fn admits(raw: MutPtr<U>) -> bool {
        raw.is_null() || T::admits(raw)
    }

    open spec fn rebuilt_from(self, raw: MutPtr<U>) -> bool {
        match self {
            Some(v) => !raw.is_null() && v.rebuilt_from(raw),
            None => raw.is_null(),
        }
    }

    fn from_raw(raw: MutPtr<U>) -> (out: Option<T>)
        ensures
            out is None <==> raw.is_null(),
            out matches Some(v) ==> v.rebuilt_from(raw),
    {
        if raw.is_null() {
            None
        } else {
            Some(T::from_raw(raw))
        }
    }
}

} // verus!
