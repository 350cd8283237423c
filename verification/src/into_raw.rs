//! Giving a value up for the pointer that stands for it.
use crate::address::{arc_into_address, box_into_address, rc_into_address};
use crate::handle::MutPtr;
use std::rc::Rc;
use std::sync::Arc;
use vstd::prelude::*;

verus! {

/// Values that can be given up for a pointer.
///
/// After the call the value is gone and nothing releases what it held: that
/// now rests with whoever holds the pointer. The way to release it is to build
/// the value back, see [`FromRaw`](crate::FromRaw).
pub trait IntoRaw: Sized {
    /// What the pointer points at.
    type Raw;

    /// Whether `p` is a pointer that giving this value up may yield.
    spec fn yields(self, p: MutPtr<Self::Raw>) -> bool;

    /// Gives the value up for its pointer.
    fn into_raw(self) -> (p: MutPtr<Self::Raw>)
        ensures
            self.yields(p),
    ;
}

/// A pointer is its own pointer: nothing is given up.
impl<T> IntoRaw for MutPtr<T> {
    type Raw = T;

    open spec fn yields(self, p: MutPtr<T>) -> bool {
        p == self
    }

    fn into_raw(self) -> (p: MutPtr<T>)
        ensures
            p == self,
    {
        self
    }
}

/// A box yields the place of its value on the heap, which is never null. The
/// value stays there, unreleased, until a box is built back from the pointer.
impl<T> IntoRaw for Box<T> {
    type Raw = T;

    open spec fn yields(self, p: MutPtr<T>) -> bool {
        !p.is_null()
    }

    fn into_raw(self) -> (p: MutPtr<T>)
        ensures
            !p.is_null(),
    {
        MutPtr::from_addr(box_into_address(self))
    }
}

/// A shared value yields the place where it lies, which is never null. Its
/// count is kept, and is not lowered until a handle is built back from the
/// pointer.
impl<T> IntoRaw for Rc<T> {
    type Raw = T;

    open spec fn yields(self, p: MutPtr<T>) -> bool {
        !p.is_null()
    }

    fn into_raw(self) -> (p: MutPtr<T>)
        ensures
            !p.is_null(),
    {
        MutPtr::from_addr(rc_into_address(self))
    }
}

/// A shared value yields the place where it lies, which is never null. Its
/// count is kept, and is not lowered until a handle is built back from the
/// pointer.
impl<T> IntoRaw for Arc<T> {
    type Raw = T;

    open spec fn yields(self, p: MutPtr<T>) -> bool {
        !p.is_null()
    }

    fn into_raw(self) -> (p: MutPtr<T>)
        ensures
            !p.is_null(),
    {
        MutPtr::from_addr(arc_into_address(self))
    }
}

/// An absent value yields the null pointer, a present one what it yields itself.
impl<T: IntoRaw> IntoRaw for Option<T> {
    type Raw = T::Raw;

    open spec fn yields(self, p: MutPtr<T::Raw>) -> bool {
        match self {
            Some(v) => v.yields(p),
            None => p.is_null(),
        }
    }

    fn into_raw(self) -> (p: MutPtr<T::Raw>)
        ensures
            self is None ==> p.is_null(),
            self matches Some(v) ==> v.yields(p),
    {
        match self {
            Some(v) => v.into_raw(),
            None => MutPtr::null(),
        }
    }
}

} // verus!
