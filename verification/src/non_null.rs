//! A pointer that is never null.
use crate::as_ptr::AsPtr;
use crate::from_raw::FromRaw;
use crate::handle::{ConstPtr, MutPtr};
use crate::into_raw::IntoRaw;
use vstd::prelude::*;

verus! {

/// A read-write pointer to a `T` that is known not to be null.
///
/// One is made from a pointer by [`FromRaw::from_raw`], which leaves the null
/// test to the caller, or as an `Option<NonNullPtr<T>>`, which makes the test.
#[derive(Debug)]
pub struct NonNullPtr<T> {
    ptr: MutPtr<T>,
}

impl<T> View for NonNullPtr<T> {
    type V = usize;

    /// The address pointed at.
    closed spec fn view(&self) -> usize {
        self.ptr@
    }
}

impl<T> NonNullPtr<T> {
    /// The address is not zero.
    #[verifier::type_invariant]
    spec fn wf(self) -> bool {
        !self.ptr.is_null()
    }

    /// The address pointed at, which is not zero.
    pub fn addr(&self) -> (a: usize)
        ensures
            a == self@,
            a != 0,
    {
        proof {
            use_type_invariant(self);
        }
        self.ptr.addr()
    }

    /// Two such pointers of one address are one pointer.
    pub proof fn lemma_same_address_same_pointer(self, other: Self)
        requires
            self@ == other@,
        ensures
            self == other,
    {
    }
}

/// Lends the pointer it wraps, which is not null.
impl<T> AsPtr for NonNullPtr<T> {
    type Raw = T;

    open spec fn lends(&self, p: ConstPtr<T>) -> bool {
        p@ == self@ && !p.is_null()
    }

    fn as_ptr(&self) -> (p: ConstPtr<T>)
        ensures
            p@ == self@,
            !p.is_null(),
    {
        proof {
            use_type_invariant(self);
        }
        self.ptr.cast_const()
    }
}

/// Yields the pointer it wraps, which is not null.
impl<T> IntoRaw for NonNullPtr<T> {
    type Raw = T;

    open spec fn yields(self, p: MutPtr<T>) -> bool {
        p@ == self@ && !p.is_null()
    }

    fn into_raw(self) -> (p: MutPtr<T>)
        ensures
            p@ == self@,
            !p.is_null(),
    {
        proof {
            use_type_invariant(&self);
        }
        self.ptr
    }
}

/// Admits every pointer but the null pointer, and wraps it untested.
///
/// Where the pointer may be null, build an `Option<NonNullPtr<T>>` from it.
impl<T> FromRaw<T> for NonNullPtr<T> {
    open spec fn admits(raw: MutPtr<T>) -> bool {
        !raw.is_null()
    }

    open spec fn rebuilt_from(self, raw: MutPtr<T>) -> bool {
        self@ == raw@
    }

    fn from_raw(raw: MutPtr<T>) -> (out: NonNullPtr<T>)
        ensures
            out@ == raw@,
    {
        NonNullPtr { ptr: raw }
    }
}

/// Two pointers are equal where they point at one address.
impl<T> PartialEq for NonNullPtr<T> {
    fn eq(&self, other: &Self) -> (b: bool) {
        self.ptr.addr() == other.ptr.addr()
    }
}

impl<T> vstd::std_specs::cmp::PartialEqSpecImpl for NonNullPtr<T> {
    open spec fn obeys_eq_spec() -> bool {
        true
    }

    open spec fn eq_spec(&self, other: &Self) -> bool {
        self@ == other@
    }
}

impl<T> Eq for NonNullPtr<T> {

}

impl<T> Clone for NonNullPtr<T> {
    fn clone(&self) -> (p: Self)
        ensures
            p == *self,
    {
        proof {
            use_type_invariant(self);
        }
        NonNullPtr { ptr: self.ptr }
    }
}

impl<T> Copy for NonNullPtr<T> {

}

} // verus!
