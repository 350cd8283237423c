//! Lending a pointer to a borrowed value.
use crate::address::{
    arc_address, cell_address, rc_address, ref_address, ref_cell_address, slice_address,
};
use crate::handle::ConstPtr;
use core::cell::{Cell, RefCell};
use std::rc::Rc;
use std::sync::Arc;
use vstd::prelude::*;

verus! {

/// Values that lend a pointer to what they hold.
///
/// The value is only borrowed: it is neither given up nor changed, and the
/// pointer owns nothing. The pointer is good for as long as the value stays
/// where it is; what changing the value does to it is for each type to say.
pub trait AsPtr {
    /// What the pointer points at.
    type Raw;

    /// Whether `p` is a pointer that borrowing this value may lend.
    spec fn lends(&self, p: ConstPtr<Self::Raw>) -> bool;

    /// A pointer to what this value holds.
    fn as_ptr(&self) -> (p: ConstPtr<Self::Raw>)
        ensures
            self.lends(p),
    ;
}

/// A pointer lends itself.
impl<T> AsPtr for ConstPtr<T> {
    type Raw = T;

    open spec fn lends(&self, p: ConstPtr<T>) -> bool {
        p == *self
    }

    fn as_ptr(&self) -> (p: ConstPtr<T>)
        ensures
            p == *self,
    {
        *self
    }
}

/// A slice lends a pointer to its first element, which is not null where
/// there is one. Where the slice is empty there is no first element: the
/// pointer must not be read through, and it need not be null.
impl<T> AsPtr for [T] {
    type Raw = T;

    open spec fn lends(&self, p: ConstPtr<T>) -> bool {
        self@.len() > 0 ==> !p.is_null()
    }

    fn as_ptr(&self) -> (p: ConstPtr<T>) {
        ConstPtr::from_addr(slice_address(self))
    }
}

/// A reference lends the place it refers to, which is never null.
impl<'a, T> AsPtr for &'a T {
    type Raw = T;

    open spec fn lends(&self, p: ConstPtr<T>) -> bool {
        !p.is_null()
    }

    fn as_ptr(&self) -> (p: ConstPtr<T>)
        ensures
            !p.is_null(),
    {
        ConstPtr::from_addr(ref_address(*self))
    }
}

/// A box lends the place of its value on the heap, which is never null.
impl<T> AsPtr for Box<T> {
    type Raw = T;

    open spec fn lends(&self, p: ConstPtr<T>) -> bool {
        !p.is_null()
    }

    fn as_ptr(&self) -> (p: ConstPtr<T>)
        ensures
            !p.is_null(),
    {
        let inner: &T = &**self;
        inner.as_ptr()
    }
}

/// A cell lends the slot that holds its value, which is never null. Writing
/// through the cell while the pointer is in use is for the caller to rule out.
impl<T> AsPtr for Cell<T> {
    type Raw = T;

    open spec fn lends(&self, p: ConstPtr<T>) -> bool {
        !p.is_null()
    }

    fn as_ptr(&self) -> (p: ConstPtr<T>) {
        ConstPtr::from_addr(cell_address(self))
    }
}

/// A cell lends the slot that holds its value, whatever is borrowed from it.
/// The slot is never null.
impl<T> AsPtr for RefCell<T> {
    type Raw = T;

    open spec fn lends(&self, p: ConstPtr<T>) -> bool {
        !p.is_null()
    }

    fn as_ptr(&self) -> (p: ConstPtr<T>) {
        ConstPtr::from_addr(ref_cell_address(self))
    }
}

/// A shared value lends the place where it lies, which is never null; the
/// count stays as it is.
impl<T> AsPtr for Rc<T> {
    type Raw = T;

    open spec fn lends(&self, p: ConstPtr<T>) -> bool {
        !p.is_null()
    }

    fn as_ptr(&self) -> (p: ConstPtr<T>)
        ensures
            !p.is_null(),
    {
        ConstPtr::from_addr(rc_address(self))
    }
}

/// A shared value lends the place where it lies, which is never null; the
/// count stays as it is.
impl<T> AsPtr for Arc<T> {
    type Raw = T;

    open spec fn lends(&self, p: ConstPtr<T>) -> bool {
        !p.is_null()
    }

    fn as_ptr(&self) -> (p: ConstPtr<T>)
        ensures
            !p.is_null(),
    {
        ConstPtr::from_addr(arc_address(self))
    }
}

/// An absent value lends the null pointer, a present one what it lends itself.
impl<T: AsPtr> AsPtr for Option<T> {
    type Raw = T::Raw;

    open spec fn lends(&self, p: ConstPtr<T::Raw>) -> bool {
        match self {
            Some(v) => v.lends(p),
            None => p.is_null(),
        }
    }

    fn as_ptr(&self) -> (p: ConstPtr<T::Raw>)
        ensures
            self is None ==> p.is_null(),
            self matches Some(v) ==> v.lends(p),
    {
        match self {
            Some(v) => v.as_ptr(),
            None => ConstPtr::null(),
        }
    }
}

} // verus!
