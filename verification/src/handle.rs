//! Pointer handles: an address, typed by the pointee.
use core::marker::PhantomData;
use vstd::prelude::*;

verus! {

/// A read-only pointer to a `T`, held as its address.
///
/// A handle owns nothing and promises nothing of the memory at its address.
#[derive(Debug)]
pub struct ConstPtr<T> {
    pub addr: usize,
    pub pointee: PhantomData<T>,
}

/// A read-write pointer to a `T`, held as its address.
///
/// A handle owns nothing and promises nothing of the memory at its address.
#[derive(Debug)]
pub struct MutPtr<T> {
    pub addr: usize,
    pub pointee: PhantomData<T>,
}

impl<T> View for ConstPtr<T> {
    type V = usize;

    /// The address pointed at.
    open spec fn view(&self) -> usize {
        self.addr
    }
}

impl<T> View for MutPtr<T> {
    type V = usize;

    /// The address pointed at.
    open spec fn view(&self) -> usize {
        self.addr
    }
}

impl<T> ConstPtr<T> {
    /// Whether this is the null pointer.
    pub open spec fn spec_is_null(&self) -> bool {
        self@ == 0
    }

    /// The null pointer.
    pub fn null() -> (p: Self)
        ensures
            p@ == 0,
            p.is_null(),
    {
        ConstPtr { addr: 0, pointee: PhantomData }
    }

    /// The pointer to address `addr`.
    pub fn from_addr(addr: usize) -> (p: Self)
        ensures
            p@ == addr,
    {
        ConstPtr { addr, pointee: PhantomData }
    }

    /// The address pointed at.
    pub fn addr(&self) -> (a: usize)
        ensures
            a == self@,
    {
        self.addr
    }

    /// Whether this is the null pointer.
    #[verifier::when_used_as_spec(spec_is_null)]
    pub fn is_null(&self) -> (b: bool)
        ensures
            b == self.is_null(),
    {
        self.addr == 0
    }
}

impl<T> MutPtr<T> {
    /// Whether this is the null pointer.
    pub open spec fn spec_is_null(&self) -> bool {
        self@ == 0
    }

    /// The null pointer.
    pub fn null() -> (p: Self)
        ensures
            p@ == 0,
            p.is_null(),
    {
        MutPtr { addr: 0, pointee: PhantomData }
    }

    /// The pointer to address `addr`.
    pub fn from_addr(addr: usize) -> (p: Self)
        ensures
            p@ == addr,
    {
        MutPtr { addr, pointee: PhantomData }
    }

    /// The address pointed at.
    pub fn addr(&self) -> (a: usize)
        ensures
            a == self@,
    {
        self.addr
    }

    /// Whether this is the null pointer.
    #[verifier::when_used_as_spec(spec_is_null)]
    pub fn is_null(&self) -> (b: bool)
        ensures
            b == self.is_null(),
    {
        self.addr == 0
    }

    /// The same address, read-only.
    pub fn cast_const(self) -> (p: ConstPtr<T>)
        ensures
            p@ == self@,
    {
        ConstPtr { addr: self.addr, pointee: PhantomData }
    }
}

impl<T> Clone for ConstPtr<T> {
    fn clone(&self) -> (p: Self)
        ensures
            p == *self,
    {
        ConstPtr { addr: self.addr, pointee: PhantomData }
    }
}

impl<T> Copy for ConstPtr<T> {

}

impl<T> Clone for MutPtr<T> {
    fn clone(&self) -> (p: Self)
        ensures
            p == *self,
    {
        MutPtr { addr: self.addr, pointee: PhantomData }
    }
}

impl<T> Copy for MutPtr<T> {

}

/// Two pointers are equal where they point at one address.
impl<T> PartialEq for ConstPtr<T> {
    fn eq(&self, other: &Self) -> (b: bool) {
        self.addr == other.addr
    }
}

impl<T> vstd::std_specs::cmp::PartialEqSpecImpl for ConstPtr<T> {
    open spec fn obeys_eq_spec() -> bool {
        true
    }

    open spec fn eq_spec(&self, other: &Self) -> bool {
        self.addr == other.addr
    }
}

impl<T> Eq for ConstPtr<T> {

}

/// Two pointers are equal where they point at one address.
impl<T> PartialEq for MutPtr<T> {
    fn eq(&self, other: &Self) -> (b: bool) {
        self.addr == other.addr
    }
}

impl<T> vstd::std_specs::cmp::PartialEqSpecImpl for MutPtr<T> {
    open spec fn obeys_eq_spec() -> bool {
        true
    }

    open spec fn eq_spec(&self, other: &Self) -> bool {
        self.addr == other.addr
    }
}

impl<T> Eq for MutPtr<T> {

}

} // verus!
