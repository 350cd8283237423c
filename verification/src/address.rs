//! Where the values that the standard library holds lie in memory.
//!
//! Nothing here is proved: each function makes one call of the standard
//! library and hands back the address that the call gave.
//!
//! Which address that is depends on where the value lies, not on what it
//! holds, so no contract here says which. What is claimed is that it is not
//! zero, wherever the pointer is one to a value that is there: a reference can
//! point at such a value, and a reference is never null.
use core::cell::{Cell, RefCell};
use std::rc::Rc;
use std::sync::Arc;
use vstd::prelude::*;

verus! {

/// `core::cell::Cell`, of which nothing is known but that it is a type.
#[verifier::external_type_specification]
#[verifier::external_body]
#[verifier::reject_recursive_types(T)]
pub struct ExCell<T: ?Sized>(core::cell::Cell<T>);

/// `core::cell::RefCell`, of which nothing is known but that it is a type.
#[verifier::external_type_specification]
#[verifier::external_body]
#[verifier::reject_recursive_types(T)]
pub struct ExRefCell<T: ?Sized>(core::cell::RefCell<T>);

/// `<[T]>::as_ptr`: where the slice's buffer begins. Where the slice has a
/// first element, that element lies there and the address is not zero. Where
/// the slice is empty nothing lies there, and nothing is claimed.
#[verifier::external_body]
pub(crate) fn slice_address<T>(s: &[T]) -> (a: usize)
    ensures
        s@.len() > 0 ==> a != 0,
{
    s.as_ptr() as usize
}

/// `core::ptr::from_ref`: where the referent lies. A reference is never
/// null, so the address is not zero.
#[verifier::external_body]
pub(crate) fn ref_address<T>(r: &T) -> (a: usize)
    ensures
        a != 0,
{
    core::ptr::from_ref(r) as usize
}

/// `Cell::as_ptr`: where the cell keeps its value, which is inside the cell
/// that `c` refers to: the address is not zero.
#[verifier::external_body]
pub(crate) fn cell_address<T>(c: &Cell<T>) -> (a: usize)
    ensures
        a != 0,
{
    c.as_ptr() as usize
}

/// `RefCell::as_ptr`: where the cell keeps its value, which is inside the
/// cell that `c` refers to: the address is not zero.
#[verifier::external_body]
pub(crate) fn ref_cell_address<T>(c: &RefCell<T>) -> (a: usize)
    ensures
        a != 0,
{
    c.as_ptr() as usize
}

/// `Rc::as_ptr`: where the shared value lies; the count stays as it is. The
/// value is there for as long as `rc` is, so the address is not zero.
#[verifier::external_body]
pub(crate) fn rc_address<T>(rc: &Rc<T>) -> (a: usize)
    ensures
        a != 0,
{
    Rc::as_ptr(rc) as usize
}

/// `Arc::as_ptr`: where the shared value lies; the count stays as it is. The
/// value is there for as long as `arc` is, so the address is not zero.
#[verifier::external_body]
pub(crate) fn arc_address<T>(arc: &Arc<T>) -> (a: usize)
    ensures
        a != 0,
{
    Arc::as_ptr(arc) as usize
}

/// `Box::into_raw`: the box is given up, its value stays on the heap, and the
/// address of that value comes back. It is documented as not null.
#[verifier::external_body]
pub(crate) fn box_into_address<T>(b: Box<T>) -> (a: usize)
    ensures
        a != 0,
{
    Box::into_raw(b) as usize
}

/// `Rc::into_raw`: the handle is given up with its count still held, and the
/// address of the shared value comes back. The count keeps the value there,
/// so the address is not zero.
#[verifier::external_body]
pub(crate) fn rc_into_address<T>(rc: Rc<T>) -> (a: usize)
    ensures
        a != 0,
{
    Rc::into_raw(rc) as usize
}

/// `Arc::into_raw`: the handle is given up with its count still held, and the
/// address of the shared value comes back. The count keeps the value there,
/// so the address is not zero.
#[verifier::external_body]
pub(crate) fn arc_into_address<T>(arc: Arc<T>) -> (a: usize)
    ensures
        a != 0,
{
    Arc::into_raw(arc) as usize
}

} // verus!
