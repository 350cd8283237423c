use ptrplus::{AsPtr, FromRaw, IntoRaw, MutPtr, NonNullPtr};
use std::cell::{Cell, RefCell};
use std::rc::Rc;
use std::sync::Arc;

#[test]
fn reference_lends_a_pointer_that_is_not_null() {
    let x: &u32 = &5;
    let y = x.as_ptr();
    assert!(!y.is_null());
    assert_eq!(y, x.as_ptr());
}

#[test]
fn optional_reference_lends_null_or_the_referent() {
    let x: u32 = 5;
    let absent: Option<&u32> = None;
    let present: Option<&u32> = Some(&x);
    assert!(absent.as_ptr().is_null());
    assert!(!present.as_ptr().is_null());
    assert_eq!(present.as_ptr(), (&x).as_ptr());
}

#[test]
fn slice_lends_its_first_element() {
    let v: Vec<u32> = vec![7, 8, 9];
    let p = AsPtr::as_ptr(v.as_slice());
    assert!(!p.is_null());
    assert_eq!(p, (&v[0]).as_ptr());
    let tail = AsPtr::as_ptr(&v[1..]);
    assert_eq!(tail.addr(), p.addr() + 4);
}

#[test]
fn empty_slice_lends_a_pointer_that_is_not_read() {
    let v: Vec<u32> = Vec::new();
    let s: &[u32] = v.as_slice();
    assert_eq!(s.len(), 0);
    let p = AsPtr::as_ptr(s);
    let again = AsPtr::as_ptr(s);
    assert_eq!(p, again);
}

#[test]
fn box_lends_the_place_of_its_value() {
    let b: Box<u32> = Box::new(5);
    let p = AsPtr::as_ptr(&b);
    assert!(!p.is_null());
    assert_eq!(p, (&*b).as_ptr());
    assert_eq!(*b, 5);
}

#[test]
fn cell_lends_its_slot() {
    let c: Cell<u32> = Cell::new(5);
    let p = AsPtr::as_ptr(&c);
    assert!(!p.is_null());
    let whole: &Cell<u32> = &c;
    assert_eq!(p.addr(), AsPtr::as_ptr(&whole).addr());
    c.set(6);
    assert_eq!(AsPtr::as_ptr(&c), p);
    assert_eq!(c.get(), 6);
}

#[test]
fn ref_cell_lends_its_slot() {
    let c: RefCell<u32> = RefCell::new(5);
    let p = AsPtr::as_ptr(&c);
    assert!(!p.is_null());
    let held = c.borrow();
    assert_eq!(p.addr(), (&*held).as_ptr().addr());
    assert_eq!(*held, 5);
}

#[test]
fn rc_lends_without_touching_the_count() {
    let a: Rc<u32> = Rc::new(5);
    let b = a.clone();
    let p = AsPtr::as_ptr(&a);
    assert!(!p.is_null());
    assert_eq!(p, AsPtr::as_ptr(&b));
    assert_eq!(p, (&*a).as_ptr());
    assert_eq!(Rc::strong_count(&a), 2);
}

#[test]
fn arc_lends_without_touching_the_count() {
    let a: Arc<u32> = Arc::new(5);
    let b = a.clone();
    let p = AsPtr::as_ptr(&a);
    assert!(!p.is_null());
    assert_eq!(p, AsPtr::as_ptr(&b));
    assert_eq!(p, (&*a).as_ptr());
    assert_eq!(Arc::strong_count(&a), 2);
}

#[test]
fn box_yields_the_place_of_its_value() {
    let x: Box<u32> = Box::new(5);
    let lent = AsPtr::as_ptr(&x);
    let y: MutPtr<u32> = x.into_raw();
    assert!(!y.is_null());
    assert_eq!(y.addr(), lent.addr());
}

#[test]
fn box_of_nothing_yields_a_pointer_that_is_not_null() {
    let x: Box<()> = Box::new(());
    assert!(!AsPtr::as_ptr(&x).is_null());
    assert!(!x.into_raw().is_null());
}

#[test]
fn optional_box_none_round_trip() {
    let absent: Option<Box<u32>> = None;
    let raw: MutPtr<u32> = absent.into_raw();
    assert!(raw.is_null());
    let back: Option<NonNullPtr<u32>> = FromRaw::from_raw(raw);
    assert!(back.is_none());
}

#[test]
fn optional_box_some_yields_a_pointer_that_is_not_null() {
    let present: Option<Box<u32>> = Some(Box::new(5));
    let raw: MutPtr<u32> = present.into_raw();
    assert!(!raw.is_null());
    let back: Option<NonNullPtr<u32>> = FromRaw::from_raw(raw);
    assert_eq!(back.map(|n| n.into_raw()), Some(raw));
}

#[test]
fn rc_yields_its_place_and_keeps_the_count() {
    let a: Rc<u32> = Rc::new(5);
    let b = a.clone();
    let lent = AsPtr::as_ptr(&b);
    let p = a.into_raw();
    assert!(!p.is_null());
    assert_eq!(p.addr(), lent.addr());
    assert_eq!(Rc::strong_count(&b), 2);
    assert_eq!(*b, 5);
}

#[test]
fn arc_yields_its_place_and_keeps_the_count() {
    let a: Arc<u32> = Arc::new(5);
    let b = a.clone();
    let lent = AsPtr::as_ptr(&b);
    let p = a.into_raw();
    assert!(!p.is_null());
    assert_eq!(p.addr(), lent.addr());
    assert_eq!(Arc::strong_count(&b), 2);
    assert_eq!(*b, 5);
}

#[test]
fn optional_shared_is_null_only_when_absent() {
    let shared: Rc<u32> = Rc::new(5);
    let kept = shared.clone();
    assert!(!Some(shared).into_raw().is_null());
    assert!(!Some(kept.clone()).as_ptr().is_null());
    let absent: Option<Rc<u32>> = None;
    assert!(absent.as_ptr().is_null());
    let atomic: Arc<u32> = Arc::new(5);
    let held = atomic.clone();
    assert!(!Some(atomic).into_raw().is_null());
    assert!(!Some(held.clone()).as_ptr().is_null());
    let absent: Option<Arc<u32>> = None;
    assert!(absent.as_ptr().is_null());
}

#[test]
fn shared_nothing_lends_a_pointer_that_is_not_null() {
    let nothing: Rc<()> = Rc::new(());
    assert!(!AsPtr::as_ptr(&nothing).is_null());
    let cell: Cell<()> = Cell::new(());
    assert!(!AsPtr::as_ptr(&cell).is_null());
    let atomic: Arc<()> = Arc::new(());
    assert!(!atomic.into_raw().is_null());
}
