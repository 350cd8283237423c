use ptrplus::{AsPtr, ConstPtr, FromRaw, IntoRaw, MutPtr, NonNullPtr};

#[test]
fn null_pointers_have_address_zero() {
    let c: ConstPtr<u32> = ConstPtr::null();
    let m: MutPtr<u32> = MutPtr::null();
    assert!(c.is_null());
    assert!(m.is_null());
    assert_eq!(c.addr(), 0);
    assert_eq!(m.addr(), 0);
}

#[test]
fn pointer_keeps_its_address() {
    let c: ConstPtr<u32> = ConstPtr::from_addr(0x1000);
    let m: MutPtr<u32> = MutPtr::from_addr(0x2000);
    assert_eq!(c.addr(), 0x1000);
    assert_eq!(m.addr(), 0x2000);
    assert!(!c.is_null());
    assert!(!m.is_null());
    assert_eq!(m.cast_const().addr(), 0x2000);
}

#[test]
fn pointers_compare_by_address() {
    let a: MutPtr<u8> = MutPtr::from_addr(8);
    let b: MutPtr<u8> = MutPtr::from_addr(8);
    let c: MutPtr<u8> = MutPtr::from_addr(16);
    assert_eq!(a, b);
    assert_ne!(a, c);
    let d: ConstPtr<u8> = ConstPtr::from_addr(8);
    let e: ConstPtr<u8> = ConstPtr::from_addr(9);
    assert_eq!(d, d.clone());
    assert_ne!(d, e);
}

#[test]
fn const_pointer_lends_itself() {
    let p: ConstPtr<u32> = ConstPtr::from_addr(0x40);
    assert_eq!(p.as_ptr(), p);
    let n: ConstPtr<u32> = ConstPtr::null();
    assert!(n.as_ptr().is_null());
}

#[test]
fn mut_pointer_into_raw_is_identity() {
    let p: MutPtr<u32> = MutPtr::from_addr(0xdead_0000);
    let q = p.into_raw();
    assert_eq!(q, p);
    assert_eq!(q.addr(), 0xdead_0000);
    let n: MutPtr<u32> = MutPtr::null();
    assert!(n.into_raw().is_null());
}

#[test]
fn mut_pointer_from_raw_is_identity() {
    let p: MutPtr<u32> = MutPtr::from_addr(0x80);
    let q: MutPtr<u32> = FromRaw::from_raw(p);
    assert_eq!(q, p);
    let n: MutPtr<u32> = FromRaw::from_raw(MutPtr::null());
    assert!(n.is_null());
}

#[test]
fn const_pointer_from_raw_keeps_address() {
    let p: MutPtr<u32> = MutPtr::from_addr(0x80);
    let q: ConstPtr<u32> = FromRaw::from_raw(p);
    assert_eq!(q.addr(), 0x80);
    let n: ConstPtr<u32> = FromRaw::from_raw(MutPtr::null());
    assert!(n.is_null());
}

#[test]
fn mut_pointer_round_trip() {
    let p: MutPtr<u64> = MutPtr::from_addr(0x1234);
    let back: MutPtr<u64> = FromRaw::from_raw(p.into_raw());
    assert_eq!(back, p);
}

#[test]
fn non_null_wraps_the_pointer() {
    let p: MutPtr<u32> = MutPtr::from_addr(0x100);
    let n: NonNullPtr<u32> = FromRaw::from_raw(p);
    assert_eq!(n.addr(), 0x100);
    assert_eq!(n.as_ptr().addr(), 0x100);
    assert!(!n.as_ptr().is_null());
    assert_eq!(n.into_raw(), p);
}

#[test]
fn non_null_round_trip() {
    let n: NonNullPtr<u32> = FromRaw::from_raw(MutPtr::from_addr(0x100));
    let back: NonNullPtr<u32> = FromRaw::from_raw(n.into_raw());
    assert_eq!(back, n);
    let other: NonNullPtr<u32> = FromRaw::from_raw(MutPtr::from_addr(0x104));
    assert_ne!(back, other);
}
