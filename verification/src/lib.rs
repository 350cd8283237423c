//! Conversions between values and pointers, for code that meets foreign functions.
//!
//! A pointer is held as a handle: the address it points at, typed by what lies
//! there. The null pointer is the handle of address zero, and it is the one way
//! an absent optional value is written as a pointer.
//!
//! Three capabilities are offered, each as a trait:
//! [`AsPtr`] lends a pointer to a borrowed value, [`IntoRaw`] gives a value up
//! for the pointer that stands for it, and [`FromRaw`] builds a value back from
//! such a pointer. Each is stated as a relation between the value and the
//! pointer, which every impl spells out for its type, and an optional value
//! has each capability that its inner type has.
//!
//! The library never reads or writes through a pointer. It gives the owners of
//! the standard library up for their pointers; to build such an owner back is
//! to trust the pointer, and is left to the code that holds it.
mod address;
pub mod as_ptr;
pub mod from_raw;
pub mod handle;
pub mod into_raw;
pub mod laws;
pub mod non_null;

pub use as_ptr::AsPtr;
pub use from_raw::FromRaw;
pub use handle::{ConstPtr, MutPtr};
pub use into_raw::IntoRaw;
pub use non_null::NonNullPtr;
