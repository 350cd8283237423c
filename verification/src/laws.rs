//! What holds of the three capabilities taken together.
use crate::as_ptr::AsPtr;
use crate::from_raw::FromRaw;
use crate::handle::{ConstPtr, MutPtr};
use crate::into_raw::IntoRaw;
use crate::non_null::NonNullPtr;
use std::rc::Rc;
use std::sync::Arc;
use vstd::prelude::*;

verus! {

/// Whether giving a `T` up never yields the null pointer.
pub open spec fn never_yields_null<T: IntoRaw>() -> bool {
    forall|v: T, p: MutPtr<T::Raw>| #[trigger] v.yields(p) ==> !p.is_null()
}

/// Whether a `T` comes back as it was: every pointer that giving a `T` up may
/// yield is admitted, and whatever is built from it is the value given up.
pub open spec fn comes_back<T: IntoRaw<Raw = U> + FromRaw<U>, U>() -> bool {
    forall|v: T, p: MutPtr<U>|
        #[trigger] v.yields(p) ==> T::admits(p) && forall|w: T|
            #[trigger] w.rebuilt_from(p) ==> w == v
}

/// An absent value lends the null pointer and no other.
pub proof fn lemma_absent_lends_null<T: AsPtr>(p: ConstPtr<T::Raw>)
    ensures
        None::<T>.lends(p) <==> p.is_null(),
{
}

/// A present value lends what the value in it lends.
pub proof fn lemma_present_lends_as_inner<T: AsPtr>(v: T, p: ConstPtr<T::Raw>)
    ensures
        Some(v).lends(p) <==> v.lends(p),
{
}

/// An absent value yields the null pointer and no other, whatever `T` is.
pub proof fn lemma_absent_yields_null<T: IntoRaw>(p: MutPtr<T::Raw>)
    ensures
        None::<T>.yields(p) <==> p.is_null(),
{
}

/// A present value yields what the value in it yields.
pub proof fn lemma_present_yields_as_inner<T: IntoRaw>(v: T, p: MutPtr<T::Raw>)
    ensures
        Some(v).yields(p) <==> v.yields(p),
{
}

/// Where a `T` never yields the null pointer, a present `T` never does.
pub proof fn lemma_present_never_yields_null<T: IntoRaw>(v: T, p: MutPtr<T::Raw>)
    requires
        never_yields_null::<T>(),
        Some(v).yields(p),
    ensures
        !p.is_null(),
{
}

/// A box never yields the null pointer, nor does a present optional box.
pub proof fn lemma_box_never_yields_null<T>()
    ensures
        never_yields_null::<Box<T>>(),
        forall|b: Box<T>, p: MutPtr<T>| #[trigger] Some(b).yields(p) ==> !p.is_null(),
{
}

/// A shared value never yields the null pointer, whichever count it keeps,
/// nor does a present optional one.
pub proof fn lemma_shared_never_yields_null<T>()
    ensures
        never_yields_null::<Rc<T>>(),
        never_yields_null::<Arc<T>>(),
        forall|r: Rc<T>, p: MutPtr<T>| #[trigger] Some(r).yields(p) ==> !p.is_null(),
        forall|a: Arc<T>, p: MutPtr<T>| #[trigger] Some(a).yields(p) ==> !p.is_null(),
{
}

/// A pointer that is never null never yields the null pointer, nor does a
/// present optional one.
pub proof fn lemma_non_null_never_yields_null<T>()
    ensures
        never_yields_null::<NonNullPtr<T>>(),
        forall|n: NonNullPtr<T>, p: MutPtr<T>| #[trigger] Some(n).yields(p) ==> !p.is_null(),
{
}

/// The null pointer is admitted for an optional value, whatever `T` admits,
/// and only the absent value is built from it.
pub proof fn lemma_null_rebuilds_absent<T: FromRaw<U>, U>(raw: MutPtr<U>, out: Option<T>)
    requires
        raw.is_null(),
    ensures
        Option::<T>::admits(raw),
        out.rebuilt_from(raw) <==> out is None,
{
}

/// From a pointer that is not null an optional value is built as `T` is: the
/// same pointers are admitted, and what is built is present and holds what `T`
/// builds.
pub proof fn lemma_other_rebuilds_present<T: FromRaw<U>, U>(raw: MutPtr<U>, out: Option<T>)
    requires
        !raw.is_null(),
    ensures
        Option::<T>::admits(raw) <==> T::admits(raw),
        out.rebuilt_from(raw) <==> out is Some && out->0.rebuilt_from(raw),
{
}

/// An optional pointer that is never null admits every pointer: the null test
/// is made, so nothing is left for the caller to keep.
pub proof fn lemma_optional_non_null_admits_all<T>(raw: MutPtr<T>)
    ensures
        Option::<NonNullPtr<T>>::admits(raw),
{
}

/// A pointer comes back as it was.
pub proof fn lemma_pointer_comes_back<T>()
    ensures
        comes_back::<MutPtr<T>, T>(),
{
}

/// A pointer that is never null comes back as it was.
pub proof fn lemma_non_null_comes_back<T>()
    ensures
        comes_back::<NonNullPtr<T>, T>(),
{
    assert forall|v: NonNullPtr<T>, p: MutPtr<T>| #[trigger] v.yields(p) implies NonNullPtr::<
        T,
    >::admits(p) && forall|w: NonNullPtr<T>| #[trigger] w.rebuilt_from(p) ==> w == v by {
        assert forall|w: NonNullPtr<T>| #[trigger] w.rebuilt_from(p) implies w == v by {
            w.lemma_same_address_same_pointer(v);
        }
    }
}

/// Where a `T` comes back as it was and never yields the null pointer, an
/// optional `T` comes back as it was: absent as absent, present as present
/// with the same value in it.
pub proof fn lemma_optional_comes_back<T: IntoRaw<Raw = U> + FromRaw<U>, U>()
    requires
        comes_back::<T, U>(),
        never_yields_null::<T>(),
    ensures
        comes_back::<Option<T>, U>(),
{
    assert forall|v: Option<T>, p: MutPtr<U>| #[trigger] v.yields(p) implies Option::<T>::admits(p)
        && forall|w: Option<T>| #[trigger] w.rebuilt_from(p) ==> w == v by {
        match v {
            Some(x) => {
                assert(x.yields(p));
                assert forall|w: Option<T>| #[trigger] w.rebuilt_from(p) implies w == v by {
                    assert(w is Some);
                    assert(w->0.rebuilt_from(p));
                }
            },
            None => {},
        }
    }
}

/// An optional pointer that is never null comes back as it was.
pub proof fn lemma_optional_non_null_comes_back<T>()
    ensures
        comes_back::<Option<NonNullPtr<T>>, T>(),
{
    lemma_non_null_comes_back::<T>();
    lemma_optional_comes_back::<NonNullPtr<T>, T>();
}

/// The round trip of one value: where `p` is yielded by `v` and `w` is built
/// from `p`, `w` is `v`.
pub proof fn lemma_round_trip<T: IntoRaw<Raw = U> + FromRaw<U>, U>(v: T, p: MutPtr<U>, w: T)
    requires
        comes_back::<T, U>(),
        v.yields(p),
        w.rebuilt_from(p),
    ensures
        T::admits(p),
        w == v,
{
}

} // verus!
