//! A wrapper that raises the alignment of a value to that of a chosen type,
//! with a catalogue of zero-sized alignment markers.
//!
//! `AlignConstr<T, A>` holds a `T` beside an empty array `[A; 0]`. The array stores nothing
//! but raises the alignment of the whole to the larger of `T`'s and `A`'s, so the size grows
//! only by the padding that this alignment asks for. These layout facts come from the
//! compiler and are exercised by the tests; the contracts here state how the wrapper's
//! operations relate to the payload's.
//!
//! The struct uses Rust's default representation: no representation attribute is written,
//! so the compiler is free to order the two fields. Since the tag is zero-sized this does
//! not move the payload's bytes in practice, but the relative field order is not a
//! guaranteed property of the type.

pub mod n_zst;

use vstd::prelude::*;
use vstd::pervasive::strictly_cloned;
use vstd::slice::slice_subrange;
use vstd::std_specs::cmp::{PartialEqSpec, PartialOrdSpec};

verus! {

/// A value of type `T` whose alignment is at least that of `A`.
///
/// The tag `[A; 0]` occupies no bytes and contributes only the alignment of `A`;
/// the payload is kept in `value`. The tag holds no data and is always `[]`. It is public
/// because the verifier treats a struct with a private field as opaque outside its module,
/// and the public contracts of this crate must be able to speak of `value`.
///
/// The total order (`Ord`) is derived. It compares the empty tags first, which are always
/// equal, and then the payloads, so it orders exactly as the payload does. Being derived,
/// it needs `A: Ord` besides `T: Ord`; the markers of [`n_zst`] are all `Ord`.
#[derive(Ord)]
pub struct AlignConstr<T: ?Sized, A> {
    pub _alignment_constraint: [A; 0],
    pub value: T,
}

impl<T, A> AlignConstr<T, A> {
    /// Wraps `value`.
    pub fn new(value: T) -> (r: AlignConstr<T, A>)
        ensures
            r.value == value,
    {
        AlignConstr { _alignment_constraint: [], value }
    }
}

impl<T: PartialEq + ?Sized, A> PartialEq for AlignConstr<T, A> {
    /// Compares the payloads; the tag takes no part.
    fn eq(&self, other: &Self) -> (r: bool) {
        self.value == other.value
    }
}

impl<T: PartialEq + ?Sized, A> vstd::std_specs::cmp::PartialEqSpecImpl for AlignConstr<T, A> {
    open spec fn obeys_eq_spec() -> bool {
        T::obeys_eq_spec()
    }

    open spec fn eq_spec(&self, other: &Self) -> bool {
        self.value.eq_spec(&other.value)
    }
}

impl<T: Eq + ?Sized, A> Eq for AlignConstr<T, A> {
}

impl<T: PartialOrd + ?Sized, A> PartialOrd for AlignConstr<T, A> {
    /// Orders by the payloads; the tag takes no part.
    fn partial_cmp(&self, other: &Self) -> (r: Option<core::cmp::Ordering>) {
        self.value.partial_cmp(&other.value)
    }
}

impl<T: PartialOrd + ?Sized, A> vstd::std_specs::cmp::PartialOrdSpecImpl for AlignConstr<T, A> {
    open spec fn obeys_partial_cmp_spec() -> bool {
        T::obeys_partial_cmp_spec()
    }

    open spec fn partial_cmp_spec(&self, other: &Self) -> Option<core::cmp::Ordering> {
        self.value.partial_cmp_spec(&other.value)
    }
}

impl<T: Clone, A> Clone for AlignConstr<T, A> {
    /// Clones the payload; the tag is rebuilt empty, so `A` need not be `Clone`.
    fn clone(&self) -> (r: Self)
        ensures
            strictly_cloned(self.value, r.value),
    {
        AlignConstr { _alignment_constraint: [], value: self.value.clone() }
    }

    /// Clones the payload of `source` into `self`.
    fn clone_from(&mut self, source: &Self)
        ensures
            strictly_cloned(source.value, final(self).value),
    {
        self.value = source.value.clone();
    }
}

/// Bitwise copies need the payload to be `Copy` and the tag `[A; 0]` to be `Copy`, which
/// holds exactly when `A` is `Copy`: an empty array is not `Copy` merely for being empty.
impl<T: Copy, A: Copy> Copy for AlignConstr<T, A> {
}

impl<T: Default, A> Default for AlignConstr<T, A> {
    /// Wraps the payload's default value.
    fn default() -> (r: Self)
        ensures
            call_ensures(T::default, (), r.value),
    {
        AlignConstr::new(T::default())
    }
}

impl<T: core::ops::Deref + ?Sized, A> core::ops::Deref for AlignConstr<T, A> {
    type Target = T::Target;

    /// Dereferences through the payload: the result is what the payload dereferences to,
    /// not the payload itself.
    fn deref(&self) -> (r: &T::Target)
        ensures
            call_ensures(T::deref, (&self.value,), r),
    {
        self.value.deref()
    }
}

impl<T: core::ops::DerefMut + ?Sized, A> core::ops::DerefMut for AlignConstr<T, A> {
    /// Dereferences mutably through the payload.
    fn deref_mut(&mut self) -> (r: &mut T::Target) {
        self.value.deref_mut()
    }
}

/// Relies on `core::hash::Hash::hash`: feeds `v` to `state`. Nothing is stated of the
/// hasher's state, which belongs to `H`.
#[verifier::external_body]
fn hash_into<V: core::hash::Hash + ?Sized, H: core::hash::Hasher>(v: &V, state: &mut H) {
    v.hash(state)
}

impl<T: core::hash::Hash + ?Sized, A> core::hash::Hash for AlignConstr<T, A> {
    /// Feeds the payload, and nothing else, to `state`.
    fn hash<H: core::hash::Hasher>(&self, state: &mut H) {
        hash_into(&self.value, state);
    }

    /// Feeds the payloads of `data` to `state`, in order.
    fn hash_slice<H: core::hash::Hasher>(data: &[Self], state: &mut H) where Self: Sized {
        let mut i: usize = 0;
        while i < data.len()
            invariant
                i <= data@.len(),
            decreases data@.len() - i,
        {
            hash_into(&data[i].value, state);
            i += 1;
        }
    }
}

/// Relies on `as_slice::AsSlice` for `[E; N]`, whose `as_slice` returns the array itself
/// as a slice: the view holds the array's elements in order.
#[verifier::external_body]
fn array_as_slice<E, const N: usize>(a: &[E; N]) -> (r: &[E])
    ensures
        r@ == a@,
{
    as_slice::AsSlice::as_slice(a)
}

/// Relies on `as_slice::AsMutSlice` for `[E; N]`, whose `as_mut_slice` returns the array
/// itself as a mutable slice: it starts with the array's elements, and what is written
/// through it is what the array holds afterwards.
#[verifier::external_body]
fn array_as_mut_slice<E, const N: usize>(a: &mut [E; N]) -> (r: &mut [E])
    ensures
        (*r)@ == old(a)@,
        final(a)@ == (*final(r))@,
{
    as_slice::AsMutSlice::as_mut_slice(a)
}

impl<E, A, const N: usize> AlignConstr<[E; N], A> {
    /// The payload's elements, as a slice.
    pub fn as_slice(&self) -> (r: &[E])
        ensures
            r@ == self.value@,
    {
        array_as_slice(&self.value)
    }

    /// The payload's elements, as a mutable slice; what is written through it is what the
    /// payload holds afterwards.
    pub fn as_mut_slice(&mut self) -> (r: &mut [E])
        ensures
            (*r)@ == old(self).value@,
            final(self).value@ == (*final(r))@,
    {
        array_as_mut_slice(&mut self.value)
    }
}

/// Relies on `as_slice::AsSlice` for `[E]`, whose `as_slice` returns the slice itself.
#[verifier::external_body]
fn slice_as_slice<E>(a: &[E]) -> (r: &[E])
    ensures
        r@ == a@,
{
    as_slice::AsSlice::as_slice(a)
}

/// Relies on `as_slice::AsMutSlice` for `[E]`, whose `as_mut_slice` returns the slice
/// itself: it starts with the slice's elements, and what is written through it is what the
/// slice holds afterwards.
#[verifier::external_body]
fn slice_as_mut_slice<E>(a: &mut [E]) -> (r: &mut [E])
    ensures
        (*r)@ == (*old(a))@,
        (*final(a))@ == (*final(r))@,
{
    as_slice::AsMutSlice::as_mut_slice(a)
}

impl<E, A> AlignConstr<[E], A> {
    /// The payload's elements, as a slice.
    pub fn as_slice(&self) -> (r: &[E])
        ensures
            r@ == self.value@,
    {
        slice_as_slice(&self.value)
    }

    /// The payload's elements, as a mutable slice; what is written through it is what the
    /// payload holds afterwards.
    pub fn as_mut_slice(&mut self) -> (r: &mut [E])
        ensures
            (*r)@ == old(self).value@,
            final(self).value@ == (*final(r))@,
    {
        slice_as_mut_slice(&mut self.value)
    }

    /// The elements before position `end`, borrowed in place from the payload. They start
    /// where the payload starts, so the first of them sits at the wrapper's alignment.
    pub fn prefix(&self, end: usize) -> (r: &[E])
        requires
            end <= self.value@.len(),
        ensures
            r@ == self.value@.subrange(0, end as int),
    {
        slice_subrange(&self.value, 0, end)
    }
}

impl<E: Copy, A> AlignConstr<Vec<E>, A> {
    /// The elements before position `end`, copied into a new wrapper with the same
    /// alignment source.
    ///
    /// The result has the same type as `self`, so it has the same alignment. For a `Vec`
    /// payload that alignment covers the `Vec` header held in the wrapper, not the heap
    /// buffer holding the elements; for a prefix of inline, aligned elements use the
    /// slice payload's `prefix`.
    pub fn prefix(&self, end: usize) -> (r: AlignConstr<Vec<E>, A>)
        requires
            end <= self.value@.len(),
        ensures
            r.value@ == self.value@.subrange(0, end as int),
    {
        let mut out: Vec<E> = Vec::with_capacity(end);
        let mut i: usize = 0;
        while i < end
            invariant
                i <= end,
                end <= self.value@.len(),
                out@ == self.value@.subrange(0, i as int),
            decreases end - i,
        {
            out.push(self.value[i]);
            i += 1;
        }
        AlignConstr::new(out)
    }
}

/// Equality of wrappers is the payloads' equality and nothing else: two wrappers are equal
/// exactly when their payloads are, whatever the alignment source. Hence it is reflexive,
/// symmetric and transitive whenever the payload's equality is.
pub proof fn lemma_eq_is_payload_eq<T: PartialEq, A>(
    a: AlignConstr<T, A>,
    b: AlignConstr<T, A>,
    c: AlignConstr<T, A>,
)
    requires
        forall|x: T| #[trigger] x.eq_spec(&x),
        forall|x: T, y: T| #[trigger] x.eq_spec(&y) ==> y.eq_spec(&x),
        forall|x: T, y: T, z: T| #[trigger] x.eq_spec(&y) && #[trigger] y.eq_spec(&z) ==> x.eq_spec(&z),
    ensures
        AlignConstr::<T, A>::obeys_eq_spec() == T::obeys_eq_spec(),
        a.eq_spec(&b) == a.value.eq_spec(&b.value),
        a.value == b.value ==> a.eq_spec(&b),
        a.eq_spec(&a),
        a.eq_spec(&b) ==> b.eq_spec(&a),
        a.eq_spec(&b) && b.eq_spec(&c) ==> a.eq_spec(&c),
{
}

/// Dereferencing a wrapper yields what dereferencing its payload yields.
pub proof fn lemma_deref_through<T: core::ops::Deref, A>(w: AlignConstr<T, A>, r: &T::Target)
    requires
        call_ensures(<AlignConstr<T, A> as core::ops::Deref>::deref, (&w,), r),
    ensures
        call_ensures(T::deref, (&w.value,), r),
{
}

} // verus!
