//! The array type itself, its view as a sequence, and its slice views.

use crate::length::ArrayLength;
use core::marker::PhantomData;
use vstd::prelude::*;
use vstd::std_specs::cmp::{PartialEqSpec, PartialEqSpecImpl};
use vstd::std_specs::iter::IteratorSpec;

verus! {

/// An array of exactly `N::len()` elements of `T`: `GenericArray<T, N>` works like
/// `[T; N]`, with the length given by the token `N`.
///
/// The array owns its elements. Dropping it drops every element once; moving it
/// moves them all.
#[derive(Debug, PartialOrd, Ord, Hash)]
pub struct GenericArray<T, N: ArrayLength> {
    data: Vec<T>,
    _length: PhantomData<N>,
}

impl<T, N: ArrayLength> View for GenericArray<T, N> {
    type V = Seq<T>;

    /// The elements, first to last.
    closed spec fn view(&self) -> Seq<T> {
        self.data@
    }
}

/// `Vec::as_mut_slice` of std: the mutable slice over all the elements of a vector.
/// The slice starts out with the vector's elements; what is written through it is
/// what the vector holds afterwards; a slice keeps its length; and the call cannot
/// unwind.
#[verifier::external_body]
fn vec_as_mut_slice<T>(vec: &mut Vec<T>) -> (slice: &mut [T])
    ensures
        slice@ == old(vec)@,
        final(slice)@ == final(vec)@,
        final(slice)@.len() == slice@.len(),
    no_unwind
{
    vec.as_mut_slice()
}

impl<T, N: ArrayLength> GenericArray<T, N> {
    #[verifier::type_invariant]
    pub(crate) open spec fn well_formed(&self) -> bool {
        self@.len() == N::len()
    }

    /// The array that holds its elements in the vector `data`.
    pub closed spec fn spec_from_vec(data: Vec<T>) -> Self {
        GenericArray { data, _length: PhantomData }
    }

    /// Wraps a vector of the right length, keeping its elements in place.
    pub(crate) fn from_vec(data: Vec<T>) -> (array: Self)
        requires
            data@.len() == N::len(),
        ensures
            array == Self::spec_from_vec(data),
            array@ == data@,
    {
        GenericArray { data, _length: PhantomData }
    }

    /// The vector that holds the elements.
    pub closed spec fn spec_into_vec(self) -> Vec<T> {
        self.data
    }

    /// Hands the elements out as a vector, in order.
    pub fn into_vec(self) -> (data: Vec<T>)
        ensures
            data == self.spec_into_vec(),
            data@ == self@,
            data@.len() == N::len(),
    {
        proof {
            use_type_invariant(&self);
        }
        self.data
    }

    /// The number of elements, which is the number that `N` stands for.
    pub fn len(&self) -> (n: usize)
        ensures
            n == N::len(),
            n == self@.len(),
    {
        proof {
            use_type_invariant(self);
        }
        self.data.len()
    }

    /// Extracts a slice containing the entire array.
    pub fn as_slice(&self) -> (slice: &[T])
        ensures
            slice@ == self@,
            slice@.len() == N::len(),
    {
        proof {
            use_type_invariant(self);
        }
        self.data.as_slice()
    }

    /// Extracts a mutable slice containing the entire array. Writing through the
    /// slice changes the array's elements, never their number.
    pub fn as_mut_slice(&mut self) -> (slice: &mut [T])
        ensures
            slice@ == old(self)@,
            slice@.len() == N::len(),
            final(slice)@ == final(self)@,
    {
        proof {
            use_type_invariant(&*self);
        }
        vec_as_mut_slice(&mut self.data)
    }
}

impl<T, N: ArrayLength> core::ops::Deref for GenericArray<T, N> {
    type Target = [T];

    fn deref(&self) -> (slice: &[T])
        ensures
            slice@ == self@,
    {
        self.as_slice()
    }
}

impl<T, N: ArrayLength> core::ops::DerefMut for GenericArray<T, N> {
    fn deref_mut(&mut self) -> (slice: &mut [T])
        ensures
            slice@ == old(self)@,
            final(slice)@ == final(self)@,
    {
        self.as_mut_slice()
    }
}

impl<T: PartialEq, N: ArrayLength> PartialEq for GenericArray<T, N> {
    /// Compares element by element, with the elements' own `==`.
    fn eq(&self, other: &Self) -> (equal: bool) {
        self.data == other.data
    }
}

impl<T: PartialEq, N: ArrayLength> PartialEqSpecImpl for GenericArray<T, N> {
    open spec fn obeys_eq_spec() -> bool {
        T::obeys_eq_spec()
    }

    open spec fn eq_spec(&self, other: &Self) -> bool {
        &&& self@.len() == other@.len()
        &&& forall|i: int| #![auto] 0 <= i < self@.len() ==> self@[i].eq_spec(&other@[i])
    }
}

impl<T: Eq, N: ArrayLength> Eq for GenericArray<T, N> {}

impl<T: Clone, N: ArrayLength> Clone for GenericArray<T, N> {
    /// Clones element by element.
    fn clone(&self) -> (copy: Self)
        ensures
            copy@.len() == self@.len(),
            forall|i: int| 0 <= i < self@.len() ==> cloned::<T>(self@[i], #[trigger] copy@[i]),
    {
        proof {
            use_type_invariant(self);
        }
        GenericArray { data: self.data.clone(), _length: PhantomData }
    }
}

impl<'a, T, N: ArrayLength> IntoIterator for &'a GenericArray<T, N> {
    type Item = &'a T;

    type IntoIter = core::slice::Iter<'a, T>;

    /// Iterates over references to the elements, first to last.
    fn into_iter(self) -> (iter: core::slice::Iter<'a, T>)
        ensures
            iter.remaining() == self@.as_ref(),
    {
        self.as_slice().iter()
    }
}

impl<T, N: ArrayLength> IntoIterator for GenericArray<T, N> {
    type Item = T;

    type IntoIter = std::vec::IntoIter<T>;

    /// Iterates over the elements by value, first to last.
    fn into_iter(self) -> (iter: std::vec::IntoIter<T>)
        ensures
            iter.remaining() == self@,
    {
        self.into_vec().into_iter()
    }
}

/// An array of a length token that stands for zero has no elements.
pub proof fn lemma_zero_length<T, N: ArrayLength>(array: GenericArray<T, N>)
    requires
        N::len() == 0,
        array@.len() == N::len(),
    ensures
        array@ == Seq::<T>::empty(),
{
}

} // verus!
