//! Conversions between arrays, slices and native arrays of the same length.

use crate::array::GenericArray;
use crate::internal::ArrayBuilder;
use crate::length::{has_len, ArrayLength};
use vstd::prelude::*;
use vstd::std_specs::convert::{FromSpecImpl, TryFromSpecImpl};

verus! {

/// The error of a conversion from a slice whose length is not the array's.
#[derive(Debug, Clone, Copy, PartialEq, Eq, Structural)]
pub struct LengthError;

/// `Vec::from` of std for a native array: the vector of the array's elements, in
/// order.
#[verifier::external_body]
fn vec_from_array<T, const K: usize>(value: [T; K]) -> (data: Vec<T>)
    ensures
        data@ == value@,
{
    Vec::from(value)
}

/// `TryFrom<Vec<T>>` of std for a native array: the array of the vector's
/// elements, in order, if the vector holds exactly `K` of them, and nothing
/// otherwise.
#[verifier::external_body]
fn array_from_vec<T, const K: usize>(data: Vec<T>) -> (value: Option<[T; K]>)
    ensures
        data@.len() == K ==> value.is_some() && value.unwrap()@ == data@,
        data@.len() != K ==> value.is_none(),
{
    <[T; K]>::try_from(data).ok()
}

impl<T, N: ArrayLength> GenericArray<T, N> {
    /// Converts a native array into an array of the same length and elements.
    pub fn from_array<const K: usize>(value: [T; K]) -> (array: Self)
        requires
            K == N::len(),
        ensures
            array@ == value@,
    {
        GenericArray::from_vec(vec_from_array(value))
    }

    /// Converts the array into a native array of the same length and elements.
    pub fn into_array<const K: usize>(self) -> (value: [T; K])
        requires
            K == N::len(),
        ensures
            value@ == self@,
    {
        match array_from_vec(self.into_vec()) {
            Some(value) => value,
            None => vstd::pervasive::unreached(),
        }
    }
}

impl<T: Copy, N: ArrayLength> GenericArray<T, N> {
    /// Copies a slice of the array's length into an array: the elements are the
    /// slice's, in order.
    pub fn from_slice(slice: &[T]) -> (array: Self)
        requires
            slice@.len() == N::len(),
        ensures
            array@ == slice@,
    {
        let mut destination = ArrayBuilder::<T, N>::new();
        let mut i: usize = 0;
        while i < slice.len()
            invariant
                slice@.len() == N::len(),
                i <= slice@.len(),
                destination.written() == slice@.take(i as int),
            decreases slice@.len() - i,
        {
            destination.write(slice[i]);
            i += 1;
        }
        destination.into_inner()
    }
}

impl<T: Clone, N: ArrayLength> GenericArray<T, N> {
    /// Constructs an array from a slice of the array's length by cloning its
    /// elements, in order.
    pub fn clone_from_slice(slice: &[T]) -> (array: Self)
        requires
            slice@.len() == N::len(),
        ensures
            array@.len() == slice@.len(),
            forall|i: int| 0 <= i < slice@.len() ==> cloned::<T>(slice@[i], #[trigger] array@[i]),
    {
        let mut destination = ArrayBuilder::<T, N>::new();
        let mut i: usize = 0;
        while i < slice.len()
            invariant
                slice@.len() == N::len(),
                i <= slice@.len(),
                destination.written().len() == i,
                forall|j: int|
                    0 <= j < i ==> cloned::<T>(slice@[j], #[trigger] destination.written()[j]),
            decreases slice@.len() - i,
        {
            destination.write(slice[i].clone());
            i += 1;
        }
        destination.into_inner()
    }
}

impl<'a, T: Copy, N: ArrayLength> TryFrom<&'a [T]> for GenericArray<T, N> {
    type Error = LengthError;

    /// Copies a slice into an array if the slice has the array's length, and
    /// reports the slice otherwise.
    fn try_from(slice: &'a [T]) -> (converted: Result<Self, LengthError>)
        ensures
            slice@.len() == N::len() ==> converted.is_ok() && converted.unwrap()@ == slice@,
            slice@.len() != N::len() ==> converted == Err::<Self, LengthError>(LengthError),
    {
        if has_len::<N>(slice.len()) {
            Ok(GenericArray::from_slice(slice))
        } else {
            Err(LengthError)
        }
    }
}

/// What the conversion from a slice gives, as far as a value can say it: an array
/// with the slice's elements, or the error. Which array of those with the same
/// elements comes out is not fixed, so the conversion is stated by the clauses of
/// `try_from` itself.
impl<'a, T: Copy, N: ArrayLength> TryFromSpecImpl<&'a [T]> for GenericArray<T, N> {
    open spec fn obeys_try_from_spec() -> bool {
        false
    }

    open spec fn try_from_spec(slice: &'a [T]) -> Result<Self, LengthError> {
        if slice@.len() == N::len() {
            Ok(choose|array: Self| array@ == slice@)
        } else {
            Err(LengthError)
        }
    }
}

impl<T, N: ArrayLength> TryFrom<Vec<T>> for GenericArray<T, N> {
    type Error = LengthError;

    /// Takes a vector over as an array if it has the array's length, and reports
    /// it otherwise. The elements stay where they are.
    fn try_from(data: Vec<T>) -> (converted: Result<Self, LengthError>)
        ensures
            data@.len() == N::len() ==> converted.is_ok() && converted.unwrap()@ == data@,
            data@.len() != N::len() ==> converted == Err::<Self, LengthError>(LengthError),
    {
        if has_len::<N>(data.len()) {
            Ok(GenericArray::from_vec(data))
        } else {
            Err(LengthError)
        }
    }
}

impl<T, N: ArrayLength> TryFromSpecImpl<Vec<T>> for GenericArray<T, N> {
    open spec fn obeys_try_from_spec() -> bool {
        true
    }

    open spec fn try_from_spec(data: Vec<T>) -> Result<Self, LengthError> {
        if data@.len() == N::len() {
            Ok(Self::spec_from_vec(data))
        } else {
            Err(LengthError)
        }
    }
}

impl<T, N: ArrayLength> From<GenericArray<T, N>> for Vec<T> {
    /// The vector of the array's elements, in order.
    fn from(array: GenericArray<T, N>) -> (data: Vec<T>)
        ensures
            data@ == array@,
    {
        array.into_vec()
    }
}

impl<T, N: ArrayLength> FromSpecImpl<GenericArray<T, N>> for Vec<T> {
    open spec fn obeys_from_spec() -> bool {
        true
    }

    open spec fn from_spec(array: GenericArray<T, N>) -> Vec<T> {
        array.spec_into_vec()
    }
}

/// Round trip: a native array converted into an array and back is the native
/// array it was. `array` is what `from_array` gives for `native`, and `back` is
/// what `into_array` gives for `array`.
pub proof fn lemma_array_round_trip<T, N: ArrayLength, const K: usize>(
    native: [T; K],
    array: GenericArray<T, N>,
    back: [T; K],
)
    requires
        array@ == native@,
        back@ == array@,
    ensures
        back == native,
{
}

} // verus!
