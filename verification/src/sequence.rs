//! Constructing arrays: from a function of the index, from a source of items, and
//! from two sequences at once.

use crate::array::GenericArray;
use crate::internal::{ArrayBuilder, ArrayConsumer};
use crate::length::ArrayLength;
use vstd::prelude::*;
use vstd::std_specs::iter::IteratorSpec;

verus! {

/// How a source of items failed to hold exactly as many as an array has elements.
#[derive(Debug, Clone, Copy, PartialEq, Eq, Structural)]
pub enum CountError {
    /// The source ended early, after this many items.
    TooFew(usize),
    /// The source held at least one item more than the array has elements.
    TooMany,
}

/// The number of items that filling an array of `n` elements pulls from a source
/// that holds `available` items: all of them, or one more than `n` where the
/// source holds more.
pub open spec fn pulled(available: nat, n: nat) -> nat {
    if available <= n {
        available
    } else {
        n + 1
    }
}

/// Pulls the next item, if there is one. For a source that obeys the laws of
/// iterators, that is the first of the items that remain, and the rest remain.
fn pull<I: Iterator>(source: &mut I) -> (item: Option<I::Item>)
    ensures
        (*final(source)).obeys_prophetic_iter_laws() == (*old(source)).obeys_prophetic_iter_laws(),
        (*old(source)).obeys_prophetic_iter_laws() ==> (if (*old(source)).remaining().len() > 0 {
            &&& item == Some((*old(source)).remaining()[0])
            &&& (*final(source)).remaining() == (*old(source)).remaining().drop_first()
        } else {
            &&& item is None
            &&& (*final(source)).remaining() == (*old(source)).remaining()
        }),
{
    source.next()
}

/// An array of no elements asks nothing of the function it is generated with: the
/// function is not called.
pub proof fn lemma_generate_of_nothing<T, N: ArrayLength, F: FnMut(usize) -> T>(f: F)
    requires
        N::len() == 0,
    ensures
        forall|i: usize| i < N::len() ==> f.requires((i,)),
{
}

impl<T, N: ArrayLength> GenericArray<T, N> {
    /// Creates an array whose element at each index `i` is what `f` returns for
    /// `i`. `f` is called once for each index, from 0 up.
    pub fn generate<F>(mut f: F) -> (array: Self) where F: FnMut(usize) -> T
        requires
            N::len() <= usize::MAX,
            forall|i: usize| i < N::len() ==> f.requires((i,)),
        ensures
            array@.len() == N::len(),
            forall|i: usize| i < N::len() ==> f.ensures((i,), #[trigger] array@[i as int]),
    {
        let ghost f0 = f;
        let mut destination = ArrayBuilder::<T, N>::new();
        let mut i: usize = 0;
        while !destination.is_full()
            invariant
                f == f0,
                N::len() <= usize::MAX,
                destination.written().len() == i <= N::len(),
                forall|j: usize| j < N::len() ==> f.requires((j,)),
                forall|j: usize| j < i ==> f.ensures((j,), #[trigger] destination.written()[j as int]),
            decreases N::len() - i,
        {
            let value = f(i);
            destination.write(value);
            i += 1;
        }
        destination.into_inner()
    }

    /// Fills an array from `source`, which has to hold exactly as many items as
    /// the array has elements: the items become the elements, in order. A source
    /// that ends early or holds more is reported, and the items pulled from it are
    /// dropped. No more than one item beyond the array's length is pulled, and
    /// none after the source has ended.
    pub fn try_from_iter<I>(source: &mut I) -> (filled: Result<Self, CountError>) where
        I: Iterator<Item = T>,

        requires
            N::len() <= usize::MAX,
        ensures
            filled matches Err(CountError::TooFew(k)) ==> k < N::len(),
            (*old(source)).obeys_prophetic_iter_laws() ==> {
                let items = (*old(source)).remaining();
                &&& (*final(source)).remaining() == items.skip(pulled(items.len(), N::len()) as int)
                &&& match filled {
                    Ok(array) => items.len() == N::len() && array@ == items,
                    Err(CountError::TooFew(k)) => k == items.len() < N::len(),
                    Err(CountError::TooMany) => items.len() > N::len(),
                }
            },
    {
        let ghost items = (*source).remaining();
        let ghost laws = (*source).obeys_prophetic_iter_laws();
        let mut destination = ArrayBuilder::<T, N>::new();
        while !destination.is_full()
            invariant
                destination.written().len() <= N::len() <= usize::MAX,
                items == (*old(source)).remaining(),
                laws == (*old(source)).obeys_prophetic_iter_laws(),
                laws == (*source).obeys_prophetic_iter_laws(),
                laws ==> destination.written().len() <= items.len(),
                laws ==> (*source).remaining() == items.skip(destination.written().len() as int),
                laws ==> destination.written() == items.take(destination.written().len() as int),
            decreases N::len() - destination.written().len(),
        {
            match pull(source) {
                Some(item) => {
                    destination.write(item);
                },
                None => {
                    return Err(CountError::TooFew(destination.position()));
                },
            }
        }
        match pull(source) {
            Some(_) => Err(CountError::TooMany),
            None => Ok(destination.into_inner()),
        }
    }

    /// Creates an array from `iter` if it holds exactly as many items as the
    /// array has elements, which are then the items in order; `None` if it holds
    /// fewer or more.
    pub fn from_exact_iter<I>(iter: I) -> (array: Option<Self>) where I: Iterator<Item = T>
        ensures
            iter.obeys_prophetic_iter_laws() ==> (array is Some <==> iter.remaining().len()
                == N::len() <= usize::MAX),
            iter.obeys_prophetic_iter_laws() ==> (array matches Some(a) ==> a@ == iter.remaining()),
    {
        let mut source = iter;
        if N::checked_len().is_none() {
            return None;
        }
        match Self::try_from_iter(&mut source) {
            Ok(array) => Some(array),
            Err(_) => None,
        }
    }

    /// Creates an array from `iter`, which holds exactly as many items as the
    /// array has elements: they become the elements, in order.
    pub fn from_iter<I>(iter: I) -> (array: Self) where I: Iterator<Item = T>
        requires
            iter.obeys_prophetic_iter_laws(),
            iter.remaining().len() == N::len() <= usize::MAX,
        ensures
            array@ == iter.remaining(),
    {
        let mut source = iter;
        match Self::try_from_iter(&mut source) {
            Ok(array) => array,
            Err(_) => vstd::pervasive::unreached(),
        }
    }

    /// Combines two arrays of the same length into one, taking `lhs` first: the
    /// element at each index is what `f` returns for `lhs`'s element and this
    /// array's element at that index. `f` is called once for each index, first to
    /// last.
    pub fn inverted_zip<B, U, F>(self, lhs: GenericArray<B, N>, mut f: F) -> (zipped: GenericArray<
        U,
        N,
    >) where F: FnMut(B, T) -> U
        requires
            forall|i: int| 0 <= i < self@.len() ==> #[trigger] f.requires((lhs@[i], self@[i])),
        ensures
            zipped@.len() == self@.len(),
            forall|i: int|
                0 <= i < self@.len() ==> f.ensures((lhs@[i], self@[i]), #[trigger] zipped@[i]),
    {
        let ghost lefts = lhs@;
        let ghost rights = self@;
        let ghost f0 = f;
        let mut left = ArrayConsumer::new(lhs);
        let mut right = ArrayConsumer::new(self);
        let mut destination = ArrayBuilder::<U, N>::new();
        while !right.is_done()
            invariant
                f == f0,
                lefts.len() == N::len(),
                rights.len() == N::len(),
                destination.written().len() + right.remaining().len() == N::len(),
                left.remaining() == lefts.skip(destination.written().len() as int),
                right.remaining() == rights.skip(destination.written().len() as int),
                forall|i: int| 0 <= i < rights.len() ==> #[trigger] f.requires((lefts[i], rights[i])),
                forall|i: int|
                    0 <= i < destination.written().len() ==> f.ensures(
                        (lefts[i], rights[i]),
                        #[trigger] destination.written()[i],
                    ),
            decreases right.remaining().len(),
        {
            let left_value = left.take();
            let right_value = right.take();
            let out = f(left_value, right_value);
            destination.write(out);
        }
        destination.into_inner()
    }

    /// Combines a borrowed array and this one into a new array, taking `lhs`
    /// first: the element at each index is what `f` returns for a reference to
    /// `lhs`'s element and this array's element at that index. `f` is called once
    /// for each index, first to last.
    pub fn inverted_zip2<B, U, F>(self, lhs: &GenericArray<B, N>, mut f: F) -> (zipped:
        GenericArray<U, N>) where F: FnMut(&B, T) -> U
        requires
            forall|i: int| 0 <= i < self@.len() ==> #[trigger] f.requires((&lhs@[i], self@[i])),
        ensures
            zipped@.len() == self@.len(),
            forall|i: int|
                0 <= i < self@.len() ==> f.ensures((&lhs@[i], self@[i]), #[trigger] zipped@[i]),
    {
        let ghost rights = self@;
        let ghost f0 = f;
        let lefts = lhs.as_slice();
        let mut right = ArrayConsumer::new(self);
        let mut destination = ArrayBuilder::<U, N>::new();
        let mut k: usize = 0;
        while !right.is_done()
            invariant
                f == f0,
                lefts@.len() == N::len(),
                rights.len() == N::len(),
                k == destination.written().len(),
                k + right.remaining().len() == N::len(),
                right.remaining() == rights.skip(k as int),
                forall|i: int| 0 <= i < rights.len() ==> #[trigger] f.requires((&lefts@[i], rights[i])),
                forall|i: int|
                    0 <= i < k ==> f.ensures(
                        (&lefts@[i], rights[i]),
                        #[trigger] destination.written()[i],
                    ),
            decreases right.remaining().len(),
        {
            let right_value = right.take();
            let out = f(&lefts[k], right_value);
            destination.write(out);
            k += 1;
        }
        destination.into_inner()
    }
}

} // verus!
