//! Building an array element by element, and taking one apart element by element.
//!
//! Both objects own exactly the elements that are alive in them, so dropping one
//! at any point of its work drops those elements once and nothing else: an
//! [`ArrayBuilder`] dropped after `k` writes drops the `k` written elements, and
//! an [`ArrayConsumer`] dropped after `k` takes drops the elements from `k` on, in
//! order. That holds on every way out of the code that drives them, an unwinding
//! element function included.

use crate::array::GenericArray;
use crate::length::{has_len, ArrayLength};
use core::marker::PhantomData;
use std::collections::VecDeque;
use vstd::prelude::*;

verus! {

/// An array under construction: the slots before the cursor are written, those
/// from the cursor on are not there yet.
pub struct ArrayBuilder<T, N: ArrayLength> {
    slots: Vec<T>,
    _length: PhantomData<N>,
}

impl<T, N: ArrayLength> ArrayBuilder<T, N> {
    #[verifier::type_invariant]
    spec fn well_formed(&self) -> bool {
        self.slots@.len() <= N::len()
    }

    /// The elements written so far, in slot order. The builder owns these and no
    /// others.
    pub closed spec fn written(&self) -> Seq<T> {
        self.slots@
    }

    /// Whether every slot is written.
    pub open spec fn spec_is_full(&self) -> bool {
        self.written().len() == N::len()
    }

    /// A builder with no slot written.
    pub fn new() -> (builder: Self)
        ensures
            builder.written() == Seq::<T>::empty(),
    {
        ArrayBuilder { slots: Vec::new(), _length: PhantomData }
    }

    /// The cursor: the number of slots written so far.
    pub fn position(&self) -> (k: usize)
        ensures
            k == self.written().len(),
            k <= N::len(),
    {
        proof {
            use_type_invariant(self);
        }
        self.slots.len()
    }

    /// Whether every slot is written.
    #[verifier::when_used_as_spec(spec_is_full)]
    pub fn is_full(&self) -> (full: bool)
        ensures
            full == self.spec_is_full(),
    {
        has_len::<N>(self.slots.len())
    }

    /// Writes `value` to the slot at the cursor and moves the cursor past it. No
    /// slot is written twice and none is skipped.
    pub fn write(&mut self, value: T)
        requires
            !old(self).spec_is_full(),
        ensures
            final(self).written() == old(self).written().push(value),
    {
        proof {
            use_type_invariant(&*self);
        }
        let mut slots: Vec<T> = Vec::new();
        core::mem::swap(&mut slots, &mut self.slots);
        slots.push(value);
        self.slots = slots;
    }

    /// The finished array: the written elements, each in its slot. Only a full
    /// builder can be finished.
    pub fn into_inner(self) -> (array: GenericArray<T, N>)
        requires
            self.spec_is_full(),
        ensures
            array@ == self.written(),
    {
        GenericArray::from_vec(self.slots)
    }
}

/// An array being taken apart: the elements before the cursor have been moved out
/// to the caller, those from the cursor on are still owned here.
pub struct ArrayConsumer<T, N: ArrayLength> {
    rest: VecDeque<T>,
    _length: PhantomData<N>,
}

impl<T, N: ArrayLength> ArrayConsumer<T, N> {
    #[verifier::type_invariant]
    spec fn well_formed(&self) -> bool {
        self.rest@.len() <= N::len() <= usize::MAX
    }

    /// The elements not taken yet, in slot order. The consumer owns these and no
    /// others.
    pub closed spec fn remaining(&self) -> Seq<T> {
        self.rest@
    }

    /// Takes ownership of `array`, with nothing taken out yet.
    pub fn new(array: GenericArray<T, N>) -> (consumer: Self)
        ensures
            consumer.remaining() == array@,
            array@.len() == N::len(),
    {
        let ghost items = array@;
        let data = array.into_vec();
        assert(data.len() == N::len());
        let mut rest: VecDeque<T> = VecDeque::new();
        for item in source: data.into_iter()
            invariant
                source.seq() == items,
                rest@ == items.take(source.index()),
        {
            rest.push_back(item);
        }
        ArrayConsumer { rest, _length: PhantomData }
    }

    /// The cursor: the number of elements taken so far.
    pub fn position(&self) -> (k: usize)
        ensures
            k + self.remaining().len() == N::len(),
    {
        proof {
            use_type_invariant(self);
        }
        match N::checked_len() {
            Some(n) => n - self.rest.len(),
            None => 0,
        }
    }

    /// Whether every element has been taken.
    pub fn is_done(&self) -> (done: bool)
        ensures
            done == (self.remaining().len() == 0),
    {
        self.rest.len() == 0
    }

    /// Moves the element at the cursor out to the caller and moves the cursor past
    /// it. Each element is handed out once, in slot order.
    pub fn take(&mut self) -> (value: T)
        requires
            old(self).remaining().len() > 0,
        ensures
            value == old(self).remaining()[0],
            final(self).remaining() == old(self).remaining().drop_first(),
    {
        proof {
            use_type_invariant(&*self);
        }
        let mut rest: VecDeque<T> = VecDeque::new();
        core::mem::swap(&mut rest, &mut self.rest);
        let front = rest.pop_front();
        self.rest = rest;
        front.unwrap()
    }
}

} // verus!
