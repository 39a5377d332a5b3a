//! Element-wise operations on whole arrays: `map`, `zip` and `fold`.
//!
//! Each one moves the elements out of its arguments one by one and hands them to
//! the caller's function, in order and once each. The elements need not be `Copy`
//! or `Clone`.

use crate::array::GenericArray;
use crate::internal::{ArrayBuilder, ArrayConsumer};
use crate::length::ArrayLength;
use vstd::prelude::*;

verus! {

/// Whether stepping through `items` from the left, starting at `init`, can end in
/// `out`, where `step(acc, item, next)` says that a step may lead from `acc` over
/// `item` to `next`: no step ends in `init`, and more steps end in what one step
/// may reach from the end of all but the last and the last item.
pub open spec fn steps_to<T, U>(
    step: spec_fn(U, T, U) -> bool,
    init: U,
    items: Seq<T>,
    out: U,
) -> bool
    decreases items.len(),
{
    if items.len() == 0 {
        out == init
    } else {
        exists|mid: U|
            steps_to(step, init, items.drop_last(), mid) && #[trigger] step(mid, items.last(), out)
    }
}

/// Whether folding `items` from the left with `f`, starting at `init`, can end in
/// `out`: each step is a call of `f` on the value so far and the next item.
pub open spec fn folds_to<T, U, F: FnMut(U, T) -> U>(f: F, init: U, items: Seq<T>, out: U) -> bool {
    steps_to(|acc: U, item: T, next: U| f.ensures((acc, item), next), init, items, out)
}

/// One more step of a fold: if the first `k` items fold to `mid` and `f` may turn
/// `mid` and the item at `k` into `out`, the first `k + 1` items fold to `out`.
pub proof fn lemma_folds_to_step<T, U, F: FnMut(U, T) -> U>(
    f: F,
    init: U,
    items: Seq<T>,
    k: int,
    mid: U,
    out: U,
)
    requires
        0 <= k < items.len(),
        folds_to(f, init, items.take(k), mid),
        f.ensures((mid, items[k]), out),
    ensures
        folds_to(f, init, items.take(k + 1), out),
{
    let step = |acc: U, item: T, next: U| f.ensures((acc, item), next);
    let longer = items.take(k + 1);
    assert(longer.drop_last() =~= items.take(k));
    assert(steps_to(step, init, longer.drop_last(), mid) && step(mid, longer.last(), out));
}

/// The fold of no items is the starting value, whatever the function.
pub proof fn lemma_folds_to_empty<T, U, F: FnMut(U, T) -> U>(f: F, init: U, out: U)
    ensures
        folds_to(f, init, Seq::<T>::empty(), out) <==> out == init,
{
}

/// Where every call of `f` returns what the function `g` gives, a fold with `f`
/// ends in the left fold with `g`, and nowhere else.
pub proof fn lemma_folds_to_fold_left<T, U, F: FnMut(U, T) -> U>(
    f: F,
    g: spec_fn(U, T) -> U,
    init: U,
    items: Seq<T>,
    out: U,
)
    requires
        forall|acc: U, item: T, next: U| #[trigger]
            f.ensures((acc, item), next) ==> next == g(acc, item),
        folds_to(f, init, items, out),
    ensures
        out == items.fold_left(init, g),
    decreases items.len(),
{
    let step = |acc: U, item: T, next: U| f.ensures((acc, item), next);
    if items.len() > 0 {
        let mid = choose|mid: U|
            steps_to(step, init, items.drop_last(), mid) && #[trigger] step(mid, items.last(), out);
        lemma_folds_to_fold_left(f, g, init, items.drop_last(), mid);
    }
}

impl<T, N: ArrayLength> GenericArray<T, N> {
    /// Maps the array to one of the same length: the element at each index is
    /// what `f` returns for this array's element at that index. `f` is called
    /// once for each element, first to last.
    pub fn map<U, F>(self, mut f: F) -> (mapped: GenericArray<U, N>) where F: FnMut(T) -> U
        requires
            forall|i: int| 0 <= i < self@.len() ==> f.requires((#[trigger] self@[i],)),
        ensures
            mapped@.len() == self@.len(),
            forall|i: int|
                0 <= i < self@.len() ==> f.ensures((self@[i],), #[trigger] mapped@[i]),
    {
        let ghost items = self@;
        let ghost f0 = f;
        let mut source = ArrayConsumer::new(self);
        let mut destination = ArrayBuilder::<U, N>::new();
        while !source.is_done()
            invariant
                f == f0,
                items.len() == N::len(),
                destination.written().len() + source.remaining().len() == items.len(),
                source.remaining() == items.skip(destination.written().len() as int),
                forall|i: int| 0 <= i < items.len() ==> f.requires((#[trigger] items[i],)),
                forall|i: int|
                    0 <= i < destination.written().len() ==> f.ensures(
                        (items[i],),
                        #[trigger] destination.written()[i],
                    ),
            decreases source.remaining().len(),
        {
            let value = source.take();
            let out = f(value);
            destination.write(out);
        }
        destination.into_inner()
    }

    /// Combines two arrays of the same length into one: the element at each index
    /// is what `f` returns for this array's element and `rhs`'s element at that
    /// index. `f` is called once for each index, first to last.
    pub fn zip<B, U, F>(self, rhs: GenericArray<B, N>, f: F) -> (zipped: GenericArray<U, N>) where
        F: FnMut(T, B) -> U,

        requires
            forall|i: int| 0 <= i < self@.len() ==> #[trigger] f.requires((self@[i], rhs@[i])),
        ensures
            zipped@.len() == self@.len(),
            forall|i: int|
                0 <= i < self@.len() ==> f.ensures((self@[i], rhs@[i]), #[trigger] zipped@[i]),
    {
        proof {
            use_type_invariant(&self);
            use_type_invariant(&rhs);
        }
        rhs.inverted_zip(self, f)
    }

    /// Folds the array from the left: starting with `init`, `f` takes the value so
    /// far and the next element, first to last, and the last value is returned.
    /// Of an empty array that is `init`.
    pub fn fold<U, F>(self, init: U, mut f: F) -> (out: U) where F: FnMut(U, T) -> U
        requires
            forall|k: int, mid: U|
                0 <= k < self@.len() && #[trigger] folds_to(f, init, self@.take(k), mid)
                    ==> f.requires((mid, self@[k])),
        ensures
            folds_to(f, init, self@, out),
    {
        let ghost items = self@;
        let ghost f0 = f;
        let mut source = ArrayConsumer::new(self);
        let mut acc = init;
        let ghost mut k: int = 0;
        while !source.is_done()
            invariant
                f == f0,
                0 <= k <= items.len(),
                source.remaining() == items.skip(k),
                folds_to(f, init, items.take(k), acc),
                forall|j: int, mid: U|
                    0 <= j < items.len() && #[trigger] folds_to(f, init, items.take(j), mid)
                        ==> f.requires((mid, items[j])),
            decreases source.remaining().len(),
        {
            let value = source.take();
            let ghost mid = acc;
            acc = f(acc, value);
            proof {
                lemma_folds_to_step(f, init, items, k, mid, acc);
                k = k + 1;
            }
        }
        acc
    }
}

} // verus!
