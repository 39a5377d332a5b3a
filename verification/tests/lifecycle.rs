use generic_array::{ArrayBuilder, ArrayConsumer, GenericArray};
use std::cell::{Cell, RefCell};
use std::rc::Rc;
use typenum::{U0, U1, U2, U3, U5, U8};

struct Tally {
    made: Cell<usize>,
    dropped: RefCell<Vec<usize>>,
}

impl Tally {
    fn new() -> Rc<Tally> {
        Rc::new(Tally { made: Cell::new(0), dropped: RefCell::new(Vec::new()) })
    }

    fn make(self: &Rc<Self>) -> Counted {
        let id = self.made.get();
        self.made.set(id + 1);
        Counted { id, tally: Rc::clone(self) }
    }

    fn made(&self) -> usize {
        self.made.get()
    }

    fn dropped(&self) -> Vec<usize> {
        self.dropped.borrow().clone()
    }
}

struct Counted {
    id: usize,
    tally: Rc<Tally>,
}

impl Drop for Counted {
    fn drop(&mut self) {
        self.tally.dropped.borrow_mut().push(self.id);
    }
}

fn counted_array_of_5(tally: &Rc<Tally>) -> GenericArray<Counted, U5> {
    GenericArray::<Counted, U5>::generate(|_| tally.make())
}

#[test]
fn an_array_drops_each_element_once_n_0() {
    let tally = Tally::new();
    let array = GenericArray::<Counted, U0>::generate(|_| tally.make());
    assert_eq!(tally.made(), 0);
    drop(array);
    assert_eq!(tally.dropped(), Vec::<usize>::new());
}

#[test]
fn an_array_drops_each_element_once_n_1() {
    let tally = Tally::new();
    let array = GenericArray::<Counted, U1>::generate(|_| tally.make());
    assert_eq!(tally.made(), 1);
    assert_eq!(tally.dropped(), Vec::<usize>::new());
    drop(array);
    assert_eq!(tally.dropped(), vec![0]);
}

#[test]
fn an_array_drops_each_element_once_n_8() {
    let tally = Tally::new();
    let array = GenericArray::<Counted, U8>::generate(|_| tally.make());
    assert_eq!(tally.made(), 8);
    assert_eq!(tally.dropped(), Vec::<usize>::new());
    drop(array);
    assert_eq!(tally.dropped(), vec![0, 1, 2, 3, 4, 5, 6, 7]);
}

#[test]
fn map_drops_nothing_it_hands_on() {
    let tally = Tally::new();
    let array = counted_array_of_5(&tally);
    let mapped = array.map(|x| x);
    assert_eq!(tally.dropped(), Vec::<usize>::new());
    drop(mapped);
    assert_eq!(tally.dropped(), vec![0, 1, 2, 3, 4]);
    assert_eq!(tally.made(), 5);
}

#[test]
fn fold_hands_every_element_to_the_function() {
    let tally = Tally::new();
    let array = counted_array_of_5(&tally);
    let kept = array.fold(Vec::new(), |mut acc, x| {
        acc.push(x);
        acc
    });
    assert_eq!(tally.dropped(), Vec::<usize>::new());
    assert_eq!(kept.len(), 5);
    drop(kept);
    assert_eq!(tally.dropped(), vec![0, 1, 2, 3, 4]);
}

#[test]
fn an_abandoned_builder_drops_what_was_written() {
    for written in 0..=5usize {
        let tally = Tally::new();
        let mut builder = ArrayBuilder::<Counted, U5>::new();
        for _ in 0..written {
            builder.write(tally.make());
        }
        assert_eq!(builder.position(), written);
        assert_eq!(builder.is_full(), written == 5);
        assert_eq!(tally.dropped(), Vec::<usize>::new());
        drop(builder);
        assert_eq!(tally.dropped(), (0..written).collect::<Vec<usize>>());
    }
}

#[test]
fn a_finished_builder_drops_nothing() {
    let tally = Tally::new();
    let mut builder = ArrayBuilder::<Counted, U3>::new();
    assert_eq!(builder.position(), 0);
    assert!(!builder.is_full());
    builder.write(tally.make());
    builder.write(tally.make());
    builder.write(tally.make());
    assert!(builder.is_full());
    let array = builder.into_inner();
    assert_eq!(tally.dropped(), Vec::<usize>::new());
    assert_eq!(array[0].id, 0);
    assert_eq!(array[1].id, 1);
    assert_eq!(array[2].id, 2);
    drop(array);
    assert_eq!(tally.dropped(), vec![0, 1, 2]);
}

#[test]
fn a_builder_of_no_slots_is_full_at_once() {
    let builder = ArrayBuilder::<Counted, U0>::new();
    assert!(builder.is_full());
    assert_eq!(builder.position(), 0);
    assert_eq!(builder.into_inner().len(), 0);
}

#[test]
fn an_abandoned_consumer_drops_what_was_not_taken_in_order() {
    for taken in 0..=5usize {
        let tally = Tally::new();
        let mut consumer = ArrayConsumer::new(counted_array_of_5(&tally));
        let mut out = Vec::new();
        for _ in 0..taken {
            out.push(consumer.take());
        }
        assert_eq!(consumer.position(), taken);
        assert_eq!(consumer.is_done(), taken == 5);
        assert_eq!(out.iter().map(|x| x.id).collect::<Vec<usize>>(), (0..taken).collect::<Vec<usize>>());
        assert_eq!(tally.dropped(), Vec::<usize>::new());
        drop(consumer);
        assert_eq!(tally.dropped(), (taken..5).collect::<Vec<usize>>());
        drop(out);
        assert_eq!(tally.dropped().len(), 5);
    }
}

#[test]
fn a_consumer_of_nothing_is_done_at_once() {
    let consumer = ArrayConsumer::new(GenericArray::<Counted, U0>::from_array([]));
    assert!(consumer.is_done());
    assert_eq!(consumer.position(), 0);
}

#[test]
fn a_source_that_is_too_short_or_too_long_drops_what_was_pulled() {
    let tally = Tally::new();
    let short = GenericArray::<Counted, U5>::from_exact_iter((0..3).map(|_| tally.make()));
    assert!(short.is_none());
    assert_eq!(tally.made(), 3);
    assert_eq!(tally.dropped(), vec![0, 1, 2]);

    let tally = Tally::new();
    let long = GenericArray::<Counted, U2>::from_exact_iter((0..9).map(|_| tally.make()));
    assert!(long.is_none());
    assert_eq!(tally.made(), 3);
    let mut dropped = tally.dropped();
    dropped.sort();
    assert_eq!(dropped, vec![0, 1, 2]);
}

#[test]
fn a_source_that_ends_at_any_point_leaves_one_drop_for_each_item_it_gave() {
    for given in 0..5usize {
        let tally = Tally::new();
        let array = GenericArray::<Counted, U5>::from_exact_iter((0..given).map(|_| tally.make()));
        assert!(array.is_none());
        assert_eq!(tally.made(), given);
        assert_eq!(tally.dropped(), (0..given).collect::<Vec<usize>>());
    }
    let tally = Tally::new();
    let array = GenericArray::<Counted, U5>::from_exact_iter((0..5).map(|_| tally.make()));
    assert_eq!(tally.made(), 5);
    assert_eq!(tally.dropped(), Vec::<usize>::new());
    drop(array);
    assert_eq!(tally.dropped(), vec![0, 1, 2, 3, 4]);
}

#[test]
fn zip_drops_nothing_it_hands_on() {
    let lefts = Tally::new();
    let rights = Tally::new();
    let left = counted_array_of_5(&lefts);
    let right = counted_array_of_5(&rights);
    let pairs = left.zip(right, |l, r| (l, r));
    assert_eq!(lefts.dropped(), Vec::<usize>::new());
    assert_eq!(rights.dropped(), Vec::<usize>::new());
    assert_eq!(pairs[3].0.id, 3);
    assert_eq!(pairs[3].1.id, 3);
    drop(pairs);
    assert_eq!(lefts.dropped(), vec![0, 1, 2, 3, 4]);
    assert_eq!(rights.dropped(), vec![0, 1, 2, 3, 4]);
}

#[test]
fn conversions_drop_nothing() {
    let tally = Tally::new();
    let array = counted_array_of_5(&tally);
    let native: [Counted; 5] = array.into_array();
    assert_eq!(tally.dropped(), Vec::<usize>::new());
    let array = GenericArray::<Counted, U5>::from_array(native);
    assert_eq!(tally.dropped(), Vec::<usize>::new());
    let data: Vec<Counted> = array.into_vec();
    assert_eq!(tally.dropped(), Vec::<usize>::new());
    let array = GenericArray::<Counted, U5>::try_from(data).unwrap();
    assert_eq!(tally.dropped(), Vec::<usize>::new());
    assert_eq!(array[4].id, 4);
    drop(array);
    assert_eq!(tally.dropped(), vec![0, 1, 2, 3, 4]);
}
