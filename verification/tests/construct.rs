use generic_array::{CountError, GenericArray};
use typenum::{U0, U1, U3, U4, U5, U8};

#[test]
fn generate_gives_each_index_its_value() {
    let a = GenericArray::<usize, U5>::generate(|i| i * i);
    assert_eq!(a.as_slice(), &[0, 1, 4, 9, 16]);
}

#[test]
fn generate_calls_the_function_once_per_index_from_zero_up() {
    let mut seen = Vec::new();
    let a = GenericArray::<char, U4>::generate(|i| {
        seen.push(i);
        'x'
    });
    assert_eq!(seen, vec![0, 1, 2, 3]);
    assert_eq!(a.as_slice(), &['x', 'x', 'x', 'x']);
}

#[test]
fn zero_length_generate_calls_its_function_zero_times() {
    let mut calls = 0;
    let a = GenericArray::<i32, U0>::generate(|_| {
        calls += 1;
        7
    });
    assert_eq!(calls, 0);
    assert_eq!(a.len(), 0);
    assert!(a.as_slice().is_empty());
}

#[test]
fn from_exact_iter_of_exactly_n_items_keeps_source_order() {
    let a = GenericArray::<i32, U3>::from_exact_iter(vec![7, 8, 9].into_iter());
    assert_eq!(a.unwrap().as_slice(), &[7, 8, 9]);
}

#[test]
fn from_exact_iter_of_one_item_too_few_is_none() {
    let a = GenericArray::<i32, U3>::from_exact_iter(vec![7, 8].into_iter());
    assert!(a.is_none());
}

#[test]
fn from_exact_iter_of_one_item_too_many_is_none() {
    let a = GenericArray::<i32, U3>::from_exact_iter(vec![7, 8, 9, 10].into_iter());
    assert!(a.is_none());
}

#[test]
fn from_exact_iter_of_nothing() {
    let none = GenericArray::<i32, U1>::from_exact_iter(std::iter::empty());
    assert!(none.is_none());
    let empty = GenericArray::<i32, U0>::from_exact_iter(std::iter::empty());
    assert_eq!(empty.unwrap().len(), 0);
    let too_many = GenericArray::<i32, U0>::from_exact_iter(std::iter::once(1));
    assert!(too_many.is_none());
}

#[test]
fn from_exact_iter_pulls_one_extra_item_and_no_more() {
    let mut source = vec![1, 2, 3, 4, 5, 6].into_iter();
    let a = GenericArray::<i32, U3>::from_exact_iter(&mut source);
    assert!(a.is_none());
    assert_eq!(source.next(), Some(5));
    assert_eq!(source.next(), Some(6));
    assert_eq!(source.next(), None);
}

#[test]
fn from_exact_iter_of_an_unbounded_source_ends() {
    let a = GenericArray::<u64, U8>::from_exact_iter(0u64..);
    assert!(a.is_none());
}

#[test]
fn from_exact_iter_does_not_pull_after_the_end() {
    let mut pulls = 0;
    let mut left = 2;
    let source = std::iter::from_fn(|| {
        pulls += 1;
        if left > 0 {
            left -= 1;
            Some(left)
        } else {
            None
        }
    });
    let a = GenericArray::<i32, U5>::from_exact_iter(source);
    assert!(a.is_none());
    assert_eq!(pulls, 3);
}

#[test]
fn try_from_iter_fills_from_a_source_of_the_right_length() {
    let mut source = vec!['a', 'b', 'c'].into_iter();
    let a = GenericArray::<char, U3>::try_from_iter(&mut source);
    assert_eq!(a.unwrap().as_slice(), &['a', 'b', 'c']);
    assert_eq!(source.next(), None);
}

#[test]
fn try_from_iter_reports_how_many_items_a_short_source_held() {
    let mut source = vec!['a', 'b'].into_iter();
    let a = GenericArray::<char, U5>::try_from_iter(&mut source);
    assert_eq!(a.unwrap_err(), CountError::TooFew(2));
    let mut nothing = std::iter::empty::<char>();
    let b = GenericArray::<char, U5>::try_from_iter(&mut nothing);
    assert_eq!(b.unwrap_err(), CountError::TooFew(0));
}

#[test]
fn try_from_iter_reports_a_long_source_and_leaves_the_rest() {
    let mut source = vec![1, 2, 3, 4, 5].into_iter();
    let a = GenericArray::<i32, U3>::try_from_iter(&mut source);
    assert_eq!(a.unwrap_err(), CountError::TooMany);
    assert_eq!(source.next(), Some(5));
}

#[test]
fn from_iter_collects_exactly_n_items() {
    let a = GenericArray::<String, U3>::from_iter(vec!["x".to_string(), "y".to_string(), "z".to_string()].into_iter());
    assert_eq!(a.as_slice(), &["x".to_string(), "y".to_string(), "z".to_string()]);
    let b = GenericArray::<u8, U4>::from_iter(1u8..5);
    assert_eq!(b.as_slice(), &[1, 2, 3, 4]);
}
