use generic_array::from_iter_length_fail;

#[test]
fn the_report_names_both_lengths() {
    assert_eq!(
        from_iter_length_fail(3, 5),
        "GenericArray::from_iter received 3 elements but expected 5"
    );
}

#[test]
fn the_report_writes_numbers_in_decimal() {
    assert_eq!(
        from_iter_length_fail(0, 10),
        "GenericArray::from_iter received 0 elements but expected 10"
    );
    assert_eq!(
        from_iter_length_fail(1025, 1024),
        "GenericArray::from_iter received 1025 elements but expected 1024"
    );
    assert_eq!(
        from_iter_length_fail(9, 100),
        "GenericArray::from_iter received 9 elements but expected 100"
    );
    assert_eq!(
        from_iter_length_fail(1234567890, 987654321),
        "GenericArray::from_iter received 1234567890 elements but expected 987654321"
    );
}

#[test]
fn the_report_writes_the_largest_number() {
    assert_eq!(
        from_iter_length_fail(usize::MAX, 0),
        format!("GenericArray::from_iter received {} elements but expected 0", usize::MAX)
    );
}
