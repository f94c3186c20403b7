use compass::message::length_error;

#[test]
fn length_error_names_both_lengths() {
    assert_eq!(length_error(2, 0), "Expected Vec of length 2, got 0");
    assert_eq!(length_error(2, 3), "Expected Vec of length 2, got 3");
    assert_eq!(length_error(3, 4), "Expected Vec of length 3, got 4");
    assert_eq!(length_error(3, 10), "Expected Vec of length 3, got 10");
}

#[test]
fn length_error_writes_every_digit() {
    assert_eq!(length_error(9, 1234567890), "Expected Vec of length 9, got 1234567890");
    assert_eq!(length_error(100, 909), "Expected Vec of length 100, got 909");
    assert_eq!(
        length_error(0, usize::MAX),
        format!("Expected Vec of length 0, got {}", usize::MAX)
    );
}
