use wasi_nn_burn::errno::ErrNo;

#[test]
fn status_codes_have_their_stable_values() {
    assert_eq!(ErrNo::Success.code(), 0);
    assert_eq!(ErrNo::InvalidArgument.code(), 1);
    assert_eq!(ErrNo::InvalidEncoding.code(), 2);
    assert_eq!(ErrNo::MissingMemory.code(), 3);
    assert_eq!(ErrNo::Busy.code(), 4);
    assert_eq!(ErrNo::RuntimeError.code(), 5);
    assert_eq!(ErrNo::UnsupportedOperation.code(), 6);
    assert_eq!(ErrNo::TooLarge.code(), 7);
    assert_eq!(ErrNo::NotFound.code(), 8);
}

#[test]
fn status_codes_are_read_back() {
    for code in 0..9 {
        let status = ErrNo::from_code(code).unwrap();
        assert_eq!(status.code(), code);
    }
    assert_eq!(ErrNo::from_code(9), None);
    assert_eq!(ErrNo::from_code(-1), None);
    assert!(ErrNo::Success.is_success());
    assert!(!ErrNo::NotFound.is_success());
}
