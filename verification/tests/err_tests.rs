use rbcachefs::err::{is_error_value, ptr_result, BchError, ERROR_BAND_START, MAX_ERROR_NO};

#[test]
fn error_band_boundaries() {
    assert!(!is_error_value(0));
    assert!(!is_error_value(1));
    assert!(!is_error_value(MAX_ERROR_NO));
    assert!(!is_error_value(0x0000_7fff_dead_beef));
    assert!(!is_error_value(ERROR_BAND_START - 1));
    assert!(is_error_value(ERROR_BAND_START));
    assert!(is_error_value(u64::MAX - 1));
    assert!(is_error_value(u64::MAX));
}

#[test]
fn ptr_result_success_returns_same_value() {
    assert_eq!(ptr_result(0x1234), Ok(0x1234));
    assert_eq!(ptr_result(0), Ok(0));
    assert_eq!(ptr_result(ERROR_BAND_START - 1), Ok(ERROR_BAND_START - 1));
}

#[test]
fn ptr_result_decodes_negated_errno() {
    // A raw return of -2 (ENOENT negated) reinterpreted as a word.
    let raw = (-2i64) as u64;
    assert_eq!(ptr_result(raw), Err(BchError::Engine { errno: 2 }));
    let raw_max = ERROR_BAND_START;
    assert_eq!(ptr_result(raw_max), Err(BchError::Engine { errno: MAX_ERROR_NO }));
    let raw_one = (-1i64) as u64;
    assert_eq!(ptr_result(raw_one), Err(BchError::Engine { errno: 1 }));
}

#[test]
fn engine_error_message_is_decoded_text() {
    let e = BchError::Engine { errno: 2 };
    let expected = std::io::Error::from_raw_os_error(2).to_string();
    assert_eq!(e.message(), expected);
    // Decoded text, not the raw code alone.
    assert_ne!(e.message(), "2");
}

#[test]
fn library_error_messages() {
    assert_eq!(BchError::EmptyDeviceList.message(), "no devices specified");
    assert_eq!(
        BchError::OrderViolation.message(),
        "key-space traversal went backwards"
    );
    assert_eq!(
        BchError::Truncated.message(),
        "engine response sequence ended mid-scan"
    );
}
