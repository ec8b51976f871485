use ascom_alpaca::errors::{ASCOMError, ASCOMErrorCode};

/// Reads an error from a JSON response body the way a client does: `ErrorNumber` as an
/// `i32` and `ErrorMessage` as text.
fn error_from_json(text: &str) -> ASCOMError {
    let v: serde_json::Value = serde_json::from_str(text).expect("valid JSON");
    let number = v["ErrorNumber"].as_i64().expect("a number");
    let number = i32::try_from(number).expect("an i32");
    let message = v["ErrorMessage"].as_str().expect("a string").to_owned();
    ASCOMError::from_wire(number, message)
}

#[test]
fn deserializes_out_of_range_error_number_as_unspecified() {
    let err = error_from_json(r#"{"ErrorNumber": -2147024882, "ErrorMessage": "Not enough storage"}"#);
    assert_eq!(err.code, ASCOMErrorCode::unspecified());
    assert!(err.message.contains("out of valid range"));
    assert!(err.message.contains("Not enough storage"));
}

#[test]
fn deserializes_in_range_error_numbers_unchanged() {
    let ok = error_from_json(r#"{"ErrorNumber": 0, "ErrorMessage": ""}"#);
    assert_eq!(ok.code, ASCOMErrorCode::ok());
    let bad = error_from_json(r#"{"ErrorNumber": 1025, "ErrorMessage": "bad"}"#);
    assert_eq!(bad.code, ASCOMErrorCode::invalid_value());
}

#[test]
fn out_of_range_message_is_exact() {
    let err = ASCOMError::new_with_unbounded_code(-2147024882, "Not enough storage");
    assert_eq!(err.message, "Error code 0x8007000E is out of valid range (0x400..=0xFFF): Not enough storage");
    let err = ASCOMError::new_with_unbounded_code(5, "x");
    assert_eq!(err.message, "Error code 0x5 is out of valid range (0x400..=0xFFF): x");
    let err = ASCOMError::new_with_unbounded_code(0x500, "y");
    assert_eq!(err.code.raw(), 0x500);
    assert_eq!(err.message, "y");
}

#[test]
fn try_from_checks_the_range() {
    assert!(ASCOMErrorCode::try_from_i32(0x3FF).is_err());
    assert_eq!(ASCOMErrorCode::try_from_i32(0x400).map(|c| c.raw()).ok(), Some(0x400));
    assert_eq!(ASCOMErrorCode::try_from_i32(0xFFF).map(|c| c.raw()).ok(), Some(0xFFF));
    let e = ASCOMErrorCode::try_from_u16(0x1000).expect_err("out of range");
    assert_eq!(e.message, "Error code 0x1000 is out of valid range (0x400..=0xFFF)");
}

#[test]
fn driver_codes_round_trip() {
    for c in [0u16, 1, 42, 0xAFF] {
        let code = ASCOMErrorCode::new_for_driver(c);
        assert_eq!(code.raw(), 0x500 + c);
        assert_eq!(code.as_driver_error(), Ok(c));
    }
    assert_eq!(ASCOMErrorCode::invalid_operation().as_driver_error(), Err(0x40B));
}

#[test]
fn codes_print_by_name() {
    assert_eq!(ASCOMErrorCode::not_implemented().to_text(), "NOT_IMPLEMENTED");
    assert_eq!(ASCOMErrorCode::new_for_driver(3).to_text(), "DRIVER_ERROR[3]");
    assert_eq!(ASCOMErrorCode::try_from_u16(0x4AB).expect("in range").to_text(), "0x4AB");
    let err = ASCOMError::invalid_operation("busy".to_owned());
    assert_eq!(err.to_text(), "ASCOM error INVALID_OPERATION: busy");
    assert_eq!(ASCOMError::invalid_value("v".to_owned()).code, ASCOMErrorCode::invalid_value());
    assert_eq!(ASCOMError::unspecified("u".to_owned()).code.raw(), 0x4FF);
}

#[test]
fn well_known_errors_carry_standard_messages() {
    let e = ASCOMError::well_known(ASCOMErrorCode::not_implemented());
    assert_eq!(e.message, "Property or method not implemented.");
    let e = ASCOMError::well_known(ASCOMErrorCode::ok());
    assert_eq!(e.message, "");
}
