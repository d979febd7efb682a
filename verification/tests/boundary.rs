use c_boundary::adapter::accept_str;
use c_boundary::boundary::{c_operate, result_to_c, CResult};
use c_boundary::encoding::is_utf8;
use c_boundary::errors::{render_error, BoundaryError};
use c_boundary::executor::{operate, parse_op, Operator};

fn success_of(record: CResult) -> i32 {
    assert!(record.error_message.is_none());
    record.success.expect("success slot should be populated")
}

fn error_of(record: CResult) -> Vec<u8> {
    assert!(record.success.is_none());
    record.error_message.expect("error slot should be populated")
}

#[test]
fn it_works() {
    assert_eq!(operate(Some("+".as_bytes()), 2, 2).unwrap(), 4);
}

#[test]
fn each_operator_computes_exactly() {
    assert_eq!(operate(Some(b"+".as_slice()), 19, 23).unwrap(), 42);
    assert_eq!(operate(Some(b"-".as_slice()), 5, 9).unwrap(), -4);
    assert_eq!(operate(Some(b"*".as_slice()), -6, 7).unwrap(), -42);
    assert_eq!(operate(Some(b"/".as_slice()), 7, 2).unwrap(), 3);
    assert_eq!(operate(Some(b"/".as_slice()), -7, 2).unwrap(), -3);
    assert_eq!(operate(Some(b"%".as_slice()), 7, 3).unwrap(), 1);
    assert_eq!(operate(Some(b"%".as_slice()), -7, 3).unwrap(), -1);
    assert_eq!(operate(Some(b"^".as_slice()), 5, 3).unwrap(), 6);
}

#[test]
fn arithmetic_wraps_on_overflow() {
    assert_eq!(operate(Some(b"+".as_slice()), i32::MAX, 1).unwrap(), i32::MIN);
    assert_eq!(operate(Some(b"-".as_slice()), i32::MIN, 1).unwrap(), i32::MAX);
    assert_eq!(operate(Some(b"*".as_slice()), 65536, 65536).unwrap(), 0);
    assert_eq!(operate(Some(b"/".as_slice()), i32::MIN, -1).unwrap(), i32::MIN);
    assert_eq!(operate(Some(b"%".as_slice()), i32::MIN, -1).unwrap(), 0);
}

#[test]
fn unknown_operator_is_reported_with_its_text() {
    let record = c_operate(Some(b"?".as_slice()), 0, 0);
    let message = error_of(record);
    assert_eq!(message, b"Bad Operator: '?'".to_vec());

    let record = c_operate(Some("+-".as_bytes()), 1, 2);
    assert_eq!(error_of(record), b"Bad Operator: '+-'".to_vec());

    let record = c_operate(Some("".as_bytes()), 1, 2);
    assert_eq!(error_of(record), b"Bad Operator: ''".to_vec());
}

#[test]
fn null_operator_is_reported() {
    let record = c_operate(None, 1, 2);
    assert_eq!(error_of(record), b"NULL pointer: operator".to_vec());
}

#[test]
fn invalid_encoding_is_reported() {
    let record = c_operate(Some(b"\xff".as_slice()), 1, 2);
    assert_eq!(
        error_of(record),
        b"Could not parse operator pointer as UTF-8 string!".to_vec()
    );
}

#[test]
fn division_by_zero_is_reported() {
    let record = c_operate(Some(b"/".as_slice()), 5, 0);
    assert_eq!(error_of(record), b"Division by zero: '/'".to_vec());
    let record = c_operate(Some(b"%".as_slice()), 5, 0);
    assert_eq!(error_of(record), b"Division by zero: '%'".to_vec());
}

#[test]
fn record_round_trip_scenarios() {
    // (a) success: "+", 2, 2 -> 4
    assert_eq!(success_of(c_operate(Some(b"+".as_slice()), 2, 2)), 4);
    // (b) error: "?", 0, 0 -> error slot populated, success slot empty
    let record = c_operate(Some(b"?".as_slice()), 0, 0);
    assert!(record.success.is_none());
    assert!(record.error_message.is_some());
    // (c) success: "-", 5, 9 -> -4
    assert_eq!(success_of(c_operate(Some(b"-".as_slice()), 5, 9)), -4);
    // (d) success: "^", 5, 3 -> 6
    assert_eq!(success_of(c_operate(Some(b"^".as_slice()), 5, 3)), 6);
}

#[test]
fn accept_str_borrows_valid_input() {
    let buffer = b"hello".to_vec();
    let borrowed = accept_str(b"operator".as_slice(), Some(buffer.as_slice())).unwrap();
    assert_eq!(borrowed, buffer.as_slice());
}

#[test]
fn accept_str_reports_null_under_the_given_name() {
    let err = accept_str(b"operator".as_slice(), None).unwrap_err();
    assert_eq!(
        err,
        BoundaryError::NullPointer {
            name: b"operator".to_vec()
        }
    );
}

#[test]
fn accept_str_reports_invalid_encoding_under_the_given_name() {
    let err = accept_str(b"operator".as_slice(), Some(b"\xc3(".as_slice())).unwrap_err();
    assert_eq!(
        err,
        BoundaryError::InvalidEncoding {
            name: b"operator".to_vec()
        }
    );
}

#[test]
fn parse_op_recognizes_exactly_the_supported_spellings() {
    assert_eq!(parse_op(b"+".as_slice()), Some(Operator::Add));
    assert_eq!(parse_op(b"-".as_slice()), Some(Operator::Subtract));
    assert_eq!(parse_op(b"*".as_slice()), Some(Operator::Multiply));
    assert_eq!(parse_op(b"/".as_slice()), Some(Operator::Divide));
    assert_eq!(parse_op(b"%".as_slice()), Some(Operator::Modulo));
    assert_eq!(parse_op(b"^".as_slice()), Some(Operator::Xor));
    assert_eq!(parse_op(b"&".as_slice()), None);
    assert_eq!(parse_op(b"++".as_slice()), None);
    assert_eq!(parse_op(b"".as_slice()), None);
}

#[test]
fn result_to_c_populates_exactly_one_slot() {
    let record = result_to_c(Ok(7));
    assert_eq!(record.success, Some(7));
    assert!(record.error_message.is_none());

    let record = result_to_c(Err(BoundaryError::UnknownOperator { op: b"?".to_vec() }));
    assert!(record.success.is_none());
    assert_eq!(record.error_message, Some(b"Bad Operator: '?'".to_vec()));
}

#[test]
fn render_error_produces_each_message() {
    let msg = render_error(&BoundaryError::NullPointer {
        name: b"operator".to_vec(),
    });
    assert_eq!(msg, b"NULL pointer: operator".to_vec());
    let msg = render_error(&BoundaryError::InvalidEncoding {
        name: b"operator".to_vec(),
    });
    assert_eq!(msg, b"Could not parse operator pointer as UTF-8 string!".to_vec());
    let msg = render_error(&BoundaryError::UnknownOperator { op: b"?".to_vec() });
    assert_eq!(msg, b"Bad Operator: '?'".to_vec());
    let msg = render_error(&BoundaryError::DivisionByZero { op: b"/".to_vec() });
    assert_eq!(msg, b"Division by zero: '/'".to_vec());
}

#[test]
fn utf8_validation_agrees_with_the_standard_library() {
    let cases: Vec<&[u8]> = vec![
        b"",
        b"plain ascii",
        b"+",
        b"\xc3\xa9",             // two-byte scalar
        b"\xe2\x82\xac",         // three-byte scalar
        b"\xf0\x9f\x98\x80",     // four-byte scalar
        b"\xe0\xa0\x80",         // smallest three-byte scalar
        b"\xf4\x8f\xbf\xbf",     // largest scalar
        b"\x80",                 // lone continuation byte
        b"\xc3",                 // truncated two-byte encoding
        b"\xe2\x82",             // truncated three-byte encoding
        b"\xf0\x9f\x98",         // truncated four-byte encoding
        b"\xc0\xaf",             // overlong two-byte encoding
        b"\xc1\xbf",             // overlong two-byte encoding
        b"\xe0\x80\x80",         // overlong three-byte encoding
        b"\xf0\x80\x80\x80",     // overlong four-byte encoding
        b"\xed\xa0\x80",         // surrogate
        b"\xed\x9f\xbf",         // just below the surrogate range
        b"\xee\x80\x80",         // just above the surrogate range
        b"\xf4\x90\x80\x80",     // beyond the last scalar
        b"\xf8\x88\x80\x80",     // five-byte pattern
        b"\xfe",
        b"\xff\xfe\xff",
        b"ok\xffok",
        b"mixed \xc3\xa9 + \xf0\x9f\x98\x80 text",
    ];
    for bytes in cases {
        assert_eq!(
            is_utf8(bytes),
            std::str::from_utf8(bytes).is_ok(),
            "disagreement on {:?}",
            bytes
        );
    }
}
