use scripthost::error::word;
use scripthost::error::Error;

#[test]
fn the_unspecified_error_is_worded() {
    assert_eq!(Error::Error.to_string(), "an unspecified error occurred");
}

#[test]
fn the_missing_argument_is_worded() {
    assert_eq!(Error::MissingArgument.to_string(), "a required argument was omitted");
}

#[test]
fn a_decoding_error_is_worded_with_its_cause() {
    let cause = String::from_utf8(vec![0xff]).unwrap_err();
    let detail = format!("{:?}", cause);
    let text = Error::InvalidString(cause).to_string();
    assert_eq!(text, format!("an error occurred decoding a string ({})", detail));
    assert!(text.contains("FromUtf8Error"));
}

#[test]
fn an_input_output_error_is_worded_with_its_cause() {
    let cause = std::io::Error::new(std::io::ErrorKind::NotFound, "gone");
    let detail = format!("{:?}", cause);
    let text = Error::IO(cause).to_string();
    assert_eq!(text, format!("an input/output error occurred ({})", detail));
    assert!(text.contains("NotFound"));
}

#[test]
fn word_puts_the_detail_in_parentheses() {
    assert_eq!(word("what", "why"), "what (why)");
    assert_eq!(word("", ""), " ()");
}

#[test]
fn the_unit_error_converts_to_the_unspecified_error() {
    assert!(matches!(Error::from(()), Error::Error));
}

#[test]
fn a_decoding_error_converts_to_invalid_string() {
    let cause = String::from_utf8(vec![0x80]).unwrap_err();
    match Error::from(cause) {
        Error::InvalidString(e) => assert_eq!(e.into_bytes(), vec![0x80]),
        _ => panic!("Unexpected error"),
    }
}

#[test]
fn an_input_output_error_converts_to_io() {
    let cause = std::io::Error::new(std::io::ErrorKind::Other, "x");
    match Error::from(cause) {
        Error::IO(e) => assert_eq!(e.kind(), std::io::ErrorKind::Other),
        _ => panic!("Unexpected error"),
    }
}
