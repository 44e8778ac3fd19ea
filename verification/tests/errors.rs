use rtf2text::error::Cause;
use rtf2text::error::Error;
use rtf2text::error::ErrorKind;

fn io_error(text: &str) -> std::io::Error {
    std::io::Error::new(std::io::ErrorKind::Other, text.to_string())
}

fn parse_error() -> rtf_grimoire::tokenizer::ParseError {
    let context = nom::Context::Code(&b"rest"[..], nom::ErrorKind::Many0::<u32>);
    rtf_grimoire::tokenizer::ParseError::from(nom::Err::Error(context))
}

#[test]
fn error_kinds_have_their_exit_codes() {
    assert_eq!(ErrorKind::InputIo.code(), 1);
    assert_eq!(ErrorKind::OutputIo.code(), 2);
    assert_eq!(ErrorKind::Parse.code(), 3);
}

#[test]
fn error_kinds_convert_into_their_exit_codes() {
    assert_eq!(i32::from(ErrorKind::InputIo), 1);
    assert_eq!(i32::from(ErrorKind::OutputIo), 2);
    let code: i32 = ErrorKind::Parse.into();
    assert_eq!(code, 3);
}

#[test]
fn error_kinds_have_their_names() {
    assert_eq!(ErrorKind::InputIo.name(), "InputIo");
    assert_eq!(ErrorKind::OutputIo.name(), "OutputIo");
    assert_eq!(ErrorKind::Parse.name(), "Parse");
}

#[test]
fn error_kinds_print_as_their_names() {
    assert_eq!(format!("{:?}", ErrorKind::InputIo), "InputIo");
    assert_eq!(format!("{:?}", ErrorKind::OutputIo), "OutputIo");
    assert_eq!(format!("{:?}", ErrorKind::Parse), "Parse");
}

#[test]
fn new_error_keeps_what_it_is_given() {
    let error = Error::new(ErrorKind::OutputIo, Some("disk full".to_string()), None);
    assert_eq!(error.kind(), ErrorKind::OutputIo);
    assert_eq!(error.message(), &Some("disk full".to_string()));
    assert!(error.source().is_none());
    assert_eq!(error.code(), 2);
}

#[test]
fn input_error_carries_its_cause() {
    let error = Error::from_input_error(io_error("unreadable"));
    assert_eq!(error.kind(), ErrorKind::InputIo);
    assert_eq!(error.code(), 1);
    assert_eq!(error.message(), &None);
    match error.source() {
        Some(Cause::Io(cause)) => assert_eq!(cause.to_string(), "unreadable"),
        other => panic!("unexpected cause {:?}", other),
    }
}

#[test]
fn output_error_carries_its_cause() {
    let error = Error::from_output_error(io_error("unwritable"));
    assert_eq!(error.kind(), ErrorKind::OutputIo);
    assert_eq!(error.code(), 2);
    assert_eq!(error.message(), &None);
    match error.source() {
        Some(Cause::Io(cause)) => assert_eq!(cause.to_string(), "unwritable"),
        other => panic!("unexpected cause {:?}", other),
    }
}

#[test]
fn parse_error_carries_its_cause() {
    let error = Error::from_parse_error(parse_error());
    assert_eq!(error.kind(), ErrorKind::Parse);
    assert_eq!(error.code(), 3);
    assert_eq!(error.message(), &None);
    match error.source() {
        Some(Cause::Parse(cause)) => assert!(cause.to_string().starts_with("Parser Error:")),
        other => panic!("unexpected cause {:?}", other),
    }
}

#[test]
fn error_line_without_message() {
    assert_eq!(Error::from_input_error(io_error("x")).to_string(), "InputIo Error:");
    assert_eq!(Error::from_output_error(io_error("x")).to_string(), "OutputIo Error:");
    assert_eq!(Error::from_parse_error(parse_error()).to_string(), "Parse Error:");
}

#[test]
fn error_line_with_message() {
    let error = Error::new(ErrorKind::Parse, Some("bad brace".to_string()), None);
    assert_eq!(error.to_string(), "Parse Error: bad brace");
    let error = Error::new(ErrorKind::InputIo, Some(String::new()), None);
    assert_eq!(error.to_string(), "InputIo Error: ");
}
