use sqlx_core::error::{ProtocolError, RequiredField};
use sqlx_core::response::{Response, Severity};

const RESPONSE: &[u8] = b"SNOTICE\0VNOTICE\0C42710\0Mextension \"uuid-ossp\" already exists, \
      skipping\0Fextension.c\0L1656\0RCreateExtension\0\0";

#[test]
fn it_decodes_response() {
    let message = Response::read(RESPONSE).unwrap();

    assert!(matches!(message.severity(), Ok(Severity::Notice)));
    assert_eq!(message.code(), "42710");
    assert_eq!(message.field(b'F'), Some("extension.c"));
    assert_eq!(message.field(b'L'), Some("1656"));
    assert_eq!(message.field(b'R'), Some("CreateExtension"));
    assert_eq!(
        message.message(),
        "extension \"uuid-ossp\" already exists, skipping"
    );
}

#[test]
fn required_fields_are_reachable_by_tag() {
    let message = Response::read(RESPONSE).unwrap();
    assert_eq!(message.field(b'S'), Some("NOTICE"));
    assert_eq!(message.field(b'C'), Some("42710"));
    assert_eq!(
        message.field(b'M'),
        Some("extension \"uuid-ossp\" already exists, skipping")
    );
    assert_eq!(message.field(b'V'), Some("NOTICE"));
    assert_eq!(message.field(b'D'), None);
}

#[test]
fn last_value_of_a_tag_wins() {
    let message = Response::read(b"SERROR\0Cone\0Mfirst\0Xa\0Ctwo\0Xb\0Msecond\0\0").unwrap();
    assert_eq!(message.code(), "two");
    assert_eq!(message.message(), "second");
    assert_eq!(message.field(b'X'), Some("b"));
}

#[test]
fn unknown_tags_are_kept() {
    let message = Response::read(b"SLOG\0C00000\0Mhi\0qfuture\0\0").unwrap();
    assert_eq!(message.field(b'q'), Some("future"));
    assert!(matches!(message.severity(), Ok(Severity::Log)));
}

#[test]
fn empty_input_is_truncated() {
    assert_eq!(Response::read(b"").unwrap_err(), ProtocolError::UnexpectedEof);
}

#[test]
fn missing_terminator_is_truncated() {
    assert_eq!(
        Response::read(b"SERROR\0C1\0Mm\0").unwrap_err(),
        ProtocolError::UnexpectedEof
    );
}

#[test]
fn unterminated_value_is_truncated() {
    assert_eq!(
        Response::read(b"SERROR\0C1\0Mmessage").unwrap_err(),
        ProtocolError::UnexpectedEof
    );
}

#[test]
fn invalid_utf8_is_refused() {
    assert_eq!(
        Response::read(b"SERROR\0C1\0M\xff\xfe\0\0").unwrap_err(),
        ProtocolError::InvalidUtf8
    );
}

#[test]
fn missing_severity_is_named() {
    assert_eq!(
        Response::read(b"C1\0Mm\0\0").unwrap_err(),
        ProtocolError::MissingField(RequiredField::Severity)
    );
}

#[test]
fn missing_code_is_named() {
    assert_eq!(
        Response::read(b"SERROR\0Mm\0\0").unwrap_err(),
        ProtocolError::MissingField(RequiredField::Code)
    );
}

#[test]
fn missing_message_is_named() {
    assert_eq!(
        Response::read(b"SERROR\0C1\0\0").unwrap_err(),
        ProtocolError::MissingField(RequiredField::Message)
    );
}

#[test]
fn nonlocalized_severity_is_preferred() {
    let message = Response::read(b"SFEHLER\0VERROR\0C1\0Mm\0\0").unwrap();
    assert!(matches!(message.severity(), Ok(Severity::Error)));
}

#[test]
fn localized_severity_alone_is_refused() {
    let message = Response::read(b"SFEHLER\0C1\0Mm\0\0").unwrap();
    assert_eq!(
        message.severity().unwrap_err(),
        ProtocolError::UnexpectedSeverity("FEHLER".to_string())
    );
}

#[test]
fn severity_names_parse() {
    let all = [
        ("PANIC", Severity::Panic),
        ("FATAL", Severity::Fatal),
        ("ERROR", Severity::Error),
        ("WARNING", Severity::Warning),
        ("NOTICE", Severity::Notice),
        ("DEBUG", Severity::Debug),
        ("INFO", Severity::Info),
        ("LOG", Severity::Log),
    ];
    for (text, severity) in all {
        assert_eq!(Severity::from_str(text), Ok(severity));
    }
    assert!(Severity::from_str("notice").is_err());
    assert!(Severity::from_str("").is_err());
}

#[test]
fn only_panic_fatal_error_are_errors() {
    assert!(Severity::Panic.is_error());
    assert!(Severity::Fatal.is_error());
    assert!(Severity::Error.is_error());
    assert!(!Severity::Warning.is_error());
    assert!(!Severity::Notice.is_error());
    assert!(!Severity::Debug.is_error());
    assert!(!Severity::Info.is_error());
    assert!(!Severity::Log.is_error());
}
