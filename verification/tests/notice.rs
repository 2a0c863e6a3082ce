use kproxy::base::{DebugLevel, Error, IoFailure};
use kproxy::notice::{to_decimal, Notice};

fn reset() -> Error {
    Error::IoError(IoFailure { would_block: false, message: "connection reset".to_string() })
}

#[test]
fn numbers_are_written_in_decimal() {
    assert_eq!(to_decimal(0), "0");
    assert_eq!(to_decimal(7), "7");
    assert_eq!(to_decimal(10), "10");
    assert_eq!(to_decimal(8192), "8192");
    assert_eq!(to_decimal(1234567890), "1234567890");
    assert_eq!(to_decimal(usize::MAX), usize::MAX.to_string());
}

#[test]
fn errors_describe_themselves() {
    assert_eq!(Error::Msg("No addresses found".to_string()).describe(), "No addresses found");
    assert_eq!(reset().describe(), "connection reset");
    assert_eq!(Error::Unknown.describe(), "Unknown Error");
    assert_eq!(Error::RequireOption("BufferSize".to_string()).describe(), "BufferSize");
    assert_eq!(Error::ParseIntError.describe(), "Parse Int Error");
    assert_eq!(Error::AddrParseError("invalid IP".to_string()).describe(), "invalid IP");
    assert_eq!(Error::H2_error("protocol error".to_string()).describe(), "protocol error");
}

#[test]
fn only_would_block_is_transient() {
    let blocked = Error::IoError(IoFailure { would_block: true, message: String::new() });
    assert!(blocked.is_transient());
    assert!(!reset().is_transient());
    assert!(!Error::Unknown.is_transient());
    assert!(!Error::Msg("x".to_string()).is_transient());
    assert!(!Error::ParseIntError.is_transient());
    assert!(!Error::RequireOption("x".to_string()).is_transient());
    assert!(!Error::AddrParseError("x".to_string()).is_transient());
    assert!(!Error::H2_error("x".to_string()).is_transient());
}

#[test]
fn notices_have_their_lines() {
    assert_eq!(Notice::UnknownToken(17).text(), "No client found with this token 17");
    assert_eq!(
        Notice::Connecting(reset()).text(),
        "an error accured connecting pipeline: connection reset"
    );
    assert_eq!(
        Notice::ReadingClient(reset()).text(),
        "an error accured reading client: connection reset"
    );
    assert_eq!(
        Notice::WritingClient(Error::Unknown).text(),
        "an error accured writing client: Unknown Error"
    );
    assert_eq!(
        Notice::ReadingPipeline(reset()).text(),
        "an error accured reading pipeline: connection reset"
    );
    assert_eq!(
        Notice::WritingPipeline(reset()).text(),
        "an error accured writing pipeline: connection reset"
    );
    assert_eq!(Notice::NewClient.text(), "new client: ");
}

#[test]
fn notices_are_shown_from_their_level_on() {
    assert_eq!(Notice::NewClient.level(), 2);
    assert_eq!(Notice::UnknownToken(1).level(), 1);
    assert_eq!(Notice::ReadingClient(reset()).level(), 1);
    assert!(!Notice::NewClient.shown_at(DebugLevel::Silent));
    assert!(!Notice::NewClient.shown_at(DebugLevel::Crit));
    assert!(Notice::NewClient.shown_at(DebugLevel::Warn));
    assert!(Notice::NewClient.shown_at(DebugLevel::Info));
    assert!(!Notice::WritingPipeline(reset()).shown_at(DebugLevel::Silent));
    assert!(Notice::WritingPipeline(reset()).shown_at(DebugLevel::Crit));
}

#[test]
fn debug_levels_have_their_numbers() {
    assert_eq!(DebugLevel::from(0), DebugLevel::Silent);
    assert_eq!(DebugLevel::from(1), DebugLevel::Crit);
    assert_eq!(DebugLevel::from(2), DebugLevel::Warn);
    assert_eq!(DebugLevel::from(3), DebugLevel::Info);
    assert_eq!(DebugLevel::from(4), DebugLevel::Info);
    assert_eq!(DebugLevel::from(-1), DebugLevel::Info);
    assert_eq!(DebugLevel::Silent.level(), 0);
    assert_eq!(DebugLevel::Crit.level(), 1);
    assert_eq!(DebugLevel::Warn.level(), 2);
    assert_eq!(DebugLevel::Info.level(), 3);
    assert!(DebugLevel::Warn.at_least(2));
    assert!(!DebugLevel::Crit.at_least(2));
    assert!(DebugLevel::Warn == 2);
    assert!(DebugLevel::Warn != 3);
    assert!(DebugLevel::Warn >= 2);
    assert!(DebugLevel::Info > 2);
    assert!(DebugLevel::Silent < 1);
    assert!(!(DebugLevel::Silent > 0));
}
