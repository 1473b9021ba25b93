use project_manager::{ConfigError, ErrorKind};

#[test]
fn not_found_keeps_its_message() {
    let error = ConfigError::not_found("Could not find library path");
    assert_eq!(error.kind(), ErrorKind::NotFound);
    assert_eq!(error.message(), "Could not find library path");
    assert_eq!(error.to_string(), "Could not find library path");
}

#[test]
fn io_error_is_marked_as_such() {
    let error = ConfigError::io("No such file or directory (os error 2)");
    assert_eq!(error.kind(), ErrorKind::Io);
    assert_eq!(error.to_string(), "IO Error: No such file or directory (os error 2)");
}

#[test]
fn decode_error_is_marked_as_such() {
    let error = ConfigError::decode("expected an equals, found eof at line 1 column 4");
    assert_eq!(error.kind(), ErrorKind::Decode);
    assert_eq!(error.to_string(), "TOML Error: expected an equals, found eof at line 1 column 4");
}

#[test]
fn encode_error_is_marked_as_such() {
    let error = ConfigError::encode("unsupported None value");
    assert_eq!(error.kind(), ErrorKind::Encode);
    assert_eq!(error.message(), "TOML Error: unsupported None value");
}

#[test]
fn error_without_detail_keeps_its_mark() {
    assert_eq!(ConfigError::io("").to_string(), "IO Error: ");
    assert_eq!(ConfigError::not_found("").to_string(), "");
}
