//! Classification of errors.
use stellar_archivist::error::{
    classify_http_status_in_error, classify_opendal_error, from_io_error, from_opendal_error,
    read_io_error, read_opendal_error, Error, ErrorClass, Failure, IoError, IoErrorKind,
    OpendalError, OpendalErrorKind,
};

fn reported(kind: OpendalErrorKind, text: &str) -> OpendalError {
    OpendalError {
        kind,
        text: text.to_string(),
    }
}

#[test]
fn constructors_set_class_and_message() {
    let retry = Error::retry("try again");
    assert_eq!(retry.class, ErrorClass::Retry);
    assert_eq!(retry.message, "try again");
    let fatal = Error::fatal(String::from("give up"));
    assert_eq!(fatal.class, ErrorClass::Fatal);
    assert_eq!(fatal.message, "give up");
    let missing = Error::not_found();
    assert_eq!(missing.class, ErrorClass::NotFound);
    assert_eq!(missing.message, "File not found");
}

#[test]
fn status_codes_in_texts() {
    let class = classify_http_status_in_error;
    assert_eq!(class("status: 503"), Some(ErrorClass::Retry));
    assert_eq!(class("got status: 408 from host"), Some(ErrorClass::Retry));
    assert_eq!(class("status: 429"), Some(ErrorClass::Retry));
    assert_eq!(class("status: 599"), Some(ErrorClass::Retry));
    assert_eq!(class("status: 403 Forbidden"), Some(ErrorClass::Fatal));
    assert_eq!(class("status: 499"), Some(ErrorClass::Fatal));
    // Any other status is one too.
    assert_eq!(class("unexpected status: 301"), Some(ErrorClass::Retry));
    assert_eq!(class("status: 200"), Some(ErrorClass::Retry));
    assert_eq!(class("status: 100"), Some(ErrorClass::Retry));
    assert_eq!(class("status: 600"), Some(ErrorClass::Retry));
    assert_eq!(class("status: 301, then status: 403"), Some(ErrorClass::Fatal));
    assert_eq!(class("503"), None);
    assert_eq!(class("status: 99"), None);
    assert_eq!(class("status: "), None);
    assert_eq!(class("status: unknown"), None);
    assert_eq!(class(""), None);
    // A retryable code takes precedence, wherever it stands.
    assert_eq!(class("status: 404, then status: 500"), Some(ErrorClass::Retry));
    // The code is looked for as text: a longer number that starts with it counts.
    assert_eq!(class("status: 4031"), Some(ErrorClass::Fatal));
}

#[test]
fn opendal_kinds_decide_the_class() {
    let class = |kind, text: &str| classify_opendal_error(&reported(kind, text));
    assert_eq!(class(OpendalErrorKind::NotFound, "status: 500"), ErrorClass::NotFound);
    assert_eq!(class(OpendalErrorKind::RateLimited, "status: 403"), ErrorClass::Retry);
    for kind in [
        OpendalErrorKind::Unsupported,
        OpendalErrorKind::ConfigInvalid,
        OpendalErrorKind::PermissionDenied,
        OpendalErrorKind::IsSameFile,
        OpendalErrorKind::NotADirectory,
        OpendalErrorKind::IsADirectory,
        OpendalErrorKind::AlreadyExists,
        OpendalErrorKind::RangeNotSatisfied,
        OpendalErrorKind::ConditionNotMatch,
    ] {
        assert_eq!(class(kind, "status: 500"), ErrorClass::Fatal);
    }
    assert_eq!(class(OpendalErrorKind::Unexpected, "connection reset"), ErrorClass::Retry);
    assert_eq!(class(OpendalErrorKind::Unexpected, "status: 401"), ErrorClass::Fatal);
    assert_eq!(class(OpendalErrorKind::Unexpected, "status: 301"), ErrorClass::Retry);
    assert_eq!(class(OpendalErrorKind::Other, "status: 502"), ErrorClass::Retry);
}

#[test]
fn opendal_errors_are_read_and_put_in_context() {
    let kinds = [
        (opendal::ErrorKind::Unexpected, OpendalErrorKind::Unexpected),
        (opendal::ErrorKind::Unsupported, OpendalErrorKind::Unsupported),
        (opendal::ErrorKind::ConfigInvalid, OpendalErrorKind::ConfigInvalid),
        (opendal::ErrorKind::NotFound, OpendalErrorKind::NotFound),
        (opendal::ErrorKind::PermissionDenied, OpendalErrorKind::PermissionDenied),
        (opendal::ErrorKind::IsADirectory, OpendalErrorKind::IsADirectory),
        (opendal::ErrorKind::NotADirectory, OpendalErrorKind::NotADirectory),
        (opendal::ErrorKind::AlreadyExists, OpendalErrorKind::AlreadyExists),
        (opendal::ErrorKind::RateLimited, OpendalErrorKind::RateLimited),
        (opendal::ErrorKind::IsSameFile, OpendalErrorKind::IsSameFile),
        (opendal::ErrorKind::ConditionNotMatch, OpendalErrorKind::ConditionNotMatch),
        (opendal::ErrorKind::RangeNotSatisfied, OpendalErrorKind::RangeNotSatisfied),
    ];
    for (kind, expected) in kinds {
        let error = opendal::Error::new(kind, "service said no");
        let text = error.to_string();
        let read = read_opendal_error(&error);
        assert_eq!(read.kind, expected);
        assert_eq!(read.text, text);
        let converted = from_opendal_error(error, "Failed to read");
        assert_eq!(converted.class, classify_opendal_error(&read));
        assert_eq!(converted.message, format!("Failed to read: {text}"));
    }
    let error = opendal::Error::new(opendal::ErrorKind::Unexpected, "status: 403 Forbidden");
    assert_eq!(from_opendal_error(error, "x").class, ErrorClass::Fatal);
}

#[test]
fn io_errors_are_read_and_put_in_context() {
    let kinds = [
        (std::io::ErrorKind::NotFound, IoErrorKind::NotFound, ErrorClass::NotFound),
        (std::io::ErrorKind::PermissionDenied, IoErrorKind::PermissionDenied, ErrorClass::Fatal),
        (std::io::ErrorKind::AlreadyExists, IoErrorKind::AlreadyExists, ErrorClass::Fatal),
        (std::io::ErrorKind::InvalidInput, IoErrorKind::InvalidInput, ErrorClass::Fatal),
        (std::io::ErrorKind::InvalidData, IoErrorKind::InvalidData, ErrorClass::Fatal),
        (std::io::ErrorKind::TimedOut, IoErrorKind::Other, ErrorClass::Retry),
        (std::io::ErrorKind::Other, IoErrorKind::Other, ErrorClass::Retry),
    ];
    for (kind, expected, class) in kinds {
        let error = std::io::Error::new(kind, "disk said no");
        let read = read_io_error(&error);
        assert_eq!(read.kind, expected);
        assert_eq!(read.text, "disk said no");
        let converted = from_io_error(error, "Failed to flush x");
        assert_eq!(converted.class, class);
        assert_eq!(converted.message, "Failed to flush x: disk said no");
    }
}

#[test]
fn failures_of_either_side_become_errors() {
    let backend = Failure::Backend(reported(OpendalErrorKind::RateLimited, "slow down"));
    let error = backend.in_context("Failed to close writer for x");
    assert_eq!(error.class, ErrorClass::Retry);
    assert_eq!(error.message, "Failed to close writer for x: slow down");
    let file = Failure::File(IoError {
        kind: IoErrorKind::PermissionDenied,
        text: "denied".to_string(),
    });
    let error = file.in_context("Failed to flush x");
    assert_eq!(error.class, ErrorClass::Fatal);
    assert_eq!(error.message, "Failed to flush x: denied");
}
