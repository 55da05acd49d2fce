use azure_core::error::Error as TransportError;
use azure_core::error::ErrorKind;
use retry_backoff::classify;
use retry_backoff::Details;
use retry_backoff::Error;
use retry_backoff::Failure;

fn with_status(status: u16) -> Error<()> {
    classify(Failure::HttpResponse { status })
}

#[test]
fn status_404_is_permanent_not_found() {
    assert!(matches!(with_status(404), Error::Permanent(Details::NotFound)));
}

#[test]
fn status_409_is_permanent_duplicate() {
    assert!(matches!(with_status(409), Error::Permanent(Details::Duplicate)));
}

#[test]
fn status_429_is_transient_throttled() {
    assert!(matches!(with_status(429), Error::Transient(Details::Throttled)));
}

#[test]
fn any_other_status_is_permanent_unspecified() {
    for status in [0u16, 200, 400, 403, 405, 408, 410, 428, 430, 500, 503, 65535] {
        assert!(matches!(with_status(status), Error::Permanent(Details::Unspecified)));
    }
}

#[test]
fn every_status_but_three_is_permanent_unspecified() {
    for status in 0..=u16::MAX {
        let expected_plain = status != 404 && status != 409 && status != 429;
        let plain = matches!(with_status(status), Error::Permanent(Details::Unspecified));
        assert_eq!(plain, expected_plain);
    }
}

#[test]
fn io_failure_is_transient_unspecified() {
    let error: Error<()> = classify(Failure::Io);
    assert!(matches!(error, Error::Transient(Details::Unspecified)));
}

#[test]
fn data_conversion_failure_is_permanent_unspecified() {
    let error: Error<()> = classify(Failure::DataConversion);
    assert!(matches!(error, Error::Permanent(Details::Unspecified)));
}

#[test]
fn credential_failure_is_permanent_unspecified() {
    let error: Error<()> = classify(Failure::Credential);
    assert!(matches!(error, Error::Permanent(Details::Unspecified)));
}

#[test]
fn unclassified_failure_is_transient_unspecified() {
    let error: Error<()> = classify(Failure::Other);
    assert!(matches!(error, Error::Transient(Details::Unspecified)));
}

#[test]
fn transport_error_with_status_404() {
    let source = ErrorKind::http_response(404, None).into_error();
    let error: Error<()> = Error::from(source);
    assert!(matches!(error, Error::Permanent(Details::NotFound)));
}

#[test]
fn transport_error_with_status_409_and_error_code() {
    let source = ErrorKind::http_response(409, Some(String::from("EntityAlreadyExists"))).into_error();
    let error: Error<()> = Error::from(source);
    assert!(matches!(error, Error::Permanent(Details::Duplicate)));
}

#[test]
fn transport_error_with_status_429() {
    let source = TransportError::message(ErrorKind::http_response(429, None), "slow down");
    let error: Error<()> = Error::from(source);
    assert!(matches!(error, Error::Transient(Details::Throttled)));
}

#[test]
fn transport_error_with_status_500() {
    let source = ErrorKind::http_response(500, None).into_error();
    let error: Error<()> = Error::from(source);
    assert!(matches!(error, Error::Permanent(Details::Unspecified)));
}

#[test]
fn transport_error_from_io() {
    let cause = std::io::Error::new(std::io::ErrorKind::BrokenPipe, "pipe");
    let error: Error<()> = Error::from(TransportError::from(cause));
    assert!(matches!(error, Error::Transient(Details::Unspecified)));
}

#[test]
fn transport_error_from_data_conversion() {
    let cause = std::str::from_utf8(&[0xff, 0xfe]).unwrap_err();
    let error: Error<()> = Error::from(TransportError::from(cause));
    assert!(matches!(error, Error::Permanent(Details::Unspecified)));
}

#[test]
fn transport_error_from_credential() {
    let cause = std::io::Error::new(std::io::ErrorKind::PermissionDenied, "token");
    let source = TransportError::full(ErrorKind::Credential, cause, "no token");
    let error: Error<()> = Error::from(source);
    assert!(matches!(error, Error::Permanent(Details::Unspecified)));
}

#[test]
fn transport_error_of_other_kind() {
    let source = TransportError::with_message(ErrorKind::Other, || "something else");
    let error: Error<()> = Error::from(source);
    assert!(matches!(error, Error::Transient(Details::Unspecified)));
}

#[test]
fn transport_error_converts_with_into() {
    let source = ErrorKind::http_response(404, None).into_error();
    let error: Error<String> = source.into();
    assert!(matches!(error, Error::Permanent(Details::NotFound)));
}

#[test]
fn failure_compares_by_kind_and_status() {
    assert_eq!(Failure::HttpResponse { status: 404 }, Failure::HttpResponse { status: 404 });
    assert_ne!(Failure::HttpResponse { status: 404 }, Failure::HttpResponse { status: 409 });
    assert_ne!(Failure::Io, Failure::Other);
}
