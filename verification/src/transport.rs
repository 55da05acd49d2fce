//! What the library reads off an error of the transport.

use azure_core::error::Error as TransportError;
use azure_core::error::ErrorKind;
use vstd::prelude::*;

verus! {

/// The transport's error type. Its contents are not visible to the verifier;
/// the library only reads its kind.
#[verifier::external_type_specification]
#[verifier::external_body]
pub struct ExTransportError(TransportError);

/// What the library reads off a transport error: the coarse kind, and for an
/// unexpected HTTP response its status code.
#[derive(Debug, Clone, Copy, PartialEq, Eq, Structural)]
pub enum Failure {
    /// A response arrived, with a status code that was not expected.
    HttpResponse { status: u16 },
    /// No response was received: the I/O layer failed.
    Io,
    /// A payload could not be converted.
    DataConversion,
    /// A credential could not be obtained.
    Credential,
    /// Anything else.
    Other,
}

/// The kind that a transport error reports of itself.
pub uninterp spec fn reported_failure(error: TransportError) -> Failure;

/// Reads the kind of a transport error with `azure_core::error::Error::kind`
/// and copies it into a `Failure`, variant by variant; the status code of an
/// HTTP response is kept, its error code is dropped. Nothing is proved here:
/// the contract names the outcome `reported_failure`.
#[verifier::external_body]
pub(crate) fn failure_of(error: &TransportError) -> (failure: Failure)
    ensures
        failure == reported_failure(*error),
{
    match error.kind() {
        ErrorKind::HttpResponse { status, .. } => Failure::HttpResponse {
            status: *status,
        },
        ErrorKind::Io => Failure::Io,
        ErrorKind::DataConversion => Failure::DataConversion,
        ErrorKind::Credential => Failure::Credential,
        ErrorKind::Other => Failure::Other,
    }
}

} // verus!
