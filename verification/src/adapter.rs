//! Classification of transport errors into the failure taxonomy.

use crate::taxonomy::Details;
use crate::taxonomy::Error;
use crate::transport::failure_of;
use crate::transport::reported_failure;
use crate::transport::Failure;
use vstd::prelude::*;
use vstd::std_specs::convert::FromSpecImpl;

verus! {

/// The classification table. Of the HTTP statuses only 404, 409 and 429 have
/// a reason of their own, and only 429 is retryable; a failed I/O layer and an
/// unclassified failure are retryable, a failed conversion and a failed
/// credential are not.
pub open spec fn classified<K>(failure: Failure) -> Error<K> {
    match failure {
        Failure::HttpResponse { status } => if status == 404 {
            Error::Permanent(Details::NotFound)
        } else if status == 409 {
            Error::Permanent(Details::Duplicate)
        } else if status == 429 {
            Error::Transient(Details::Throttled)
        } else {
            Error::Permanent(Details::Unspecified)
        },
        Failure::Io => Error::Transient(Details::Unspecified),
        Failure::DataConversion => Error::Permanent(Details::Unspecified),
        Failure::Credential => Error::Permanent(Details::Unspecified),
        Failure::Other => Error::Transient(Details::Unspecified),
    }
}

/// Classifies a failure of the transport.
pub fn classify<K>(failure: Failure) -> (error: Error<K>)
    ensures
        error == classified::<K>(failure),
{
    match failure {
        Failure::HttpResponse { status } => match status {
            404 => Error::Permanent(Details::NotFound),
            409 => Error::Permanent(Details::Duplicate),
            429 => Error::Transient(Details::Throttled),
            _ => Error::Permanent(Details::Unspecified),
        },
        Failure::Io => Error::Transient(Details::Unspecified),
        Failure::DataConversion => Error::Permanent(Details::Unspecified),
        Failure::Credential => Error::Permanent(Details::Unspecified),
        Failure::Other => Error::Transient(Details::Unspecified),
    }
}

impl<K> From<azure_core::error::Error> for Error<K> {
    /// Classifies a transport error by the kind that it reports.
    fn from(error: azure_core::error::Error) -> (classified: Self) {
        let failure = failure_of(&error);
        classify(failure)
    }
}

impl<K> FromSpecImpl<azure_core::error::Error> for Error<K> {
    open spec fn obeys_from_spec() -> bool {
        true
    }

    open spec fn from_spec(error: azure_core::error::Error) -> Self {
        classified::<K>(reported_failure(error))
    }
}

/// The adapter never yields a terminal failure and never a custom payload: a
/// classified failure is `Transient` or `Permanent` with a built-in reason.
pub proof fn lemma_classified_shape<K>(failure: Failure)
    ensures
        classified::<K>(failure) is Transient || classified::<K>(failure) is Permanent,
        !classified::<K>(failure).terminal(),
{
}

} // verus!
