//! The request authenticator's decision: a body reaches the pipeline
//! only once the upstream relay's signature over it has been checked,
//! unless verification is disabled process-wide.

use vstd::prelude::*;
use crate::error::Error;
use crate::payload::PushMessageBody;

verus! {

/// The outcome of checking a request's signature material against the
/// trusted issuer's key; the cryptographic verification itself happens
/// outside the core and hands in this verdict.
#[derive(Debug, Clone, Copy, PartialEq, Eq, Structural)]
pub enum SignatureCheck {
    /// No signature accompanied the request.
    Missing,
    /// Signature material was present but not well-formed.
    Malformed,
    /// The signature did not verify against the trusted key material.
    Invalid,
    /// The signature verified.
    Valid,
}

/// Whether a request passes authentication: always when verification
/// is disabled, otherwise only on a verified signature. Any failure is
/// `Unauthorized` and terminal for the request.
pub fn authenticate_request(validate_signatures: bool, check: &SignatureCheck) -> (r: Result<
    (),
    Error,
>)
    ensures
        r is Ok <==> (!validate_signatures || check is Valid),
        (r matches Err(e) ==> e == Error::Unauthorized),
{
    if !validate_signatures {
        Ok(())
    } else {
        match check {
            SignatureCheck::Valid => Ok(()),
            _ => Err(Error::Unauthorized),
        }
    }
}

/// Releases a parsed submission body to the pipeline: authentication
/// is decided first (`Unauthorized` is terminal), then a body that did
/// not parse fails with `BadRequest`.
pub fn release_body(
    validate_signatures: bool,
    check: &SignatureCheck,
    parsed: Option<PushMessageBody>,
) -> (r: Result<PushMessageBody, Error>)
    ensures
        validate_signatures && !(check is Valid) ==> r == Err::<PushMessageBody, Error>(
            Error::Unauthorized,
        ),
        (!validate_signatures || check is Valid) && parsed is Some ==> r == Ok::<
            PushMessageBody,
            Error,
        >(parsed.unwrap()),
        (!validate_signatures || check is Valid) && parsed is None ==> r == Err::<
            PushMessageBody,
            Error,
        >(Error::BadRequest),
{
    match authenticate_request(validate_signatures, check) {
        Err(e) => Err(e),
        Ok(()) => match parsed {
            Some(body) => Ok(body),
            None => Err(Error::BadRequest),
        },
    }
}

} // verus!
