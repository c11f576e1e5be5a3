//! The one decoding step of credential materialization that an outside
//! crate performs: base64 decoding of stored certificate and key blobs.

use vstd::prelude::*;

verus! {

/// What base64's standard-alphabet decode returns for a given input:
/// `Some` of the decoded bytes when the input is valid padded base64
/// under the standard alphabet, `None` otherwise. The result depends on
/// the input characters alone.
pub uninterp spec fn base64_decoded(s: Seq<char>) -> Option<Seq<u8>>;

#[verifier::external_type_specification]
#[verifier::external_body]
pub struct ExDecodeError(base64::DecodeError);

/// Relies on base64's `Engine::decode` with the `STANDARD` engine: a
/// deterministic function of its input that returns the decoded bytes,
/// or a `DecodeError` exactly when the input is not valid base64.
#[verifier::external_body]
pub(crate) fn base64_decode(s: &str) -> (r: Result<Vec<u8>, base64::DecodeError>)
    ensures
        (r matches Ok(v) ==> base64_decoded(s@) == Some(v@)),
        (r is Err ==> base64_decoded(s@) is None),
{
    base64::Engine::decode(&base64::engine::general_purpose::STANDARD, s)
}

} // verus!
