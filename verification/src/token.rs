//! The token-verification stage: declarations of the verifier's types and the
//! trusted call into it, and the verified mapping of its outcome.

use jsonwebtoken::errors::Error as DecodeFailure;
use vstd::prelude::*;

verus! {

#[verifier::external_type_specification]
#[verifier::external_body]
pub struct ExDecodingKey(jsonwebtoken::DecodingKey);

#[verifier::external_type_specification]
#[verifier::external_body]
pub struct ExValidation(jsonwebtoken::Validation);

#[verifier::external_type_specification]
#[verifier::external_body]
#[verifier::reject_recursive_types(T)]
pub struct ExTokenData<T>(jsonwebtoken::TokenData<T>);

#[verifier::external_type_specification]
#[verifier::external_body]
pub struct ExJwtError(DecodeFailure);

/// Relies on jsonwebtoken::decode: it verifies the token's structure,
/// signature and algorithm against the key and policy, checks the time-based
/// and policy-mandated claims, and deserializes the claims payload. Its
/// outcome depends on the current time, so nothing is promised of which side
/// it returns; `complete_verification` says what the pipeline does with
/// either outcome.
#[verifier::external_body]
pub(crate) fn decode_token<T: serde::de::DeserializeOwned>(
    token: &String,
    key: &jsonwebtoken::DecodingKey,
    validation: &jsonwebtoken::Validation,
) -> (r: Result<jsonwebtoken::TokenData<T>, jsonwebtoken::errors::Error>)
{
    jsonwebtoken::decode::<T>(token.as_str(), key, validation)
}

/// An extractor for JSON Web Token data: the claims and header metadata of a
/// successfully verified token.
#[verifier::reject_recursive_types(T)]
pub struct Jwt<T>(pub jsonwebtoken::TokenData<T>);

impl<T> Jwt<T> {
    /// Maps the outcome of the verification routine to the pipeline's result:
    /// verified token data is handed through unchanged, and every
    /// verification failure becomes `InvalidToken` carrying the cause.
    pub fn complete_verification(
        outcome: Result<jsonwebtoken::TokenData<T>, jsonwebtoken::errors::Error>,
    ) -> (r: Result<Jwt<T>, crate::errors::Error>)
        ensures
            outcome matches Ok(data) ==> r matches Ok(jwt) && jwt.0 == data,
            outcome matches Err(cause) ==> r matches Err(e) && e == crate::errors::Error::InvalidToken(cause),
    {
        match outcome {
            Ok(data) => Ok(Jwt(data)),
            Err(cause) => Err(crate::errors::Error::InvalidToken(cause)),
        }
    }
}

} // verus!
