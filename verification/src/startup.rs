//! The checks on the configuration that are made before the server starts.

use crate::settings::StartServerError;
use base64::prelude::BASE64_STANDARD;
use base64::Engine;
use vstd::prelude::*;

verus! {

/// The error of the base64 decoder.
#[verifier::external_type_specification]
#[verifier::external_body]
pub struct ExDecodeError(base64::DecodeError);

/// The bytes that the standard base64 alphabet, with canonical padding,
/// encodes as `input`; `None` where `input` is no such encoding.
pub uninterp spec fn standard_decoding(input: Seq<char>) -> Option<Seq<u8>>;

/// `base64::Engine::decode` on the engine `BASE64_STANDARD`. The decoder
/// reads nothing but its input, so its answer is the same for the same
/// text: the decoded bytes, or an error where the text is no encoding.
#[verifier::external_body]
fn decode_standard(input: &str) -> (decoded: Result<Vec<u8>, base64::DecodeError>)
    ensures
        match decoded {
            Ok(bytes) => standard_decoding(input@) == Some(bytes@),
            Err(_) => standard_decoding(input@) is None,
        },
{
    BASE64_STANDARD.decode(input)
}

/// Turns the decoder's answer into the key material, or into the startup
/// error for a secret key that cannot be decoded.
pub fn key_material(decoded: Result<Vec<u8>, base64::DecodeError>) -> (material: Result<
    Vec<u8>,
    StartServerError,
>)
    ensures
        match decoded {
            Ok(bytes) => material == Ok::<Vec<u8>, StartServerError>(bytes),
            Err(_) => material == Err::<Vec<u8>, StartServerError>(
                StartServerError::InvalidSecretKey,
            ),
        },
{
    match decoded {
        Ok(bytes) => Ok(bytes),
        Err(_) => Err(StartServerError::InvalidSecretKey),
    }
}

/// Decodes the configured secret key, which is written in base64. A key
/// that is no base64 text is refused as an invalid secret key.
pub fn decode_secret_key(secret_key: &str) -> (material: Result<Vec<u8>, StartServerError>)
    ensures
        match material {
            Ok(bytes) => standard_decoding(secret_key@) == Some(bytes@),
            Err(error) => error == StartServerError::InvalidSecretKey && standard_decoding(
                secret_key@,
            ) is None,
        },
{
    key_material(decode_standard(secret_key))
}

/// Checks the configured admin token: an empty token is refused, and it is
/// reported as an invalid secret key.
pub fn check_admin_token(admin_token: &str) -> (result: Result<(), StartServerError>)
    ensures
        result == if admin_token@.len() == 0 {
            Err::<(), StartServerError>(StartServerError::InvalidSecretKey)
        } else {
            Ok::<(), StartServerError>(())
        },
{
    if admin_token.is_empty() {
        Err(StartServerError::InvalidSecretKey)
    } else {
        Ok(())
    }
}

} // verus!
