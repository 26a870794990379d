//! What is sent to the secrets service, and what is made of its answers.
//!
//! Data to be signed travels as base64 text, and so does a signature once
//! it has been made. The encoding is the base64 crate's standard engine.

use base64::engine::general_purpose::STANDARD;
use base64::{DecodeError, Engine};
use vstd::prelude::*;
use vstd::string::StringSliceAdditionalSpecFns;
use vstd::utf8::{decode_utf8, valid_utf8};

verus! {

/// Mount of the signing service.
pub const TRANSIT_MOUNT: &'static str = "transit";

/// Name of the signing key.
pub const TRANSIT_KEY: &'static str = "nxlog-agent-manager";

/// Common name on every certificate that is asked for.
pub const CERT_COMMON_NAME: &'static str = "common_name";

/// Format in which certificates are asked for.
pub const CERT_FORMAT: &'static str = "pem";

/// Format in which private keys are asked for.
pub const CERT_PRIVATE_KEY_FORMAT: &'static str = "pkcs8";

/// The base64 crate's reason for rejecting a text, carried as an opaque
/// value.
#[verifier::external_type_specification]
#[verifier::external_body]
pub struct ExDecodeError(DecodeError);

/// The text that the standard base64 engine makes of the bytes.
pub uninterp spec fn base64_text(data: Seq<u8>) -> Seq<char>;

/// The bytes that the standard base64 engine reads from the text, or `None`
/// where it rejects the text.
pub uninterp spec fn base64_bytes(text: Seq<char>) -> Option<Seq<u8>>;

/// `Engine::encode` on the standard engine. It fails only where the length
/// of the text would not fit in `usize`, which is ruled out here.
#[verifier::external_body]
fn encode(data: &[u8]) -> (text: String)
    requires
        data@.len() <= usize::MAX / 2,
    ensures
        text@ == base64_text(data@),
{
    STANDARD.encode(data)
}

/// `Engine::decode` on the standard engine: the bytes, or the engine's
/// error where it rejects the text.
#[verifier::external_body]
fn decode(text: &str) -> (r: Result<Vec<u8>, DecodeError>)
    ensures
        match r {
            Ok(bytes) => base64_bytes(text@) == Some(bytes@),
            Err(_) => base64_bytes(text@) is None,
        },
{
    STANDARD.decode(text)
}

/// `String::from_utf8`: the string that the bytes encode, or `None` where
/// they are not valid UTF-8.
#[verifier::external_body]
fn string_from_utf8(bytes: Vec<u8>) -> (r: Option<String>)
    ensures
        match r {
            Some(s) => valid_utf8(bytes@) && s@ == decode_utf8(bytes@),
            None => !valid_utf8(bytes@),
        },
{
    String::from_utf8(bytes).ok()
}

/// Why a signature could not be read.
#[derive(Clone, Copy, Debug, PartialEq, Eq, Structural)]
pub enum TokenError {
    /// The text is not base64.
    NotBase64,
    /// The bytes under the base64 are not UTF-8.
    NotUtf8,
}

/// A request for one certificate.
#[derive(Clone, Copy, Debug)]
pub struct CertificateRequest {
    pub common_name: &'static str,
    pub format: &'static str,
    pub private_key_format: &'static str,
}

/// A request to sign data.
#[derive(Clone, Debug)]
pub struct SignRequest {
    pub mount: &'static str,
    pub key: &'static str,
    /// The data, as base64 text.
    pub input: String,
}

/// A request to verify a signature over data.
#[derive(Clone, Debug)]
pub struct VerifyRequest {
    pub mount: &'static str,
    pub key: &'static str,
    /// The data, as base64 text.
    pub input: String,
    /// The signature, as the signing service made it.
    pub signature: String,
}

/// The request that every certificate job sends.
pub fn certificate_request() -> (request: CertificateRequest)
    ensures
        request.common_name@ == CERT_COMMON_NAME@,
        request.format@ == CERT_FORMAT@,
        request.private_key_format@ == CERT_PRIVATE_KEY_FORMAT@,
{
    CertificateRequest {
        common_name: CERT_COMMON_NAME,
        format: CERT_FORMAT,
        private_key_format: CERT_PRIVATE_KEY_FORMAT,
    }
}

/// The request to sign `data`.
pub fn sign_request(data: &[u8]) -> (request: SignRequest)
    requires
        data@.len() <= usize::MAX / 2,
    ensures
        request.mount@ == TRANSIT_MOUNT@,
        request.key@ == TRANSIT_KEY@,
        request.input@ == base64_text(data@),
{
    SignRequest { mount: TRANSIT_MOUNT, key: TRANSIT_KEY, input: encode(data) }
}

/// The token under which a signature is handed on: its bytes as base64.
pub fn signature_token(signature: &str) -> (token: String)
    requires
        signature.spec_bytes().len() <= usize::MAX / 2,
    ensures
        token@ == base64_text(signature.spec_bytes()),
{
    encode(signature.as_bytes())
}

/// The signature that decoded bytes hold.
pub open spec fn signature_in(bytes: Seq<u8>) -> Result<Seq<char>, TokenError> {
    if valid_utf8(bytes) {
        Ok(decode_utf8(bytes))
    } else {
        Err(TokenError::NotUtf8)
    }
}

/// The signature that a token stands for.
pub open spec fn signature_under(token: Seq<char>) -> Result<Seq<char>, TokenError> {
    match base64_bytes(token) {
        Some(bytes) => signature_in(bytes),
        None => Err(TokenError::NotBase64),
    }
}

/// Reads a signature from the bytes under a token.
pub fn signature_from_bytes(bytes: Vec<u8>) -> (r: Result<String, TokenError>)
    ensures
        match r {
            Ok(signature) => signature_in(bytes@) == Ok::<Seq<char>, TokenError>(signature@),
            Err(e) => signature_in(bytes@) == Err::<Seq<char>, TokenError>(e),
        },
{
    match string_from_utf8(bytes) {
        Some(signature) => Ok(signature),
        None => Err(TokenError::NotUtf8),
    }
}

/// Reads the signature back from its token.
pub fn signature_of_token(token: &str) -> (r: Result<String, TokenError>)
    ensures
        match r {
            Ok(signature) => signature_under(token@) == Ok::<Seq<char>, TokenError>(signature@),
            Err(e) => signature_under(token@) == Err::<Seq<char>, TokenError>(e),
        },
{
    match decode(token) {
        Ok(bytes) => signature_from_bytes(bytes),
        Err(_) => Err(TokenError::NotBase64),
    }
}

/// The request to verify the signature under `token` over `data`, or the
/// reason why the token cannot be read.
pub fn verify_request(data: &[u8], token: &str) -> (r: Result<VerifyRequest, TokenError>)
    requires
        data@.len() <= usize::MAX / 2,
    ensures
        match r {
            Ok(request) => {
                &&& signature_under(token@) == Ok::<Seq<char>, TokenError>(request.signature@)
                &&& request.mount@ == TRANSIT_MOUNT@
                &&& request.key@ == TRANSIT_KEY@
                &&& request.input@ == base64_text(data@)
            },
            Err(e) => signature_under(token@) == Err::<Seq<char>, TokenError>(e),
        },
{
    match signature_of_token(token) {
        Ok(signature) => Ok(
            VerifyRequest { mount: TRANSIT_MOUNT, key: TRANSIT_KEY, input: encode(data), signature },
        ),
        Err(e) => Err(e),
    }
}

} // verus!
