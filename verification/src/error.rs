//! The error type of the library, and the error types of the crates it calls.

use vstd::prelude::*;

verus! {

/// Why a generation request failed. Every failure ends the whole request.
#[derive(Clone, Copy, Debug, PartialEq, Eq, Structural)]
pub enum GenError {
    /// Text could not be read: a malformed IP address, a DNS name with
    /// characters outside IA5, a malformed duration.
    Parse,
    /// Key generation or signing failed.
    Crypto,
    /// A value could not be given its ASN.1 encoding.
    Encoding,
    /// The algorithm a certificate declares is not the one it would be signed with.
    Consistency,
    /// A required option was never set.
    Validation,
}

impl GenError {
    /// A short description, for display.
    pub fn message(&self) -> (text: &'static str)
        ensures
            text@ == self.message_spec(),
    {
        match self {
            GenError::Parse => "malformed input text",
            GenError::Crypto => "key generation or signing failed",
            GenError::Encoding => "value cannot be encoded",
            GenError::Consistency => "signature algorithm mismatch",
            GenError::Validation => "required option missing",
        }
    }

    /// The text of [`GenError::message`].
    pub open spec fn message_spec(&self) -> Seq<char> {
        match self {
            GenError::Parse => "malformed input text"@,
            GenError::Crypto => "key generation or signing failed"@,
            GenError::Encoding => "value cannot be encoded"@,
            GenError::Consistency => "signature algorithm mismatch"@,
            GenError::Validation => "required option missing"@,
        }
    }
}

/// The error of the `der` crate's encoders and decoders.
#[verifier::external_type_specification]
#[verifier::external_body]
pub struct ExDerError(der::Error);

/// The error of the `pkcs8` crate's private key documents.
#[verifier::external_type_specification]
#[verifier::external_body]
pub struct ExPkcs8Error(pkcs8::Error);

/// The error of the `signature` crate's signers.
#[verifier::external_type_specification]
#[verifier::external_body]
pub struct ExSignatureError(signature::Error);

/// The error of the `rsa` crate's key generation.
#[verifier::external_type_specification]
#[verifier::external_body]
pub struct ExRsaError(rsa::Error);

} // verus!
