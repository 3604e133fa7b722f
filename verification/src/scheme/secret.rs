//! Private key documents whose bytes are erased when they are dropped.

use vstd::prelude::*;

verus! {

/// `SecretDocument` of `der`, as `pkcs8` hands it on: the bytes of one DER
/// document, which are overwritten with zeros when the value is dropped.
#[verifier::external_type_specification]
#[verifier::external_body]
pub struct ExSecretDocument(pkcs8::SecretDocument);

/// The bytes that a secret document holds.
pub uninterp spec fn secret_document_bytes(document: pkcs8::SecretDocument) -> Seq<u8>;

/// Whether `bytes` can be held as a document: they are one DER `SEQUENCE`
/// and nothing else, as `SecretDocument::try_from` of `der` reads it.
pub uninterp spec fn is_document(bytes: Seq<u8>) -> bool;

/// `SecretDocument::as_bytes` of `der`.
///
/// Trusted: what comes back are the bytes that the document holds, as
/// [`secret_document_bytes`] names them.
#[verifier::external_body]
pub(crate) fn secret_bytes(document: &pkcs8::SecretDocument) -> (bytes: &[u8])
    ensures
        bytes@ == secret_document_bytes(*document),
{
    document.as_bytes()
}

/// `SecretDocument::try_from` of `der`, on a vector of bytes.
///
/// Trusted: the bytes are taken where [`is_document`] holds of them, and
/// only then, and the document holds them as they are.
#[verifier::external_body]
pub(crate) fn read_document(bytes: Vec<u8>) -> (r: Result<pkcs8::SecretDocument, der::Error>)
    ensures
        r matches Ok(document) ==> is_document(bytes@) && secret_document_bytes(document)
            == bytes@,
        r is Err ==> !is_document(bytes@),
{
    pkcs8::SecretDocument::try_from(bytes)
}

} // verus!
