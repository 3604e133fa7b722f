//! Self-signed X.509 v3 certificates for Ed25519, ECDSA and RSA keys.
//!
//! The entry point is [`self_signed::gen_self_signed`]: it asks a signature
//! scheme for a fresh private key, builds the to-be-signed certificate from
//! the caller's options, signs its canonical encoding and returns the private
//! key and the certificate as PEM text.
//!
//! The data of a certificate is modelled by plain values. Encoding, key
//! handling and signing are done by the RustCrypto crates behind small
//! trusted functions; everything that decides what goes into a certificate
//! is verified.

pub mod alt_name;
pub mod certificate;
pub mod digits;
pub mod duration;
pub mod encoding;
pub mod error;
pub mod ext;
pub mod ip;
pub mod ip_laws;
pub mod ip_text;
pub mod name;
pub mod oid;
pub mod san_list;
pub mod scheme;
pub mod self_signed;
pub mod x509;
