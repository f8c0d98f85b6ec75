//! RS256 signing (RSA PKCS#1 v1.5 over SHA-256) through the `rsa` crate,
//! behind trusted declarations.

use vstd::prelude::*;

use rsa::pkcs8::DecodePrivateKey;
use rsa::signature::SignatureEncoding;
use rsa::signature::Signer;

verus! {

/// Whether a PEM text parses as a PKCS#8 RSA private key able to sign a
/// SHA-256 digest. Parsing and the key-size check depend on the PEM text
/// alone, so this is a function of it.
pub uninterp spec fn rsa_pem_ok(pem: Seq<char>) -> bool;

/// The RS256 signature the private key in `pem` produces over `msg`.
/// PKCS#1 v1.5 signing is deterministic, so the signature is a function of
/// the key text and the message alone. Meaningful when `rsa_pem_ok(pem)`.
pub uninterp spec fn rs256_sig(pem: Seq<char>, msg: Seq<u8>) -> Seq<u8>;

/// Relies on `rsa::RsaPrivateKey::from_pkcs8_pem` and
/// `rsa::pkcs1v15::SigningKey::<Sha256>::try_sign`: whether the key text
/// parses, and whether the parsed key is large enough to sign a SHA-256
/// digest, depend on the key text alone (`try_sign` hashes its message
/// first, so message length never decides success).
#[verifier::external_body]
pub(crate) fn rsa_key_usable(pem: &str) -> (r: bool)
    ensures
        r == rsa_pem_ok(pem@),
{
    match rsa::RsaPrivateKey::from_pkcs8_pem(pem) {
        Ok(k) => rsa::pkcs1v15::SigningKey::<rsa::sha2::Sha256>::new(k).try_sign(&[]).is_ok(),
        Err(_) => false,
    }
}

/// Relies on `rsa::RsaPrivateKey::from_pkcs8_pem` and
/// `rsa::pkcs1v15::SigningKey::<Sha256>::try_sign`: PKCS#1 v1.5 signing is
/// deterministic (no randomness is drawn), and it succeeds exactly when the
/// key parses and is large enough for a SHA-256 digest.
#[verifier::external_body]
pub(crate) fn rs256_sign(pem: &str, msg: &[u8]) -> (r: Option<Vec<u8>>)
    ensures
        (r is Some) == rsa_pem_ok(pem@),
        r matches Some(s) ==> s@ == rs256_sig(pem@, msg@),
{
    let key = match rsa::RsaPrivateKey::from_pkcs8_pem(pem) {
        Ok(k) => k,
        Err(_) => return None,
    };
    let sk = rsa::pkcs1v15::SigningKey::<rsa::sha2::Sha256>::new(key);
    match sk.try_sign(msg) {
        Ok(sig) => Some(sig.to_vec()),
        Err(_) => None,
    }
}

} // verus!
