//! The service-account key record: loading it from a configuration source
//! and validating it.

use vstd::prelude::*;

use crate::error::Error;
use crate::json::json_object_model;
use crate::json::lookup_str;
use crate::json::parse_json_object;
use crate::json::find_str_field;
use crate::sign::rsa_pem_ok;
use crate::sign::rsa_key_usable;
use vstd::string::StringExecFns;

verus! {

/// A service-account key record, loaded once and immutable afterwards.
/// The private key never appears in diagnostics; callers see it only
/// through the signatures it produces.
pub struct ServiceAccountKey {
    /// The account's e-mail address; the assertion's `iss` claim.
    pub client_email: String,
    /// The PEM-encoded PKCS#8 RSA private key.
    pub private_key: String,
    /// The key identifier the provider assigned to the private key.
    pub private_key_id: String,
    /// The token endpoint the assertion is exchanged at; the `aud` claim.
    pub token_uri: String,
    /// The owning project, when the record names one.
    pub project_id: Option<String>,
}

impl ServiceAccountKey {
    /// Well-formedness: the fields the assertion quotes are non-empty ASCII.
    pub open spec fn wf(&self) -> bool {
        &&& vstd::utf8::is_ascii_chars(self.client_email@)
        &&& self.client_email@.len() > 0
        &&& vstd::utf8::is_ascii_chars(self.token_uri@)
        &&& self.token_uri@.len() > 0
    }
}

/// Whether the string members of a parsed key record form a usable key:
/// all four required members present, e-mail and token URI non-empty ASCII.
pub open spec fn key_fields_usable(strs: Seq<(Seq<char>, Seq<char>)>) -> bool {
    &&& lookup_str(strs, "client_email"@) matches Some(email) && email.len() > 0
        && vstd::utf8::is_ascii_chars(email)
    &&& lookup_str(strs, "private_key"@) is Some
    &&& lookup_str(strs, "private_key_id"@) is Some
    &&& lookup_str(strs, "token_uri"@) matches Some(uri) && uri.len() > 0
        && vstd::utf8::is_ascii_chars(uri)
}

/// Loads a service-account key from the content of the configured source.
///
/// `None` stands for an absent source and fails with `CredentialMissing`
/// before anything else is looked at. Content that is not a JSON object, or
/// one whose required members are missing or unusable, fails with
/// `CredentialMalformed`; key material that does not parse as an RSA
/// private key fails with `KeyParseError`. No retries, no side effects.
pub fn load(source: Option<&str>) -> (r: Result<ServiceAccountKey, Error>)
    ensures
        (match source {
            None => r matches Err(e) && e is CredentialMissing,
            Some(s) => (match json_object_model(s@) {
                None => r matches Err(e) && e is CredentialMalformed,
                Some(m) => {
                    if !key_fields_usable(m.0) {
                        r matches Err(e) && e is CredentialMalformed
                    } else if !rsa_pem_ok(lookup_str(m.0, "private_key"@).unwrap()) {
                        r matches Err(e) && e is KeyParseError
                    } else {
                        r matches Ok(k) && k.wf() && Some(k.client_email@) == lookup_str(
                            m.0,
                            "client_email"@,
                        ) && Some(k.private_key@) == lookup_str(m.0, "private_key"@) && Some(
                            k.private_key_id@,
                        ) == lookup_str(m.0, "private_key_id"@) && Some(k.token_uri@) == lookup_str(
                            m.0,
                            "token_uri"@,
                        ) && (match lookup_str(m.0, "project_id"@) {
                            Some(p) => k.project_id matches Some(v) && v@ == p,
                            None => k.project_id is None,
                        })
                    }
                },
            }),
        }),
{
    let s = match source {
        None => {
            return Err(Error::CredentialMissing);
        },
        Some(s) => s,
    };
    let parsed = match parse_json_object(s) {
        None => {
            return Err(Error::CredentialMalformed(String::from_str(
                "credential content is not a JSON object",
            )));
        },
        Some(p) => p,
    };
    let strs = parsed.0;
    let email = find_str_field(&strs, &String::from_str("client_email"));
    let pem = find_str_field(&strs, &String::from_str("private_key"));
    let kid = find_str_field(&strs, &String::from_str("private_key_id"));
    let uri = find_str_field(&strs, &String::from_str("token_uri"));
    let project = find_str_field(&strs, &String::from_str("project_id"));
    match (email, pem, kid, uri) {
        (Some(email), Some(pem), Some(kid), Some(uri)) => {
            if email.as_str().is_empty() || !email.as_str().is_ascii() || uri.as_str().is_empty()
                || !uri.as_str().is_ascii() {
                return Err(Error::CredentialMalformed(String::from_str(
                    "client_email and token_uri must be non-empty ASCII",
                )));
            }
            if !rsa_key_usable(pem.as_str()) {
                return Err(Error::KeyParseError(String::from_str(
                    "private_key is not a usable PKCS#8 RSA private key",
                )));
            }
            Ok(
                ServiceAccountKey {
                    client_email: email,
                    private_key: pem,
                    private_key_id: kid,
                    token_uri: uri,
                    project_id: project,
                },
            )
        },
        _ => Err(
            Error::CredentialMalformed(
                String::from_str("credential record is missing a required member"),
            ),
        ),
    }
}

} // verus!
