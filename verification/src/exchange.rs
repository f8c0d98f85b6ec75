//! The token exchange: shaping the POST to the token endpoint and
//! interpreting its answer. Stateless per call; the transport itself is the
//! caller's capability.

use vstd::prelude::*;

use crate::error::Error;
use crate::json::json_object_model;
use crate::json::lookup_num;
use crate::json::lookup_str;
use crate::json::parse_json_object;
use crate::json::find_num_field;
use crate::json::find_str_field;
use vstd::string::StringExecFns;

verus! {

/// A short-lived bearer token, immutable once issued; a refresh supersedes
/// it with a new value rather than changing it.
pub struct AccessToken {
    /// The opaque bearer string presented to downstream services.
    pub value: String,
    /// The token's type as the server reported it (normally `Bearer`).
    pub token_type: String,
    /// Absolute expiry, in the caller's clock: the time the server's answer
    /// arrived plus the lifetime it granted.
    pub expires_at: u64,
    /// The scopes the token was requested for.
    pub scopes: Vec<String>,
}

/// Whether two tokens carry the same value, type, expiry and scopes.
pub open spec fn token_eq(a: AccessToken, b: AccessToken) -> bool {
    &&& a.value@ == b.value@
    &&& a.token_type@ == b.token_type@
    &&& a.expires_at == b.expires_at
    &&& a.scopes.deep_view() == b.scopes.deep_view()
}

/// A copy of a string vector, element by element.
pub fn clone_scopes(v: &Vec<String>) -> (r: Vec<String>)
    ensures
        r.deep_view() == v.deep_view(),
{
    let mut r: Vec<String> = Vec::new();
    let n: usize = v.len();
    let mut i: usize = 0;
    while i < n
        invariant
            n == v@.len(),
            i <= n,
            r@.len() == i,
            forall|j: int| 0 <= j < i ==> (#[trigger] r@[j])@ == v@[j]@,
        decreases n - i,
    {
        let ghost pre_raw: Seq<String> = r@;
        let item = v[i].clone();
        r.push(item);
        proof {
            assert(r@ == pre_raw.push(item));
            assert forall|j: int| 0 <= j <= i as int implies (#[trigger] r@[j])@ == v@[j]@ by {
                if j < i as int {
                    assert(r@[j] == pre_raw[j]);
                } else {
                    assert(r@[j] == item);
                }
            }
        }
        i = i + 1;
    }
    proof {
        assert forall|j: int| 0 <= j < n as int implies r.deep_view()[j] == v.deep_view()[j] by {
            assert(r@[j]@ == v@[j]@);
        }
        assert(r.deep_view() =~= v.deep_view());
    }
    r
}

impl AccessToken {
    /// A token equal to this one in every field.
    pub fn duplicate(&self) -> (r: AccessToken)
        ensures
            token_eq(*self, r),
    {
        AccessToken {
            value: self.value.clone(),
            token_type: self.token_type.clone(),
            expires_at: self.expires_at,
            scopes: clone_scopes(&self.scopes),
        }
    }
}

/// One prepared request against the token endpoint: `POST uri` with an
/// `application/x-www-form-urlencoded` body.
pub struct TokenRequest {
    /// The endpoint the request goes to: the key's `token_uri`.
    pub uri: String,
    /// The form body carrying the grant type and the signed assertion.
    pub body: String,
}

/// The form body exchanging `assertion`:
/// `grant_type=urn:ietf:params:oauth:grant-type:jwt-bearer&assertion=<assertion>`.
/// Every assertion byte (base64url alphabet and dots) stands unencoded.
pub open spec fn token_request_body(assertion: Seq<char>) -> Seq<char> {
    "grant_type=urn:ietf:params:oauth:grant-type:jwt-bearer&assertion="@ + assertion
}

/// The HTTP method of every token-exchange request.
pub fn exchange_method() -> (r: &'static str)
    ensures
        r@ == "POST"@,
{
    "POST"
}

/// The `Content-Type` of every token-exchange request.
pub fn exchange_content_type() -> (r: &'static str)
    ensures
        r@ == "application/x-www-form-urlencoded"@,
{
    "application/x-www-form-urlencoded"
}

/// Prepares the exchange request for a signed assertion.
pub fn build_token_request(token_uri: &String, assertion: &String) -> (r: TokenRequest)
    ensures
        r.uri@ == token_uri@,
        r.body@ == token_request_body(assertion@),
{
    TokenRequest {
        uri: token_uri.clone(),
        body: String::from_str(
            "grant_type=urn:ietf:params:oauth:grant-type:jwt-bearer&assertion=",
        ).concat(assertion.as_str()),
    }
}

/// Whether an HTTP status reports success.
pub open spec fn success_status(status: u16) -> bool {
    200 <= status < 300
}

/// The three members a success body must carry: `access_token`,
/// `token_type` and `expires_in`.
pub open spec fn token_response_fields(body: Seq<char>) -> Option<(Seq<char>, Seq<char>, u64)> {
    match json_object_model(body) {
        None => None,
        Some(m) => match (lookup_str(m.0, "access_token"@), lookup_str(m.0, "token_type"@)) {
            (Some(v), Some(t)) => match lookup_num(m.1, "expires_in"@) {
                Some(e) => Some((v, t, e)),
                None => None,
            },
            _ => None,
        },
    }
}

/// The absolute expiry for a token granted `expires_in` seconds at
/// `response_time`, saturating at the clock's maximum.
pub open spec fn expiry_of(response_time: u64, expires_in: u64) -> u64 {
    if response_time + expires_in <= u64::MAX {
        (response_time + expires_in) as u64
    } else {
        u64::MAX
    }
}

/// Interprets the token endpoint's answer, received at `response_time`.
///
/// A non-success status surfaces as `AuthServerError` carrying the status
/// and the server's body; a success body missing the expected members
/// surfaces as `ResponseParseError`. A usable answer becomes an
/// `AccessToken` whose expiry counts from the time the answer arrived.
pub fn parse_token_response(status: u16, body: &str, response_time: u64, scopes: &Vec<String>) -> (r:
    Result<AccessToken, Error>)
    ensures
        !success_status(status) ==> (r matches Err(e) && e matches Error::AuthServerError {
            status: st,
            reason,
        } && st == status && reason@ == body@),
        success_status(status) ==> (match token_response_fields(body@) {
            None => r matches Err(e) && e is ResponseParseError,
            Some(f) => r matches Ok(t) && t.value@ == f.0 && t.token_type@ == f.1 && t.expires_at
                == expiry_of(response_time, f.2) && t.scopes.deep_view() == scopes.deep_view(),
        }),
{
    if !(status >= 200 && status < 300) {
        return Err(Error::AuthServerError { status, reason: body.to_owned() });
    }
    let parsed = match parse_json_object(body) {
        None => {
            return Err(
                Error::ResponseParseError(
                    String::from_str("the token endpoint's answer is not a JSON object"),
                ),
            );
        },
        Some(p) => p,
    };
    let value = find_str_field(&parsed.0, &String::from_str("access_token"));
    let token_type = find_str_field(&parsed.0, &String::from_str("token_type"));
    let expires_in = find_num_field(&parsed.1, &String::from_str("expires_in"));
    match (value, token_type, expires_in) {
        (Some(value), Some(token_type), Some(expires_in)) => {
            let expires_at: u64 = if response_time <= u64::MAX - expires_in {
                response_time + expires_in
            } else {
                u64::MAX
            };
            Ok(
                AccessToken {
                    value,
                    token_type,
                    expires_at,
                    scopes: clone_scopes(scopes),
                },
            )
        },
        _ => Err(
            Error::ResponseParseError(
                String::from_str("the token endpoint's answer is missing a required member"),
            ),
        ),
    }
}

} // verus!
