//! The authenticator facade: one instance composes key, assertion builder,
//! exchange shaping and cache. The caller performs the network send (the
//! only suspension point) and hands the answer back; everything here is
//! in-memory and deterministic.

use vstd::prelude::*;

use crate::ASSERTION_LIFETIME_SECS;
use crate::EXPIRY_SKEW_SECS;
use crate::assertion::assertion_chars;
use crate::assertion::build;
use crate::assertion::scopes_ascii;
use crate::cache::TokenCache;
use crate::cache::scope_set;
use crate::cache::spec_find;
use crate::cache::valid_hit;
use crate::error::Error;
use crate::exchange::AccessToken;
use crate::exchange::TokenRequest;
use crate::exchange::build_token_request;
use crate::exchange::expiry_of;
use crate::exchange::parse_token_response;
use crate::exchange::success_status;
use crate::exchange::token_eq;
use crate::exchange::token_request_body;
use crate::exchange::token_response_fields;
use crate::key::ServiceAccountKey;
use crate::sign::rsa_pem_ok;

verus! {

/// What a token request needs next: a still-valid cached token, or one
/// exchange to perform against the token endpoint.
pub enum TokenStep {
    /// A cached token, still valid past the safety skew; no network call.
    Cached(AccessToken),
    /// The one prepared exchange request whose answer
    /// [`Authenticator::token_complete`] will interpret.
    Exchange(TokenRequest),
}

/// The engine's single entry point, constructed once from a loaded key and
/// shared by all callers.
///
/// A runner serving concurrent callers should serialize the exchange per
/// scope set (single-flight): one caller performs the prepared exchange and
/// completes it, and everyone else then reads the one stored outcome from
/// the cache instead of issuing a duplicate request.
pub struct Authenticator {
    /// The service-account key every assertion is signed with.
    pub key: ServiceAccountKey,
    /// The cached tokens, one entry per scope set.
    pub cache: TokenCache,
}

impl Authenticator {
    /// Well-formedness: a usable key and a cache without duplicate keys.
    pub open spec fn wf(&self) -> bool {
        &&& self.key.wf()
        &&& self.cache.wf()
    }

    /// A fresh authenticator around a loaded key, with an empty cache.
    pub fn new(key: ServiceAccountKey) -> (r: Authenticator)
        requires
            key.wf(),
        ensures
            r.wf(),
            r.key == key,
            r.cache.entries@.len() == 0,
    {
        Authenticator { key, cache: TokenCache::new() }
    }

    /// Decides how to serve a token for `scopes` at time `now`: the cached
    /// token where one is valid past the skew, otherwise one freshly signed
    /// exchange request. Fails with `SigningError` exactly when the key
    /// material cannot sign. Never touches the network.
    pub fn token_request(&self, scopes: &Vec<String>, now: u64) -> (r: Result<TokenStep, Error>)
        requires
            self.wf(),
            scopes_ascii(scopes.deep_view()),
            now + ASSERTION_LIFETIME_SECS <= u64::MAX,
            now + EXPIRY_SKEW_SECS <= u64::MAX,
        ensures
            (match valid_hit(self.cache.entries@, scope_set(scopes.deep_view()), now) {
                Some(t) => r matches Ok(s) && s matches TokenStep::Cached(rt) && token_eq(rt, t),
                None => if rsa_pem_ok(self.key.private_key@) {
                    r matches Ok(s) && s matches TokenStep::Exchange(req) && req.uri@
                        == self.key.token_uri@ && req.body@ == token_request_body(
                        assertion_chars(self.key, scopes.deep_view(), now as nat),
                    )
                } else {
                    r matches Err(e) && e is SigningError
                },
            }),
    {
        match self.cache.get_valid(scopes, now) {
            Some(t) => Ok(TokenStep::Cached(t)),
            None => match build(&self.key, scopes, now) {
                Ok(assertion) => Ok(
                    TokenStep::Exchange(build_token_request(&self.key.token_uri, &assertion)),
                ),
                Err(e) => Err(e),
            },
        }
    }

    /// Interprets the token endpoint's answer for `scopes`, received at
    /// `response_time`, and settles the cache: a usable token is stored and
    /// returned; any failure is surfaced and leaves no entry for the scope
    /// set behind (errors are never cached, stale tokens do not survive a
    /// failed refresh). Entries for other scope sets stay as they were.
    pub fn token_complete(
        &mut self,
        scopes: &Vec<String>,
        status: u16,
        body: &str,
        response_time: u64,
    ) -> (r: Result<AccessToken, Error>)
        requires
            old(self).wf(),
        ensures
            final (self).wf(),
            final (self).key == old(self).key,
            !success_status(status) ==> (r matches Err(e) && e matches Error::AuthServerError {
                status: st,
                reason,
            } && st == status && reason@ == body@),
            success_status(status) ==> (match token_response_fields(body@) {
                None => r matches Err(e) && e is ResponseParseError,
                Some(f) => r matches Ok(t) && t.value@ == f.0 && t.token_type@ == f.1
                    && t.expires_at == expiry_of(response_time, f.2) && t.scopes.deep_view()
                    == scopes.deep_view() && (spec_find(
                    final (self).cache.entries@,
                    scope_set(scopes.deep_view()),
                ) matches Some(ct) && token_eq(ct, t)),
            }),
            (r is Err) ==> spec_find(
                final (self).cache.entries@,
                scope_set(scopes.deep_view()),
            ) is None,
            forall|k2: Set<Seq<char>>|
                k2 != scope_set(scopes.deep_view()) ==> #[trigger] spec_find(
                    final (self).cache.entries@,
                    k2,
                ) == spec_find(old(self).cache.entries@, k2),
    {
        match parse_token_response(status, body, response_time, scopes) {
            Ok(t) => {
                let out = t.duplicate();
                self.cache.store(scopes, t);
                Ok(out)
            },
            Err(e) => {
                self.cache.remove(scopes);
                Err(e)
            },
        }
    }
}

} // verus!
