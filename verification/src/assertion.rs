//! Building the signed JWT assertion: header, claim set, RS256 signature.

use vstd::prelude::*;

use crate::ASSERTION_LIFETIME_SECS;
use crate::b64::base64url;
use crate::b64::lemma_base64url_ascii;
use crate::b64::push_base64url;
use crate::encode::claims_json;
use crate::encode::header_json;
use crate::encode::json_str_member;
use crate::encode::lemma_space_joined_snoc;
use crate::encode::push_json_num_member;
use crate::encode::push_json_str_member;
use crate::encode::space_joined;
use crate::error::Error;
use crate::key::ServiceAccountKey;
use crate::sign::rs256_sig;
use crate::sign::rsa_pem_ok;
use crate::text::all_ascii;
use crate::text::ascii_str;
use crate::text::ascii_to_string;
use crate::text::lemma_all_ascii_concat;
use crate::text::push_str_bytes;
use crate::text::str_bytes;
use vstd::string::StringExecFns;
use vstd::string::StringSliceAdditionalSpecFns;

verus! {

/// Whether every scope is an ASCII string.
pub open spec fn scopes_ascii(ss: Seq<Seq<char>>) -> bool {
    forall|i: int| 0 <= i < ss.len() ==> vstd::utf8::is_ascii_chars(#[trigger] ss[i])
}

/// The `scope` claim: the scopes joined by single spaces, as bytes.
pub open spec fn scope_claim(scopes: Seq<Seq<char>>) -> Seq<u8> {
    space_joined(scopes.map_values(|s: Seq<char>| str_bytes(s)))
}

/// The signing input of an assertion issued at `iat`:
/// `base64url(header) "." base64url(claims)`, with `exp` fixed at
/// `iat + ASSERTION_LIFETIME_SECS`.
pub open spec fn signing_input_bytes(
    email: Seq<char>,
    scopes: Seq<Seq<char>>,
    uri: Seq<char>,
    iat: nat,
) -> Seq<u8> {
    base64url(header_json()) + seq![46u8] + base64url(
        claims_json(
            str_bytes(email),
            scope_claim(scopes),
            str_bytes(uri),
            iat,
            iat + ASSERTION_LIFETIME_SECS as nat,
        ),
    )
}

/// The complete signed assertion: the signing input, a dot, and the
/// base64url of the key's RS256 signature over that very input.
pub open spec fn assertion_chars(key: ServiceAccountKey, scopes: Seq<Seq<char>>, iat: nat) -> Seq<
    char,
> {
    ascii_str(
        signing_input_bytes(key.client_email@, scopes, key.token_uri@, iat) + seq![46u8]
            + base64url(
            rs256_sig(
                key.private_key@,
                signing_input_bytes(key.client_email@, scopes, key.token_uri@, iat),
            ),
        ),
    )
}

/// Law: an assertion's claim set always carries `exp` exactly
/// `ASSERTION_LIFETIME_SECS` above `iat`, and its third segment is the
/// base64url of the key's RS256 signature over its first two segments.
pub proof fn lemma_assertion_shape(key: ServiceAccountKey, scopes: Seq<Seq<char>>, iat: nat)
    ensures
        signing_input_bytes(key.client_email@, scopes, key.token_uri@, iat) == base64url(
            header_json(),
        ) + seq![46u8] + base64url(
            claims_json(
                str_bytes(key.client_email@),
                scope_claim(scopes),
                str_bytes(key.token_uri@),
                iat,
                iat + ASSERTION_LIFETIME_SECS as nat,
            ),
        ),
        assertion_chars(key, scopes, iat) == ascii_str(
            signing_input_bytes(key.client_email@, scopes, key.token_uri@, iat) + seq![46u8]
                + base64url(
                rs256_sig(
                    key.private_key@,
                    signing_input_bytes(key.client_email@, scopes, key.token_uri@, iat),
                ),
            ),
        ),
{
}

/// Appends the scopes joined by single spaces.
pub fn push_joined_scopes(out: &mut Vec<u8>, scopes: &Vec<String>)
    requires
        scopes_ascii(scopes.deep_view()),
    ensures
        final (out)@ == old(out)@ + scope_claim(scopes.deep_view()),
{
    let ghost model: Seq<Seq<u8>> = scopes.deep_view().map_values(|s: Seq<char>| str_bytes(s));
    let ghost prefix: Seq<u8> = out@;
    let n: usize = scopes.len();
    let mut i: usize = 0;
    while i < n
        invariant
            n == scopes@.len(),
            i <= n,
            scopes_ascii(scopes.deep_view()),
            model == scopes.deep_view().map_values(|s: Seq<char>| str_bytes(s)),
            out@ == prefix + space_joined(model.take(i as int)),
        decreases n - i,
    {
        proof {
            assert(scopes.deep_view()[i as int] == scopes@[i as int]@);
        }
        if i > 0 {
            out.push(32);
            push_str_bytes(out, scopes[i].as_str());
            proof {
                lemma_space_joined_snoc(model.take(i as int), model[i as int]);
                assert(model.take(i as int).push(model[i as int]) =~= model.take(i as int + 1));
                assert(prefix + space_joined(model.take(i as int)) + seq![32u8] + str_bytes(
                    scopes@[i as int]@,
                ) =~= prefix + space_joined(model.take(i as int + 1)));
            }
        } else {
            push_str_bytes(out, scopes[i].as_str());
            proof {
                assert(model.take(1) =~= seq![model[0]]);
                assert(space_joined(seq![model[0]]) == model[0]);
                assert(prefix + str_bytes(scopes@[0]@) =~= prefix + space_joined(model.take(1)));
            }
        }
        i = i + 1;
    }
    proof {
        assert(model.take(n as int) =~= model);
    }
}

/// Appends the member `"k":"v"` where the value is a plain ASCII string.
fn push_ascii_value_member(out: &mut Vec<u8>, k: &str, v: &str)
    requires
        vstd::string::is_ascii(k),
        vstd::string::is_ascii(v),
    ensures
        final (out)@ == old(out)@ + json_str_member(k@, str_bytes(v@)),
{
    proof {
        broadcast use vstd::string::is_ascii_spec_bytes;

        assert(v.spec_bytes() =~= str_bytes(v@));
    }
    push_json_str_member(out, k, v.as_bytes());
}

/// Builds the signed JWT assertion for `key` over `scopes`, issued at
/// `now`.
///
/// The claim set is recomputed on every call (`iat = now`,
/// `exp = now + ASSERTION_LIFETIME_SECS`); no assertion is ever reused.
/// Signing is RS256; the result is
/// `base64url(header).base64url(claims).base64url(signature)`. Fails with
/// `SigningError` exactly when the key material cannot sign. No network or
/// disk activity.
pub fn build(key: &ServiceAccountKey, scopes: &Vec<String>, now: u64) -> (r: Result<String, Error>)
    requires
        key.wf(),
        scopes_ascii(scopes.deep_view()),
        now + ASSERTION_LIFETIME_SECS <= u64::MAX,
    ensures
        (r is Ok) == rsa_pem_ok(key.private_key@),
        r matches Ok(jwt) ==> jwt@ == assertion_chars(*key, scopes.deep_view(), now as nat),
        r matches Err(e) ==> e is SigningError,
{
    proof {
        reveal_strlit("alg");
        reveal_strlit("RS256");
        reveal_strlit("typ");
        reveal_strlit("JWT");
        reveal_strlit("iss");
        reveal_strlit("scope");
        reveal_strlit("aud");
        reveal_strlit("iat");
        reveal_strlit("exp");
        assert(vstd::utf8::is_ascii_chars("alg"@));
        assert(vstd::utf8::is_ascii_chars("RS256"@));
        assert(vstd::utf8::is_ascii_chars("typ"@));
        assert(vstd::utf8::is_ascii_chars("JWT"@));
        assert(vstd::utf8::is_ascii_chars("iss"@));
        assert(vstd::utf8::is_ascii_chars("scope"@));
        assert(vstd::utf8::is_ascii_chars("aud"@));
        assert(vstd::utf8::is_ascii_chars("iat"@));
        assert(vstd::utf8::is_ascii_chars("exp"@));
    }
    let mut header: Vec<u8> = Vec::new();
    header.push(123);
    push_ascii_value_member(&mut header, "alg", "RS256");
    header.push(44);
    push_ascii_value_member(&mut header, "typ", "JWT");
    header.push(125);
    proof {
        assert(header@ =~= header_json());
    }

    let mut scope_bytes: Vec<u8> = Vec::new();
    push_joined_scopes(&mut scope_bytes, scopes);

    let exp: u64 = now + ASSERTION_LIFETIME_SECS;
    let mut claims: Vec<u8> = Vec::new();
    claims.push(123);
    push_ascii_value_member(&mut claims, "iss", key.client_email.as_str());
    claims.push(44);
    push_json_str_member(&mut claims, "scope", scope_bytes.as_slice());
    claims.push(44);
    push_ascii_value_member(&mut claims, "aud", key.token_uri.as_str());
    claims.push(44);
    push_json_num_member(&mut claims, "iat", now);
    claims.push(44);
    push_json_num_member(&mut claims, "exp", exp);
    claims.push(125);
    let ghost claims_model: Seq<u8> = claims_json(
        str_bytes(key.client_email@),
        scope_claim(scopes.deep_view()),
        str_bytes(key.token_uri@),
        now as nat,
        exp as nat,
    );
    proof {
        assert(claims@ =~= claims_model);
    }

    let mut input: Vec<u8> = Vec::new();
    push_base64url(&mut input, header.as_slice());
    input.push(46);
    push_base64url(&mut input, claims.as_slice());
    let ghost input_model: Seq<u8> = signing_input_bytes(
        key.client_email@,
        scopes.deep_view(),
        key.token_uri@,
        now as nat,
    );
    proof {
        assert(input@ =~= input_model);
    }

    match crate::sign::rs256_sign(key.private_key.as_str(), input.as_slice()) {
        None => Err(
            Error::SigningError(
                String::from_str("the private key could not produce an RS256 signature"),
            ),
        ),
        Some(sig) => {
            let mut jwt = input;
            jwt.push(46);
            push_base64url(&mut jwt, sig.as_slice());
            proof {
                assert(jwt@ =~= input_model + seq![46u8] + base64url(
                    rs256_sig(key.private_key@, input_model),
                ));
                lemma_base64url_ascii(header_json());
                lemma_base64url_ascii(claims_model);
                lemma_base64url_ascii(rs256_sig(key.private_key@, input_model));
                assert(all_ascii(seq![46u8]));
                lemma_all_ascii_concat(base64url(header_json()), seq![46u8]);
                lemma_all_ascii_concat(base64url(header_json()) + seq![46u8], base64url(
                    claims_model,
                ));
                lemma_all_ascii_concat(input_model, seq![46u8]);
                lemma_all_ascii_concat(input_model + seq![46u8], base64url(
                    rs256_sig(key.private_key@, input_model),
                ));
            }
            Ok(ascii_to_string(jwt))
        },
    }
}

} // verus!
