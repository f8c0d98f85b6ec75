//! Byte-exact construction of the JSON texts the engine emits: the JWT
//! header, the claim set, and the space-joined scope claim.

use vstd::prelude::*;

use crate::text::str_bytes;

verus! {

/// The decimal digits of `n`, most significant first.
pub open spec fn dec_bytes(n: nat) -> Seq<u8>
    decreases n,
{
    if n < 10 {
        seq![(48 + n) as u8]
    } else {
        dec_bytes(n / 10) + seq![(48 + n % 10) as u8]
    }
}

/// The lower-case hexadecimal digit for a value below sixteen.
pub open spec fn hex_digit(v: u8) -> u8 {
    if v < 10 {
        (48 + v) as u8
    } else {
        (87 + v) as u8
    }
}

/// How one byte appears inside a JSON string literal: quote and backslash
/// are escaped, control bytes become a `\u00..` escape, everything else
/// stands as it is.
pub open spec fn esc_byte(b: u8) -> Seq<u8> {
    if b == 34 {
        seq![92u8, 34]
    } else if b == 92 {
        seq![92u8, 92]
    } else if b < 32 {
        seq![92u8, 117, 48, 48, hex_digit(b >> 4), hex_digit(b & 15)]
    } else {
        seq![b]
    }
}

/// The body of a JSON string literal for the byte sequence `s`.
pub open spec fn json_escaped(s: Seq<u8>) -> Seq<u8>
    decreases s.len(),
{
    if s.len() == 0 {
        Seq::<u8>::empty()
    } else {
        esc_byte(s[0]) + json_escaped(s.skip(1))
    }
}

/// A JSON object member with a string value: `"k":"v"` with `v` escaped.
/// The member name is taken verbatim (the names this crate uses need no
/// escaping).
pub open spec fn json_str_member(k: Seq<char>, v: Seq<u8>) -> Seq<u8> {
    seq![34u8] + str_bytes(k) + seq![34u8, 58, 34] + json_escaped(v) + seq![34u8]
}

/// A JSON object member with an unsigned decimal value: `"k":n`.
pub open spec fn json_num_member(k: Seq<char>, n: nat) -> Seq<u8> {
    seq![34u8] + str_bytes(k) + seq![34u8, 58] + dec_bytes(n)
}

/// The fixed JWT header `{"alg":"RS256","typ":"JWT"}`.
pub open spec fn header_json() -> Seq<u8> {
    seq![123u8] + json_str_member("alg"@, str_bytes("RS256"@)) + seq![44u8] + json_str_member(
        "typ"@,
        str_bytes("JWT"@),
    ) + seq![125u8]
}

/// The claim set of an assertion:
/// `{"iss":...,"scope":...,"aud":...,"iat":...,"exp":...}`.
pub open spec fn claims_json(iss: Seq<u8>, scope: Seq<u8>, aud: Seq<u8>, iat: nat, exp: nat) -> Seq<
    u8,
> {
    seq![123u8] + json_str_member("iss"@, iss) + seq![44u8] + json_str_member("scope"@, scope)
        + seq![44u8] + json_str_member("aud"@, aud) + seq![44u8] + json_num_member("iat"@, iat)
        + seq![44u8] + json_num_member("exp"@, exp) + seq![125u8]
}

/// The given byte sequences joined by single spaces.
pub open spec fn space_joined(ss: Seq<Seq<u8>>) -> Seq<u8>
    decreases ss.len(),
{
    if ss.len() == 0 {
        Seq::<u8>::empty()
    } else if ss.len() == 1 {
        ss[0]
    } else {
        ss[0] + seq![32u8] + space_joined(ss.skip(1))
    }
}

/// Appending one more element extends a non-empty join by a space and the
/// element.
pub proof fn lemma_space_joined_snoc(ss: Seq<Seq<u8>>, x: Seq<u8>)
    requires
        ss.len() >= 1,
    ensures
        space_joined(ss.push(x)) == space_joined(ss) + seq![32u8] + x,
    decreases ss.len(),
{
    if ss.len() == 1 {
        assert(space_joined(ss.push(x)) == ss.push(x)[0] + seq![32u8] + space_joined(
            ss.push(x).skip(1),
        ));
        assert(ss.push(x).skip(1) =~= seq![x]);
    } else {
        assert(ss.push(x).skip(1) =~= ss.skip(1).push(x));
        lemma_space_joined_snoc(ss.skip(1), x);
        assert(space_joined(ss.push(x)) == ss[0] + seq![32u8] + (space_joined(ss.skip(1))
            + seq![32u8] + x));
        assert(ss[0] + seq![32u8] + (space_joined(ss.skip(1)) + seq![32u8] + x) =~= (ss[0]
            + seq![32u8] + space_joined(ss.skip(1))) + seq![32u8] + x);
    }
}

/// Appends the decimal digits of `n`.
pub fn push_dec(out: &mut Vec<u8>, n: u64)
    ensures
        final (out)@ == old(out)@ + dec_bytes(n as nat),
    decreases n,
{
    if n < 10 {
        out.push(48 + (n as u8));
    } else {
        push_dec(out, n / 10);
        out.push(48 + ((n % 10) as u8));
        proof {
            assert(old(out)@ + dec_bytes((n / 10) as nat) + seq![(48 + (n as nat) % 10) as u8]
                =~= old(out)@ + (dec_bytes((n / 10) as nat) + seq![(48 + (n as nat) % 10) as u8]));
        }
    }
}

/// Appends `s` escaped for the inside of a JSON string literal.
pub fn push_json_escaped(out: &mut Vec<u8>, s: &[u8])
    ensures
        final (out)@ == old(out)@ + json_escaped(s@),
{
    let ghost prefix: Seq<u8> = out@;
    let n: usize = s.len();
    let mut i: usize = 0;
    proof {
        assert(s@.skip(0) =~= s@);
    }
    while i < n
        invariant
            n == s@.len(),
            i <= n,
            prefix + json_escaped(s@) == out@ + json_escaped(s@.skip(i as int)),
        decreases n - i,
    {
        let b = s[i];
        if b == 34 {
            out.push(92);
            out.push(34);
        } else if b == 92 {
            out.push(92);
            out.push(92);
        } else if b < 32 {
            out.push(92);
            out.push(117);
            out.push(48);
            out.push(48);
            assert(b >> 4 < 16 && b & 15 < 16) by (bit_vector);
            let hi = b >> 4;
            let lo = b & 15;
            out.push(if hi < 10 { 48 + hi } else { 87 + hi });
            out.push(if lo < 10 { 48 + lo } else { 87 + lo });
        } else {
            out.push(b);
        }
        proof {
            let rest = s@.skip(i as int);
            assert(rest[0] == s@[i as int]);
            assert(rest.skip(1) =~= s@.skip(i as int + 1));
            assert(json_escaped(rest) == esc_byte(s@[i as int]) + json_escaped(
                s@.skip(i as int + 1),
            ));
        }
        i = i + 1;
    }
    proof {
        assert(s@.skip(n as int).len() == 0);
    }
}

/// Appends the member `"k":"v"`, escaping the value.
pub fn push_json_str_member(out: &mut Vec<u8>, k: &str, v: &[u8])
    requires
        vstd::string::is_ascii(k),
    ensures
        final (out)@ == old(out)@ + json_str_member(k@, v@),
{
    out.push(34);
    crate::text::push_str_bytes(out, k);
    out.push(34);
    out.push(58);
    out.push(34);
    push_json_escaped(out, v);
    out.push(34);
    proof {
        assert(out@ =~= old(out)@ + json_str_member(k@, v@));
    }
}

/// Appends the member `"k":n`.
pub fn push_json_num_member(out: &mut Vec<u8>, k: &str, n: u64)
    requires
        vstd::string::is_ascii(k),
    ensures
        final (out)@ == old(out)@ + json_num_member(k@, n as nat),
{
    out.push(34);
    crate::text::push_str_bytes(out, k);
    out.push(34);
    out.push(58);
    push_dec(out, n);
    proof {
        assert(out@ =~= old(out)@ + json_num_member(k@, n as nat));
    }
}

} // verus!
