//! Base64url encoding without padding, as JWT segments use it.

use vstd::prelude::*;

use crate::text::all_ascii;

verus! {

/// The base64url alphabet: the byte standing for a six-bit value.
pub open spec fn b64_char(v: u8) -> u8 {
    if v < 26 {
        (65 + v) as u8  // 'A'..='Z'
    } else if v < 52 {
        (71 + v) as u8  // 'a'..='z'
    } else if v < 62 {
        (v - 4) as u8  // '0'..='9'
    } else if v == 62 {
        45  // '-'
    } else {
        95  // '_'
    }
}

/// Base64url without padding: three input bytes become four alphabet bytes,
/// a final one or two bytes become two or three.
pub open spec fn base64url(s: Seq<u8>) -> Seq<u8>
    decreases s.len(),
{
    if s.len() == 0 {
        Seq::<u8>::empty()
    } else if s.len() == 1 {
        seq![b64_char(s[0] >> 2), b64_char((s[0] & 3) << 4)]
    } else if s.len() == 2 {
        seq![
            b64_char(s[0] >> 2),
            b64_char(((s[0] & 3) << 4) | (s[1] >> 4)),
            b64_char((s[1] & 15) << 2),
        ]
    } else {
        seq![
            b64_char(s[0] >> 2),
            b64_char(((s[0] & 3) << 4) | (s[1] >> 4)),
            b64_char(((s[1] & 15) << 2) | (s[2] >> 6)),
            b64_char(s[2] & 63),
        ] + base64url(s.skip(3))
    }
}

/// Every alphabet byte is ASCII.
pub proof fn lemma_b64_char_ascii(v: u8)
    ensures
        b64_char(v) < 128,
{
}

/// A base64url encoding consists of ASCII bytes only.
pub proof fn lemma_base64url_ascii(s: Seq<u8>)
    ensures
        all_ascii(base64url(s)),
    decreases s.len(),
{
    if s.len() == 0 {
    } else if s.len() <= 2 {
        assert forall|i: int| 0 <= i < base64url(s).len() implies #[trigger] base64url(s)[i]
            < 128 by {
            lemma_b64_char_ascii(base64url(s)[i] as u8);
        }
    } else {
        lemma_base64url_ascii(s.skip(3));
        assert forall|i: int| 0 <= i < base64url(s).len() implies #[trigger] base64url(s)[i]
            < 128 by {
            if i >= 4 {
                assert(base64url(s)[i] == base64url(s.skip(3))[i - 4]);
            }
        }
    }
}

/// The alphabet byte for a six-bit value.
fn b64_alphabet(v: u8) -> (r: u8)
    requires
        v < 64,
    ensures
        r == b64_char(v),
{
    if v < 26 {
        65 + v
    } else if v < 52 {
        71 + v
    } else if v < 62 {
        v - 4
    } else if v == 62 {
        45
    } else {
        95
    }
}

/// Appends the base64url encoding (no padding) of `s`.
pub fn push_base64url(out: &mut Vec<u8>, s: &[u8])
    ensures
        final(out)@ == old(out)@ + base64url(s@),
{
    let ghost prefix: Seq<u8> = out@;
    let n: usize = s.len();
    let mut i: usize = 0;
    proof {
        assert(s@.skip(0) =~= s@);
    }
    while n - i >= 3
        invariant
            n == s@.len(),
            i <= n,
            prefix + base64url(s@) == out@ + base64url(s@.skip(i as int)),
        decreases n - i,
    {
        let b0 = s[i];
        let b1 = s[i + 1];
        let b2 = s[i + 2];
        assert(b0 >> 2 < 64 && ((b0 & 3) << 4) | (b1 >> 4) < 64 && ((b1 & 15) << 2) | (b2 >> 6)
            < 64 && b2 & 63 < 64) by (bit_vector);
        out.push(b64_alphabet(b0 >> 2));
        out.push(b64_alphabet(((b0 & 3) << 4) | (b1 >> 4)));
        out.push(b64_alphabet(((b1 & 15) << 2) | (b2 >> 6)));
        out.push(b64_alphabet(b2 & 63));
        proof {
            let rest = s@.skip(i as int);
            assert(rest[0] == b0 && rest[1] == b1 && rest[2] == b2);
            assert(rest.skip(3) =~= s@.skip(i as int + 3));
            assert(base64url(rest) == seq![
                b64_char(b0 >> 2),
                b64_char(((b0 & 3) << 4) | (b1 >> 4)),
                b64_char(((b1 & 15) << 2) | (b2 >> 6)),
                b64_char(b2 & 63),
            ] + base64url(s@.skip(i as int + 3)));
        }
        i = i + 3;
    }
    if n - i == 1 {
        let b0 = s[i];
        assert(b0 >> 2 < 64 && (b0 & 3) << 4 < 64) by (bit_vector);
        out.push(b64_alphabet(b0 >> 2));
        out.push(b64_alphabet((b0 & 3) << 4));
        proof {
            let rest = s@.skip(i as int);
            assert(rest.len() == 1 && rest[0] == b0);
        }
    } else if n - i == 2 {
        let b0 = s[i];
        let b1 = s[i + 1];
        assert(b0 >> 2 < 64 && ((b0 & 3) << 4) | (b1 >> 4) < 64 && (b1 & 15) << 2
            < 64) by (bit_vector);
        out.push(b64_alphabet(b0 >> 2));
        out.push(b64_alphabet(((b0 & 3) << 4) | (b1 >> 4)));
        out.push(b64_alphabet((b1 & 15) << 2));
        proof {
            let rest = s@.skip(i as int);
            assert(rest.len() == 2 && rest[0] == b0 && rest[1] == b1);
        }
    } else {
        proof {
            assert(s@.skip(i as int).len() == 0);
        }
    }
}

} // verus!
