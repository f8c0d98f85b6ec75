//! Conversions between ASCII byte sequences and strings.
//!
//! Every protocol artefact of this crate (JWT, claim set, request body) is
//! modelled as a sequence of ASCII bytes; this module ties those byte
//! sequences to the `String` values the public interface hands out.

use vstd::prelude::*;

verus! {

/// The bytes of an ASCII character sequence, character by character.
pub open spec fn str_bytes(s: Seq<char>) -> Seq<u8> {
    s.map_values(|c: char| c as u8)
}

/// The characters of an ASCII byte sequence, byte by byte.
pub open spec fn ascii_str(b: Seq<u8>) -> Seq<char> {
    b.map_values(|b: u8| b as char)
}

/// Whether every byte is ASCII.
pub open spec fn all_ascii(b: Seq<u8>) -> bool {
    forall|i: int| 0 <= i < b.len() ==> #[trigger] b[i] < 128
}

/// Concatenation preserves ASCII-ness.
pub proof fn lemma_all_ascii_concat(a: Seq<u8>, b: Seq<u8>)
    requires
        all_ascii(a),
        all_ascii(b),
    ensures
        all_ascii(a + b),
{
    assert forall|i: int| 0 <= i < (a + b).len() implies #[trigger] (a + b)[i] < 128 by {
        if i < a.len() {
            assert((a + b)[i] == a[i]);
        } else {
            assert((a + b)[i] == b[i - a.len()]);
        }
    }
}

/// Appends the bytes of an ASCII string slice.
pub fn push_str_bytes(out: &mut Vec<u8>, s: &str)
    requires
        vstd::string::is_ascii(s),
    ensures
        final(out)@ == old(out)@ + str_bytes(s@),
{
    proof {
        broadcast use vstd::string::is_ascii_spec_bytes;

    }
    let b: &[u8] = s.as_bytes();
    let ghost prefix: Seq<u8> = out@;
    assert(b@ =~= str_bytes(s@));
    let n: usize = b.len();
    let mut i: usize = 0;
    while i < n
        invariant
            n == b@.len(),
            i <= n,
            out@ == prefix + b@.take(i as int),
        decreases n - i,
    {
        let byte: u8 = b[i];
        out.push(byte);
        proof {
            assert(prefix + b@.take(i as int) + seq![b@[i as int]] =~= prefix + b@.take(
                i as int + 1,
            ));
        }
        i = i + 1;
    }
    proof {
        assert(b@.take(n as int) =~= b@);
    }
}

/// Relies on `alloc::string::String::from_utf8`: bytes below 0x80 are valid
/// UTF-8 and decode to the characters with the same code points.
#[verifier::external_body]
pub fn ascii_to_string(bytes: Vec<u8>) -> (r: String)
    requires
        all_ascii(bytes@),
    ensures
        r@ == ascii_str(bytes@),
{
    String::from_utf8(bytes).unwrap_or_default()
}

} // verus!
