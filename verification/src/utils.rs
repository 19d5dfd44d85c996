//! Byte-string helpers for the cartridge header: NUL-terminated fields
//! decoded as UTF-8.

use vstd::prelude::*;
use vstd::slice::{slice_index_get, slice_subrange};
use vstd::utf8::{decode_utf8, valid_utf8};

verus! {

/// The index of the first NUL byte, or the length when there is none.
pub open spec fn spec_null_pos(s: Seq<u8>) -> int
    decreases s.len(),
{
    if s.len() == 0 {
        0
    } else if s[0] == 0 {
        0
    } else {
        1 + spec_null_pos(s.skip(1))
    }
}

/// The prefix of a byte string up to (excluding) its first NUL byte.
pub open spec fn spec_null_prefix(s: Seq<u8>) -> Seq<u8> {
    s.take(spec_null_pos(s))
}

proof fn lemma_null_pos_bounds(s: Seq<u8>)
    ensures
        0 <= spec_null_pos(s) <= s.len(),
        forall|i: int| 0 <= i < spec_null_pos(s) ==> s[i] != 0,
        spec_null_pos(s) < s.len() ==> s[spec_null_pos(s)] == 0,
    decreases s.len(),
{
    if s.len() != 0 && s[0] != 0 {
        lemma_null_pos_bounds(s.skip(1));
        assert forall|i: int| 0 <= i < spec_null_pos(s) implies s[i] != 0 by {
            if i > 0 {
                assert(s.skip(1)[i - 1] == s[i]);
            }
        }
        if spec_null_pos(s) < s.len() {
            assert(s.skip(1)[spec_null_pos(s) - 1] == s[spec_null_pos(s)]);
        }
    }
}

/// Relies on core::str::from_utf8: it succeeds exactly on valid UTF-8 input,
/// and the returned string view is the decoding of those bytes.
#[verifier::external_body]
fn utf8_from_bytes(v: &[u8]) -> (r: Option<&str>)
    ensures
        r is Some <==> valid_utf8(v@),
        match r {
            Some(s) => s@ == decode_utf8(v@),
            None => true,
        },
{
    core::str::from_utf8(v).ok()
}

/// Decode the NUL-terminated prefix of a byte string as UTF-8; `None` when
/// that prefix is not valid UTF-8.
pub fn str_from_u8_null_utf8(utf8_src: &[u8]) -> (r: Option<&str>)
    ensures
        r is Some <==> valid_utf8(spec_null_prefix(utf8_src@)),
        match r {
            Some(s) => s@ == decode_utf8(spec_null_prefix(utf8_src@)),
            None => true,
        },
{
    proof {
        lemma_null_pos_bounds(utf8_src@);
    }
    let mut i: usize = 0;
    let n = utf8_src.len();
    while i < n && *slice_index_get(utf8_src, i) != 0
        invariant
            0 <= i <= n,
            n == utf8_src@.len(),
            forall|j: int| 0 <= j < i ==> utf8_src@[j] != 0,
        decreases n - i,
    {
        i = i + 1;
    }
    proof {
        assert(i == spec_null_pos(utf8_src@)) by {
            lemma_null_pos_bounds(utf8_src@);
        }
    }
    let prefix = slice_subrange(utf8_src, 0, i);
    utf8_from_bytes(prefix)
}

} // verus!
