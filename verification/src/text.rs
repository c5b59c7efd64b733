//! Verified UTF-8 validation for the diagnostic rendering path.
//!
//! Display bytes handed back by the native library carry no guaranteed
//! encoding, so rendering first checks whether they form valid text.  The
//! check here is a linear scan over a compact byte-range table, proved
//! equivalent to the structural UTF-8 validity specification
//! [`vstd::utf8::valid_utf8`].

use vstd::prelude::*;
use vstd::utf8::{
    codepoint_width_2, codepoint_width_3, codepoint_width_4, decode_utf8, is_continuation_byte,
    length_of_first_scalar, pop_first_scalar, valid_first_scalar, valid_utf8,
};

verus! {

/// The number of bytes in the well-formed scalar encoding at the head of
/// the given byte sequence, or `0` when the sequence does not begin with
/// one.  This is the classic byte-range table for UTF-8: it rules out
/// stray continuation bytes, overlong encodings (`0xc0`/`0xc1` leads, and
/// too-small second bytes after `0xe0`/`0xf0`), surrogate encodings
/// (`0xed` with a second byte of `0xa0` or above) and codepoints past the
/// Unicode range (`0xf4` with a second byte of `0x90` or above, and
/// `0xf5`..`0xff` leads).
pub open spec fn first_scalar_step(t: Seq<u8>) -> int {
    if t.len() == 0 {
        0
    } else {
        let b0 = t[0];
        if b0 <= 0x7f {
            1
        } else if 0xc2 <= b0 && b0 <= 0xdf {
            if t.len() >= 2 && is_continuation_byte(t[1]) {
                2
            } else {
                0
            }
        } else if 0xe0 <= b0 && b0 <= 0xef {
            if t.len() >= 3 && is_continuation_byte(t[1]) && is_continuation_byte(t[2]) && (b0
                != 0xe0 || t[1] >= 0xa0) && (b0 != 0xed || t[1] <= 0x9f) {
                3
            } else {
                0
            }
        } else if 0xf0 <= b0 && b0 <= 0xf4 {
            if t.len() >= 4 && is_continuation_byte(t[1]) && is_continuation_byte(t[2])
                && is_continuation_byte(t[3]) && (b0 != 0xf0 || t[1] >= 0x90) && (b0 != 0xf4
                || t[1] <= 0x8f) {
                4
            } else {
                0
            }
        } else {
            0
        }
    }
}

/// The byte-range table agrees with the structural definition: it reports
/// a non-zero step exactly on sequences that begin with a well-formed
/// scalar encoding, and then reports that encoding's length.
proof fn lemma_first_scalar_step(t: Seq<u8>)
    requires
        t.len() > 0,
    ensures
        first_scalar_step(t) != 0 <==> valid_first_scalar(t),
        first_scalar_step(t) != 0 ==> first_scalar_step(t) == length_of_first_scalar(t),
{
    let b0 = t[0];
    if b0 <= 0x7f {
        assert(vstd::utf8::codepoint_width_1(b0) <= 0x7f) by (bit_vector)
            requires
                b0 <= 0x7f,
        ;
    } else if b0 <= 0xbf {
        // A stray continuation byte matches no leading-byte pattern.
    } else if b0 <= 0xdf {
        if t.len() >= 2 && is_continuation_byte(t[1]) {
            let b1 = t[1];
            assert((0x80 <= codepoint_width_2(b0, b1) && !(0xd800 <= codepoint_width_2(b0, b1)
                && codepoint_width_2(b0, b1) <= 0xdfff)) <==> 0xc2 <= b0) by (bit_vector)
                requires
                    0xc0 <= b0 && b0 <= 0xdf && 0x80 <= b1 && b1 <= 0xbf,
            ;
        }
    } else if b0 <= 0xef {
        if t.len() >= 3 && is_continuation_byte(t[1]) && is_continuation_byte(t[2]) {
            let b1 = t[1];
            let b2 = t[2];
            assert((0x800 <= codepoint_width_3(b0, b1, b2) && !(0xd800 <= codepoint_width_3(
                b0,
                b1,
                b2,
            ) && codepoint_width_3(b0, b1, b2) <= 0xdfff)) <==> ((b0 != 0xe0 || b1 >= 0xa0) && (b0
                != 0xed || b1 <= 0x9f))) by (bit_vector)
                requires
                    0xe0 <= b0 && b0 <= 0xef && 0x80 <= b1 && b1 <= 0xbf && 0x80 <= b2 && b2
                        <= 0xbf,
            ;
        }
    } else if b0 <= 0xf7 {
        if t.len() >= 4 && is_continuation_byte(t[1]) && is_continuation_byte(t[2])
            && is_continuation_byte(t[3]) {
            let b1 = t[1];
            let b2 = t[2];
            let b3 = t[3];
            assert((0x10000 <= codepoint_width_4(b0, b1, b2, b3) && codepoint_width_4(
                b0,
                b1,
                b2,
                b3,
            ) <= 0x10ffff && !(0xd800 <= codepoint_width_4(b0, b1, b2, b3) && codepoint_width_4(
                b0,
                b1,
                b2,
                b3,
            ) <= 0xdfff)) <==> (b0 <= 0xf4 && (b0 != 0xf0 || b1 >= 0x90) && (b0 != 0xf4 || b1
                <= 0x8f))) by (bit_vector)
                requires
                    0xf0 <= b0 && b0 <= 0xf7 && 0x80 <= b1 && b1 <= 0xbf && 0x80 <= b2 && b2
                        <= 0xbf && 0x80 <= b3 && b3 <= 0xbf,
            ;
        }
    } else {
        // 0xf8..0xff matches no leading-byte pattern.
    }
}

/// True when the byte is a UTF-8 continuation byte (`10xxxxxx`).
fn is_cont(b: u8) -> (r: bool)
    ensures
        r == is_continuation_byte(b),
{
    0x80 <= b && b <= 0xbf
}

/// Check whether the bytes form a valid UTF-8 encoding, by a single pass
/// over the byte-range table.
pub fn is_utf8(s: &[u8]) -> (r: bool)
    ensures
        r == valid_utf8(s@),
{
    let n: usize = s.len();
    let mut i: usize = 0;
    proof {
        assert(s@.skip(0) =~= s@);
    }
    loop
        invariant
            0 <= i <= n,
            n == s@.len(),
            valid_utf8(s@) == valid_utf8(s@.skip(i as int)),
        decreases n - i,
    {
        if i == n {
            proof {
                assert(s@.skip(i as int) =~= Seq::<u8>::empty());
            }
            return true;
        }
        let ghost t = s@.skip(i as int);
        proof {
            assert(t.len() == n - i);
            assert(t[0] == s@[i as int]);
            if i + 1 < n {
                assert(t[1] == s@[i + 1]);
            }
            if i + 2 < n {
                assert(t[2] == s@[i + 2]);
            }
            if i + 3 < n {
                assert(t[3] == s@[i + 3]);
            }
        }
        let rem = n - i;
        let b0 = s[i];
        let step: usize = if b0 <= 0x7f {
            1
        } else if b0 < 0xc2 {
            0
        } else if b0 <= 0xdf {
            if rem >= 2 && is_cont(s[i + 1]) {
                2
            } else {
                0
            }
        } else if b0 <= 0xef {
            if rem >= 3 && is_cont(s[i + 1]) && is_cont(s[i + 2]) && (b0 != 0xe0 || s[i + 1]
                >= 0xa0) && (b0 != 0xed || s[i + 1] <= 0x9f) {
                3
            } else {
                0
            }
        } else if b0 <= 0xf4 {
            if rem >= 4 && is_cont(s[i + 1]) && is_cont(s[i + 2]) && is_cont(s[i + 3]) && (b0
                != 0xf0 || s[i + 1] >= 0x90) && (b0 != 0xf4 || s[i + 1] <= 0x8f) {
                4
            } else {
                0
            }
        } else {
            0
        };
        proof {
            assert(step as int == first_scalar_step(t));
            lemma_first_scalar_step(t);
        }
        if step == 0 {
            proof {
                assert(!valid_utf8(t));
            }
            return false;
        }
        proof {
            assert(valid_utf8(t) == valid_utf8(pop_first_scalar(t)));
            assert(pop_first_scalar(t) =~= s@.skip(i + step as int));
        }
        i = i + step;
    }
}

/// Relies on `String::from_utf8`: a byte sequence that is a valid UTF-8
/// encoding converts, without failure, to the string of exactly the
/// characters it encodes.
#[verifier::external_body]
pub fn bytes_to_string(b: &[u8]) -> (r: String)
    requires
        valid_utf8(b@),
    ensures
        r@ == decode_utf8(b@),
{
    String::from_utf8(b.to_vec()).unwrap()
}

} // verus!
