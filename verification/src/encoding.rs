//! Byte-level UTF-8 validation, proved against vstd's UTF-8 model: the input
//! adapter uses it to decide whether a foreign buffer is valid text.

use vstd::prelude::*;
use vstd::utf8::*;

verus! {

/// Classifies the scalar encoding that starts at position `i`: the width of a
/// well-formed encoding, or `None` when the bytes at `i` do not begin a
/// well-formed scalar.
fn first_scalar_width(bytes: &[u8], i: usize) -> (r: Option<usize>)
    requires
        i < bytes@.len(),
    ensures
        ({
            let suffix = bytes@.subrange(i as int, bytes@.len() as int);
            match r {
                Some(w) => valid_first_scalar(suffix) && length_of_first_scalar(suffix) == w && i
                    + w <= bytes@.len(),
                None => !valid_first_scalar(suffix),
            }
        }),
{
    let ghost suffix = bytes@.subrange(i as int, bytes@.len() as int);
    let n = bytes.len();
    let rem = n - i;
    let b0 = bytes[i];
    proof {
        assert(suffix[0] == b0);
    }
    if b0 < 0x80 {
        // A one-byte scalar; never overlong, never a surrogate.
        proof {
            assert(b0 & 0x7f == b0) by (bit_vector)
                requires
                    b0 < 0x80,
            ;
            assert(decode_first_codepoint(suffix) == b0 as u32);
        }
        Some(1)
    } else if b0 < 0xc0 {
        // A continuation byte cannot lead an encoding.
        None
    } else if b0 < 0xe0 {
        // A two-byte encoding: one continuation byte, codepoint at least 0x80.
        if rem < 2 {
            return None;
        }
        let b1 = bytes[i + 1];
        proof {
            assert(suffix[1] == b1);
        }
        if b1 < 0x80 || b1 > 0xbf {
            return None;
        }
        let cp: u32 = (((b0 & 0x1f) as u32) << 6) | ((b1 & 0x3f) as u32);
        proof {
            assert(cp == codepoint_width_2(b0, b1));
            assert(cp <= 0x7ff) by (bit_vector)
                requires
                    cp == (((b0 & 0x1f) as u32) << 6) | ((b1 & 0x3f) as u32),
            ;
        }
        if cp < 0x80 {
            // Overlong: the codepoint would fit in one byte.
            None
        } else {
            Some(2)
        }
    } else if b0 < 0xf0 {
        // A three-byte encoding: two continuation bytes, codepoint at least
        // 0x800 and not in the surrogate range.
        if rem < 3 {
            return None;
        }
        let b1 = bytes[i + 1];
        let b2 = bytes[i + 2];
        proof {
            assert(suffix[1] == b1);
            assert(suffix[2] == b2);
        }
        if b1 < 0x80 || b1 > 0xbf || b2 < 0x80 || b2 > 0xbf {
            return None;
        }
        let cp: u32 = (((b0 & 0x0f) as u32) << 12) | (((b1 & 0x3f) as u32) << 6) | ((b2
            & 0x3f) as u32);
        proof {
            assert(cp == codepoint_width_3(b0, b1, b2));
        }
        if cp < 0x800 {
            None
        } else if 0xd800 <= cp && cp <= 0xdfff {
            None
        } else {
            Some(3)
        }
    } else if b0 < 0xf8 {
        // A four-byte encoding: three continuation bytes, codepoint between
        // 0x10000 and the last Unicode scalar, 0x10ffff.
        if rem < 4 {
            return None;
        }
        let b1 = bytes[i + 1];
        let b2 = bytes[i + 2];
        let b3 = bytes[i + 3];
        proof {
            assert(suffix[1] == b1);
            assert(suffix[2] == b2);
            assert(suffix[3] == b3);
        }
        if b1 < 0x80 || b1 > 0xbf || b2 < 0x80 || b2 > 0xbf || b3 < 0x80 || b3 > 0xbf {
            return None;
        }
        let cp: u32 = (((b0 & 0x07) as u32) << 18) | (((b1 & 0x3f) as u32) << 12) | (((b2
            & 0x3f) as u32) << 6) | ((b3 & 0x3f) as u32);
        proof {
            assert(cp == codepoint_width_4(b0, b1, b2, b3));
        }
        if cp < 0x10000 || cp > 0x10ffff {
            None
        } else {
            Some(4)
        }
    } else {
        // 0xf8 and above lead no encoding at all.
        None
    }
}

/// Checks whether `bytes` is a well-formed UTF-8 encoding of some text.
pub fn is_utf8(bytes: &[u8]) -> (r: bool)
    ensures
        r == valid_utf8(bytes@),
{
    let n = bytes.len();
    let mut i: usize = 0;
    while i < n
        invariant
            n == bytes@.len(),
            i <= n,
            partial_valid_utf8(bytes@, i as int),
        decreases n - i,
    {
        match first_scalar_width(bytes, i) {
            Some(w) => {
                proof {
                    partial_valid_utf8_extend(bytes@, i as int);
                }
                i = i + w;
            },
            None => {
                proof {
                    let suffix = bytes@.subrange(i as int, n as int);
                    assert(!valid_utf8(suffix));
                    partial_valid_partial_invalid_utf8(bytes@, i as int);
                }
                return false;
            },
        }
    }
    proof {
        assert(bytes@.subrange(0, n as int) =~= bytes@);
    }
    true
}

} // verus!
