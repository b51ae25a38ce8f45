//! A verified UTF-8 validity check for response bodies.
//!
//! [`utf8_is_valid`] decides, byte by byte, whether a body is a valid
//! UTF-8 encoding, and is proved to agree exactly with vstd's
//! [`valid_utf8`] specification: well-formed leading and continuation
//! bytes, no overlong encodings, no surrogate codepoints.

use vstd::prelude::*;
use vstd::utf8::*;

verus! {

broadcast use vstd::seq::group_seq_axioms;

/// A 2-byte encoding led by 0xc2..=0xdf is never overlong and never a
/// surrogate.
proof fn width_2_codepoint_range(b1: u8, b2: u8)
    by (bit_vector)
    requires
        0xc2 <= b1 <= 0xdf,
        is_continuation_byte(b2),
    ensures
        0x80 <= codepoint_width_2(b1, b2) <= 0x7ff,
{
}

/// A 2-byte encoding led by 0xc0 or 0xc1 is overlong.
proof fn width_2_codepoint_overlong(b1: u8, b2: u8)
    by (bit_vector)
    requires
        0xc0 <= b1 <= 0xc1,
        is_continuation_byte(b2),
    ensures
        codepoint_width_2(b1, b2) < 0x80,
{
}

/// The codepoint range of a 3-byte encoding, as determined by its first
/// two bytes: overlong exactly when led by 0xe0 with a continuation
/// below 0xa0, a surrogate exactly when led by 0xed with a continuation
/// at or above 0xa0.
proof fn width_3_codepoint_range(b1: u8, b2: u8, b3: u8)
    by (bit_vector)
    requires
        0xe0 <= b1 <= 0xef,
        is_continuation_byte(b2),
        is_continuation_byte(b3),
    ensures
        codepoint_width_3(b1, b2, b3) <= 0xffff,
        codepoint_width_3(b1, b2, b3) < 0x800 <==> b1 == 0xe0 && b2 < 0xa0,
        0xd800 <= codepoint_width_3(b1, b2, b3) <= 0xdfff <==> b1 == 0xed && b2 >= 0xa0,
{
}

/// The codepoint range of a 4-byte encoding, as determined by its first
/// two bytes: overlong exactly when led by 0xf0 with a continuation
/// below 0x90, beyond the last scalar 0x10ffff exactly when led by 0xf4
/// with a continuation at or above 0x90, or by 0xf5..=0xf7.
proof fn width_4_codepoint_range(b1: u8, b2: u8, b3: u8, b4: u8)
    by (bit_vector)
    requires
        0xf0 <= b1 <= 0xf7,
        is_continuation_byte(b2),
        is_continuation_byte(b3),
        is_continuation_byte(b4),
    ensures
        codepoint_width_4(b1, b2, b3, b4) < 0x10000 <==> b1 == 0xf0 && b2 < 0x90,
        codepoint_width_4(b1, b2, b3, b4) > 0x10ffff <==> (b1 == 0xf4 && b2 >= 0x90) || b1
            >= 0xf5,
{
}

/// True when the byte has the continuation form 10xxxxxx.
fn is_cont(b: u8) -> (r: bool)
    ensures
        r == is_continuation_byte(b),
{
    0x80 <= b && b <= 0xbf
}

/// Decides whether the bytes are a valid UTF-8 encoding.
pub fn utf8_is_valid(bytes: &[u8]) -> (r: bool)
    ensures
        r == valid_utf8(bytes@),
{
    let n = bytes.len();
    let mut i: usize = 0;
    while i < n
        invariant
            0 <= i <= n,
            n == bytes@.len(),
            partial_valid_utf8(bytes@, i as int),
        decreases n - i,
    {
        let ghost suffix = bytes@.subrange(i as int, n as int);
        let b0 = bytes[i];
        assert(suffix[0] == b0);
        if b0 < 0x80 {
            // A 1-byte encoding: always a valid scalar.
            proof {
                assert(valid_first_scalar(suffix));
                partial_valid_utf8_extend(bytes@, i as int);
            }
            i = i + 1;
        } else if b0 < 0xc2 {
            // A stray continuation byte (0x80..=0xbf) or an overlong
            // 2-byte lead (0xc0..=0xc1).
            proof {
                if b0 >= 0xc0 && suffix.len() >= 2 && is_continuation_byte(suffix[1]) {
                    width_2_codepoint_overlong(b0, suffix[1]);
                    assert(!valid_first_scalar(suffix));
                } else {
                    assert(!valid_first_scalar(suffix));
                }
                assert(!valid_utf8(suffix));
                partial_valid_partial_invalid_utf8(bytes@, i as int);
            }
            return false;
        } else if b0 < 0xe0 {
            // A 2-byte encoding, led by 0xc2..=0xdf.
            if n - i < 2 {
                proof {
                    assert(!valid_first_scalar(suffix));
                    assert(!valid_utf8(suffix));
                    partial_valid_partial_invalid_utf8(bytes@, i as int);
                }
                return false;
            }
            let b1 = bytes[i + 1];
            assert(suffix[1] == b1);
            if !is_cont(b1) {
                proof {
                    assert(!valid_first_scalar(suffix));
                    assert(!valid_utf8(suffix));
                    partial_valid_partial_invalid_utf8(bytes@, i as int);
                }
                return false;
            }
            proof {
                width_2_codepoint_range(b0, b1);
                assert(valid_first_scalar(suffix));
                partial_valid_utf8_extend(bytes@, i as int);
            }
            i = i + 2;
        } else if b0 < 0xf0 {
            // A 3-byte encoding, led by 0xe0..=0xef.
            if n - i < 3 {
                proof {
                    assert(!valid_first_scalar(suffix));
                    assert(!valid_utf8(suffix));
                    partial_valid_partial_invalid_utf8(bytes@, i as int);
                }
                return false;
            }
            let b1 = bytes[i + 1];
            let b2 = bytes[i + 2];
            assert(suffix[1] == b1 && suffix[2] == b2);
            if !is_cont(b1) || !is_cont(b2) {
                proof {
                    assert(!valid_first_scalar(suffix));
                    assert(!valid_utf8(suffix));
                    partial_valid_partial_invalid_utf8(bytes@, i as int);
                }
                return false;
            }
            if (b0 == 0xe0 && b1 < 0xa0) || (b0 == 0xed && b1 >= 0xa0) {
                // Overlong, or a surrogate codepoint.
                proof {
                    width_3_codepoint_range(b0, b1, b2);
                    assert(!valid_first_scalar(suffix));
                    assert(!valid_utf8(suffix));
                    partial_valid_partial_invalid_utf8(bytes@, i as int);
                }
                return false;
            }
            proof {
                width_3_codepoint_range(b0, b1, b2);
                assert(valid_first_scalar(suffix));
                partial_valid_utf8_extend(bytes@, i as int);
            }
            i = i + 3;
        } else if b0 < 0xf5 {
            // A 4-byte encoding, led by 0xf0..=0xf4.
            if n - i < 4 {
                proof {
                    assert(!valid_first_scalar(suffix));
                    assert(!valid_utf8(suffix));
                    partial_valid_partial_invalid_utf8(bytes@, i as int);
                }
                return false;
            }
            let b1 = bytes[i + 1];
            let b2 = bytes[i + 2];
            let b3 = bytes[i + 3];
            assert(suffix[1] == b1 && suffix[2] == b2 && suffix[3] == b3);
            if !is_cont(b1) || !is_cont(b2) || !is_cont(b3) {
                proof {
                    assert(!valid_first_scalar(suffix));
                    assert(!valid_utf8(suffix));
                    partial_valid_partial_invalid_utf8(bytes@, i as int);
                }
                return false;
            }
            if (b0 == 0xf0 && b1 < 0x90) || (b0 == 0xf4 && b1 >= 0x90) {
                // Overlong, or a codepoint beyond the last scalar.
                proof {
                    width_4_codepoint_range(b0, b1, b2, b3);
                    assert(!valid_first_scalar(suffix));
                    assert(!valid_utf8(suffix));
                    partial_valid_partial_invalid_utf8(bytes@, i as int);
                }
                return false;
            }
            proof {
                width_4_codepoint_range(b0, b1, b2, b3);
                assert(valid_first_scalar(suffix));
                partial_valid_utf8_extend(bytes@, i as int);
            }
            i = i + 4;
        } else {
            // 0xf5..=0xf7 lead to codepoints beyond the last scalar;
            // 0xf8..=0xff are no leading bytes at all.
            proof {
                if b0 <= 0xf7 && suffix.len() >= 4 && is_continuation_byte(suffix[1])
                    && is_continuation_byte(suffix[2]) && is_continuation_byte(suffix[3]) {
                    width_4_codepoint_range(b0, suffix[1], suffix[2], suffix[3]);
                    assert(!valid_first_scalar(suffix));
                } else {
                    assert(!valid_first_scalar(suffix));
                }
                assert(!valid_utf8(suffix));
                partial_valid_partial_invalid_utf8(bytes@, i as int);
            }
            return false;
        }
    }
    proof {
        assert(bytes@.subrange(0, n as int) =~= bytes@);
    }
    true
}

} // verus!
