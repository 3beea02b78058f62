//! UTF-8 well-formedness of guest-supplied byte strings.
//!
//! Paths and symbol names arrive as raw bytes in guest memory; the loader
//! syscalls reject a string that is not well-formed UTF-8.  Validity is the
//! standard one-to-four-byte scalar encoding: overlong forms, surrogates and
//! values above `U+10FFFF` are malformed.

use vstd::prelude::*;

verus! {

/// Whether `b` is a continuation byte (`10xxxxxx`).
pub open spec fn is_cont(b: u8) -> bool {
    0x80 <= b <= 0xBF
}

/// The length of the single well-formed scalar encoded at the front of `s`,
/// or `0` when the front of `s` is not a well-formed scalar.
pub open spec fn utf8_head_len(s: Seq<u8>) -> int {
    if s.len() >= 1 && s[0] <= 0x7F {
        1
    } else if s.len() >= 2 && 0xC2 <= s[0] <= 0xDF && is_cont(s[1]) {
        2
    } else if s.len() >= 3 && s[0] == 0xE0 && 0xA0 <= s[1] <= 0xBF && is_cont(s[2]) {
        3
    } else if s.len() >= 3 && 0xE1 <= s[0] <= 0xEC && is_cont(s[1]) && is_cont(s[2]) {
        3
    } else if s.len() >= 3 && s[0] == 0xED && 0x80 <= s[1] <= 0x9F && is_cont(s[2]) {
        3
    } else if s.len() >= 3 && 0xEE <= s[0] <= 0xEF && is_cont(s[1]) && is_cont(s[2]) {
        3
    } else if s.len() >= 4 && s[0] == 0xF0 && 0x90 <= s[1] <= 0xBF && is_cont(s[2]) && is_cont(
        s[3],
    ) {
        4
    } else if s.len() >= 4 && 0xF1 <= s[0] <= 0xF3 && is_cont(s[1]) && is_cont(s[2]) && is_cont(
        s[3],
    ) {
        4
    } else if s.len() >= 4 && s[0] == 0xF4 && 0x80 <= s[1] <= 0x8F && is_cont(s[2]) && is_cont(
        s[3],
    ) {
        4
    } else {
        0
    }
}

/// Whether `s` is a well-formed UTF-8 byte string.
pub open spec fn is_utf8(s: Seq<u8>) -> bool
    decreases s.len(),
{
    if s.len() == 0 {
        true
    } else {
        let n = utf8_head_len(s);
        n > 0 && is_utf8(s.skip(n))
    }
}

/// Decides whether `v` is well-formed UTF-8.
pub fn check_utf8(v: &Vec<u8>) -> (r: bool)
    ensures
        r == is_utf8(v@),
{
    let n: usize = v.len();
    let mut i: usize = 0;
    proof {
        assert(v@.skip(0) =~= v@);
    }
    while i < n
        invariant
            i <= n,
            n == v@.len(),
            is_utf8(v@) == is_utf8(v@.skip(i as int)),
        decreases n - i,
    {
        let ghost rest = v@.skip(i as int);
        let b0 = v[i];
        let step: usize = if b0 <= 0x7F {
            1
        } else if 0xC2 <= b0 && b0 <= 0xDF {
            if n - i >= 2 && 0x80 <= v[i + 1] && v[i + 1] <= 0xBF {
                2
            } else {
                0
            }
        } else if 0xE0 <= b0 && b0 <= 0xEF {
            let lo: u8 = if b0 == 0xE0 {
                0xA0
            } else {
                0x80
            };
            let hi: u8 = if b0 == 0xED {
                0x9F
            } else {
                0xBF
            };
            if n - i >= 3 && lo <= v[i + 1] && v[i + 1] <= hi && 0x80 <= v[i + 2] && v[i + 2]
                <= 0xBF {
                3
            } else {
                0
            }
        } else if 0xF0 <= b0 && b0 <= 0xF4 {
            let lo: u8 = if b0 == 0xF0 {
                0x90
            } else {
                0x80
            };
            let hi: u8 = if b0 == 0xF4 {
                0x8F
            } else {
                0xBF
            };
            if n - i >= 4 && lo <= v[i + 1] && v[i + 1] <= hi && 0x80 <= v[i + 2] && v[i + 2]
                <= 0xBF && 0x80 <= v[i + 3] && v[i + 3] <= 0xBF {
                4
            } else {
                0
            }
        } else {
            0
        };
        proof {
            assert(rest.len() == n - i);
            assert(forall|k: int| 0 <= k < rest.len() ==> rest[k] == v@[i + k]);
            assert(utf8_head_len(rest) == step);
        }
        if step == 0 {
            return false;
        }
        proof {
            assert(rest.skip(step as int) =~= v@.skip(i + step));
        }
        i = i + step;
    }
    proof {
        assert(v@.skip(n as int) =~= Seq::<u8>::empty());
    }
    true
}

} // verus!
