//! Zig-zag encoding of integers, as used by the flat serialisation: it maps
//! signed integers onto the natural numbers 0, -1, 1, -2, 2, ... in turn.
use vstd::prelude::*;

use crate::uplc::constant::Integer;

verus! {

/// Zig-zag encoding: `2n` for non-negative `n`, `-2n - 1` for negative `n`.
pub open spec fn zigzag_int(n: int) -> int {
    if n >= 0 {
        2 * n
    } else {
        -2 * n - 1
    }
}

/// Zig-zag decoding: half of an even number, minus half (rounded down) less
/// one for an odd number.
pub open spec fn unzigzag_int(n: int) -> int {
    if n % 2 == 0 {
        n / 2
    } else {
        -(n / 2) - 1
    }
}

/// The integers whose zig-zag encoding fits a 128-bit integer.
pub open spec fn zigzag_fits(n: int) -> bool {
    -0x4000_0000_0000_0000_0000_0000_0000_0000 <= n < 0x4000_0000_0000_0000_0000_0000_0000_0000
}

/// Encoding and decoding between signed integers and their zig-zag form.
pub trait ZigZag: Sized {
    type Zag;

    /// The values whose encoding the result type can hold.
    spec fn zigzag_in_range(self) -> bool;

    fn zigzag(self) -> Self::Zag
        requires
            self.zigzag_in_range(),
    ;

    fn unzigzag(self) -> Self::Zag;
}

impl<'a> ZigZag for &'a Integer {
    type Zag = Integer;

    open spec fn zigzag_in_range(self) -> bool {
        zigzag_fits(*self as int)
    }

    fn zigzag(self) -> (r: Integer)
        ensures
            r as int == zigzag_int(*self as int),
    {
        let n: Integer = *self;
        if n >= 0 {
            // Non-negative numbers double.
            n * 2
        } else {
            // Negative numbers: -(2 * n) - 1.
            let double: Integer = n * 2;
            -(double + 1)
        }
    }

    fn unzigzag(self) -> (r: Integer)
        ensures
            r as int == unzigzag_int(*self as int),
    {
        let x: Integer = *self;
        let low: Integer = x & 1;
        let half: Integer = x >> 1u32;
        proof {
            assert(low == 0 || low == 1) by (bit_vector)
                requires
                    low == x & 1,
            ;
            assert(2 * half + low == x) by (bit_vector)
                requires
                    low == x & 1,
                    half == x >> 1u32,
            ;
        }
        let neg: Integer = -low;
        proof {
            assert(low == 0 ==> half ^ neg == half) by (bit_vector)
                requires
                    neg == -low,
            ;
            assert(low == 1 ==> (half ^ neg) + 1 == -half) by (bit_vector)
                requires
                    neg == -low,
                    half == x >> 1u32,
            ;
        }
        half ^ neg
    }
}

/// Zig-zag encoding is a bijection from the integers onto the naturals:
/// decoding an encoding gives back the integer, every encoding is a natural
/// number, and encoding the decoding of a natural number gives it back.
pub proof fn lemma_zigzag_roundtrip(n: int, m: int)
    requires
        m >= 0,
    ensures
        unzigzag_int(zigzag_int(n)) == n,
        zigzag_int(n) >= 0,
        zigzag_int(unzigzag_int(m)) == m,
{
}

/// Zig-zag encoding keeps non-negative integers apart from negative ones:
/// the former go to even numbers, the latter to odd numbers.
pub proof fn lemma_zigzag_parity(n: int)
    ensures
        (n >= 0) <==> (zigzag_int(n) % 2 == 0),
{
}

} // verus!
