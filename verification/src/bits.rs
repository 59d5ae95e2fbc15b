//! Reversing the order of bits.
//!
//! Enhanced ShockBurst sends addresses with the most significant bit first,
//! and the radio takes them the other way round.

use vstd::prelude::*;

verus! {

/// Bit `i` of `x`.
pub open spec fn bit32(x: u32, i: u32) -> bool {
    (x >> i) & 1 == 1
}

/// Bit `i` of `x`.
pub open spec fn bit8(x: u8, i: u8) -> bool {
    (x >> i) & 1 == 1
}

/// The bits of `r` are those of `x` in reverse order.
pub open spec fn reversed32(x: u32, r: u32) -> bool {
    forall|i: u32| i < 32 ==> #[trigger] bit32(r, i) == bit32(x, (31 - i) as u32)
}

/// The bits of `r` are those of `x` in reverse order.
pub open spec fn reversed8(x: u8, r: u8) -> bool {
    forall|i: u8| i < 8 ==> #[trigger] bit8(r, i) == bit8(x, (7 - i) as u8)
}

/// `u32::reverse_bits`: the least significant bit becomes the most significant
/// bit, the second least significant bit the second most significant, and so on.
pub assume_specification[ u32::reverse_bits ](x: u32) -> (r: u32)
    ensures
        reversed32(x, r),
;

/// `u8::reverse_bits`: the least significant bit becomes the most significant
/// bit, the second least significant bit the second most significant, and so on.
pub assume_specification[ u8::reverse_bits ](x: u8) -> (r: u8)
    ensures
        reversed8(x, r),
;

/// The bits of `x` in reverse order, put in their places one by one.
pub open spec fn mirror8(x: u8) -> u8 {
    ((x & 0x01) << 7) | ((x & 0x02) << 5) | ((x & 0x04) << 3) | ((x & 0x08) << 1) | ((x & 0x10)
        >> 1) | ((x & 0x20) >> 3) | ((x & 0x40) >> 5) | ((x & 0x80) >> 7)
}

/// `mirror8` reverses the bits of every byte.
pub proof fn lemma_mirror8(x: u8)
    ensures
        reversed8(x, mirror8(x)),
{
    assert forall|i: u8| i < 8 implies #[trigger] bit8(mirror8(x), i) == bit8(
        x,
        (7 - i) as u8,
    ) by {
        let j = (7 - i) as u8;
        assert(bit8(mirror8(x), i) == bit8(x, j)) by (bit_vector)
            requires
                i < 8,
                j == 7 - i,
        ;
    }
}

/// Two words that agree in every bit from `n` on are the same from there on.
proof fn lemma_same_bits32(a: u32, b: u32, n: u32)
    requires
        n < 32,
        forall|i: u32| i < 32 ==> #[trigger] bit32(a, i) == bit32(b, i),
    ensures
        a >> n == b >> n,
    decreases 32 - n,
{
    assert(bit32(a, n) == bit32(b, n));
    if n == 31 {
        assert(a >> 31 == b >> 31) by (bit_vector)
            requires
                ((a >> 31) & 1 == 1) == ((b >> 31) & 1 == 1),
        ;
    } else {
        let m = (n + 1) as u32;
        lemma_same_bits32(a, b, m);
        assert(a >> n == b >> n) by (bit_vector)
            requires
                n < 31,
                m == n + 1,
                a >> m == b >> m,
                ((a >> n) & 1 == 1) == ((b >> n) & 1 == 1),
        ;
    }
}

/// A word has one reversal.
pub proof fn lemma_reversed32_unique(x: u32, r: u32, s: u32)
    requires
        reversed32(x, r),
        reversed32(x, s),
    ensures
        r == s,
{
    assert forall|i: u32| i < 32 implies #[trigger] bit32(r, i) == bit32(s, i) by {
        assert(bit32(s, i) == bit32(x, (31 - i) as u32));
    }
    lemma_same_bits32(r, s, 0);
    assert(r >> 0 == r && s >> 0 == s) by (bit_vector);
}

/// A byte has one reversal.
pub proof fn lemma_reversed8_unique(x: u8, r: u8, s: u8)
    requires
        reversed8(x, r),
        reversed8(x, s),
    ensures
        r == s,
{
    assert forall|i: u8| i < 8 implies #[trigger] bit8(r, i) == bit8(s, i) by {
        assert(bit8(s, i) == bit8(x, (7 - i) as u8));
    }
    assert(bit8(r, 0) == bit8(s, 0) && bit8(r, 1) == bit8(s, 1) && bit8(r, 2) == bit8(s, 2)
        && bit8(r, 3) == bit8(s, 3) && bit8(r, 4) == bit8(s, 4) && bit8(r, 5) == bit8(s, 5)
        && bit8(r, 6) == bit8(s, 6) && bit8(r, 7) == bit8(s, 7));
    assert(r == s) by (bit_vector)
        requires
            bit8(r, 0) == bit8(s, 0) && bit8(r, 1) == bit8(s, 1) && bit8(r, 2) == bit8(s, 2)
                && bit8(r, 3) == bit8(s, 3) && bit8(r, 4) == bit8(s, 4) && bit8(r, 5) == bit8(s, 5)
                && bit8(r, 6) == bit8(s, 6) && bit8(r, 7) == bit8(s, 7),
    ;
}

} // verus!
