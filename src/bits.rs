//! Single-bit fields of 32-bit register images.

use vstd::prelude::*;

verus! {

/// Bit `i` of `w` is set.
pub open spec fn bit_of(w: u32, i: u32) -> bool {
    (w >> i) & 1u32 == 1u32
}

/// `r` equals `w` with bit `i` replaced by `v`: bit for bit over the whole word.
pub open spec fn bit_replaced(r: u32, w: u32, i: u32, v: bool) -> bool {
    forall|j: u32| j < 32 ==> #[trigger] bit_of(r, j) == (if j == i { v } else { bit_of(w, j) })
}

/// Reads bit `i` of `w`.
pub fn read_bit(w: u32, i: u32) -> (r: bool)
    requires
        i < 32,
    ensures
        r == bit_of(w, i),
{
    (w >> i) & 1u32 == 1u32
}

/// Returns `w` with bit `i` set to `v`, leaving every other bit as it is.
pub fn write_bit(w: u32, i: u32, v: bool) -> (r: u32)
    requires
        i < 32,
    ensures
        bit_replaced(r, w, i, v),
{
    if v {
        let r = w | (1u32 << i);
        assert forall|j: u32| j < 32 implies #[trigger] bit_of(r, j) == (if j == i { true } else { bit_of(w, j) }) by {
            assert(((w | (1u32 << i)) >> j) & 1u32 == 1u32 <==> (j == i || (w >> j) & 1u32 == 1u32))
                by (bit_vector)
                requires
                    i < 32,
                    j < 32,
            ;
        }
        r
    } else {
        let r = w & !(1u32 << i);
        assert forall|j: u32| j < 32 implies #[trigger] bit_of(r, j) == (if j == i { false } else { bit_of(w, j) }) by {
            assert(((w & !(1u32 << i)) >> j) & 1u32 == 1u32 <==> (j != i && (w >> j) & 1u32 == 1u32))
                by (bit_vector)
                requires
                    i < 32,
                    j < 32,
            ;
        }
        r
    }
}

} // verus!
