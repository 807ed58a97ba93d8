use vstd::prelude::*;

verus! {

/// The rank of the `f32` whose bit pattern is `bits` in the total order of
/// IEEE 754 (`totalOrder`, the order of `f32::total_cmp`): negative numbers
/// (sign bit set) come first, larger bit patterns lower; then the positive
/// numbers, larger bit patterns higher.
pub open spec fn total_order_rank(bits: u32) -> int {
    if bits >= 0x8000_0000 {
        -1 - (bits - 0x8000_0000)
    } else {
        bits as int
    }
}

/// The key of a magnitude with bit pattern `bits`: its rank, moved up so
/// that it fits in a `u32`.
pub open spec fn spec_magnitude_key(bits: u32) -> int {
    total_order_rank(bits) + 0x8000_0000
}

/// A key for the magnitude of a bin, given the bit pattern of the magnitude
/// as an `f32`: keys compare as unsigned integers the way the magnitudes
/// compare in the total order of IEEE 754.
pub fn magnitude_key(bits: u32) -> (key: u32)
    ensures
        key as int == spec_magnitude_key(bits),
{
    if bits >= 0x8000_0000 {
        0xFFFF_FFFF - bits
    } else {
        bits + 0x8000_0000
    }
}

/// Keys keep the total order of the magnitudes: one key is below another
/// exactly when its magnitude comes first in the total order, and two keys
/// are equal exactly when the bit patterns are.
pub proof fn lemma_key_order(a: u32, b: u32)
    ensures
        spec_magnitude_key(a) < spec_magnitude_key(b) <==> total_order_rank(a) < total_order_rank(
            b,
        ),
        spec_magnitude_key(a) == spec_magnitude_key(b) <==> a == b,
        0 <= spec_magnitude_key(a) <= u32::MAX,
{
}

} // verus!
