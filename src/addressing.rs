//! Where each light of the cube lives in the 16-byte pattern.
//!
//! The wiring of the cube runs opposite to the coordinates offered to
//! callers on every axis, so each coordinate `n` is first flipped to `3 - n`.
//! The byte index is then `4 * flip(y) + flip(z)` and the bit within that
//! byte is `flip(x)`.
use vstd::prelude::*;

verus! {

/// A position on the cube, of the form `[x, y, z]`.
pub type CubePosition = [usize; 3];

/// Every component of `pos` is below 4.
pub open spec fn in_range(pos: CubePosition) -> bool {
    pos[0] < 4 && pos[1] < 4 && pos[2] < 4
}

/// The axis flip between caller coordinates and the cube's wiring.
pub open spec fn inv(n: int) -> int {
    3 - n
}

/// Index of the pattern byte that holds the light at `pos`.
pub open spec fn byte_index_of(pos: CubePosition) -> int {
    4 * inv(pos[1] as int) + inv(pos[2] as int)
}

/// Position of the light at `pos` within its pattern byte.
pub open spec fn bit_of(pos: CubePosition) -> int {
    inv(pos[0] as int)
}

/// The single-bit mask that selects the light at `pos` within its byte.
pub open spec fn mask_of(pos: CubePosition) -> u8 {
    1u8 << (bit_of(pos) as u8)
}

/// The two positions name the same light.
pub open spec fn same_pos(a: CubePosition, b: CubePosition) -> bool {
    a[0] == b[0] && a[1] == b[1] && a[2] == b[2]
}

/// `m` has exactly one bit set, and that bit lies in the low four bits.
pub open spec fn is_low_nibble_bit(m: u8) -> bool {
    m == 1u8 || m == 2u8 || m == 4u8 || m == 8u8
}

/// Flips a coordinate from the caller's orientation to the cube's wiring.
pub fn invert4(n: usize) -> (r: usize)
    requires
        n < 4,
    ensures
        r == inv(n as int),
{
    3 - n
}

/// Returns whether every component of `pos` is below 4.
pub fn in_bounds(pos: CubePosition) -> (r: bool)
    ensures
        r == in_range(pos),
{
    pos[0] < 4 && pos[1] < 4 && pos[2] < 4
}

/// The range contract of every operation on a position: each component of
/// `pos` must be below 4. A position outside the cube is a defect of the
/// caller, so this is a precondition and never a value to handle.
pub fn check_bounds(pos: CubePosition)
    requires
        in_range(pos),
{
}

/// The mask for bit `k` of a byte, for `k` below 4.
proof fn lemma_low_bit_mask(k: u8)
    requires
        k < 4,
    ensures
        is_low_nibble_bit(1u8 << k),
{
    assert(k < 4 ==> (1u8 << k == 1u8 || 1u8 << k == 2u8 || 1u8 << k == 4u8 || 1u8 << k == 8u8))
        by (bit_vector);
}

/// Distinct bits below 4 give distinct masks.
proof fn lemma_mask_injective(j: u8, k: u8)
    requires
        j < 4,
        k < 4,
        1u8 << j == 1u8 << k,
    ensures
        j == k,
{
    assert(j < 4 && k < 4 && 1u8 << j == 1u8 << k ==> j == k) by (bit_vector);
}

/// Locates the light at `pos`: its byte index in the pattern and its mask
/// within that byte.
pub fn locate(pos: CubePosition) -> (r: (usize, u8))
    requires
        in_range(pos),
    ensures
        r.0 == byte_index_of(pos),
        r.1 == mask_of(pos),
        r.0 < 16,
        is_low_nibble_bit(r.1),
{
    check_bounds(pos);
    let idx = 4 * invert4(pos[1]) + invert4(pos[2]);
    let bit = invert4(pos[0]) as u8;
    proof {
        lemma_low_bit_mask(bit);
    }
    (idx, 1u8 << bit)
}

/// The addressing function: locates the light at `pos`, or returns `None`
/// when a component of `pos` is 4 or more, so that no position outside the
/// cube ever reaches the pattern.
pub fn address(pos: CubePosition) -> (r: Option<(usize, u8)>)
    ensures
        r is Some <==> in_range(pos),
        r is Some ==> r->Some_0.0 == byte_index_of(pos) && r->Some_0.1 == mask_of(pos),
{
    if in_bounds(pos) {
        Some(locate(pos))
    } else {
        None
    }
}

/// Every position of the cube has a byte index below 16 and a mask of a
/// single bit in the low four bits of its byte, and no two positions share
/// both.
pub proof fn lemma_address_injective(a: CubePosition, b: CubePosition)
    requires
        in_range(a),
        in_range(b),
    ensures
        0 <= byte_index_of(a) < 16,
        is_low_nibble_bit(mask_of(a)),
        byte_index_of(a) == byte_index_of(b) && mask_of(a) == mask_of(b) ==> same_pos(a, b),
{
    lemma_low_bit_mask(bit_of(a) as u8);
    if byte_index_of(a) == byte_index_of(b) && mask_of(a) == mask_of(b) {
        lemma_mask_injective(bit_of(a) as u8, bit_of(b) as u8);
    }
}

} // verus!
