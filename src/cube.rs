//! The in-memory lighting pattern of the cube.
use vstd::prelude::*;

use crate::addressing::{
    byte_index_of, in_range, locate, mask_of, same_pos,
    lemma_address_injective, CubePosition,
};
use crate::error::{CubeError, IoFailure};

verus! {

/// Number of bytes in the pattern, and in each write to the cube.
pub const PATTERN_LEN: usize = 16;

/// The pattern with every light off.
pub open spec fn dark() -> Seq<u8> {
    Seq::new(16, |i: int| 0u8)
}

/// Whether the light at `pos` is on in the pattern `bytes`.
pub open spec fn lit_in(bytes: Seq<u8>, pos: CubePosition) -> bool {
    bytes[byte_index_of(pos)] & mask_of(pos) != 0
}

/// The pattern `bytes` with the light at `pos` turned on or off.
pub open spec fn set_in(bytes: Seq<u8>, pos: CubePosition, on: bool) -> Seq<u8> {
    let i = byte_index_of(pos);
    let b = if on {
        bytes[i] | mask_of(pos)
    } else {
        bytes[i] & !mask_of(pos)
    };
    bytes.update(i, b)
}

/// A well-formed pattern: 16 bytes, each using only its low four bits.
pub open spec fn pattern_wf(bytes: Seq<u8>) -> bool {
    &&& bytes.len() == 16
    &&& forall|i: int| 0 <= i < 16 ==> #[trigger] bytes[i] < 16
}

/// Turning bit `j` on or off leaves every other bit below 4 as it was, and
/// the bit itself ends as asked.
proof fn lemma_mask_bits(b: u8, j: u8, k: u8)
    requires
        j < 4,
        k < 4,
    ensures
        (b | (1u8 << j)) & (1u8 << j) != 0,
        (b & !(1u8 << j)) & (1u8 << j) == 0,
        j != k ==> (((b | (1u8 << j)) & (1u8 << k) != 0) == (b & (1u8 << k) != 0)),
        j != k ==> (((b & !(1u8 << j)) & (1u8 << k) != 0) == (b & (1u8 << k) != 0)),
{
    assert(j < 4 ==> (b | (1u8 << j)) & (1u8 << j) != 0) by (bit_vector);
    assert(j < 4 ==> (b & !(1u8 << j)) & (1u8 << j) == 0) by (bit_vector);
    assert(j < 4 && k < 4 && j != k ==> (((b | (1u8 << j)) & (1u8 << k) != 0) == (b & (1u8
        << k) != 0))) by (bit_vector);
    assert(j < 4 && k < 4 && j != k ==> (((b & !(1u8 << j)) & (1u8 << k) != 0) == (b & (1u8
        << k) != 0))) by (bit_vector);
}

/// Once every light is turned off, no position of the cube reads as on.
pub proof fn lemma_clear_then_get(q: CubePosition)
    requires
        in_range(q),
    ensures
        !lit_in(dark(), q),
{
    let m = mask_of(q);
    assert(0u8 & m == 0) by (bit_vector);
}

/// Setting a light reads back as set, setting it on and then off reads back
/// as off, and setting one light leaves every other light as it was.
pub proof fn lemma_set_then_get(bytes: Seq<u8>, pos: CubePosition, q: CubePosition, on: bool)
    requires
        bytes.len() == 16,
        in_range(pos),
        in_range(q),
    ensures
        lit_in(set_in(bytes, pos, on), pos) == on,
        !lit_in(set_in(set_in(bytes, pos, true), pos, false), pos),
        !same_pos(q, pos) ==> lit_in(set_in(bytes, pos, on), q) == lit_in(bytes, q),
{
    lemma_address_injective(pos, q);
    lemma_address_injective(q, pos);
    let i = byte_index_of(pos);
    let j = (3 - pos[0]) as u8;
    let k = (3 - q[0]) as u8;
    lemma_mask_bits(bytes[i], j, k);
    lemma_mask_bits(bytes[i] | mask_of(pos), j, k);
    if !same_pos(q, pos) && byte_index_of(q) == i {
        assert(mask_of(q) != mask_of(pos));
        assert(j != k);
    }
}

/// The lighting pattern of the cube: what the next flush sends to it.
///
/// The methods on this type change the in-memory pattern only; the cube
/// shows it once the bytes of `frame` have been written to it.
pub struct Cube {
    state: [u8; 16],
}

impl View for Cube {
    type V = Seq<u8>;

    closed spec fn view(&self) -> Seq<u8> {
        self.state@
    }
}

impl Cube {
    /// The pattern is well formed.
    pub open spec fn wf(&self) -> bool {
        pattern_wf(self@)
    }

    /// Whether the light at `pos` is on in the pattern.
    pub open spec fn lit(&self, pos: CubePosition) -> bool {
        lit_in(self@, pos)
    }

    /// A cube pattern with every light off.
    pub fn new() -> (r: Cube)
        ensures
            r@ == dark(),
            r.wf(),
    {
        let r = Cube { state: [0u8; 16] };
        proof {
            assert(r@ =~= dark());
        }
        r
    }

    /// Turns the light at `pos` on or off, in the pattern only.
    pub fn set(&mut self, pos: CubePosition, state: bool)
        requires
            old(self).wf(),
            in_range(pos),
        ensures
            final(self)@ == set_in(old(self)@, pos, state),
            final(self).wf(),
    {
        let (idx, mask) = locate(pos);
        let old_byte = self.state[idx];
        let new_byte = if state {
            old_byte | mask
        } else {
            old_byte & !mask
        };
        proof {
            assert(old_byte < 16 && (mask == 1u8 || mask == 2u8 || mask == 4u8 || mask == 8u8)
                ==> (old_byte | mask) < 16 && (old_byte & !mask) < 16) by (bit_vector);
        }
        self.state[idx] = new_byte;
        proof {
            assert(self@ =~= set_in(old(self)@, pos, state));
        }
    }

    /// Returns `true` if the light at `pos` is on in the pattern.
    pub fn get(&self, pos: CubePosition) -> (r: bool)
        requires
            in_range(pos),
        ensures
            r == self.lit(pos),
    {
        let (idx, mask) = locate(pos);
        self.state[idx] & mask != 0
    }

    /// Turns off every light, in the pattern only.
    pub fn clear(&mut self)
        ensures
            final(self)@ == dark(),
            final(self).wf(),
    {
        self.state = [0u8; 16];
        proof {
            assert(self@ =~= dark());
        }
    }

    /// The bytes that a flush sends to the cube: the pattern, in index order.
    pub fn frame(&self) -> (r: [u8; 16])
        ensures
            r@ == self@,
    {
        self.state
    }

    /// Settles a flush, given what the transport returned for the write of
    /// `frame()`: success only when all 16 bytes were taken, and an I/O
    /// error when the write failed or was short. The pattern
    /// stays as it is whatever came back, so a caller may flush again.
    pub fn finish_flush(&self, written: Result<usize, std::io::Error>) -> (r: Result<(), CubeError>)
        ensures
            r is Ok <==> (written is Ok && written->Ok_0 == PATTERN_LEN),
            written is Ok && written->Ok_0 != PATTERN_LEN ==> r == Err::<(), CubeError>(
                CubeError::IoError(IoFailure::Short(written->Ok_0)),
            ),
            written is Err ==> r == Err::<(), CubeError>(
                CubeError::IoError(IoFailure::Transport(written->Err_0)),
            ),
    {
        match written {
            Ok(n) => {
                if n == PATTERN_LEN {
                    Ok(())
                } else {
                    Err(CubeError::IoError(IoFailure::Short(n)))
                }
            },
            Err(e) => Err(CubeError::IoError(IoFailure::Transport(e))),
        }
    }
}

} // verus!
