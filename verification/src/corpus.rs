//! The pseudo-random generator behind the synthetic test images.
use vstd::prelude::*;

verus! {

/// One step of the xorshift32 generator (shifts 13, 17, 5).
pub open spec fn xorshift32_spec(s: u32) -> u32 {
    let a = s ^ (s << 13u32);
    let b = a ^ (a >> 17u32);
    b ^ (b << 5u32)
}

/// Advance the generator state by one step.
pub fn xorshift32(state: u32) -> (r: u32)
    ensures
        r == xorshift32_spec(state),
{
    let mut s = state;
    s = s ^ (s << 13u32);
    s = s ^ (s >> 17u32);
    s = s ^ (s << 5u32);
    s
}

/// Every step is invertible, so a non-zero state never reaches zero and the
/// noise never degenerates to a constant.
pub proof fn lemma_xorshift32_nonzero(s: u32)
    ensures
        s != 0 ==> xorshift32_spec(s) != 0,
{
    assert(s != 0 ==> ((s ^ (s << 13u32)) ^ ((s ^ (s << 13u32)) >> 17u32)) ^ (((s ^ (s << 13u32))
        ^ ((s ^ (s << 13u32)) >> 17u32)) << 5u32) != 0) by (bit_vector);
}

} // verus!
