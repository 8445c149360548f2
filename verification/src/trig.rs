//! Quadrant bookkeeping for the cosine kernel. After the argument is
//! scaled to half-periods, the integer quadrant index alone decides the
//! polynomial's sign: an even index keeps the reduced argument on the
//! falling half-wave, an odd one on the rising half-wave.

use vstd::prelude::*;

verus! {

/// The polynomial sign selected by a quadrant index: minus one on an
/// even index, plus one on an odd index, computed branch-free from the
/// lowest bit.
pub fn quadrant_sign(m: i32) -> (s: i32)
    ensures
        s == 2 * (m & 1) - 1,
        m % 2 == 0 ==> s == -1,
        m % 2 != 0 ==> s == 1,
{
    proof {
        assert(m & 1 == 0 || m & 1 == 1) by (bit_vector);
        assert((m % 2 == 0 ==> m & 1 == 0) && (m % 2 != 0 ==> m & 1 == 1)) by (bit_vector);
    }
    (m & 1) * 2 - 1
}

} // verus!
