//! The string tag type: a length-prefixed run of bytes.

use vstd::prelude::*;

verus! {

/// Marker for the string tag type.
pub struct Type;

/// Skips one length-prefixed string: reads a big-endian 16-bit length and
/// then passes over that many bytes, stopping early when the input runs out.
pub fn skip(input: &[u8], pos: &mut usize)
    requires
        *old(pos) <= input@.len(),
    ensures
        *final(pos) == super::spec_advance(
            input@.len() as int,
            super::spec_advance(input@.len() as int, *old(pos) as int, 2),
            super::spec_be_u16(input@, *old(pos) as int) as int,
        ),
        *final(pos) <= input@.len(),
{
    let u = super::read_unsigned_short(input, pos);
    let ghost mid = *pos;
    let mut k: u16 = 0;
    while k < u
        invariant
            k <= u,
            *pos <= input@.len(),
            *pos == super::spec_advance(input@.len() as int, mid as int, k as int),
        decreases u - k,
    {
        let _ = super::read_u8(input, pos);
        k += 1;
    }
}

} // verus!
