//! Small helpers on byte buffers.
use vstd::prelude::*;

verus! {

/// Appends `src` to `buf`.
pub fn extend(buf: &mut Vec<u8>, src: &[u8])
    ensures
        final(buf)@ == old(buf)@ + src@,
{
    buf.extend_from_slice(src);
    assert(buf@ =~= old(buf)@ + src@);
}

/// A copy of `src` as an owned buffer.
pub fn to_vec(src: &[u8]) -> (v: Vec<u8>)
    ensures
        v@ == src@,
{
    vstd::slice::slice_to_vec(src)
}

} // verus!
