//! The byte buffer: consumption always removes a prefix.

use vstd::prelude::*;

verus! {

/// Removes the first `count` bytes of `buffer` and keeps the rest in order.
///
/// Takes time in proportion to what is left.
pub fn drain_front(buffer: &mut Vec<u8>, count: usize)
    requires
        count <= old(buffer)@.len(),
    ensures
        final(buffer)@ == old(buffer)@.skip(count as int),
{
    let tail = buffer.split_off(count);
    *buffer = tail;
}

/// Puts `bytes` at the end of `buffer`.
pub fn append(buffer: &mut Vec<u8>, bytes: &[u8])
    ensures
        final(buffer)@ == old(buffer)@ + bytes@,
{
    buffer.extend_from_slice(bytes);
    assert(buffer@ =~= old(buffer)@ + bytes@);
}

} // verus!
