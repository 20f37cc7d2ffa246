use vstd::prelude::*;

verus! {

/// Takes one chunk of a download: appends it to what was received so far
/// and reports the whole chunk as consumed, so that the transfer goes on.
pub fn accept_chunk(received: &mut Vec<u8>, chunk: &[u8]) -> (consumed: usize)
    ensures
        final(received)@ == old(received)@ + chunk@,
        consumed == chunk@.len(),
{
    received.extend_from_slice(chunk);
    chunk.len()
}

} // verus!
