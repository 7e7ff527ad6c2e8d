//! Accumulation of an upload stream into one buffer, under an explicit ceiling.
use vstd::prelude::*;
use vstd::string::*;
use crate::error::AppError;

verus! {

/// Appends one chunk of the upload stream to `buf`, keeping arrival order.
/// Where the buffer would grow past `cap` bytes, nothing is appended and the
/// read fails with `ReadError`.
pub fn append_chunk(buf: &mut Vec<u8>, chunk: &[u8], cap: usize) -> (r: Result<(), AppError>)
    ensures
        old(buf)@.len() + chunk@.len() <= cap ==> (r is Ok && final(buf)@ == old(buf)@ + chunk@),
        old(buf)@.len() + chunk@.len() > cap ==> (r is Err && r->Err_0 is ReadError && final(buf)@
            == old(buf)@),
{
    if chunk.len() > cap || buf.len() > cap - chunk.len() {
        return Err(AppError::ReadError(String::from_str("upload exceeds the size ceiling")));
    }
    let ghost start = buf@;
    let mut i: usize = 0;
    while i < chunk.len()
        invariant
            i <= chunk@.len(),
            buf@ == start + chunk@.subrange(0, i as int),
        decreases chunk@.len() - i,
    {
        buf.push(chunk[i]);
        assert(chunk@.subrange(0, i + 1) =~= chunk@.subrange(0, i as int).push(chunk@[i as int]));
        i = i + 1;
    }
    assert(chunk@.subrange(0, chunk@.len() as int) =~= chunk@);
    Ok(())
}

} // verus!
