//! Gathering the current entry's data from the engine's successive reads.
//!
//! The engine fills a buffer and reports how many bytes it placed there: a
//! positive count for more data, zero at the end of the entry, and a negative
//! count for a fault.
use vstd::prelude::*;

verus! {

/// What one of the engine's data reads came to.
#[derive(Clone, Copy, Debug, PartialEq, Eq, Structural)]
pub enum ReadStep {
    /// Bytes were appended; ask the engine again.
    More,
    /// The entry's data is complete.
    Finished,
    /// The engine reported a fault.
    Failed,
}

/// The step that a read reporting `res` bytes leads to.
pub open spec fn read_step(res: int) -> ReadStep {
    if res == 0 {
        ReadStep::Finished
    } else if res < 0 {
        ReadStep::Failed
    } else {
        ReadStep::More
    }
}

/// The data gathered so far after a read reporting `res` bytes in `chunk`.
pub open spec fn gathered(data: Seq<u8>, res: int, chunk: Seq<u8>) -> Seq<u8> {
    if res > 0 {
        data + chunk.take(res)
    } else {
        data
    }
}

/// Takes one report of the engine's data read: `res` is its count and `chunk`
/// the buffer it filled. A positive count appends that many bytes from the
/// front of the buffer to `data`; otherwise `data` stays as it is.
pub fn take_chunk(data: &mut Vec<u8>, res: i64, chunk: &[u8]) -> (r: ReadStep)
    requires
        res <= chunk@.len(),
    ensures
        r == read_step(res as int),
        final(data)@ == gathered(old(data)@, res as int, chunk@),
{
    if res == 0 {
        return ReadStep::Finished;
    }
    if res < 0 {
        return ReadStep::Failed;
    }
    let cap = chunk.len();
    let n = res as usize;
    let ghost start = data@;
    let mut i: usize = 0;
    while i < n
        invariant
            i <= n,
            n == res,
            n <= chunk@.len(),
            data@ == start + chunk@.take(i as int),
        decreases n - i,
    {
        data.push(chunk[i]);
        i += 1;
        assert(data@ =~= start + chunk@.take(i as int));
    }
    ReadStep::More
}

} // verus!
