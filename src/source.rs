//! The byte-source adapter: answers the engine's pull requests from any byte
//! source, one read of the source per request.
use vstd::prelude::*;

verus! {

/// The size of the scratch buffer that answers each pull request, and of the
/// blocks in which entry data is read.
pub const BLOCK_SIZE: usize = 10240;

/// What a pull request is answered with, given the count that the source's read
/// reported (`None` when the read failed) and the capacity of the buffer: the
/// count itself, or the engine's failure sentinel -1 when the read failed or
/// claimed more bytes than the buffer holds (or than the engine's signed count
/// can carry).
pub open spec fn pull_reply(count: Option<usize>, capacity: nat) -> int {
    match count {
        Some(n) => if n <= capacity && n <= i64::MAX {
            n as int
        } else {
            -1
        },
        None => -1,
    }
}

/// A byte source together with the scratch buffer that the engine is pointed at.
pub struct Reader<R> {
    /// The wrapped byte source.
    pub reader: R,
    /// The scratch buffer that each read of the source fills.
    pub buffer: Vec<u8>,
}

impl<R> Reader<R> {
    /// Wraps a byte source, with a zeroed scratch buffer of `BLOCK_SIZE` bytes.
    pub fn new(reader: R) -> (r: Reader<R>)
        ensures
            r.reader == reader,
            r.buffer@ == Seq::new(BLOCK_SIZE as nat, |i: int| 0u8),
    {
        let mut buffer: Vec<u8> = Vec::with_capacity(BLOCK_SIZE);
        let mut i: usize = 0;
        while i < BLOCK_SIZE
            invariant
                i <= BLOCK_SIZE,
                buffer@ == Seq::new(i as nat, |j: int| 0u8),
            decreases BLOCK_SIZE - i,
        {
            buffer.push(0u8);
            i += 1;
            assert(buffer@ =~= Seq::new(i as nat, |j: int| 0u8));
        }
        Reader { reader, buffer }
    }

    /// The answer to the engine's pull request once the source's read returned
    /// `count` bytes into the buffer (`None`: the read failed).
    pub fn reply(&self, count: Option<usize>) -> (r: i64)
        ensures
            r == pull_reply(count, self.buffer@.len()),
    {
        match count {
            Some(n) => if n <= self.buffer.len() && n as u64 <= i64::MAX as u64 {
                n as i64
            } else {
                -1
            },
            None => -1,
        }
    }
}

} // verus!
