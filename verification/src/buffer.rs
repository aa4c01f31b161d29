//! The session-scoped holding area for compressed bytes awaiting
//! retrieval, and its ownership protocol: bytes the engine produced go in
//! exactly once, and a drain hands every pending byte to the caller.

use vstd::prelude::*;

verus! {

/// `a + n`, capped at the largest value a running total can hold.
pub open spec fn sat_add_u64(a: u64, n: nat) -> u64 {
    if a + n <= u64::MAX {
        (a + n) as u64
    } else {
        u64::MAX
    }
}

/// Compressed bytes produced since the session began that the caller has
/// not yet retrieved, together with a running total of every byte ever
/// produced (the total saturates, the pending bytes do not).
pub struct OutputBuffer {
    pub bytes: Vec<u8>,
    pub total: u64,
}

impl OutputBuffer {
    /// An empty buffer: no session output exists yet.
    pub fn new() -> (r: OutputBuffer)
        ensures
            r.bytes@ == Seq::<u8>::empty(),
            r.total == 0,
    {
        OutputBuffer { bytes: Vec::new(), total: 0 }
    }

    /// How many bytes are currently pending retrieval.
    pub fn length(&self) -> (r: usize)
        ensures
            r == self.bytes@.len(),
    {
        self.bytes.len()
    }

    /// Record a batch of bytes the engine produced: the batch is appended
    /// to the pending bytes, and the running total grows by its length.
    pub fn append(&mut self, chunk: Vec<u8>)
        ensures
            final(self).bytes@ == old(self).bytes@ + chunk@,
            final(self).total == sat_add_u64(old(self).total, chunk@.len() as nat),
            final(self).total >= old(self).total,
    {
        let mut c = chunk;
        let n = c.len();
        if self.total <= u64::MAX - (n as u64) {
            self.total = self.total + (n as u64);
        } else {
            self.total = u64::MAX;
        }
        self.bytes.append(&mut c);
    }

    /// Retrieve every pending byte, in production order, leaving the
    /// buffer empty; the running total is unchanged.
    pub fn drain(&mut self) -> (r: Vec<u8>)
        ensures
            r@ == old(self).bytes@,
            final(self).bytes@ == Seq::<u8>::empty(),
            final(self).total == old(self).total,
    {
        let mut r: Vec<u8> = Vec::new();
        core::mem::swap(&mut r, &mut self.bytes);
        r
    }
}

} // verus!
