//! Staged byte buffer for one flow direction of a proxied connection.
//!
//! The buffer holds bytes that have been read from a socket but not yet
//! consumed by the protocol parser or written to the downstream socket.
//! The embedding program appends whatever a non-blocking read returned with
//! [`Buffer::extend`], and removes whatever a non-blocking write accepted
//! with [`Buffer::skip`]; everything in between is verified byte handling.

use vstd::prelude::*;

verus! {

/// Big-endian 16-bit value formed from two bytes.
pub open spec fn be16(hi: u8, lo: u8) -> u16 {
    ((hi as int) * 256 + (lo as int)) as u16
}

/// A growable FIFO byte buffer; its view is the sequence of pending bytes,
/// oldest first.
pub struct Buffer {
    pub data: Vec<u8>,
}

impl View for Buffer {
    type V = Seq<u8>;

    open spec fn view(&self) -> Seq<u8> {
        self.data@
    }
}

impl Buffer {
    /// An empty buffer.
    pub fn new() -> (r: Buffer)
        ensures
            r@ == Seq::<u8>::empty(),
    {
        Buffer { data: Vec::new() }
    }

    /// Number of pending bytes.
    pub fn len(&self) -> (r: usize)
        ensures
            r == self@.len(),
    {
        self.data.len()
    }

    /// The byte at position `i`, counted from the oldest pending byte.
    pub fn get(&self, i: usize) -> (r: u8)
        requires
            i < self@.len(),
        ensures
            r == self@[i as int],
    {
        self.data[i]
    }

    /// Append bytes obtained from a socket read to the back of the buffer.
    pub fn extend(&mut self, chunk: &Vec<u8>)
        ensures
            final(self)@ == old(self)@ + chunk@,
    {
        self.data.extend_from_slice(chunk.as_slice());
    }

    /// Append one byte to the back of the buffer.
    pub fn write_u8(&mut self, b: u8)
        ensures
            final(self)@ == old(self)@.push(b),
    {
        self.data.push(b);
    }

    /// Discard the `n` oldest pending bytes.
    pub fn skip(&mut self, n: usize)
        requires
            n <= old(self)@.len(),
        ensures
            final(self)@ == old(self)@.skip(n as int),
    {
        let mut i: usize = 0;
        while i < n
            invariant
                i <= n,
                n <= old(self)@.len(),
                self@ == old(self)@.skip(i as int),
            decreases n - i,
        {
            self.data.remove(0);
            i = i + 1;
            proof {
                assert(self@ =~= old(self)@.skip(i as int));
            }
        }
    }

    /// Remove and return the `n` oldest pending bytes, in order.
    pub fn read_exact(&mut self, n: usize) -> (r: Vec<u8>)
        requires
            n <= old(self)@.len(),
        ensures
            r@ == old(self)@.take(n as int),
            final(self)@ == old(self)@.skip(n as int),
    {
        let mut out: Vec<u8> = Vec::new();
        let mut i: usize = 0;
        while i < n
            invariant
                i <= n,
                n <= self@.len(),
                self@ == old(self)@,
                out@ == old(self)@.take(i as int),
            decreases n - i,
        {
            out.push(self.data[i]);
            i = i + 1;
        }
        self.skip(n);
        out
    }

    /// Remove the two oldest pending bytes and return them as a big-endian
    /// 16-bit value.
    pub fn read_u16(&mut self) -> (r: u16)
        requires
            old(self)@.len() >= 2,
        ensures
            r == be16(old(self)@[0], old(self)@[1]),
            final(self)@ == old(self)@.skip(2),
    {
        let hi = self.data[0];
        let lo = self.data[1];
        self.skip(2);
        (hi as u16) * 256 + (lo as u16)
    }

    /// A copy of the pending bytes at positions `from..to`, without
    /// consuming them.
    pub fn slice(&self, from: usize, to: usize) -> (r: Vec<u8>)
        requires
            from <= to,
            to <= self@.len(),
        ensures
            r@ == self@.subrange(from as int, to as int),
    {
        let mut out: Vec<u8> = Vec::new();
        let mut i: usize = from;
        while i < to
            invariant
                from <= i <= to,
                to <= self@.len(),
                out@ == self@.subrange(from as int, i as int),
            decreases to - i,
        {
            out.push(self.data[i]);
            i = i + 1;
            proof {
                assert(out@ =~= self@.subrange(from as int, i as int));
            }
        }
        out
    }

    /// A copy of all pending bytes, oldest first; what a socket write should
    /// try to send.
    pub fn to_vec(&self) -> (r: Vec<u8>)
        ensures
            r@ == self@,
    {
        let mut out: Vec<u8> = Vec::new();
        let mut i: usize = 0;
        let n = self.data.len();
        while i < n
            invariant
                i <= n,
                n == self@.len(),
                out@ == self@.take(i as int),
            decreases n - i,
        {
            out.push(self.data[i]);
            i = i + 1;
        }
        proof {
            assert(self@.take(n as int) == self@);
        }
        out
    }
}

} // verus!
