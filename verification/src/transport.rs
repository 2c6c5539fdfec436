//! The transport capability a connection handler depends on.
//!
//! The handler is written against this abstract bidirectional byte stream
//! rather than a concrete socket type, so its logic can be exercised without
//! binding a real port. `MemStream` is the in-memory implementation: its
//! reads serve a pre-loaded buffer and its writes are captured for
//! post-hoc inspection.

use vstd::prelude::*;

verus! {

/// A duplex byte stream: a pre-determined inbound side that reads consume
/// from the front of, and an outbound side that writes append to.
pub trait Transport {
    /// The bytes the peer has sent: what reads draw from.
    spec fn inbound(&self) -> Seq<u8>;

    /// The bytes written to the peer so far.
    spec fn outbound(&self) -> Seq<u8>;

    /// Read once into `buf`, filling it from the front of the inbound bytes:
    /// as many as fit, fewer only when fewer are available (a short read is
    /// not retried). The rest of `buf` keeps its old contents.
    fn read_into(&mut self, buf: &mut Vec<u8>) -> (n: usize)
        ensures
            n as int == if old(self).inbound().len() <= old(buf)@.len() {
                old(self).inbound().len() as int
            } else {
                old(buf)@.len() as int
            },
            final(buf)@ == old(self).inbound().take(n as int) + old(buf)@.skip(n as int),
            final(self).inbound() == old(self).inbound(),
            final(self).outbound() == old(self).outbound(),
    ;

    /// Write all of `data` after what was written before.
    fn write_all(&mut self, data: &Vec<u8>)
        ensures
            final(self).outbound() == old(self).outbound() + data@,
            final(self).inbound() == old(self).inbound(),
    ;

    /// Push buffered writes out; the bytes written do not change.
    fn flush(&mut self)
        ensures
            final(self).outbound() == old(self).outbound(),
            final(self).inbound() == old(self).inbound(),
    ;

    /// Release the stream; the bytes written do not change.
    fn close(&mut self)
        ensures
            final(self).outbound() == old(self).outbound(),
            final(self).inbound() == old(self).inbound(),
    ;
}

/// An in-memory stream: reads serve `read_data`, writes land in
/// `write_data`.
pub struct MemStream {
    read_data: Vec<u8>,
    write_data: Vec<u8>,
}

impl MemStream {
    /// A stream whose peer has sent exactly `read_data` and to which
    /// nothing has been written yet.
    pub fn new(read_data: Vec<u8>) -> (s: MemStream)
        ensures
            s.inbound() == read_data@,
            s.outbound() == Seq::<u8>::empty(),
    {
        MemStream { read_data, write_data: Vec::new() }
    }

    /// The bytes written so far, for inspection after a handler ran.
    pub fn written(&self) -> (w: &Vec<u8>)
        ensures
            w@ == self.outbound(),
    {
        &self.write_data
    }
}

impl Transport for MemStream {
    closed spec fn inbound(&self) -> Seq<u8> {
        self.read_data@
    }

    closed spec fn outbound(&self) -> Seq<u8> {
        self.write_data@
    }

    fn read_into(&mut self, buf: &mut Vec<u8>) -> (n: usize) {
        let n: usize = if self.read_data.len() <= buf.len() {
            self.read_data.len()
        } else {
            buf.len()
        };
        let mut i: usize = 0;
        while i < n
            invariant
                i <= n,
                n <= self.read_data@.len(),
                n <= buf@.len(),
                buf@.len() == old(buf)@.len(),
                self == old(self),
                buf@ == self.read_data@.take(i as int) + old(buf)@.skip(i as int),
            decreases n - i,
        {
            let b = self.read_data[i];
            buf[i] = b;
            proof {
                assert(buf@ =~= self.read_data@.take(i as int + 1) + old(buf)@.skip(i as int + 1));
            }
            i = i + 1;
        }
        proof {
            assert(buf@ =~= self.inbound().take(n as int) + old(buf)@.skip(n as int));
        }
        n
    }

    fn write_all(&mut self, data: &Vec<u8>) {
        let mut i: usize = 0;
        while i < data.len()
            invariant
                i <= data@.len(),
                self.read_data@ == old(self).read_data@,
                self.write_data@ == old(self).write_data@ + data@.take(i as int),
            decreases data@.len() - i,
        {
            self.write_data.push(data[i]);
            proof {
                assert(old(self).write_data@ + data@.take(i as int) + seq![data@[i as int]]
                    =~= old(self).write_data@ + data@.take(i as int + 1));
            }
            i = i + 1;
        }
        proof {
            assert(old(self).write_data@ + data@.take(data@.len() as int)
                =~= old(self).write_data@ + data@);
        }
    }

    fn flush(&mut self) {
    }

    fn close(&mut self) {
    }
}

} // verus!
