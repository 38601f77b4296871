use vstd::prelude::*;
use vstd::string::StringSliceAdditionalSpecFns;

use crate::codec::{escaped, push_escaped};
use crate::hex::{hex_bytes, hex_num, push_hex_bytes, push_hex_num};
use crate::protocol::{push_thread_id, thread_id_bytes, SpecificThreadId};

verus! {

/// Errors raised while appending to an outbound packet.
#[derive(Debug, Clone, Copy, PartialEq, Eq)]
pub enum WriteError {
    /// The payload would grow past the packet buffer's capacity.
    PacketBufferOverflow,
}

/// Accumulates the payload of one outbound packet, bounded by a fixed capacity.
pub struct ResponseWriter {
    buf: Vec<u8>,
    cap: usize,
}

impl View for ResponseWriter {
    type V = Seq<u8>;

    closed spec fn view(&self) -> Seq<u8> {
        self.buf@
    }
}

impl ResponseWriter {
    pub closed spec fn capacity(&self) -> nat {
        self.cap as nat
    }

    /// The payload fits in the capacity.
    pub open spec fn wf(&self) -> bool {
        self@.len() <= self.capacity()
    }

    /// An empty response whose payload may hold at most `cap` bytes.
    pub fn new(cap: usize) -> (r: Self)
        ensures
            r.wf(),
            r@ == Seq::<u8>::empty(),
            r.capacity() == cap,
    {
        ResponseWriter { buf: Vec::new(), cap }
    }

    /// Appends raw bytes; fails without changing the payload when they do not fit.
    pub fn write_bytes(&mut self, bytes: &[u8]) -> (r: Result<(), WriteError>)
        requires
            old(self).wf(),
        ensures
            final(self).wf(),
            final(self).capacity() == old(self).capacity(),
            r is Ok <==> old(self)@.len() + bytes@.len() <= old(self).capacity(),
            r is Ok ==> final(self)@ == old(self)@ + bytes@,
            r is Err ==> final(self)@ == old(self)@,
    {
        if bytes.len() > self.cap - self.buf.len() {
            return Err(WriteError::PacketBufferOverflow);
        }
        let mut i: usize = 0;
        while i < bytes.len()
            invariant
                0 <= i <= bytes@.len(),
                self.cap == old(self).cap,
                old(self)@.len() + bytes@.len() <= self.cap,
                self.buf@ == old(self)@ + bytes@.subrange(0, i as int),
            decreases bytes@.len() - i,
        {
            self.buf.push(bytes[i]);
            i = i + 1;
        }
        assert(bytes@.subrange(0, bytes@.len() as int) == bytes@);
        Ok(())
    }

    /// Appends the bytes of a string.
    pub fn write_str(&mut self, s: &str) -> (r: Result<(), WriteError>)
        requires
            old(self).wf(),
        ensures
            final(self).wf(),
            final(self).capacity() == old(self).capacity(),
            r is Ok <==> old(self)@.len() + s.spec_bytes().len() <= old(self).capacity(),
            r is Ok ==> final(self)@ == old(self)@ + s.spec_bytes(),
            r is Err ==> final(self)@ == old(self)@,
    {
        self.write_bytes(s.as_bytes())
    }

    /// Appends a number in lower-case hex, without padding.
    pub fn write_num(&mut self, n: u64) -> (r: Result<(), WriteError>)
        requires
            old(self).wf(),
        ensures
            final(self).wf(),
            final(self).capacity() == old(self).capacity(),
            r is Ok <==> old(self)@.len() + hex_num(n as nat).len() <= old(self).capacity(),
            r is Ok ==> final(self)@ == old(self)@ + hex_num(n as nat),
            r is Err ==> final(self)@ == old(self)@,
    {
        let mut v: Vec<u8> = Vec::new();
        push_hex_num(&mut v, n);
        assert(v@ =~= hex_num(n as nat));
        self.write_bytes(v.as_slice())
    }

    /// Appends each byte as two lower-case hex digits.
    pub fn write_hex_buf(&mut self, bytes: &[u8]) -> (r: Result<(), WriteError>)
        requires
            old(self).wf(),
        ensures
            final(self).wf(),
            final(self).capacity() == old(self).capacity(),
            r is Ok <==> old(self)@.len() + hex_bytes(bytes@).len() <= old(self).capacity(),
            r is Ok ==> final(self)@ == old(self)@ + hex_bytes(bytes@),
            r is Err ==> final(self)@ == old(self)@,
    {
        let mut v: Vec<u8> = Vec::new();
        push_hex_bytes(&mut v, bytes);
        assert(v@ =~= hex_bytes(bytes@));
        self.write_bytes(v.as_slice())
    }

    /// Appends raw binary data, escaping the frame's metacharacters.
    pub fn write_binary(&mut self, bytes: &[u8]) -> (r: Result<(), WriteError>)
        requires
            old(self).wf(),
        ensures
            final(self).wf(),
            final(self).capacity() == old(self).capacity(),
            r is Ok <==> old(self)@.len() + escaped(bytes@).len() <= old(self).capacity(),
            r is Ok ==> final(self)@ == old(self)@ + escaped(bytes@),
            r is Err ==> final(self)@ == old(self)@,
    {
        let mut v: Vec<u8> = Vec::new();
        push_escaped(&mut v, bytes);
        assert(v@ =~= escaped(bytes@));
        self.write_bytes(v.as_slice())
    }

    /// Appends a thread id, as `p<pid>.<tid>` when it names a process.
    pub fn write_specific_thread_id(&mut self, t: SpecificThreadId) -> (r: Result<(), WriteError>)
        requires
            old(self).wf(),
        ensures
            final(self).wf(),
            final(self).capacity() == old(self).capacity(),
            r is Ok <==> old(self)@.len() + thread_id_bytes(t).len() <= old(self).capacity(),
            r is Ok ==> final(self)@ == old(self)@ + thread_id_bytes(t),
            r is Err ==> final(self)@ == old(self)@,
    {
        let mut v: Vec<u8> = Vec::new();
        push_thread_id(&mut v, t);
        assert(v@ =~= thread_id_bytes(t));
        self.write_bytes(v.as_slice())
    }

    /// The payload written so far.
    pub fn as_bytes(&self) -> (r: &[u8])
        ensures
            r@ == self@,
    {
        self.buf.as_slice()
    }
}

/// Appends the bytes of a string.
pub fn push_str(v: &mut Vec<u8>, s: &str)
    ensures
        final(v)@ == old(v)@ + s.spec_bytes(),
{
    let b = s.as_bytes();
    let mut i: usize = 0;
    while i < b.len()
        invariant
            0 <= i <= b@.len(),
            b@ == s.spec_bytes(),
            v@ == old(v)@ + b@.subrange(0, i as int),
        decreases b@.len() - i,
    {
        v.push(b[i]);
        assert(b@.subrange(0, i + 1) =~= b@.subrange(0, i as int).push(b@[i as int]));
        i = i + 1;
    }
    assert(b@.subrange(0, b@.len() as int) =~= b@);
}

} // verus!
