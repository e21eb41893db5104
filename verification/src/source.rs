//! The readable byte source capability and two concrete sources.

use vstd::prelude::*;

verus! {

/// The two ways a read operation can fail: the underlying source reported an
/// I/O failure, or the collected bytes were not valid UTF-8 text.
#[derive(Clone, Copy, Debug, PartialEq, Eq, Structural)]
pub enum ReadError {
    Io,
    Decode,
}

/// Anything able to hand over all bytes it still holds, up to its end.
///
/// `remaining` is the sequence of bytes the source would deliver from its
/// current position to its end; `reliable` says whether a read is guaranteed
/// to succeed (an in-memory source is reliable; a device may not be).
pub trait ByteSource {
    spec fn remaining(&self) -> Seq<u8>;

    spec fn reliable(&self) -> bool;

    /// Reads every remaining byte, advancing the source to its end.
    fn read_rest(&mut self) -> (r: Result<Vec<u8>, ReadError>)
        ensures
            r matches Ok(v) ==> v@ == old(self).remaining() && final(self).remaining() == Seq::<
                u8,
            >::empty(),
            r matches Err(e) ==> e == ReadError::Io && !old(self).reliable(),
    ;
}

/// An in-memory byte source: reading drains the buffer and never fails.
pub struct MemSource {
    data: Vec<u8>,
}

impl MemSource {
    pub fn new(data: Vec<u8>) -> (r: MemSource)
        ensures
            r.remaining() == data@,
            r.reliable(),
    {
        MemSource { data }
    }
}

impl ByteSource for MemSource {
    closed spec fn remaining(&self) -> Seq<u8> {
        self.data@
    }

    closed spec fn reliable(&self) -> bool {
        true
    }

    fn read_rest(&mut self) -> (r: Result<Vec<u8>, ReadError>) {
        let mut out: Vec<u8> = Vec::new();
        core::mem::swap(&mut self.data, &mut out);
        Ok(out)
    }
}

/// A source that reports an I/O failure on every read.
pub struct FailSource {}

impl FailSource {
    pub fn new() -> (r: FailSource)
        ensures
            !r.reliable(),
    {
        FailSource {}
    }
}

impl ByteSource for FailSource {
    closed spec fn remaining(&self) -> Seq<u8> {
        Seq::empty()
    }

    closed spec fn reliable(&self) -> bool {
        false
    }

    fn read_rest(&mut self) -> (r: Result<Vec<u8>, ReadError>) {
        Err(ReadError::Io)
    }
}

} // verus!
