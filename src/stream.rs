//! Blocking byte streams as seen by the protocol, and in-memory streams.
//!
//! A source is modelled by the bytes it will still yield; a sink by the bytes it has
//! accepted. A stream that is *reliable* fails only by running out of bytes: the
//! in-memory streams here are, a file or a pipe need not be.

use vstd::prelude::*;
use crate::error::StreamError;

verus! {

/// A stream that bytes are read from.
///
/// A stream may carry a model of itself: then it is *reliable*, and its reads yield
/// `pending` in order and fail only when `pending` runs out. A stream without a model,
/// such as a file or a pipe, keeps the defaults: not reliable, and nothing promised of
/// its bytes but their number.
pub trait ByteSource {
    /// The bytes that the stream will yield next, in order.
    closed spec fn pending(&self) -> Seq<u8> {
        Seq::empty()
    }

    /// The bytes that the stream has yielded so far, in order.
    closed spec fn consumed(&self) -> Seq<u8> {
        Seq::empty()
    }

    /// Whether the stream's reads follow `pending` and fail only when it runs out.
    closed spec fn reads_reliably(&self) -> bool {
        false
    }

    /// Reads exactly `n` bytes, blocking until they arrive or the stream ends.
    fn read_exact(&mut self, n: usize) -> (r: Result<Vec<u8>, StreamError>)
        ensures
            final(self).reads_reliably() == old(self).reads_reliably(),
            r matches Ok(v) ==> v@.len() == n,
            old(self).reads_reliably() ==> match r {
                Ok(v) => {
                    &&& old(self).pending() == v@ + final(self).pending()
                    &&& final(self).consumed() == old(self).consumed() + v@
                },
                Err(e) => {
                    &&& e == StreamError::Eof
                    &&& old(self).pending().len() < n
                    &&& final(self).pending() == old(self).pending()
                    &&& final(self).consumed() == old(self).consumed()
                },
            },
            old(self).reads_reliably() && n <= old(self).pending().len() ==> r is Ok,
    ;
}

/// A stream that bytes are written to.
///
/// As with sources, a sink with a model of itself is *reliable*: it accepts every write
/// and records it in `sent`. Others keep the defaults.
pub trait ByteSink {
    /// The bytes that the stream has accepted so far, in order.
    closed spec fn sent(&self) -> Seq<u8> {
        Seq::empty()
    }

    /// Whether the stream accepts every write and records it in `sent`.
    closed spec fn writes_reliably(&self) -> bool {
        false
    }

    /// Writes all of `bytes`, blocking until the transport has accepted them.
    fn write_all(&mut self, bytes: &[u8]) -> (r: Result<(), StreamError>)
        ensures
            final(self).writes_reliably() == old(self).writes_reliably(),
            old(self).writes_reliably() ==> r is Ok && final(self).sent() == old(self).sent()
                + bytes@,
    ;

    /// Blocks until buffered bytes are emitted.
    fn flush(&mut self) -> (r: Result<(), StreamError>)
        ensures
            final(self).writes_reliably() == old(self).writes_reliably(),
            old(self).writes_reliably() ==> r is Ok && final(self).sent() == old(self).sent(),
    ;
}

/// An in-memory stream over a byte vector with a position, read from and written at
/// that position. Reading yields the bytes after the position; writing overwrites
/// from the position and extends the vector past its end.
pub struct Cursor {
    data: Vec<u8>,
    pos: usize,
}

impl Cursor {
    #[verifier::type_invariant]
    spec fn inv(&self) -> bool {
        self.pos <= self.data@.len()
    }

    /// All the bytes that the cursor holds.
    pub closed spec fn contents(&self) -> Seq<u8> {
        self.data@
    }

    /// The position of the cursor.
    pub closed spec fn offset(&self) -> nat {
        self.pos as nat
    }

    /// A cursor at the start of `data`.
    pub fn new(data: Vec<u8>) -> (r: Cursor)
        ensures
            r.contents() == data@,
            r.offset() == 0,
    {
        Cursor { data, pos: 0 }
    }

    /// The position of the cursor: the number of bytes read or written so far.
    pub fn position(&self) -> (r: usize)
        ensures
            r == self.offset(),
            r <= self.contents().len(),
    {
        proof {
            use_type_invariant(self);
        }
        self.pos
    }

    /// All the bytes that the cursor holds, read or not.
    pub fn into_inner(self) -> (r: Vec<u8>)
        ensures
            r@ == self.contents(),
    {
        self.data
    }
}

impl ByteSource for Cursor {
    open spec fn pending(&self) -> Seq<u8> {
        self.contents().skip(self.offset() as int)
    }

    open spec fn consumed(&self) -> Seq<u8> {
        self.contents().take(self.offset() as int)
    }

    open spec fn reads_reliably(&self) -> bool {
        true
    }

    fn read_exact(&mut self, n: usize) -> (r: Result<Vec<u8>, StreamError>)
        ensures
            r is Ok ==> final(self).offset() == old(self).offset() + n,
            final(self).contents() == old(self).contents(),
    {
        proof {
            use_type_invariant(&*self);
        }
        if n > self.data.len() - self.pos {
            return Err(StreamError::Eof);
        }
        let start = self.pos;
        let mut out: Vec<u8> = Vec::new();
        let mut i: usize = 0;
        while i < n
            invariant
                start + n <= self.data@.len() <= usize::MAX,
                i <= n,
                out@ == self.data@.subrange(start as int, start + i),
            decreases n - i,
        {
            out.push(self.data[start + i]);
            i = i + 1;
            assert(out@ =~= self.data@.subrange(start as int, start + i));
        }
        self.pos = start + n;
        assert(self.data@.skip(start as int) =~= out@ + self.data@.skip(self.pos as int));
        assert(self.data@.take(self.pos as int) =~= self.data@.take(start as int) + out@);
        Ok(out)
    }
}

impl ByteSink for Cursor {
    open spec fn sent(&self) -> Seq<u8> {
        self.contents().take(self.offset() as int)
    }

    open spec fn writes_reliably(&self) -> bool {
        true
    }

    fn write_all(&mut self, bytes: &[u8]) -> (r: Result<(), StreamError>)
        ensures
            final(self).offset() == old(self).offset() + bytes@.len(),
    {
        proof {
            use_type_invariant(&*self);
        }
        let pos = self.pos;
        let len = self.data.len();
        let mut out: Vec<u8> = Vec::new();
        let mut i: usize = 0;
        while i < pos
            invariant
                pos <= len == self.data@.len(),
                i <= pos,
                out@ == self.data@.take(i as int),
            decreases pos - i,
        {
            out.push(self.data[i]);
            i = i + 1;
            assert(out@ =~= self.data@.take(i as int));
        }
        let mut j: usize = 0;
        while j < bytes.len()
            invariant
                i == pos,
                j <= bytes@.len(),
                out@ == self.data@.take(pos as int) + bytes@.take(j as int),
            decreases bytes@.len() - j,
        {
            out.push(bytes[j]);
            j = j + 1;
            assert(out@ =~= self.data@.take(pos as int) + bytes@.take(j as int));
        }
        assert(bytes@.take(j as int) =~= bytes@);
        let new_pos = out.len();
        let mut k: usize = if bytes.len() <= len - pos {
            pos + bytes.len()
        } else {
            len
        };
        while k < len
            invariant
                pos <= len == self.data@.len(),
                k <= len,
                out@.take(new_pos as int) == self.data@.take(pos as int) + bytes@,
                new_pos <= out@.len(),
            decreases len - k,
        {
            let ghost prev = out@;
            out.push(self.data[k]);
            k = k + 1;
            assert(out@.take(new_pos as int) =~= prev.take(new_pos as int));
        }
        self.data = out;
        self.pos = new_pos;
        Ok(())
    }

    fn flush(&mut self) -> (r: Result<(), StreamError>) {
        Ok(())
    }
}

impl ByteSink for Vec<u8> {
    open spec fn sent(&self) -> Seq<u8> {
        self@
    }

    open spec fn writes_reliably(&self) -> bool {
        true
    }

    fn write_all(&mut self, bytes: &[u8]) -> (r: Result<(), StreamError>) {
        let ghost before = self@;
        let mut i: usize = 0;
        while i < bytes.len()
            invariant
                i <= bytes@.len(),
                self@ == before + bytes@.take(i as int),
            decreases bytes@.len() - i,
        {
            self.push(bytes[i]);
            i = i + 1;
            assert(self@ =~= before + bytes@.take(i as int));
        }
        assert(bytes@.take(i as int) =~= bytes@);
        Ok(())
    }

    fn flush(&mut self) -> (r: Result<(), StreamError>) {
        Ok(())
    }
}

} // verus!
