//! A duplex channel: one readable and one writable endpoint, owned together.

use vstd::prelude::*;
use crate::error::{OracleError, Phase, StreamError};
use crate::stream::{ByteSink, ByteSource};
use crate::wire::{decode_u32_be, u32_from_be};

verus! {

/// A channel that bytes are read from and written to. Reading leaves what was written
/// alone, and writing leaves what is to be read alone.
///
/// As with `ByteSource` and `ByteSink`, each side of a channel may carry a model of
/// itself: reads that are reliable yield `incoming` and fail only when it runs out, and
/// writes that are reliable are accepted and recorded in `outgoing`. Others keep the
/// defaults.
pub trait ReadWriter {
    /// The bytes that the readable endpoint will yield next, in order.
    closed spec fn incoming(&self) -> Seq<u8> {
        Seq::empty()
    }

    /// The bytes that the writable endpoint has accepted so far, in order.
    closed spec fn outgoing(&self) -> Seq<u8> {
        Seq::empty()
    }

    /// Whether reads follow `incoming` and fail only when it runs out.
    closed spec fn reads_reliably(&self) -> bool {
        false
    }

    /// Whether writes are all accepted and recorded in `outgoing`.
    closed spec fn writes_reliably(&self) -> bool {
        false
    }

    /// Reads exactly `n` bytes, blocking until they arrive or the stream ends.
    fn read_exact(&mut self, n: usize) -> (r: Result<Vec<u8>, StreamError>)
        ensures
            final(self).reads_reliably() == old(self).reads_reliably(),
            final(self).writes_reliably() == old(self).writes_reliably(),
            final(self).outgoing() == old(self).outgoing(),
            r matches Ok(v) ==> v@.len() == n,
            old(self).reads_reliably() ==> match r {
                Ok(v) => old(self).incoming() == v@ + final(self).incoming(),
                Err(e) => e == StreamError::Eof && old(self).incoming().len() < n,
            },
            old(self).reads_reliably() && n <= old(self).incoming().len() ==> r is Ok,
    ;

    /// Writes all of `bytes`.
    fn write_all(&mut self, bytes: &[u8]) -> (r: Result<(), StreamError>)
        ensures
            final(self).reads_reliably() == old(self).reads_reliably(),
            final(self).writes_reliably() == old(self).writes_reliably(),
            final(self).incoming() == old(self).incoming(),
            old(self).writes_reliably() ==> r is Ok && final(self).outgoing() == old(self).outgoing()
                + bytes@,
    ;

    /// Blocks until buffered bytes are emitted.
    fn flush(&mut self) -> (r: Result<(), StreamError>)
        ensures
            final(self).reads_reliably() == old(self).reads_reliably(),
            final(self).writes_reliably() == old(self).writes_reliably(),
            final(self).incoming() == old(self).incoming(),
            old(self).writes_reliably() ==> r is Ok && final(self).outgoing() == old(self).outgoing(),
    ;

    /// Reads a 4-byte big-endian length prefix.
    fn read_length_prefix(&mut self) -> (r: Result<usize, OracleError>)
        ensures
            final(self).reads_reliably() == old(self).reads_reliably(),
            final(self).writes_reliably() == old(self).writes_reliably(),
            final(self).outgoing() == old(self).outgoing(),
            r matches Err(e) ==> e == OracleError::Transport(Phase::LengthPrefix),
            old(self).reads_reliably() ==> match r {
                Ok(n) => {
                    &&& 4 <= old(self).incoming().len()
                    &&& n == u32_from_be(old(self).incoming())
                    &&& final(self).incoming() == old(self).incoming().skip(4)
                },
                Err(_) => old(self).incoming().len() < 4,
            },
    {
        match self.read_exact(4) {
            Ok(bytes) => {
                let n = decode_u32_be(bytes.as_slice());
                proof {
                    if old(self).reads_reliably() {
                        assert(old(self).incoming().subrange(0, 4) =~= bytes@);
                        assert(old(self).incoming().skip(4) =~= self.incoming());
                    }
                }
                Ok(n as usize)
            },
            Err(_) => Err(OracleError::Transport(Phase::LengthPrefix)),
        }
    }
}

/// A channel made of two endpoints, which may be two files, two pipes or two buffers.
pub struct FileReadWriter<Reader, Writer> {
    reader: Reader,
    writer: Writer,
}

impl<Reader: ByteSource, Writer: ByteSink> FileReadWriter<Reader, Writer> {
    /// The readable endpoint.
    pub closed spec fn source(&self) -> Reader {
        self.reader
    }

    /// The writable endpoint.
    pub closed spec fn sink(&self) -> Writer {
        self.writer
    }

    /// A channel that reads from `reader` and writes to `writer`.
    pub fn new(reader: Reader, writer: Writer) -> (r: Self)
        ensures
            r.source() == reader,
            r.sink() == writer,
    {
        FileReadWriter { reader, writer }
    }

    /// Splits the channel back into its two endpoints.
    pub fn split(self) -> (r: (Reader, Writer))
        ensures
            r.0 == self.source(),
            r.1 == self.sink(),
    {
        (self.reader, self.writer)
    }
}

impl<Reader: ByteSource, Writer: ByteSink> ReadWriter for FileReadWriter<Reader, Writer> {
    open spec fn incoming(&self) -> Seq<u8> {
        self.source().pending()
    }

    open spec fn outgoing(&self) -> Seq<u8> {
        self.sink().sent()
    }

    open spec fn reads_reliably(&self) -> bool {
        self.source().reads_reliably()
    }

    open spec fn writes_reliably(&self) -> bool {
        self.sink().writes_reliably()
    }

    fn read_exact(&mut self, n: usize) -> (r: Result<Vec<u8>, StreamError>) {
        self.reader.read_exact(n)
    }

    fn write_all(&mut self, bytes: &[u8]) -> (r: Result<(), StreamError>) {
        self.writer.write_all(bytes)
    }

    fn flush(&mut self) -> (r: Result<(), StreamError>) {
        self.writer.flush()
    }
}

} // verus!
