//! The consumer side of preimage exchanges: sends a key, receives the payload.

use vstd::prelude::*;
use crate::error::{OracleError, Phase};
use crate::primitives::{Preimage, PreimageKey};
use crate::stream::{ByteSink, ByteSource};
use crate::wire::{decode_u64_be, parse_preimage_response, u64_from_be};

verus! {

/// A client that requests preimages by key.
pub trait OracleClient {
    /// Requests the preimage of `key` and waits for it.
    fn get(&mut self, key: PreimageKey) -> Result<Preimage, OracleError>;
}

/// A preimage client over a reader for responses and a writer for requests.
pub struct OracleClientImpl<Reader, Writer> {
    /// Where responses come from.
    pub reader: Reader,
    /// Where requests go.
    pub writer: Writer,
}

impl<Reader: ByteSource, Writer: ByteSink> OracleClientImpl<Reader, Writer> {
    /// A client over `reader` and `writer`.
    pub fn new(reader: Reader, writer: Writer) -> (r: Self)
        ensures
            r.reader == reader,
            r.writer == writer,
    {
        OracleClientImpl { reader, writer }
    }

    /// Reads the 8-byte big-endian length prefix of a response.
    pub fn read_length_prefix(&mut self) -> (r: Result<u64, OracleError>)
        ensures
            final(self).writer == old(self).writer,
            final(self).reader.reads_reliably() == old(self).reader.reads_reliably(),
            r matches Err(e) ==> e == OracleError::Transport(Phase::LengthPrefix),
            old(self).reader.reads_reliably() ==> match r {
                Ok(n) => {
                    &&& 8 <= old(self).reader.pending().len()
                    &&& n == u64_from_be(old(self).reader.pending())
                    &&& final(self).reader.pending() == old(self).reader.pending().skip(8)
                },
                Err(_) => old(self).reader.pending().len() < 8,
            },
            old(self).reader.reads_reliably() ==> final(self).reader.consumed() + final(
                self).reader.pending() == old(self).reader.consumed() + old(self).reader.pending(),
    {
        match self.reader.read_exact(8) {
            Ok(bytes) => {
                let n = decode_u64_be(bytes.as_slice());
                proof {
                    if old(self).reader.reads_reliably() {
                        assert(old(self).reader.pending().subrange(0, 8) =~= bytes@);
                        assert(old(self).reader.pending().skip(8) =~= self.reader.pending());
                    }
                    if old(self).reader.reads_reliably() {
                        assert(self.reader.consumed() + self.reader.pending() =~= old(
                            self).reader.consumed() + old(self).reader.pending());
                    }
                }
                Ok(n)
            },
            Err(_) => Err(OracleError::Transport(Phase::LengthPrefix)),
        }
    }
}

impl<Reader: ByteSource, Writer: ByteSink> OracleClient for OracleClientImpl<Reader, Writer> {
    /// Writes the key and flushes it, then reads one length-prefixed response.
    fn get(&mut self, key: PreimageKey) -> (r: Result<Preimage, OracleError>)
        ensures
            final(self).reader.reads_reliably() == old(self).reader.reads_reliably(),
            final(self).writer.writes_reliably() == old(self).writer.writes_reliably(),
            r matches Err(e) ==> e is Transport || e is Oversized,
            old(self).writer.writes_reliably() ==> final(self).writer.sent() == old(self).writer.sent()
                + key@,
            old(self).reader.reads_reliably() ==> final(self).reader.consumed() + final(
                self).reader.pending() == old(self).reader.consumed() + old(self).reader.pending(),
            old(self).reader.reads_reliably() ==> (r matches Ok(p) ==> parse_preimage_response(
                old(self).reader.pending(),
            ) == Some((p@, final(self).reader.pending()))),
            old(self).reader.reads_reliably() && old(self).writer.writes_reliably() ==> {
                let s = old(self).reader.pending();
                &&& s.len() < 8 ==> r == Err::<Preimage, OracleError>(
                    OracleError::Transport(Phase::LengthPrefix),
                )
                &&& 8 <= s.len() && u64_from_be(s) > usize::MAX ==> r
                    == Err::<Preimage, OracleError>(OracleError::Oversized)
                &&& 8 <= s.len() && u64_from_be(s) <= usize::MAX && parse_preimage_response(s) is None
                    ==> r == Err::<Preimage, OracleError>(OracleError::Transport(Phase::Payload))
                &&& parse_preimage_response(s) is Some && u64_from_be(s) <= usize::MAX ==> r is Ok
            },
    {
        if self.writer.write_all(key.as_slice()).is_err() {
            return Err(OracleError::Transport(Phase::Request));
        }
        if self.writer.flush().is_err() {
            return Err(OracleError::Transport(Phase::Request));
        }
        let ghost s = self.reader.pending();
        let length = self.read_length_prefix()?;
        if length > usize::MAX as u64 {
            return Err(OracleError::Oversized);
        }
        let ghost s1 = self.reader.pending();
        match self.reader.read_exact(length as usize) {
            Ok(payload) => {
                proof {
                    if old(self).reader.reads_reliably() {
                        assert(s1 == payload@ + self.reader.pending());
                        assert(s.subrange(8, 8 + length as int) =~= payload@) by {
                            assert forall|i: int| 0 <= i < length implies s[8 + i] == payload@[i] by {
                                assert(s[8 + i] == s1[i]);
                            }
                        }
                        assert(s.skip(8 + length as int) =~= self.reader.pending()) by {
                            assert forall|i: int| 0 <= i < s.len() - 8 - length implies s[8 + length + i]
                                == self.reader.pending()[i] by {
                                assert(s[8 + length + i] == s1[length + i]);
                            }
                        }
                        assert(self.reader.consumed() + self.reader.pending() =~= old(
                            self).reader.consumed() + old(self).reader.pending());
                    }
                }
                Ok(payload)
            },
            Err(_) => Err(OracleError::Transport(Phase::Payload)),
        }
    }
}

} // verus!
