//! The host side of preimage exchanges: receives a key, asks the preimage getter,
//! sends the payload back.

use vstd::prelude::*;
use crate::error::{FailurePolicy, OracleError, Phase, StreamError};
use crate::primitives::{Preimage, PreimageKey};
use crate::stream::{ByteSink, ByteSource};
use crate::wire::{encode_u64_be, preimage_response, u64_be_bytes};

verus! {

/// A server that answers preimage requests.
pub trait OracleServer {
    /// Reads one key, fetches its preimage with `get_preimage` and writes the response.
    fn next_preimage_request<G>(&mut self, get_preimage: G) -> Result<(), OracleError>
        where
            G: Fn(PreimageKey) -> Result<Preimage, OracleError>,
        requires
            forall|k: PreimageKey| get_preimage.requires((k,)),
    ;
}

/// A preimage server over a reader for requests and a writer for responses.
pub struct OracleServerImpl<Reader, Writer> {
    /// Where requests come from.
    pub reader: Reader,
    /// Where responses go.
    pub writer: Writer,
    /// What to send when the getter fails.
    pub on_failure: FailurePolicy,
}

impl<Reader: ByteSource, Writer: ByteSink> OracleServerImpl<Reader, Writer> {
    /// A server over `reader` and `writer` that sends nothing when the getter fails.
    pub fn new(reader: Reader, writer: Writer) -> (r: Self)
        ensures
            r.reader == reader,
            r.writer == writer,
            r.on_failure == FailurePolicy::TearDown,
    {
        OracleServerImpl { reader, writer, on_failure: FailurePolicy::TearDown }
    }

    /// The same server with `policy` for getter failures.
    pub fn with_failure_policy(self, policy: FailurePolicy) -> (r: Self)
        ensures
            r.reader == self.reader,
            r.writer == self.writer,
            r.on_failure == policy,
    {
        OracleServerImpl { reader: self.reader, writer: self.writer, on_failure: policy }
    }

    /// Writes `len` as an 8-byte big-endian length prefix and flushes it.
    pub fn write_length_prefix(writer: &mut Writer, len: usize) -> (r: Result<(), OracleError>)
        ensures
            final(writer).writes_reliably() == old(writer).writes_reliably(),
            r matches Err(e) ==> e == OracleError::Transport(Phase::LengthPrefix),
            old(writer).writes_reliably() ==> r is Ok && final(writer).sent() == old(writer).sent()
                + u64_be_bytes(len as u64),
    {
        let prefix = encode_u64_be(len as u64);
        if writer.write_all(prefix.as_slice()).is_err() {
            return Err(OracleError::Transport(Phase::LengthPrefix));
        }
        if writer.flush().is_err() {
            return Err(OracleError::Transport(Phase::LengthPrefix));
        }
        Ok(())
    }

    /// Writes `preimage` as a length-prefixed response and flushes it.
    fn write_preimage(writer: &mut Writer, preimage: &Preimage) -> (r: Result<(), OracleError>)
        ensures
            final(writer).writes_reliably() == old(writer).writes_reliably(),
            preimage@.len() <= usize::MAX,
            r matches Err(e) ==> e is Transport,
            old(writer).writes_reliably() ==> r is Ok && final(writer).sent() == old(writer).sent()
                + preimage_response(preimage@),
    {
        Self::write_length_prefix(writer, preimage.len())?;
        if writer.write_all(preimage.as_slice()).is_err() {
            return Err(OracleError::Transport(Phase::Payload));
        }
        if writer.flush().is_err() {
            return Err(OracleError::Transport(Phase::Payload));
        }
        proof {
            if old(writer).writes_reliably() {
                assert(final(writer).sent() =~= old(writer).sent() + preimage_response(preimage@));
            }
        }
        Ok(())
    }

    /// Answers a request whose lookup gave `lookup`: a preimage is sent back; an error is
    /// returned as it is, after an empty response if the policy is to answer anyway.
    pub fn respond(&mut self, lookup: Result<Preimage, OracleError>) -> (r: Result<(), OracleError>)
        ensures
            final(self).reader == old(self).reader,
            final(self).on_failure == old(self).on_failure,
            final(self).writer.writes_reliably() == old(self).writer.writes_reliably(),
            match lookup {
                Ok(p) => {
                    &&& p@.len() <= usize::MAX
                    &&& r matches Err(e) ==> e is Transport
                    &&& old(self).writer.writes_reliably() ==> r is Ok && final(self).writer.sent()
                        == old(self).writer.sent() + preimage_response(p@)
                },
                Err(e) => {
                    &&& r == Err::<(), OracleError>(e)
                    &&& old(self).on_failure == FailurePolicy::TearDown ==> final(self).writer
                        == old(self).writer
                    &&& old(self).on_failure == FailurePolicy::Answer
                        && old(self).writer.writes_reliably() ==> final(self).writer.sent()
                        == old(self).writer.sent() + preimage_response(Seq::empty())
                },
            },
    {
        match lookup {
            Ok(preimage) => Self::write_preimage(&mut self.writer, &preimage),
            Err(e) => {
                if self.on_failure == FailurePolicy::Answer {
                    let empty: Preimage = Vec::new();
                    let _ = Self::write_preimage(&mut self.writer, &empty);
                }
                Err(e)
            },
        }
    }

    /// Reads the 32-byte key of the next request. A stream that ends before its first
    /// byte has no more requests.
    fn read_key(&mut self) -> (r: Result<PreimageKey, OracleError>)
        ensures
            final(self).writer == old(self).writer,
            final(self).on_failure == old(self).on_failure,
            final(self).reader.reads_reliably() == old(self).reader.reads_reliably(),
            r matches Err(e) ==> e == OracleError::EndOfStream || e == OracleError::Transport(
                Phase::Request,
            ),
            old(self).reader.reads_reliably() ==> {
                &&& r matches Ok(key) ==> old(self).reader.pending() == key@ + final(self).reader.pending()
                &&& old(self).reader.pending().len() == 0 ==> r == Err::<PreimageKey, OracleError>(
                    OracleError::EndOfStream,
                )
                &&& 0 < old(self).reader.pending().len() < 32 ==> r == Err::<
                    PreimageKey,
                    OracleError,
                >(OracleError::Transport(Phase::Request))
                &&& 32 <= old(self).reader.pending().len() ==> r is Ok
            },
            old(self).reader.reads_reliably() ==> final(self).reader.consumed() + final(
                self).reader.pending() == old(self).reader.consumed() + old(self).reader.pending(),
    {
        let first = match self.reader.read_exact(1) {
            Ok(b) => b,
            Err(StreamError::Eof) => return Err(OracleError::EndOfStream),
            Err(StreamError::Io) => return Err(OracleError::Transport(Phase::Request)),
        };
        let rest = match self.reader.read_exact(31) {
            Ok(b) => b,
            Err(_) => return Err(OracleError::Transport(Phase::Request)),
        };
        let mut key: PreimageKey = [0u8; 32];
        key[0] = first[0];
        let mut i: usize = 0;
        while i < 31
            invariant
                first@.len() == 1,
                rest@.len() == 31,
                i <= 31,
                key@.len() == 32,
                key@[0] == first@[0],
                forall|j: int| 0 <= j < i ==> key@[j + 1] == rest@[j],
            decreases 31 - i,
        {
            key[i + 1] = rest[i];
            i = i + 1;
        }
        proof {
            assert(key@ =~= first@ + rest@);
            if old(self).reader.reads_reliably() {
                assert(old(self).reader.pending() =~= key@ + self.reader.pending());
                assert(self.reader.consumed() + self.reader.pending() =~= old(
                    self).reader.consumed() + old(self).reader.pending());
            }
        }
        Ok(key)
    }
}

impl<Reader: ByteSource, Writer: ByteSink> OracleServer for OracleServerImpl<Reader, Writer> {
    /// Serves exactly one request: reads the key, calls the getter once, then answers as
    /// `respond` does.
    fn next_preimage_request<G>(&mut self, get_preimage: G) -> (r: Result<(), OracleError>)
        where
            G: Fn(PreimageKey) -> Result<Preimage, OracleError>,
        ensures
            final(self).on_failure == old(self).on_failure,
            final(self).reader.reads_reliably() == old(self).reader.reads_reliably(),
            final(self).writer.writes_reliably() == old(self).writer.writes_reliably(),
            r is Ok ==> exists|key: PreimageKey, p: Preimage|
                #[trigger] get_preimage.ensures((key,), Ok::<Preimage, OracleError>(p)) && {
                    &&& old(self).reader.reads_reliably() ==> old(self).reader.pending() == key@
                        + final(self).reader.pending()
                    &&& old(self).writer.writes_reliably() ==> final(self).writer.sent() == old(self).writer.sent() + preimage_response(p@)
                },
            old(self).reader.reads_reliably() && old(self).reader.pending().len() == 0 ==> r
                == Err::<(), OracleError>(OracleError::EndOfStream),
            old(self).reader.reads_reliably() && 0 < old(self).reader.pending().len() < 32 ==> r
                == Err::<(), OracleError>(OracleError::Transport(Phase::Request)),
            old(self).reader.reads_reliably() && old(self).reader.pending().len() < 32 ==> final(
                self).writer == old(self).writer,
            old(self).reader.reads_reliably() && 32 <= old(self).reader.pending().len() ==> final(
                self).reader.pending() == old(self).reader.pending().skip(32),
            old(self).reader.reads_reliably() ==> final(self).reader.consumed() + final(
                self).reader.pending() == old(self).reader.consumed() + old(self).reader.pending(),
            old(self).reader.reads_reliably() && old(self).writer.writes_reliably() && 32
                <= old(self).reader.pending().len() ==> exists|
                key: PreimageKey,
                lookup: Result<Preimage, OracleError>,
            | #[trigger] get_preimage.ensures((key,), lookup) && {
                &&& key@ == old(self).reader.pending().take(32)
                &&& final(self).reader.pending() == old(self).reader.pending().skip(32)
                &&& match lookup {
                    Ok(p) => r is Ok && p@.len() <= usize::MAX && final(self).writer.sent()
                        == old(self).writer.sent() + preimage_response(p@),
                    Err(e) => {
                        &&& r == Err::<(), OracleError>(e)
                        &&& old(self).on_failure == FailurePolicy::TearDown ==> final(self).writer
                            == old(self).writer
                        &&& old(self).on_failure == FailurePolicy::Answer ==> final(
                            self).writer.sent() == old(self).writer.sent() + preimage_response(
                            Seq::empty(),
                        )
                    },
                }
            },
    {
        let key = self.read_key()?;
        let ghost s = old(self).reader.pending();
        proof {
            if old(self).reader.reads_reliably() {
                assert(key@ =~= s.take(32));
                assert(self.reader.pending() =~= s.skip(32));
            }
        }
        let lookup = get_preimage(key);
        let ghost looked_up = lookup;
        let r = self.respond(lookup);
        proof {
            assert(get_preimage.ensures((key,), looked_up));
            if let Ok(p) = looked_up {
                assert(get_preimage.ensures((key,), Ok::<Preimage, OracleError>(p)));
            }
        }
        r
    }
}

} // verus!
