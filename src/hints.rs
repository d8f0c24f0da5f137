//! The hint side-channel: a consumer sends length-prefixed hint strings and waits for a
//! one-byte acknowledgment; the host reads them and hands them to a router.

use vstd::prelude::*;
use vstd::string::StringSliceAdditionalSpecFns;
use vstd::utf8::{encode_utf8, encode_utf8_decode_utf8, encode_utf8_valid_utf8, valid_utf8};
use crate::error::{FailurePolicy, OracleError, Phase};
use crate::inner::ReadWriter;
use crate::primitives::{Hint, Hinter};
use crate::stream::{ByteSink, ByteSource};
use crate::wire::{encode_u32_be, hint_frame, lemma_hint_frame_round_trip, parse_hint_frame};

verus! {

/// The byte that acknowledges a hint.
pub const ACK: u8 = 0;

/// Relies on `String::from_utf8`: it succeeds exactly when the bytes are valid UTF-8,
/// and the string it returns holds those bytes.
#[verifier::external_body]
fn string_from_utf8(bytes: Vec<u8>) -> (r: Option<String>)
    ensures
        r is Some <==> valid_utf8(bytes@),
        r matches Some(s) ==> encode_utf8(s@) == bytes@,
{
    String::from_utf8(bytes).ok()
}

/// Writes hints for a preimage oracle service to prepare preimages, and waits for each
/// to be acknowledged.
pub struct HintWriter<Reader, Writer> {
    /// Where acknowledgments come from.
    pub reader: Reader,
    /// Where hints go.
    pub writer: Writer,
}

impl<Reader: ByteSource, Writer: ByteSink> HintWriter<Reader, Writer> {
    /// A hint writer over `reader` and `writer`.
    pub fn new(reader: Reader, writer: Writer) -> (r: Self)
        ensures
            r.reader == reader,
            r.writer == writer,
    {
        HintWriter { reader, writer }
    }

    /// Sends `text` as a hint frame, flushes it, and reads one acknowledgment byte,
    /// whatever its value.
    pub fn write_hint(&mut self, text: &str) -> (r: Result<(), OracleError>)
        ensures
            final(self).reader.reads_reliably() == old(self).reader.reads_reliably(),
            final(self).writer.writes_reliably() == old(self).writer.writes_reliably(),
            r matches Err(e) ==> e is Transport || e is Oversized,
            text.spec_bytes().len() > u32::MAX ==> r == Err::<(), OracleError>(OracleError::Oversized)
                && final(self).writer == old(self).writer && final(self).reader == old(self).reader,
            old(self).writer.writes_reliably() && text.spec_bytes().len() <= u32::MAX
                ==> final(self).writer.sent() == old(self).writer.sent() + hint_frame(
                text.spec_bytes(),
            ),
            old(self).reader.reads_reliably() && old(self).writer.writes_reliably()
                && text.spec_bytes().len() <= u32::MAX ==> {
                &&& r is Ok <==> 1 <= old(self).reader.pending().len()
                &&& r is Ok ==> final(self).reader.pending() == old(self).reader.pending().skip(1)
                &&& r is Err ==> r == Err::<(), OracleError>(
                    OracleError::Transport(Phase::Acknowledgment),
                )
            },
            old(self).reader.reads_reliably() ==> final(self).reader.consumed() + final(
                self).reader.pending() == old(self).reader.consumed() + old(self).reader.pending(),
    {
        let bytes = text.as_bytes();
        if bytes.len() > u32::MAX as usize {
            return Err(OracleError::Oversized);
        }
        let prefix = encode_u32_be(bytes.len() as u32);
        if self.writer.write_all(prefix.as_slice()).is_err() {
            return Err(OracleError::Transport(Phase::Request));
        }
        if self.writer.write_all(bytes).is_err() {
            return Err(OracleError::Transport(Phase::Request));
        }
        if self.writer.flush().is_err() {
            return Err(OracleError::Transport(Phase::Request));
        }
        proof {
            if old(self).writer.writes_reliably() {
                assert(self.writer.sent() =~= old(self).writer.sent() + hint_frame(text.spec_bytes()));
            }
        }
        match self.reader.read_exact(1) {
            Ok(ack) => {
                proof {
                    if old(self).reader.reads_reliably() {
                        assert(old(self).reader.pending().skip(1) =~= self.reader.pending());
                        assert(self.reader.consumed() + self.reader.pending() =~= old(
                            self).reader.consumed() + old(self).reader.pending());
                    }
                }
                Ok(())
            },
            Err(_) => Err(OracleError::Transport(Phase::Acknowledgment)),
        }
    }
}

impl<Reader: ByteSource, Writer: ByteSink> Hinter for HintWriter<Reader, Writer> {
    /// Renders `hint` and sends it as `write_hint` does.
    fn hint<H: Hint>(&mut self, hint: H) -> (r: Result<(), OracleError>)
        ensures
            final(self).reader.reads_reliably() == old(self).reader.reads_reliably(),
            final(self).writer.writes_reliably() == old(self).writer.writes_reliably(),
            r matches Err(e) ==> e is Transport || e is Oversized,
            encode_utf8(hint.rendered()).len() > u32::MAX ==> r == Err::<(), OracleError>(
                OracleError::Oversized,
            ) && final(self).writer == old(self).writer && final(self).reader == old(self).reader,
            old(self).writer.writes_reliably() && encode_utf8(hint.rendered()).len() <= u32::MAX
                ==> final(self).writer.sent() == old(self).writer.sent() + hint_frame(
                encode_utf8(hint.rendered()),
            ),
            old(self).reader.reads_reliably() && old(self).writer.writes_reliably() && encode_utf8(
                hint.rendered(),
            ).len() <= u32::MAX ==> {
                &&& r is Ok <==> 1 <= old(self).reader.pending().len()
                &&& r is Ok ==> final(self).reader.pending() == old(self).reader.pending().skip(1)
                &&& r is Err ==> r == Err::<(), OracleError>(
                    OracleError::Transport(Phase::Acknowledgment),
                )
            },
            old(self).reader.reads_reliably() ==> final(self).reader.consumed() + final(
                self).reader.pending() == old(self).reader.consumed() + old(self).reader.pending(),

    {
        let text = hint.hint();
        let rendered = text.as_str();
        let r = self.write_hint(rendered);
        proof {
            assert(encode_utf8(hint.rendered()) == rendered.spec_bytes());
        }
        r
    }
}

/// Reads the hints that a `HintWriter` sends and passes each to a router, which prepares
/// the preimages that it asks for.
pub struct HintReader<Inner> {
    /// The channel that hints come from and acknowledgments go to.
    pub inner: Inner,
    /// Whether a hint that the router refused is acknowledged all the same.
    pub on_failure: FailurePolicy,
}

impl<Inner: ReadWriter> HintReader<Inner> {
    /// A hint reader over `inner` that does not acknowledge refused hints.
    pub fn new(inner: Inner) -> (r: Self)
        ensures
            r.inner == inner,
            r.on_failure == FailurePolicy::TearDown,
    {
        HintReader { inner, on_failure: FailurePolicy::TearDown }
    }

    /// The same reader with `policy` for refused hints.
    pub fn with_failure_policy(self, policy: FailurePolicy) -> (r: Self)
        ensures
            r.inner == self.inner,
            r.on_failure == policy,
    {
        HintReader { inner: self.inner, on_failure: policy }
    }

    /// Gives back the channel.
    pub fn into_inner(self) -> (r: Inner)
        ensures
            r == self.inner,
    {
        self.inner
    }

    /// Reads one hint frame and decodes its payload as UTF-8.
    pub fn read_hint(&mut self) -> (r: Result<String, OracleError>)
        ensures
            final(self).on_failure == old(self).on_failure,
            final(self).inner.reads_reliably() == old(self).inner.reads_reliably(),
            final(self).inner.writes_reliably() == old(self).inner.writes_reliably(),
            final(self).inner.outgoing() == old(self).inner.outgoing(),
            r matches Err(e) ==> e is Transport || e is Decode,
            old(self).inner.reads_reliably() ==> {
                let s = old(self).inner.incoming();
                &&& r matches Ok(h) ==> parse_hint_frame(s) == Some(
                    (encode_utf8(h@), final(self).inner.incoming()),
                )
                &&& s.len() < 4 ==> r == Err::<String, OracleError>(
                    OracleError::Transport(Phase::LengthPrefix),
                )
                &&& 4 <= s.len() && parse_hint_frame(s) is None ==> r == Err::<String, OracleError>(
                    OracleError::Transport(Phase::Payload),
                )
                &&& match parse_hint_frame(s) {
                    Some((b, rest)) => {
                        &&& valid_utf8(b) <==> r is Ok
                        &&& !valid_utf8(b) ==> r == Err::<String, OracleError>(OracleError::Decode)
                        &&& final(self).inner.incoming() == rest
                    },
                    None => true,
                }
            },
    {
        let ghost s = self.inner.incoming();
        let length = self.inner.read_length_prefix()?;
        let ghost s1 = self.inner.incoming();
        let payload = match self.inner.read_exact(length) {
            Ok(p) => p,
            Err(_) => return Err(OracleError::Transport(Phase::Payload)),
        };
        proof {
            if old(self).inner.reads_reliably() {
                assert(s1 == payload@ + self.inner.incoming());
                assert(s.subrange(4, 4 + length as int) =~= payload@) by {
                    assert forall|i: int| 0 <= i < length implies s[4 + i] == payload@[i] by {
                        assert(s[4 + i] == s1[i]);
                    }
                }
                assert(s.skip(4 + length as int) =~= self.inner.incoming()) by {
                    assert forall|i: int| 0 <= i < s.len() - 4 - length implies s[4 + length + i]
                        == self.inner.incoming()[i] by {
                        assert(s[4 + length + i] == s1[length + i]);
                    }
                }
            }
        }
        match string_from_utf8(payload) {
            Some(h) => Ok(h),
            None => Err(OracleError::Decode),
        }
    }

    /// Finishes a hint whose routing gave `routed`: acknowledges it with one byte and
    /// flushes; a refusal is returned as it is, acknowledged only if the policy says so.
    pub fn acknowledge(&mut self, routed: Result<(), OracleError>) -> (r: Result<(), OracleError>)
        ensures
            final(self).on_failure == old(self).on_failure,
            final(self).inner.reads_reliably() == old(self).inner.reads_reliably(),
            final(self).inner.writes_reliably() == old(self).inner.writes_reliably(),
            final(self).inner.incoming() == old(self).inner.incoming(),
            match routed {
                Ok(()) => {
                    &&& r matches Err(e) ==> e == OracleError::Transport(Phase::Acknowledgment)
                    &&& old(self).inner.writes_reliably() ==> r is Ok && final(self).inner.outgoing()
                        == old(self).inner.outgoing().push(ACK)
                },
                Err(e) => {
                    &&& r == Err::<(), OracleError>(e)
                    &&& old(self).on_failure == FailurePolicy::TearDown ==> final(self).inner
                        == old(self).inner
                    &&& old(self).on_failure == FailurePolicy::Answer && old(self).inner.writes_reliably() ==> final(self).inner.outgoing() == old(self).inner.outgoing().push(ACK)
                },
            },
    {
        match routed {
            Ok(()) => self.send_ack(),
            Err(e) => {
                if self.on_failure == FailurePolicy::Answer {
                    let _ = self.send_ack();
                }
                Err(e)
            },
        }
    }

    /// Writes the acknowledgment byte and flushes it.
    fn send_ack(&mut self) -> (r: Result<(), OracleError>)
        ensures
            final(self).on_failure == old(self).on_failure,
            final(self).inner.reads_reliably() == old(self).inner.reads_reliably(),
            final(self).inner.writes_reliably() == old(self).inner.writes_reliably(),
            final(self).inner.incoming() == old(self).inner.incoming(),
            r matches Err(e) ==> e == OracleError::Transport(Phase::Acknowledgment),
            old(self).inner.writes_reliably() ==> r is Ok && final(self).inner.outgoing() == old(self).inner.outgoing().push(ACK),
    {
        let ack: [u8; 1] = [ACK];
        if self.inner.write_all(ack.as_slice()).is_err() {
            return Err(OracleError::Transport(Phase::Acknowledgment));
        }
        if self.inner.flush().is_err() {
            return Err(OracleError::Transport(Phase::Acknowledgment));
        }
        proof {
            assert(ack@ =~= seq![ACK]);
        }
        Ok(())
    }

    /// Reads the next hint, passes it to `router`, and acknowledges it as `acknowledge`
    /// does with the router's answer.
    pub fn next_hint<F>(&mut self, router: F) -> (r: Result<(), OracleError>)
        where
            F: Fn(String) -> Result<(), OracleError>,
        requires
            forall|h: String| router.requires((h,)),
        ensures
            final(self).on_failure == old(self).on_failure,
            final(self).inner.reads_reliably() == old(self).inner.reads_reliably(),
            final(self).inner.writes_reliably() == old(self).inner.writes_reliably(),
            r is Ok ==> exists|h: String, routed: Result<(), OracleError>|
                #[trigger] router.ensures((h,), routed) && routed is Ok && {
                    &&& old(self).inner.reads_reliably() ==> parse_hint_frame(
                        old(self).inner.incoming(),
                    ) == Some((encode_utf8(h@), final(self).inner.incoming()))
                    &&& old(self).inner.writes_reliably() ==> final(self).inner.outgoing() == old(
                        self).inner.outgoing().push(ACK)
                },
            old(self).inner.reads_reliably() ==> {
                let s = old(self).inner.incoming();
                &&& s.len() < 4 ==> r == Err::<(), OracleError>(
                    OracleError::Transport(Phase::LengthPrefix),
                )
                &&& 4 <= s.len() && parse_hint_frame(s) is None ==> r == Err::<(), OracleError>(
                    OracleError::Transport(Phase::Payload),
                )
                &&& parse_hint_frame(s) is None ==> final(self).inner.outgoing() == old(
                    self).inner.outgoing()
                &&& match parse_hint_frame(s) {
                    Some((b, rest)) => !valid_utf8(b) ==> {
                        &&& r == Err::<(), OracleError>(OracleError::Decode)
                        &&& final(self).inner.incoming() == rest
                        &&& final(self).inner.outgoing() == old(self).inner.outgoing()
                    },
                    None => true,
                }
                &&& (match parse_hint_frame(s) {
                    Some((b, _)) => valid_utf8(b),
                    None => false,
                }) ==> exists|
                    h: String,
                    routed: Result<(), OracleError>,
                | #[trigger] router.ensures((h,), routed) && {
                    &&& parse_hint_frame(s) == Some((encode_utf8(h@), final(self).inner.incoming()))
                    &&& match routed {
                        Ok(()) => {
                            &&& r is Ok || r == Err::<(), OracleError>(
                                OracleError::Transport(Phase::Acknowledgment),
                            )
                            &&& old(self).inner.writes_reliably() ==> r is Ok && final(
                                self).inner.outgoing() == old(self).inner.outgoing().push(ACK)
                        },
                        Err(e) => {
                            &&& r == Err::<(), OracleError>(e)
                            &&& old(self).on_failure == FailurePolicy::TearDown ==> final(
                                self).inner.outgoing() == old(self).inner.outgoing()
                            &&& old(self).on_failure == FailurePolicy::Answer && old(
                                self).inner.writes_reliably() ==> final(self).inner.outgoing()
                                == old(self).inner.outgoing().push(ACK)
                        },
                    }
                }
            },
    {
        let hint = self.read_hint()?;
        let ghost h = hint;
        let routed = router(hint);
        let ghost answer = routed;
        let r = self.acknowledge(routed);
        proof {
            assert(router.ensures((h,), answer));
        }
        r
    }
}

/// The frame that a hint writer sends for a hint with text `s`, followed by any bytes,
/// is read by a hint reader as a valid UTF-8 payload and those bytes; and the text that
/// the reader decodes from that payload, and hands to its router, is exactly `s`.
pub proof fn lemma_hint_round_trip(s: Seq<char>, rest: Seq<u8>, decoded: Seq<char>)
    requires
        encode_utf8(s).len() <= u32::MAX,
    ensures
        parse_hint_frame(hint_frame(encode_utf8(s)) + rest) == Some((encode_utf8(s), rest)),
        valid_utf8(encode_utf8(s)),
        encode_utf8(decoded) == encode_utf8(s) ==> decoded == s,
{
    lemma_hint_frame_round_trip(encode_utf8(s), rest);
    encode_utf8_valid_utf8(s);
    encode_utf8_decode_utf8(s);
    encode_utf8_decode_utf8(decoded);
}

} // verus!
