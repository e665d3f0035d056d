//! Reading one frame from a stream, a read at a time.
//!
//! The decoder never touches the stream. The host asks it how many bytes the
//! next read may bring at most, performs the read, and feeds what came; a read
//! that brought nothing means that the peer has closed. While the header is
//! open a read brings one byte, so that nothing behind the blank line is taken
//! from the stream; the body is read in as many pieces as the stream hands
//! out.

use crate::framing::append_bytes;
use crate::framing::declared_length;
use crate::framing::decode_frame;
use crate::framing::ends_with_terminator;
use crate::framing::header_end;
use crate::framing::is_header_end;
use crate::framing::lemma_header_end_is;
use crate::framing::lemma_header_end_none;
use crate::framing::next_read;
use crate::framing::parse_content_length;
use crate::framing::terminator;
use crate::framing::FrameError;
use crate::framing::ReadPhase;
use vstd::prelude::*;
use vstd::slice::slice_subrange;

verus! {

/// A frame as it was read: the header with its blank line, and the body.
#[derive(Debug, PartialEq, Eq)]
pub struct Frame {
    pub header: Vec<u8>,
    pub body: Vec<u8>,
}

/// A frame that is being read.
#[derive(Debug)]
pub struct FrameDecoder {
    header: Vec<u8>,
    body: Vec<u8>,
    expected: usize,
    in_body: bool,
}

/// What a read has led to.
#[derive(Debug)]
pub enum Decoding {
    /// The frame is not complete: read on.
    Reading(FrameDecoder),
    /// The frame is complete.
    Frame(Frame),
    /// No frame can be read.
    Failed(FrameError),
}

impl FrameDecoder {
    #[verifier::type_invariant]
    spec fn well_formed(self) -> bool {
        if self.in_body {
            &&& is_header_end(self.header@, self.header@.len() as int)
            &&& declared_length(self.header@) == Some(self.expected as nat)
            &&& self.body@.len() < self.expected
        } else {
            &&& self.body@.len() == 0
            &&& forall|j: int|
                0 <= j <= self.header@.len() ==> !ends_with_terminator(
                    #[trigger] self.header@.take(j),
                )
        }
    }

    /// The bytes that were fed so far.
    pub closed spec fn consumed(self) -> Seq<u8> {
        self.header@ + self.body@
    }

    /// A decoder that has read nothing.
    pub fn new() -> (decoder: FrameDecoder)
        ensures
            decoder.consumed() == Seq::<u8>::empty(),
    {
        let decoder = FrameDecoder {
            header: Vec::new(),
            body: Vec::new(),
            expected: 0,
            in_body: false,
        };
        proof {
            assert forall|j: int| 0 <= j <= decoder.header@.len() implies !ends_with_terminator(
                #[trigger] decoder.header@.take(j),
            ) by {}
            assert(decoder.consumed() =~= Seq::<u8>::empty());
        }
        decoder
    }

    /// How many bytes the next read may bring at most: one while the header
    /// is open, then what the body still lacks. Never zero.
    pub fn want(&self) -> (n: usize)
        ensures
            n == next_read(self.consumed()),
            n >= 1,
    {
        proof {
            use_type_invariant(self);
            self.lemma_unfinished();
        }
        if self.in_body {
            self.expected - self.body.len()
        } else {
            1
        }
    }

    /// Which part of the frame the next read belongs to.
    pub fn phase(&self) -> (phase: ReadPhase)
        ensures
            decode_frame(self.consumed()) == Err::<(Seq<u8>, Seq<u8>), FrameError>(
                FrameError::ConnectionClosed(phase),
            ),
    {
        proof {
            use_type_invariant(self);
            self.lemma_unfinished();
        }
        if self.in_body {
            ReadPhase::Body
        } else {
            ReadPhase::Header
        }
    }

    /// A decoder holds an unfinished frame: were the stream to end here, the
    /// read would fail as closed, in the part that the decoder stands in.
    proof fn lemma_unfinished(self)
        requires
            self.well_formed(),
        ensures
            !self.in_body ==> decode_frame(self.consumed()) == Err::<
                (Seq<u8>, Seq<u8>),
                FrameError,
            >(FrameError::ConnectionClosed(ReadPhase::Header)),
            self.in_body ==> decode_frame(self.consumed()) == Err::<(Seq<u8>, Seq<u8>), FrameError>(
                FrameError::ConnectionClosed(ReadPhase::Body),
            ),
            self.in_body ==> header_end(self.consumed()) == Some(self.header@.len() as int),
            self.in_body ==> self.consumed().take(self.header@.len() as int) == self.header@,
            self.in_body ==> next_read(self.consumed()) == self.expected - self.body@.len(),
            !self.in_body ==> next_read(self.consumed()) == 1,
    {
        let input = self.consumed();
        if self.in_body {
            lemma_header_within(self.header@, self.body@);
        } else {
            assert(input =~= self.header@);
            lemma_header_end_none(input);
        }
    }

    /// Takes in what a read brought: `chunk` is empty where the peer has
    /// closed the stream.
    ///
    /// With all that was fed so far as `input`: a read that brought nothing
    /// fails as closed, in the part where the decoder stood. A read that
    /// completed the header fails where the header declares no usable length.
    /// A read that completed the body gives the frame. Any other read leaves
    /// a decoder that has taken the bytes in.
    pub fn feed(self, chunk: &[u8]) -> (step: Decoding)
        requires
            chunk@.len() <= next_read(self.consumed()),
        ensures
            chunk@.len() == 0 ==> (decode_frame(self.consumed()) matches Err(
                FrameError::ConnectionClosed(phase),
            ) && step == Decoding::Failed(FrameError::ConnectionClosed(phase))),
            chunk@.len() > 0 ==> match decode_frame(self.consumed() + chunk@) {
                Ok((header, body)) => step matches Decoding::Frame(frame) && frame.header@
                    == header && frame.body@ == body && header + body == self.consumed() + chunk@,
                Err(FrameError::Framing) => step == Decoding::Failed(FrameError::Framing),
                Err(FrameError::ConnectionClosed(_)) => step matches Decoding::Reading(next)
                    && next.consumed() == self.consumed() + chunk@,
            },
    {
        proof {
            use_type_invariant(&self);
            self.lemma_unfinished();
        }
        let ghost before = self.consumed();
        let ghost input = before + chunk@;
        let FrameDecoder { mut header, mut body, expected, in_body } = self;
        if chunk.len() == 0 {
            if in_body {
                return Decoding::Failed(FrameError::ConnectionClosed(ReadPhase::Body));
            } else {
                return Decoding::Failed(FrameError::ConnectionClosed(ReadPhase::Header));
            }
        }
        if in_body {
            append_bytes(&mut body, chunk);
            proof {
                assert(input =~= header@ + body@);
                lemma_header_within(header@, body@);
            }
            if body.len() == expected {
                proof {
                    assert(input.subrange(header@.len() as int, header@.len() + expected)
                        =~= body@);
                }
                Decoding::Frame(Frame { header, body })
            } else {
                let next = FrameDecoder { header, body, expected, in_body: true };
                proof {
                    assert(next.consumed() == input);
                }
                Decoding::Reading(next)
            }
        } else {
            let ghost old_header = header@;
            header.push(chunk[0]);
            proof {
                assert(before =~= old_header);
                assert(chunk@ =~= seq![chunk@[0]]);
                assert(input =~= header@);
                assert forall|j: int| 0 <= j < header@.len() implies !ends_with_terminator(
                    #[trigger] header@.take(j),
                ) by {
                    assert(header@.take(j) =~= old_header.take(j));
                }
                assert(header@.take(header@.len() as int) =~= header@);
            }
            if ends_header(&header) {
                proof {
                    lemma_header_end_is(header@, header@.len() as int);
                }
                match parse_content_length(header.as_slice()) {
                    Ok(length) => {
                        let next = FrameDecoder { header, body, expected: length, in_body: true };
                        proof {
                            assert(next.consumed() =~= input);
                        }
                        Decoding::Reading(next)
                    },
                    Err(_) => Decoding::Failed(FrameError::Framing),
                }
            } else {
                proof {
                    lemma_header_end_none(header@);
                }
                let next = FrameDecoder { header, body, expected: 0, in_body: false };
                proof {
                    assert(next.consumed() =~= input);
                }
                Decoding::Reading(next)
            }
        }
    }
}

/// Whether the bytes end with the blank line that closes a header.
pub fn ends_header(bytes: &Vec<u8>) -> (ends: bool)
    ensures
        ends == ends_with_terminator(bytes@),
{
    let n = bytes.len();
    if n < 4 {
        return false;
    }
    let ends = bytes[n - 4] == 13 && bytes[n - 3] == 10 && bytes[n - 2] == 13 && bytes[n - 1] == 10;
    proof {
        let tail = bytes@.subrange(n - 4, n as int);
        assert(tail[0] == bytes@[n - 4]);
        assert(tail[1] == bytes@[n - 3]);
        assert(tail[2] == bytes@[n - 2]);
        assert(tail[3] == bytes@[n - 1]);
        if ends {
            assert(tail =~= terminator());
        }
    }
    ends
}

/// A whole header stays the header of whatever is read behind it.
proof fn lemma_header_within(header: Seq<u8>, rest: Seq<u8>)
    requires
        is_header_end(header, header.len() as int),
    ensures
        header_end(header + rest) == Some(header.len() as int),
        (header + rest).take(header.len() as int) == header,
{
    let input = header + rest;
    let k = header.len() as int;
    assert(input.take(k) =~= header);
    assert(header.take(k) =~= header);
    assert forall|j: int| 0 <= j < k implies !ends_with_terminator(#[trigger] input.take(j)) by {
        assert(input.take(j) =~= header.take(j));
    }
    lemma_header_end_is(input, k);
}

/// Reads one frame from the start of `input`, as from a stream that ends
/// where `input` ends. What lies behind the frame is left alone.
pub fn read_frame(input: &[u8]) -> (read: Result<Frame, FrameError>)
    ensures
        match decode_frame(input@) {
            Ok((header, body)) => read matches Ok(frame) && frame.header@ == header && frame.body@
                == body,
            Err(e) => read == Err::<Frame, FrameError>(e),
        },
{
    let mut decoder = FrameDecoder::new();
    let mut pos: usize = 0;
    proof {
        assert(input@.take(0) =~= Seq::<u8>::empty());
    }
    loop
        invariant
            pos <= input@.len(),
            decoder.consumed() == input@.take(pos as int),
        decreases input@.len() - pos,
    {
        let want = decoder.want();
        let left = input.len() - pos;
        let n = if want < left {
            want
        } else {
            left
        };
        let chunk = slice_subrange(input, pos, pos + n);
        let ghost fed = input@.take(pos as int) + chunk@;
        proof {
            assert(fed =~= input@.take(pos + n));
        }
        match decoder.feed(chunk) {
            Decoding::Reading(next) => {
                decoder = next;
                pos = pos + n;
            },
            Decoding::Frame(frame) => {
                proof {
                    lemma_frame_within(input@, pos + n);
                }
                return Ok(frame);
            },
            Decoding::Failed(e) => {
                proof {
                    if n == 0 {
                        assert(input@.take(pos as int) =~= input@);
                    } else {
                        lemma_malformed_within(input@, pos + n);
                    }
                }
                return Err(e);
            },
        }
    }
}

/// A frame that a prefix of the stream holds is the frame that the stream
/// starts with.
proof fn lemma_frame_within(input: Seq<u8>, m: int)
    requires
        0 <= m <= input.len(),
        decode_frame(input.take(m)) is Ok,
    ensures
        decode_frame(input) == decode_frame(input.take(m)),
{
    let prefix = input.take(m);
    let k = header_end(prefix).unwrap();
    assert(is_header_end(prefix, k));
    assert(prefix.take(k) =~= input.take(k));
    assert forall|j: int| 0 <= j < k implies !ends_with_terminator(#[trigger] input.take(j)) by {
        assert(input.take(j) =~= prefix.take(j));
    }
    lemma_header_end_is(input, k);
    let n = declared_length(prefix.take(k)).unwrap();
    assert(prefix.subrange(k, k + n) =~= input.subrange(k, k + n));
}

/// A malformed header in a prefix of the stream is the header that the
/// stream starts with.
proof fn lemma_malformed_within(input: Seq<u8>, m: int)
    requires
        0 <= m <= input.len(),
        decode_frame(input.take(m)) == Err::<(Seq<u8>, Seq<u8>), FrameError>(FrameError::Framing),
    ensures
        decode_frame(input) == Err::<(Seq<u8>, Seq<u8>), FrameError>(FrameError::Framing),
{
    let prefix = input.take(m);
    let k = header_end(prefix).unwrap();
    assert(is_header_end(prefix, k));
    assert(prefix.take(k) =~= input.take(k));
    assert forall|j: int| 0 <= j < k implies !ends_with_terminator(#[trigger] input.take(j)) by {
        assert(input.take(j) =~= prefix.take(j));
    }
    lemma_header_end_is(input, k);
}

} // verus!
