//! The frame: a header block of text lines, closed by a blank line, and a
//! body of as many bytes as the header's length field declares.
//!
//! Lines end in CR LF. A line is a length field when it starts with
//! `content-length:`, letter case aside; what follows that first colon, up to
//! the end of the line and without the white space around it, is the length
//! in decimal. The last length field of a header counts. A header with a
//! length field that spells no number, with none at all, or with a length of
//! zero is malformed: a body is never empty.

use crate::text::all_digits;
use crate::text::decimal;
use crate::text::has_prefix_ignoring_case;
use crate::text::is_digit;
use crate::text::lemma_decimal_spells;
use crate::text::parse_unsigned;
use crate::text::parse_usize;
use crate::text::push_decimal;
use crate::text::space_prefix;
use crate::text::space_suffix;
use crate::text::starts_with_lowered;
use crate::text::trim;
use crate::text::trim_bounds;
use crate::text::trim_end;
use crate::text::trim_start;
use crate::text::without_plus;
use vstd::prelude::*;

verus! {

/// At which part of a frame a read stood.
#[derive(Clone, Copy, Debug, PartialEq, Eq)]
pub enum ReadPhase {
    Header,
    Body,
}

/// Why no frame could be read.
#[derive(Clone, Copy, Debug, PartialEq, Eq)]
pub enum FrameError {
    /// The peer closed the connection before the part was complete.
    ConnectionClosed(ReadPhase),
    /// The header declares no usable body length.
    Framing,
}

/// The blank line that closes a header: CR LF CR LF.
pub open spec fn terminator() -> Seq<u8> {
    seq![13u8, 10u8, 13u8, 10u8]
}

/// The key of the length field with its colon, in lower case:
/// `content-length:`.
pub open spec fn length_key() -> Seq<u8> {
    seq![99u8, 111u8, 110u8, 116u8, 101u8, 110u8, 116u8, 45u8, 108u8, 101u8, 110u8, 103u8, 116u8,
        104u8, 58u8]
}

/// The start of the length field as it is written: `Content-Length: `.
pub open spec fn length_label() -> Seq<u8> {
    seq![67u8, 111u8, 110u8, 116u8, 101u8, 110u8, 116u8, 45u8, 76u8, 101u8, 110u8, 103u8, 116u8,
        104u8, 58u8, 32u8]
}

/// Whether a CR LF stands at index `i` of `s`.
pub open spec fn crlf_at(s: Seq<u8>, i: int) -> bool {
    0 <= i && i + 1 < s.len() && s[i] == 13 && s[i + 1] == 10
}

/// Where the first line of `s` ends: the index of the first CR LF, or the
/// length of `s` where it holds none.
pub open spec fn line_end(s: Seq<u8>) -> nat
    decreases s.len(),
{
    if s.len() < 2 {
        s.len()
    } else if s[0] == 13 && s[1] == 10 {
        0
    } else {
        1 + line_end(s.skip(1))
    }
}

/// The lines of `s`: what stands between one CR LF and the next. Text
/// without a CR LF is one line, and text that ends in CR LF has an empty last
/// line.
pub open spec fn split_lines(s: Seq<u8>) -> Seq<Seq<u8>>
    decreases s.len(),
{
    let end = line_end(s);
    if end + 2 > s.len() {
        seq![s]
    } else {
        seq![s.take(end as int)] + split_lines(s.skip(end as int + 2))
    }
}

/// Whether a line is a length field.
pub open spec fn is_length_field(line: Seq<u8>) -> bool {
    starts_with_lowered(line, length_key())
}

/// The length that a length field declares; `None` where its value spells
/// no number that a `usize` holds.
pub open spec fn field_value(line: Seq<u8>) -> Option<nat> {
    parse_unsigned(trim(line.skip(length_key().len() as int)))
}

/// Whether one of the lines is a length field whose value spells no number.
pub open spec fn has_bad_length(lines: Seq<Seq<u8>>) -> bool {
    exists|i: int|
        0 <= i < lines.len() && is_length_field(#[trigger] lines[i]) && field_value(lines[i])
            is None
}

/// The index of the last length field among the lines, -1 where there is
/// none.
pub open spec fn last_length_field(lines: Seq<Seq<u8>>) -> int
    decreases lines.len(),
{
    if lines.len() == 0 {
        -1
    } else if is_length_field(lines.last()) {
        lines.len() - 1
    } else {
        last_length_field(lines.drop_last())
    }
}

/// The body length that the lines declare: the value of the last length
/// field. `None` where a length field spells no number, where there is no
/// length field, and where the length is zero.
pub open spec fn lines_length(lines: Seq<Seq<u8>>) -> Option<nat> {
    let last = last_length_field(lines);
    if has_bad_length(lines) || last < 0 {
        None
    } else {
        match field_value(lines[last]) {
            Some(n) => if n > 0 {
                Some(n)
            } else {
                None
            },
            None => None,
        }
    }
}

/// The body length that a header declares, `None` where it is malformed.
pub open spec fn declared_length(header: Seq<u8>) -> Option<nat> {
    lines_length(split_lines(header))
}

/// The header that announces a body of `n` bytes.
pub open spec fn frame_header(n: nat) -> Seq<u8> {
    length_label() + decimal(n) + terminator()
}

/// The frame that carries `body`.
pub open spec fn frame(body: Seq<u8>) -> Seq<u8> {
    frame_header(body.len()) + body
}

/// Whether `s` ends with the terminator.
pub open spec fn ends_with_terminator(s: Seq<u8>) -> bool {
    s.len() >= 4 && s.subrange(s.len() - 4, s.len() as int) == terminator()
}

/// Whether the first `k` bytes of `input` are a whole header: they end with
/// the terminator and no shorter prefix does.
pub open spec fn is_header_end(input: Seq<u8>, k: int) -> bool {
    &&& 0 <= k <= input.len()
    &&& ends_with_terminator(input.take(k))
    &&& forall|j: int| 0 <= j < k ==> !ends_with_terminator(#[trigger] input.take(j))
}

/// The length of the header that `input` starts with, `None` where the
/// terminator does not occur in it.
pub open spec fn header_end(input: Seq<u8>) -> Option<int> {
    if exists|k: int| is_header_end(input, k) {
        Some(choose|k: int| is_header_end(input, k))
    } else {
        None
    }
}

/// What reading one frame from `input`, and then the end of the stream,
/// comes to.
pub open spec fn decode_frame(input: Seq<u8>) -> Result<(Seq<u8>, Seq<u8>), FrameError> {
    match header_end(input) {
        None => Err(FrameError::ConnectionClosed(ReadPhase::Header)),
        Some(k) => match declared_length(input.take(k)) {
            None => Err(FrameError::Framing),
            Some(n) => if input.len() - k < n {
                Err(FrameError::ConnectionClosed(ReadPhase::Body))
            } else {
                Ok((input.take(k), input.subrange(k, k + n)))
            },
        },
    }
}

/// How many bytes the next read of a frame may bring at most, after `input`
/// was read: one while the header is open, so that nothing behind the blank
/// line is taken from the stream; then what the body still lacks; nothing
/// once the frame is complete or the header has proved malformed.
pub open spec fn next_read(input: Seq<u8>) -> nat {
    match header_end(input) {
        None => 1,
        Some(k) => match declared_length(input.take(k)) {
            None => 0,
            Some(n) => if input.len() - k < n {
                (k + n - input.len()) as nat
            } else {
                0
            },
        },
    }
}

/// A header has one end at most.
pub proof fn lemma_header_end_is(input: Seq<u8>, k: int)
    requires
        is_header_end(input, k),
    ensures
        header_end(input) == Some(k),
{
    let chosen = choose|k: int| is_header_end(input, k);
    assert(is_header_end(input, chosen));
    if chosen < k {
        assert(!ends_with_terminator(input.take(chosen)));
    }
    if k < chosen {
        assert(!ends_with_terminator(input.take(k)));
    }
}

/// Where no prefix ends with the terminator, there is no header end.
pub proof fn lemma_header_end_none(input: Seq<u8>)
    requires
        forall|j: int| 0 <= j <= input.len() ==> !ends_with_terminator(#[trigger] input.take(j)),
    ensures
        header_end(input) is None,
{
}

/// The first CR LF of `s` stands at `line_end(s)`, if `s` holds one.
proof fn lemma_line_end(s: Seq<u8>)
    ensures
        line_end(s) <= s.len(),
        line_end(s) < s.len() ==> crlf_at(s, line_end(s) as int),
        forall|j: int| 0 <= j < line_end(s) ==> !crlf_at(s, j),
    decreases s.len(),
{
    if s.len() >= 2 && !(s[0] == 13 && s[1] == 10) {
        let rest = s.skip(1);
        lemma_line_end(rest);
        assert forall|j: int| 0 <= j < line_end(s) implies !crlf_at(s, j) by {
            if j > 0 {
                assert(!crlf_at(rest, j - 1));
                assert(rest[j - 1] == s[j]);
                if j + 1 < s.len() {
                    assert(rest[j] == s[j + 1]);
                }
            }
        }
        if line_end(s) < s.len() {
            let e = line_end(rest) as int;
            assert(crlf_at(rest, e));
            assert(rest[e] == s[e + 1]);
            assert(rest[e + 1] == s[e + 2]);
        }
    }
}

/// A CR LF with none before it is where the first line ends.
proof fn lemma_line_end_is(s: Seq<u8>, e: int)
    requires
        crlf_at(s, e),
        forall|j: int| 0 <= j < e ==> !crlf_at(s, j),
    ensures
        line_end(s) == e,
{
    lemma_line_end(s);
    let found = line_end(s) as int;
    if found < e {
        assert(crlf_at(s, found));
    }
    if found > e {
        assert(!crlf_at(s, e));
    }
}

/// One more line with no length field changes nothing; one with a length
/// field that spells a number makes that field the last.
proof fn lemma_lines_push(lines: Seq<Seq<u8>>, line: Seq<u8>)
    ensures
        has_bad_length(lines.push(line)) == (has_bad_length(lines) || (is_length_field(line)
            && field_value(line) is None)),
        last_length_field(lines.push(line)) == if is_length_field(line) {
            lines.len() as int
        } else {
            last_length_field(lines)
        },
        last_length_field(lines) < lines.len(),
    decreases lines.len(),
{
    let longer = lines.push(line);
    assert(longer.drop_last() =~= lines);
    assert(longer.last() == line);
    if has_bad_length(lines) {
        let i = choose|i: int|
            0 <= i < lines.len() && is_length_field(#[trigger] lines[i]) && field_value(lines[i])
                is None;
        assert(longer[i] == lines[i]);
    }
    if is_length_field(line) && field_value(line) is None {
        assert(longer[lines.len() as int] == line);
    }
    if has_bad_length(longer) {
        let i = choose|i: int|
            0 <= i < longer.len() && is_length_field(#[trigger] longer[i]) && field_value(
                longer[i],
            ) is None;
        if i < lines.len() {
            assert(lines[i] == longer[i]);
        }
    }
    if lines.len() > 0 {
        lemma_lines_push(lines.drop_last(), lines.last());
        assert(lines.drop_last().push(lines.last()) =~= lines);
    }
}

/// Digits carry no white space at either end and no sign.
proof fn lemma_digits_trim(digits: Seq<u8>)
    requires
        digits.len() >= 1,
        all_digits(digits),
    ensures
        trim(digits) == digits,
        without_plus(digits) == digits,
        trim(seq![32u8] + digits) == digits,
{
    let first = digits[0];
    let last = digits[digits.len() - 1];
    assert(is_digit(first) && is_digit(last));
    assert(space_prefix(digits) == 0);
    assert(space_suffix(digits) == 0);
    assert(trim_start(digits) == digits);
    assert(trim_end(digits) == digits);
    let padded = seq![32u8] + digits;
    assert(padded[0] == 32u8);
    assert(space_prefix(padded) == 1);
    assert(padded.skip(1) =~= digits);
    assert(trim_start(padded) == trim_start(padded.skip(1)));
}

/// The header written for a body of `n` bytes is one length field and two
/// empty lines.
proof fn lemma_frame_header_lines(n: nat)
    ensures
        split_lines(frame_header(n)) == seq![
            length_label() + decimal(n),
            Seq::<u8>::empty(),
            Seq::<u8>::empty(),
        ],
{
    lemma_decimal_spells(n);
    let digits = decimal(n);
    let header = frame_header(n);
    let line = length_label() + digits;
    let e = line.len() as int;
    assert(header.len() == e + 4);
    assert forall|j: int| 0 <= j < e implies !crlf_at(header, j) by {
        if j < 16 {
            assert(header[j] == length_label()[j]);
        } else {
            assert(header[j] == digits[j - 16]);
            assert(is_digit(digits[j - 16]));
        }
    }
    assert(header[e] == terminator()[0]);
    assert(header[e + 1] == terminator()[1]);
    lemma_line_end_is(header, e);
    assert(header.take(e) =~= line);
    let tail = header.skip(e + 2);
    assert(tail =~= seq![13u8, 10u8]);
    assert(line_end(tail) == 0);
    assert(tail.take(0) =~= Seq::<u8>::empty());
    assert(tail.skip(2) =~= Seq::<u8>::empty());
    assert(line_end(Seq::<u8>::empty()) == 0);
    assert(split_lines(Seq::<u8>::empty()) == seq![Seq::<u8>::empty()]);
    assert(split_lines(tail) == seq![tail.take(0)] + split_lines(tail.skip(2)));
    assert(split_lines(header) == seq![header.take(e)] + split_lines(tail));
    assert(split_lines(header) =~= seq![line, Seq::<u8>::empty(), Seq::<u8>::empty()]);
}

/// Reading the length back from a written header gives the length that was
/// written, for every length that a body can have.
pub proof fn law_written_length_reads_back(n: nat)
    requires
        0 < n <= usize::MAX,
    ensures
        declared_length(frame_header(n)) == Some(n),
{
    lemma_decimal_spells(n);
    lemma_frame_header_lines(n);
    let digits = decimal(n);
    let line = length_label() + digits;
    let none = Seq::<u8>::empty();
    let lines = seq![line, none, none];
    assert(is_length_field(line)) by {
        assert forall|i: int| 0 <= i < 15 implies crate::text::ascii_lower(#[trigger] line[i])
            == length_key()[i] by {
            assert(line[i] == length_label()[i]);
        }
    }
    assert(!is_length_field(none));
    assert(line.skip(15) =~= seq![32u8] + digits);
    lemma_digits_trim(digits);
    assert(field_value(line) == Some(n));
    assert(!has_bad_length(lines)) by {
        if has_bad_length(lines) {
            let i = choose|i: int|
                0 <= i < lines.len() && is_length_field(#[trigger] lines[i]) && field_value(
                    lines[i],
                ) is None;
            assert(i == 0 || i == 1 || i == 2);
        }
    }
    assert(last_length_field(lines) == 0) by {
        let start = Seq::<Seq<u8>>::empty();
        lemma_lines_push(start, line);
        lemma_lines_push(start.push(line), none);
        lemma_lines_push(start.push(line).push(none), none);
        assert(start.push(line).push(none).push(none) =~= lines);
    }
}

/// A written frame, whatever follows it on the stream, reads back as the
/// header that was written and the body that was framed.
pub proof fn law_frame_round_trip(body: Seq<u8>, rest: Seq<u8>)
    requires
        0 < body.len() <= usize::MAX,
    ensures
        decode_frame(frame(body) + rest) == Ok::<(Seq<u8>, Seq<u8>), FrameError>(
            (frame_header(body.len()), body),
        ),
{
    let n = body.len();
    lemma_decimal_spells(n);
    law_written_length_reads_back(n);
    let digits = decimal(n);
    let header = frame_header(n);
    let input = frame(body) + rest;
    let k = header.len() as int;
    let e = k - 4;
    assert(input.take(k) =~= header);
    assert(header.subrange(k - 4, k) =~= terminator());
    assert forall|j: int| 0 <= j < k implies !ends_with_terminator(#[trigger] input.take(j)) by {
        if j >= 4 {
            let prefix = input.take(j);
            let first = prefix.subrange(j - 4, j)[0];
            assert(first == header[j - 4]);
            if j - 4 < 16 {
                assert(header[j - 4] == length_label()[j - 4]);
            } else if j - 4 < e {
                assert(header[j - 4] == digits[j - 4 - 16]);
                assert(is_digit(digits[j - 4 - 16]));
            } else {
                let second = prefix.subrange(j - 4, j)[1];
                let third = prefix.subrange(j - 4, j)[2];
                assert(second == header[j - 3]);
                assert(third == header[j - 2]);
                assert(header[e] == 13u8 && header[e + 1] == 10u8 && header[e + 2] == 13u8
                    && header[e + 3] == 10u8);
            }
        }
    }
    lemma_header_end_is(input, k);
    assert(input.subrange(k, k + n) =~= body);
}

/// A header that has no length field, or whose last length field declares
/// zero, is malformed, and so is every stream that starts with it: it is
/// never read as a frame with an empty body.
pub proof fn law_missing_or_zero_length_is_refused(input: Seq<u8>, k: int)
    requires
        is_header_end(input, k),
        ({
            let lines = split_lines(input.take(k));
            let last = last_length_field(lines);
            last < 0 || field_value(lines[last]) == Some(0nat)
        }),
    ensures
        declared_length(input.take(k)) is None,
        decode_frame(input) == Err::<(Seq<u8>, Seq<u8>), FrameError>(FrameError::Framing),
{
    lemma_header_end_is(input, k);
}

/// Every frame that is read has a body of at least one byte, as long as its
/// header declares.
pub proof fn law_no_frame_is_empty(input: Seq<u8>)
    ensures
        match decode_frame(input) {
            Ok((header, body)) => body.len() > 0 && declared_length(header) == Some(body.len())
                && header + body == input.take((header.len() + body.len()) as int),
            Err(_) => true,
        },
{
    match decode_frame(input) {
        Ok((header, body)) => {
            let k = header_end(input).unwrap();
            assert(is_header_end(input, k));
            assert(header + body =~= input.take((header.len() + body.len()) as int));
        },
        Err(_) => {},
    }
}

/// A stream that ends before the blank line, or before the body is as long
/// as declared, is read as closed, in the part where it ended: never as a
/// framing error, and never as a frame.
pub proof fn law_early_end_is_closed(input: Seq<u8>)
    ensures
        header_end(input) is None ==> decode_frame(input) == Err::<
            (Seq<u8>, Seq<u8>),
            FrameError,
        >(FrameError::ConnectionClosed(ReadPhase::Header)),
        forall|k: int, n: nat|
            is_header_end(input, k) && declared_length(input.take(k)) == Some(n) && input.len() - k
                < n ==> decode_frame(input) == Err::<(Seq<u8>, Seq<u8>), FrameError>(
                FrameError::ConnectionClosed(ReadPhase::Body),
            ),
{
    assert forall|k: int, n: nat|
        is_header_end(input, k) && declared_length(input.take(k)) == Some(n) && input.len() - k
            < n implies decode_frame(input) == Err::<(Seq<u8>, Seq<u8>), FrameError>(
        FrameError::ConnectionClosed(ReadPhase::Body),
    ) by {
        lemma_header_end_is(input, k);
    }
}

/// A frame that was read, framed again, has a header that declares the same
/// length, and reads back as the same body.
pub proof fn law_reframing_keeps_the_length(input: Seq<u8>)
    requires
        decode_frame(input) is Ok,
    ensures
        ({
            let read = decode_frame(input)->Ok_0;
            &&& declared_length(frame_header(read.1.len())) == declared_length(read.0)
            &&& decode_frame(frame(read.1)) == Ok::<(Seq<u8>, Seq<u8>), FrameError>(
                (frame_header(read.1.len()), read.1),
            )
        }),
{
    let read = decode_frame(input)->Ok_0;
    law_no_frame_is_empty(input);
    law_written_length_reads_back(read.1.len());
    law_frame_round_trip(read.1, Seq::empty());
    assert(frame(read.1) + Seq::<u8>::empty() =~= frame(read.1));
}

/// Appends `bytes` to `out`.
pub fn append_bytes(out: &mut Vec<u8>, bytes: &[u8])
    ensures
        final(out)@ == old(out)@ + bytes@,
{
    let mut i: usize = 0;
    while i < bytes.len()
        invariant
            0 <= i <= bytes@.len(),
            out@ == old(out)@ + bytes@.take(i as int),
        decreases bytes@.len() - i,
    {
        out.push(bytes[i]);
        proof {
            assert(bytes@.take(i + 1) =~= bytes@.take(i as int).push(bytes@[i as int]));
        }
        i = i + 1;
    }
    proof {
        assert(bytes@.take(i as int) =~= bytes@);
    }
}

/// The index of the first CR LF in `s[from..]`, or the length of `s`.
pub fn find_line_end(s: &[u8], from: usize) -> (end: usize)
    requires
        from <= s@.len(),
    ensures
        from <= end <= s@.len(),
        end - from == line_end(s@.skip(from as int)),
{
    let mut i: usize = from;
    loop
        invariant
            from <= i <= s@.len(),
            line_end(s@.skip(from as int)) == (i - from) + line_end(s@.skip(i as int)),
        ensures
            from <= i <= s@.len(),
            i - from == line_end(s@.skip(from as int)),
        decreases s@.len() - i,
    {
        let ghost rest = s@.skip(i as int);
        if s.len() - i < 2 {
            i = s.len();
            break;
        }
        proof {
            assert(rest[0] == s@[i as int]);
            assert(rest[1] == s@[i + 1]);
        }
        if s[i] == 13 && s[i + 1] == 10 {
            break;
        }
        proof {
            assert(rest.skip(1) =~= s@.skip(i + 1));
        }
        i = i + 1;
    }
    i
}

/// The body length that `header` declares.
pub fn parse_content_length(header: &[u8]) -> (length: Result<usize, FrameError>)
    ensures
        match declared_length(header@) {
            Some(n) => length == Ok::<usize, FrameError>(n as usize) && n <= usize::MAX,
            None => length == Err::<usize, FrameError>(FrameError::Framing),
        },
{
    let key: [u8; 15] = [99, 111, 110, 116, 101, 110, 116, 45, 108, 101, 110, 103, 116, 104, 58];
    assert(key@ =~= length_key());
    let mut pos: usize = 0;
    let mut current: usize = 0;
    let ghost mut done: Seq<Seq<u8>> = Seq::empty();
    proof {
        assert(header@.skip(0) =~= header@);
        assert(done + split_lines(header@) =~= split_lines(header@));
    }
    loop
        invariant_except_break
            split_lines(header@) == done + split_lines(header@.skip(pos as int)),
        invariant
            pos <= header@.len(),
            key@ == length_key(),
            !has_bad_length(done),
            last_length_field(done) < 0 ==> current == 0,
            last_length_field(done) >= 0 ==> last_length_field(done) < done.len() && field_value(
                done[last_length_field(done)],
            ) == Some(current as nat),
        ensures
            split_lines(header@) == done,
        decreases header@.len() - pos,
    {
        let end = find_line_end(header, pos);
        let ghost rest = header@.skip(pos as int);
        let ghost line = header@.subrange(pos as int, end as int);
        proof {
            lemma_line_end(rest);
            assert(rest.take(end - pos) =~= line);
            if end + 2 > header@.len() {
                assert(line =~= rest);
            }
            assert(split_lines(rest)[0] == line);
            lemma_lines_push(done, line);
        }
        if has_prefix_ignoring_case(header, pos, end, key.as_slice()) {
            let bounds = trim_bounds(header, pos + 15, end);
            proof {
                assert(line.skip(15) =~= header@.subrange(pos + 15, end as int));
            }
            match parse_usize(header, bounds.0, bounds.1) {
                Some(n) => {
                    current = n;
                },
                None => {
                    proof {
                        let all = split_lines(header@);
                        assert(all[done.len() as int] == line);
                        assert(is_length_field(all[done.len() as int]));
                    }
                    return Err(FrameError::Framing);
                },
            }
        }
        proof {
            if end + 2 > header@.len() {
                assert(done.push(line) =~= done + split_lines(rest));
            } else {
                assert(rest.skip(end - pos + 2) =~= header@.skip(end + 2));
                assert(done.push(line) + split_lines(header@.skip(end + 2)) =~= done + split_lines(
                    rest,
                ));
            }
            done = done.push(line);
        }
        if header.len() - end < 2 {
            break;
        }
        pos = end + 2;
    }
    if current == 0 {
        Err(FrameError::Framing)
    } else {
        Ok(current)
    }
}

/// The frame that carries `body`: the header that declares its length, then
/// the body. Read back, the frame gives that header and that body. A body is
/// never empty.
pub fn encode_frame(body: &[u8]) -> (out: Vec<u8>)
    requires
        body@.len() > 0,
    ensures
        out@ == frame(body@),
        decode_frame(out@) == Ok::<(Seq<u8>, Seq<u8>), FrameError>(
            (frame_header(body@.len()), body@),
        ),
{
    let label: [u8; 16] = [67, 111, 110, 116, 101, 110, 116, 45, 76, 101, 110, 103, 116, 104, 58, 32];
    let closing: [u8; 4] = [13, 10, 13, 10];
    assert(label@ =~= length_label());
    assert(closing@ =~= terminator());
    let mut out: Vec<u8> = Vec::new();
    append_bytes(&mut out, label.as_slice());
    push_decimal(&mut out, body.len() as u64);
    append_bytes(&mut out, closing.as_slice());
    append_bytes(&mut out, body);
    proof {
        assert(out@ =~= frame(body@));
        assert(body@.len() == body.len());
        law_frame_round_trip(body@, Seq::empty());
        assert(frame(body@) + Seq::<u8>::empty() =~= frame(body@));
    }
    out
}

} // verus!
