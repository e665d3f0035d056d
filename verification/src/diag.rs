//! Diagnostics: previews of offending bytes, lines for the local record, and
//! what is read out of a metrics notification for that record.
//!
//! None of this bears on what the bridge does; it is there so that a protocol
//! mismatch can be understood without capturing the traffic again.

use crate::framing::append_bytes;
use crate::json::value_as_i64;
use crate::json::value_get;
use crate::json::value_model;
use crate::json::JsonModel;
use crate::text::decimal;
use crate::text::push_decimal;
use vstd::prelude::*;
use vstd::slice::slice_subrange;
use vstd::slice::slice_to_vec;
use vstd::string::StringSliceAdditionalSpecFns;

verus! {

/// How many bytes of a body a preview shows at most.
pub const PREVIEW_LIMIT: usize = 400;

/// The start of `bytes` that a preview shows.
pub open spec fn preview_of(bytes: Seq<u8>) -> Seq<u8> {
    if bytes.len() <= PREVIEW_LIMIT {
        bytes
    } else {
        bytes.take(PREVIEW_LIMIT as int)
    }
}

/// A byte as it stands in an escaped preview: a line feed as `\n`, a carriage
/// return as `\r`, both spelled with a backslash, any other byte as it is.
pub open spec fn escaped_byte(b: u8) -> Seq<u8> {
    if b == 10 {
        seq![92u8, 110u8]
    } else if b == 13 {
        seq![92u8, 114u8]
    } else {
        seq![b]
    }
}

/// `bytes` with its line breaks escaped, so that it fits on one line.
pub open spec fn escaped(bytes: Seq<u8>) -> Seq<u8>
    decreases bytes.len(),
{
    if bytes.len() == 0 {
        Seq::empty()
    } else {
        escaped(bytes.drop_last()) + escaped_byte(bytes.last())
    }
}

/// A line of the local record: the time in milliseconds, the level in square
/// brackets, the message, and a line feed.
pub open spec fn log_line_text(at: u64, level: Seq<u8>, message: Seq<u8>) -> Seq<u8> {
    decimal(at as nat) + seq![32u8, 91u8] + level + seq![93u8, 32u8] + message + seq![10u8]
}

/// The whole number under `key` of `object`, -1 where there is none that fits
/// in 64 signed bits.
pub open spec fn count_member(object: JsonModel, key: Seq<char>) -> i64 {
    match object.member(key) {
        Some(found) => match found.as_i64() {
            Some(n) => n,
            None => -1i64,
        },
        None => -1i64,
    }
}

/// The memory figures of a metrics payload, total and used megabytes: there
/// where the payload has a member `memory` whose `total_mb` and `used_mb` are
/// whole numbers that are not negative.
pub open spec fn memory_figures(payload: JsonModel) -> Option<(u64, u64)> {
    match payload.member("memory"@) {
        Some(memory) => {
            let total = count_member(memory, "total_mb"@);
            let used = count_member(memory, "used_mb"@);
            if total >= 0 && used >= 0 {
                Some((total as u64, used as u64))
            } else {
                None
            }
        },
        None => None,
    }
}

/// The start of `bytes` that a preview shows: all of it up to the limit.
pub fn preview(bytes: &[u8]) -> (head: Vec<u8>)
    ensures
        head@ == preview_of(bytes@),
        head@.len() <= PREVIEW_LIMIT,
{
    if bytes.len() <= PREVIEW_LIMIT {
        slice_to_vec(bytes)
    } else {
        let head = slice_subrange(bytes, 0, PREVIEW_LIMIT);
        slice_to_vec(head)
    }
}

/// `bytes` with its line breaks escaped.
pub fn escape_line_breaks(bytes: &[u8]) -> (out: Vec<u8>)
    ensures
        out@ == escaped(bytes@),
{
    let mut out: Vec<u8> = Vec::new();
    let mut i: usize = 0;
    while i < bytes.len()
        invariant
            0 <= i <= bytes@.len(),
            out@ == escaped(bytes@.take(i as int)),
        decreases bytes@.len() - i,
    {
        let b = bytes[i];
        proof {
            assert(bytes@.take(i + 1).drop_last() =~= bytes@.take(i as int));
            assert(bytes@.take(i + 1).last() == b);
        }
        if b == 10 {
            out.push(92);
            out.push(110);
        } else if b == 13 {
            out.push(92);
            out.push(114);
        } else {
            out.push(b);
        }
        proof {
            assert(out@ =~= escaped(bytes@.take(i as int)) + escaped_byte(b));
        }
        i = i + 1;
    }
    proof {
        assert(bytes@.take(i as int) =~= bytes@);
    }
    out
}

/// A line of the local record.
pub fn log_line(at: u64, level: &str, message: &str) -> (line: Vec<u8>)
    ensures
        line@ == log_line_text(at, level.spec_bytes(), message.spec_bytes()),
{
    let mut line: Vec<u8> = Vec::new();
    push_decimal(&mut line, at);
    line.push(32);
    line.push(91);
    append_bytes(&mut line, level.as_bytes());
    line.push(93);
    line.push(32);
    append_bytes(&mut line, message.as_bytes());
    line.push(10);
    proof {
        assert(line@ =~= log_line_text(at, level.spec_bytes(), message.spec_bytes()));
    }
    line
}

/// The whole number under `key` of `object`, -1 where there is none.
fn count_of(object: &serde_json::Value, key: &str) -> (n: i64)
    ensures
        n == count_member(value_model(*object), key@),
{
    match value_get(object, key) {
        Some(found) => match value_as_i64(found) {
            Some(n) => n,
            None => -1,
        },
        None => -1,
    }
}

/// The memory figures of a metrics payload, total and used megabytes.
pub fn memory_sample(payload: &serde_json::Value) -> (figures: Option<(u64, u64)>)
    ensures
        figures == memory_figures(value_model(*payload)),
{
    match value_get(payload, "memory") {
        Some(memory) => {
            let total = count_of(memory, "total_mb");
            let used = count_of(memory, "used_mb");
            if total >= 0 && used >= 0 {
                Some((total as u64, used as u64))
            } else {
                None
            }
        },
        None => None,
    }
}

} // verus!
