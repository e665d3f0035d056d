//! Text as bytes: decimal numbers, white space and letter case.
//!
//! Header text arrives as bytes that need not be valid UTF-8, so everything
//! here reads bytes. White space is what Unicode calls `White_Space`, told by
//! its UTF-8 form; a byte that belongs to no such form is never trimmed.

use vstd::prelude::*;

verus! {

/// Whether `b` is one of `0` to `9`.
pub open spec fn is_digit(b: u8) -> bool {
    48 <= b && b <= 57
}

/// Whether `s` holds decimal digits only.
pub open spec fn all_digits(s: Seq<u8>) -> bool {
    forall|i: int| 0 <= i < s.len() ==> is_digit(#[trigger] s[i])
}

/// The decimal digits of `n`, most significant first, without leading zeros.
pub open spec fn decimal(n: nat) -> Seq<u8>
    decreases n,
{
    if n < 10 {
        seq![(48 + n) as u8]
    } else {
        decimal(n / 10).push((48 + n % 10) as u8)
    }
}

/// The number that a run of decimal digits spells; leading zeros count for
/// nothing and the empty run spells 0.
pub open spec fn digits_value(s: Seq<u8>) -> nat
    decreases s.len(),
{
    if s.len() == 0 {
        0
    } else {
        digits_value(s.drop_last()) * 10 + (s.last() - 48) as nat
    }
}

/// What is left of `s` behind one leading `+`, if it has one.
pub open spec fn without_plus(s: Seq<u8>) -> Seq<u8> {
    if s.len() > 0 && s[0] == 43 {
        s.skip(1)
    } else {
        s
    }
}

/// The unsigned number that `s` spells: an optional `+`, then one decimal
/// digit or more, with a value that a `usize` holds. `None` for anything
/// else.
pub open spec fn parse_unsigned(s: Seq<u8>) -> Option<nat> {
    let digits = without_plus(s);
    if digits.len() > 0 && all_digits(digits) && digits_value(digits) <= usize::MAX {
        Some(digits_value(digits))
    } else {
        None
    }
}

/// Whether the three bytes are the UTF-8 form of a white-space character of
/// three bytes: U+1680, U+2000 to U+200A, U+2028, U+2029, U+202F, U+205F or
/// U+3000.
pub open spec fn is_wide_space(a: u8, b: u8, c: u8) -> bool {
    ||| a == 0xE1 && b == 0x9A && c == 0x80
    ||| a == 0xE2 && b == 0x80 && (0x80 <= c <= 0x8A || c == 0xA8 || c == 0xA9 || c == 0xAF)
    ||| a == 0xE2 && b == 0x81 && c == 0x9F
    ||| a == 0xE3 && b == 0x80 && c == 0x80
}

/// Whether the byte is a white-space character by itself: a space or one of
/// U+0009 to U+000D.
pub open spec fn is_narrow_space(a: u8) -> bool {
    a == 32 || (9 <= a && a <= 13)
}

/// Whether the two bytes are the UTF-8 form of U+0085 or U+00A0.
pub open spec fn is_middle_space(a: u8, b: u8) -> bool {
    a == 0xC2 && (b == 0x85 || b == 0xA0)
}

/// The length in bytes of the white-space character that `s` starts with; 0
/// where it starts with none.
pub open spec fn space_prefix(s: Seq<u8>) -> nat {
    if s.len() >= 1 && is_narrow_space(s[0]) {
        1
    } else if s.len() >= 2 && is_middle_space(s[0], s[1]) {
        2
    } else if s.len() >= 3 && is_wide_space(s[0], s[1], s[2]) {
        3
    } else {
        0
    }
}

/// The length in bytes of the white-space character that `s` ends with; 0
/// where it ends with none.
pub open spec fn space_suffix(s: Seq<u8>) -> nat {
    let n = s.len() as int;
    if n >= 1 && is_narrow_space(s[n - 1]) {
        1
    } else if n >= 2 && is_middle_space(s[n - 2], s[n - 1]) {
        2
    } else if n >= 3 && is_wide_space(s[n - 3], s[n - 2], s[n - 1]) {
        3
    } else {
        0
    }
}

/// `s` without the white space that it starts with.
pub open spec fn trim_start(s: Seq<u8>) -> Seq<u8>
    decreases s.len(),
{
    let k = space_prefix(s);
    if k == 0 {
        s
    } else {
        trim_start(s.skip(k as int))
    }
}

/// `s` without the white space that it ends with.
pub open spec fn trim_end(s: Seq<u8>) -> Seq<u8>
    decreases s.len(),
{
    let k = space_suffix(s);
    if k == 0 {
        s
    } else {
        trim_end(s.take(s.len() - k))
    }
}

/// `s` without the white space at either end.
pub open spec fn trim(s: Seq<u8>) -> Seq<u8> {
    trim_end(trim_start(s))
}

/// The lower-case form of an ASCII capital; any other byte as it is.
pub open spec fn ascii_lower(b: u8) -> u8 {
    if 65 <= b && b <= 90 {
        (b + 32) as u8
    } else {
        b
    }
}

/// Whether `s` starts with `key` once its ASCII capitals are lowered.
pub open spec fn starts_with_lowered(s: Seq<u8>, key: Seq<u8>) -> bool {
    s.len() >= key.len() && forall|i: int|
        0 <= i < key.len() ==> ascii_lower(#[trigger] s[i]) == key[i]
}

/// The digits of a number are digits, at least one, and spell it.
pub proof fn lemma_decimal_spells(n: nat)
    ensures
        decimal(n).len() >= 1,
        all_digits(decimal(n)),
        digits_value(decimal(n)) == n,
    decreases n,
{
    if n < 10 {
        let d = decimal(n);
        assert(d.len() == 1);
        assert(d.drop_last().len() == 0);
        assert(digits_value(d) == digits_value(d.drop_last()) * 10 + (d.last() - 48) as nat);
    } else {
        lemma_decimal_spells(n / 10);
        let head = decimal(n / 10);
        let d = decimal(n);
        assert(d.drop_last() =~= head);
        assert(d.last() == (48 + n % 10) as u8);
        assert forall|i: int| 0 <= i < d.len() implies is_digit(#[trigger] d[i]) by {
            if i < head.len() {
                assert(d[i] == head[i]);
            }
        }
    }
}

/// A run of digits spells at least what any of its prefixes spells.
proof fn lemma_digits_value_grows(s: Seq<u8>, k: int)
    requires
        all_digits(s),
        0 <= k <= s.len(),
    ensures
        digits_value(s.take(k)) <= digits_value(s),
    decreases s.len() - k,
{
    if k == s.len() {
        assert(s.take(k) =~= s);
    } else {
        lemma_digits_value_grows(s, k + 1);
        let longer = s.take(k + 1);
        assert(longer.drop_last() =~= s.take(k));
        assert(is_digit(s[k]));
        assert(longer.last() == s[k]);
    }
}

/// Appends the decimal digits of `n` to `out`.
pub fn push_decimal(out: &mut Vec<u8>, n: u64)
    ensures
        final(out)@ == old(out)@ + decimal(n as nat),
    decreases n,
{
    if n >= 10 {
        push_decimal(out, n / 10);
    }
    let digit: u8 = (n % 10) as u8;
    out.push(48 + digit);
    proof {
        assert(out@ =~= old(out)@ + decimal(n as nat));
    }
}

/// Reads the unsigned number that `s[from..to]` spells.
pub fn parse_usize(s: &[u8], from: usize, to: usize) -> (parsed: Option<usize>)
    requires
        from <= to <= s@.len(),
    ensures
        match parse_unsigned(s@.subrange(from as int, to as int)) {
            Some(n) => parsed == Some(n as usize),
            None => parsed is None,
        },
{
    let ghost text = s@.subrange(from as int, to as int);
    let start: usize = if from < to && s[from] == 43 {
        from + 1
    } else {
        from
    };
    let ghost digits = s@.subrange(start as int, to as int);
    assert(digits =~= without_plus(text));
    if start == to {
        return None;
    }
    let mut i: usize = start;
    let mut value: usize = 0;
    while i < to
        invariant
            from <= start <= i <= to <= s@.len(),
            start < to,
            digits == s@.subrange(start as int, to as int),
            digits == without_plus(s@.subrange(from as int, to as int)),
            all_digits(digits.take(i - start)),
            value == digits_value(digits.take(i - start)),
        decreases to - i,
    {
        let b: u8 = s[i];
        let ghost seen = digits.take(i - start);
        let ghost next = digits.take(i - start + 1);
        proof {
            assert(next.drop_last() =~= seen);
            assert(next.last() == b);
        }
        if b < 48 || b > 57 {
            proof {
                assert(!is_digit(digits[i - start]));
            }
            return None;
        }
        let scaled = match value.checked_mul(10) {
            Some(scaled) => scaled,
            None => {
                proof {
                    if all_digits(digits) {
                        lemma_digits_value_grows(digits, i - start + 1);
                    }
                }
                return None;
            },
        };
        let grown = match scaled.checked_add((b - 48) as usize) {
            Some(grown) => grown,
            None => {
                proof {
                    if all_digits(digits) {
                        lemma_digits_value_grows(digits, i - start + 1);
                    }
                }
                return None;
            },
        };
        proof {
            assert forall|j: int| 0 <= j < next.len() implies is_digit(#[trigger] next[j]) by {
                if j < seen.len() {
                    assert(next[j] == seen[j]);
                }
            }
        }
        value = grown;
        i = i + 1;
    }
    proof {
        assert(digits.take(i - start) =~= digits);
    }
    Some(value)
}

/// The length of the white-space character that `s[from..to]` starts with.
pub fn space_prefix_len(s: &[u8], from: usize, to: usize) -> (k: usize)
    requires
        from <= to <= s@.len(),
    ensures
        k == space_prefix(s@.subrange(from as int, to as int)),
        from + k <= to,
{
    let n = to - from;
    if n >= 1 && (s[from] == 32 || (9 <= s[from] && s[from] <= 13)) {
        1
    } else if n >= 2 && s[from] == 0xC2 && (s[from + 1] == 0x85 || s[from + 1] == 0xA0) {
        2
    } else if n >= 3 && wide_space(s[from], s[from + 1], s[from + 2]) {
        3
    } else {
        0
    }
}

/// The length of the white-space character that `s[from..to]` ends with.
pub fn space_suffix_len(s: &[u8], from: usize, to: usize) -> (k: usize)
    requires
        from <= to <= s@.len(),
    ensures
        k == space_suffix(s@.subrange(from as int, to as int)),
        from + k <= to,
{
    let n = to - from;
    if n >= 1 && (s[to - 1] == 32 || (9 <= s[to - 1] && s[to - 1] <= 13)) {
        1
    } else if n >= 2 && s[to - 2] == 0xC2 && (s[to - 1] == 0x85 || s[to - 1] == 0xA0) {
        2
    } else if n >= 3 && wide_space(s[to - 3], s[to - 2], s[to - 1]) {
        3
    } else {
        0
    }
}

/// Whether three bytes spell a white-space character of three bytes.
pub fn wide_space(a: u8, b: u8, c: u8) -> (wide: bool)
    ensures
        wide == is_wide_space(a, b, c),
{
    (a == 0xE1 && b == 0x9A && c == 0x80) || (a == 0xE2 && b == 0x80 && ((0x80 <= c && c <= 0x8A)
        || c == 0xA8 || c == 0xA9 || c == 0xAF)) || (a == 0xE2 && b == 0x81 && c == 0x9F) || (a
        == 0xE3 && b == 0x80 && c == 0x80)
}

/// Where `s[from..to]` starts and ends once the white space at either end is
/// left out.
pub fn trim_bounds(s: &[u8], from: usize, to: usize) -> (bounds: (usize, usize))
    requires
        from <= to <= s@.len(),
    ensures
        from <= bounds.0 <= bounds.1 <= to,
        s@.subrange(bounds.0 as int, bounds.1 as int) == trim(s@.subrange(from as int, to as int)),
{
    let mut a: usize = from;
    loop
        invariant
            from <= a <= to <= s@.len(),
            trim_start(s@.subrange(from as int, to as int)) == trim_start(
                s@.subrange(a as int, to as int),
            ),
        ensures
            from <= a <= to <= s@.len(),
            trim_start(s@.subrange(from as int, to as int)) == s@.subrange(a as int, to as int),
        decreases to - a,
    {
        let k = space_prefix_len(s, a, to);
        if k == 0 {
            break;
        }
        proof {
            assert(s@.subrange(a as int, to as int).skip(k as int) =~= s@.subrange(
                (a + k) as int,
                to as int,
            ));
        }
        a = a + k;
    }
    let mut b: usize = to;
    loop
        invariant
            a <= b <= to <= s@.len(),
            trim_end(s@.subrange(a as int, to as int)) == trim_end(
                s@.subrange(a as int, b as int),
            ),
        ensures
            a <= b <= to <= s@.len(),
            trim_end(s@.subrange(a as int, to as int)) == s@.subrange(a as int, b as int),
        decreases b - a,
    {
        let k = space_suffix_len(s, a, b);
        if k == 0 {
            break;
        }
        proof {
            let whole = s@.subrange(a as int, b as int);
            assert(whole.take(whole.len() - k) =~= s@.subrange(a as int, (b - k) as int));
        }
        b = b - k;
    }
    (a, b)
}

/// Whether `s[from..to]` starts with `key` once its ASCII capitals are
/// lowered.
pub fn has_prefix_ignoring_case(s: &[u8], from: usize, to: usize, key: &[u8]) -> (found: bool)
    requires
        from <= to <= s@.len(),
    ensures
        found == starts_with_lowered(s@.subrange(from as int, to as int), key@),
{
    if to - from < key.len() {
        return false;
    }
    let ghost line = s@.subrange(from as int, to as int);
    let mut i: usize = 0;
    while i < key.len()
        invariant
            from <= to <= s@.len(),
            key@.len() <= to - from,
            line == s@.subrange(from as int, to as int),
            0 <= i <= key@.len(),
            forall|j: int| 0 <= j < i ==> ascii_lower(#[trigger] line[j]) == key@[j],
        decreases key@.len() - i,
    {
        let b: u8 = s[from + i];
        let low: u8 = if 65 <= b && b <= 90 {
            b + 32
        } else {
            b
        };
        if low != key[i] {
            proof {
                assert(ascii_lower(line[i as int]) != key@[i as int]);
            }
            return false;
        }
        i = i + 1;
    }
    true
}

} // verus!
