//! Settings of the diagnostic log: how large the log file may grow before it
//! is rotated.

use vstd::prelude::*;

verus! {

/// Number of rotated log files that are kept beside the live one.
pub const MAX_ARCHIVED_LOGS: u32 = 1;

/// How a line of the log is laid out: time, level, message.
pub const LINE_PATTERN: &'static str = "{d(%Y-%m-%d %H:%M:%S)} {l} - {m}\n";

/// How a rotated log file is named.
pub const ARCHIVE_PATTERN: &'static str = "{}.{}";

/// Bytes in a size of one `M`.
pub const MEBIBYTE: u64 = 1_048_576;

/// Bytes in a size of one `G`.
pub const GIBIBYTE: u64 = 1_073_741_824;

/// Why a text is no size.
#[derive(Debug, Clone, Copy, PartialEq, Eq, Structural)]
pub enum SizeError {
    /// There is no number in front of the unit.
    Empty,
    /// The number holds something else than decimal digits behind an
    /// optional `+`.
    InvalidDigit,
    /// The number, or the size in bytes, does not fit into 64 bits.
    Overflow,
}

/// Value of an ASCII decimal digit; other characters have none.
pub open spec fn digit_value(c: char) -> Option<nat> {
    if '0' <= c && c <= '9' {
        Some((c as u32 - '0' as u32) as nat)
    } else {
        None
    }
}

/// Every character of `text` is a decimal digit.
pub open spec fn all_digits(text: Seq<char>) -> bool {
    forall|i: int| 0 <= i < text.len() ==> (#[trigger] digit_value(text[i])).is_some()
}

/// The number that a run of decimal digits writes.
pub open spec fn decimal_value(digits: Seq<char>) -> nat
    decreases digits.len(),
{
    if digits.len() == 0 {
        0
    } else {
        decimal_value(digits.drop_last()) * 10 + digit_value(digits.last()).unwrap()
    }
}

/// `text` without the `+` it may start with.
pub open spec fn unsigned_part(text: Seq<char>) -> Seq<char> {
    if text.len() > 0 && text[0] == '+' {
        text.skip(1)
    } else {
        text
    }
}

/// Some run of digits at the start of `digits` writes a number beyond 64
/// bits.
pub open spec fn overflows_early(digits: Seq<char>) -> bool {
    exists|k: int|
        0 <= k <= digits.len() && all_digits(#[trigger] digits.take(k)) && decimal_value(
            digits.take(k),
        ) > u64::MAX
}

/// The number that `text` writes: decimal digits behind an optional `+`.
/// The text is read from the left, and the first thing that is wrong with it
/// is what is reported.
pub open spec fn number_of_text(text: Seq<char>) -> Result<u64, SizeError> {
    let digits = unsigned_part(text);
    if text.len() == 0 {
        Err(SizeError::Empty)
    } else if digits.len() == 0 {
        Err(SizeError::InvalidDigit)
    } else if overflows_early(digits) {
        Err(SizeError::Overflow)
    } else if !all_digits(digits) {
        Err(SizeError::InvalidDigit)
    } else {
        Ok(decimal_value(digits) as u64)
    }
}

/// Bytes in one unit of a size that ends in `unit`.
pub open spec fn unit_bytes(unit: char) -> nat {
    if unit == 'M' {
        MEBIBYTE as nat
    } else if unit == 'G' {
        GIBIBYTE as nat
    } else {
        1
    }
}

/// The size in bytes that `text` stands for. The last character is the unit,
/// `M` or `G`, and what stands before it is the number. A last character that
/// is neither counts as a unit of one byte and is not part of the number
/// either.
pub open spec fn size_of_text(text: Seq<char>) -> Result<u64, SizeError> {
    if text.len() == 0 {
        Err(SizeError::Empty)
    } else {
        match number_of_text(text.drop_last()) {
            Err(error) => Err(error),
            Ok(number) => if number * unit_bytes(text.last()) > u64::MAX {
                Err(SizeError::Overflow)
            } else {
                Ok((number * unit_bytes(text.last())) as u64)
            },
        }
    }
}

/// A longer run of digits writes no smaller number than its start.
pub proof fn lemma_decimal_value_grows(digits: Seq<char>, k: int)
    requires
        0 <= k <= digits.len(),
    ensures
        decimal_value(digits.take(k)) <= decimal_value(digits),
    decreases digits.len(),
{
    if k == digits.len() {
        assert(digits.take(k) =~= digits);
    } else {
        assert(digits.drop_last().take(k) =~= digits.take(k));
        lemma_decimal_value_grows(digits.drop_last(), k);
    }
}

/// The characters of `text`.
fn characters(text: &str) -> (chars: Vec<char>)
    ensures
        chars@ == text@,
{
    let mut chars: Vec<char> = Vec::new();
    for c in it: text.chars()
        invariant
            it.seq() == text@,
            chars@ == it.seq().take(it.index() as int),
    {
        chars.push(c);
    }
    chars
}

fn digit_of(c: char) -> (digit: Option<u8>)
    ensures
        match digit {
            Some(d) => digit_value(c) == Some(d as nat) && d <= 9,
            None => digit_value(c).is_none(),
        },
{
    if '0' <= c && c <= '9' {
        let code: u32 = c as u32;
        Some((code - 48) as u8)
    } else {
        None
    }
}

/// Reads the characters of `text` from `start` to `end` as a number.
fn parse_digits(text: &Vec<char>, start: usize, end: usize) -> (number: Result<u64, SizeError>)
    requires
        start < end <= text@.len(),
    ensures
        ({
            let digits = text@.subrange(start as int, end as int);
            number == if overflows_early(digits) {
                Err::<u64, SizeError>(SizeError::Overflow)
            } else if !all_digits(digits) {
                Err(SizeError::InvalidDigit)
            } else {
                Ok(decimal_value(digits) as u64)
            }
        }),
{
    let ghost digits = text@.subrange(start as int, end as int);
    let mut value: u64 = 0;
    let mut i: usize = start;
    while i < end
        invariant
            start <= i <= end <= text@.len(),
            digits == text@.subrange(start as int, end as int),
            all_digits(digits.take(i - start)),
            value == decimal_value(digits.take(i - start)),
        decreases end - i,
    {
        let ghost read = digits.take(i - start);
        let ghost more = digits.take(i - start + 1);
        let c = text[i];
        assert(more.drop_last() =~= read);
        match digit_of(c) {
            None => {
                proof {
                    assert forall|k: int|
                        0 <= k <= digits.len() && all_digits(
                            #[trigger] digits.take(k),
                        ) implies decimal_value(digits.take(k)) <= u64::MAX by {
                        if k > i - start {
                            assert(digits.take(k)[i - start] == digits[i - start]);
                        } else {
                            assert(read.take(k) =~= digits.take(k));
                            lemma_decimal_value_grows(read, k);
                        }
                    }
                }
                return Err(SizeError::InvalidDigit);
            },
            Some(d) => {
                let next = match value.checked_mul(10) {
                    Some(tens) => tens.checked_add(d as u64),
                    None => None,
                };
                assert(all_digits(more)) by {
                    assert forall|j: int| 0 <= j < more.len() implies (#[trigger] digit_value(
                        more[j],
                    )).is_some() by {
                        if j < read.len() {
                            assert(more[j] == read[j]);
                        }
                    }
                }
                match next {
                    None => {
                        return Err(SizeError::Overflow);
                    },
                    Some(sum) => {
                        value = sum;
                    },
                }
            },
        }
        i += 1;
    }
    proof {
        assert(digits.take(i - start) =~= digits);
        assert forall|k: int|
            0 <= k <= digits.len() && all_digits(#[trigger] digits.take(k)) implies decimal_value(
            digits.take(k),
        ) <= u64::MAX by {
            lemma_decimal_value_grows(digits, k);
        }
    }
    Ok(value)
}

/// Reads the first `end` characters of `text` as a number.
fn parse_number(text: &Vec<char>, end: usize) -> (number: Result<u64, SizeError>)
    requires
        end <= text@.len(),
    ensures
        number == number_of_text(text@.take(end as int)),
{
    let ghost whole = text@.take(end as int);
    if end == 0 {
        return Err(SizeError::Empty);
    }
    let start: usize = if text[0] == '+' {
        1
    } else {
        0
    };
    assert(unsigned_part(whole) =~= text@.subrange(start as int, end as int));
    if start == end {
        return Err(SizeError::InvalidDigit);
    }
    parse_digits(text, start, end)
}

/// Reads a size such as `10M` or `2G`: the last character is the unit and
/// what stands before it the number. `M` counts 1024 * 1024 bytes, `G`
/// 1024 * 1024 * 1024, and any other last character one byte. A size that
/// does not fit into 64 bits is refused.
pub fn parse_size(size: &str) -> (bytes: Result<u64, SizeError>)
    ensures
        bytes == size_of_text(size@),
{
    let text = characters(size);
    let len = text.len();
    if len == 0 {
        return Err(SizeError::Empty);
    }
    let unit = text[len - 1];
    let number = match parse_number(&text, len - 1) {
        Ok(number) => number,
        Err(error) => {
            return Err(error);
        },
    };
    let factor: u64 = if unit == 'M' {
        MEBIBYTE
    } else if unit == 'G' {
        GIBIBYTE
    } else {
        1
    };
    match number.checked_mul(factor) {
        Some(bytes) => Ok(bytes),
        None => Err(SizeError::Overflow),
    }
}

} // verus!
