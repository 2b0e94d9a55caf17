//! What a caller chooses before a detector is built, and the notation in
//! which a size is asked for.
//!
//! A size is written as a whole number of bytes (`200`), or as a decimal
//! number followed by a unit: `B` for bytes or `b` for bits, with an SI
//! prefix in front of it if wanted (`5kB`, `2GB`, `3Mb`).

use vstd::prelude::*;
use vstd::string::StrSliceExecFns;
use core::time::Duration;
use crate::detector::{Detector, DetectorError, DetectorView, ScanMode};

verus! {

/// Which memory a detector of maximum size lays claim to.
#[derive(Clone, Copy, Debug, PartialEq, Eq, Structural)]
pub enum AllocationMode {
    /// Unused memory and memory that can be reclaimed, such as caches.
    Available,
    /// Unused memory only.
    Free,
}

/// The settings of one run.
#[derive(Debug)]
pub struct Cli {
    /// The size of the block to watch, in bytes.
    pub memory_to_monitor: Option<usize>,
    /// Watch as much memory as can be had, in the given way.
    pub use_all: Option<AllocationMode>,
    /// The time between two integrity checks.
    pub delay: Duration,
    /// Report more than the bit flips.
    pub verbose: bool,
    /// Write one line per report, without carriage returns.
    pub log_format: bool,
    /// The number of worker threads; the number of logical cores if absent.
    pub jobs: Option<usize>,
}

impl Cli {
    /// A size or a way to take all memory is given; a size and a number of
    /// workers are above zero.
    pub open spec fn wf(&self) -> bool {
        &&& self.memory_to_monitor is Some || self.use_all is Some
        &&& self.memory_to_monitor matches Some(bytes) ==> bytes > 0
        &&& self.jobs matches Some(workers) ==> workers > 0
    }

    /// Builds the detector that the settings ask for: of the given size if
    /// there is one, else of as much memory as can be had. Its bytes hold
    /// `default`, and its passes are shared out among the worker threads.
    pub fn detector(&self, default: u8) -> (made: Result<Detector, DetectorError>)
        requires
            self.wf(),
        ensures
            match made {
                Ok(detector) => {
                    &&& detector.wf()
                    &&& detector@ == DetectorView::created(default, detector@.mass.len())
                    &&& self.memory_to_monitor matches Some(bytes) ==> detector@.mass.len()
                        == bytes
                    &&& detector.mode() == ScanMode::Parallel
                    &&& detector.passes() == Seq::<u8>::empty()
                },
                Err(error) => self.memory_to_monitor is Some ==> error
                    == DetectorError::AllocationFailed,
            },
    {
        let made = match self.memory_to_monitor {
            Some(bytes) => Detector::new(default, bytes),
            None => match self.use_all {
                Some(mode) => Detector::new_with_maximum_size_in_mode(default, mode),
                None => vstd::pervasive::unreached(),
            },
        };
        match made {
            Ok(detector) => Ok(detector.with_scan_mode(ScanMode::Parallel)),
            Err(error) => Err(error),
        }
    }
}

/// A decimal prefix of a unit.
#[derive(Clone, Copy, Debug, PartialEq, Eq, Structural)]
pub enum SiPrefix {
    /// `k`, a thousand.
    Kilo,
    /// `M`, a million.
    Mega,
    /// `G`, ten to the ninth.
    Giga,
    /// `T`, ten to the twelfth.
    Tera,
    /// `P`, ten to the fifteenth.
    Peta,
    /// `E`, ten to the eighteenth.
    Exa,
    /// `Z`, ten to the twenty-first.
    Zetta,
    /// `Y`, ten to the twenty-fourth.
    Yotta,
}

/// What a number counts.
#[derive(Clone, Copy, Debug, PartialEq, Eq, Structural)]
pub enum Unit {
    /// `B`.
    Bytes,
    /// `b`, an eighth of a byte each.
    Bits,
}

/// A size as it was asked for.
#[derive(Clone, Copy, Debug, PartialEq, Eq, Structural)]
pub enum SizeRequest {
    /// A whole number of bytes, above zero.
    Bytes(usize),
    /// A decimal number and its unit. The number is the first `number_len`
    /// characters of the text, all of them ASCII; it has at least one digit
    /// and at most one decimal point.
    Scaled { number_len: usize, prefix: Option<SiPrefix>, unit: Unit },
}

/// Why a text is not a size.
#[derive(Clone, Copy, Debug, PartialEq, Eq, Structural)]
pub enum SizeError {
    /// The text is the number zero.
    Zero,
    /// The text is made of digits and decimal points only, and is no whole
    /// number that the machine can hold.
    MissingSuffix,
    /// The first `number_len` characters of the text, those before the
    /// suffix, are not a decimal number.
    InvalidNumber { number_len: usize },
    /// The suffix takes more than two bytes.
    SuffixTooLong,
    /// The suffix ends in something other than `B` or `b`.
    InvalidEnding(char),
    /// The character before the unit is not an SI prefix.
    UnsupportedPrefix(char),
}

/// `c` is one of the ten ASCII digits.
pub open spec fn is_digit(c: char) -> bool {
    '0' <= c <= '9'
}

/// `c` may stand in the number part of a size: a digit or a decimal point.
pub open spec fn is_number_char(c: char) -> bool {
    is_digit(c) || c == '.'
}

/// The number that a run of digits denotes in base ten.
pub open spec fn decimal_value(digits: Seq<char>) -> nat
    decreases digits.len(),
{
    if digits.len() == 0 {
        0
    } else {
        decimal_value(digits.drop_last()) * 10 + (digits.last() as nat - '0' as nat) as nat
    }
}

/// `text` is made of digits only.
pub open spec fn all_digits(text: Seq<char>) -> bool {
    forall|i: int| 0 <= i < text.len() ==> is_digit(#[trigger] text[i])
}

/// The whole number that `text` denotes: one or more digits, with a plus
/// sign in front of them if wanted.
pub open spec fn whole_number(text: Seq<char>) -> Option<nat> {
    let digits = if text.len() > 0 && text[0] == '+' {
        text.skip(1)
    } else {
        text
    };
    if digits.len() > 0 && all_digits(digits) {
        Some(decimal_value(digits))
    } else {
        None
    }
}

/// The whole number that `text` denotes, if the machine can hold it.
pub open spec fn machine_number(text: Seq<char>) -> Option<usize> {
    match whole_number(text) {
        Some(number) => if number <= usize::MAX {
            Some(number as usize)
        } else {
            None
        },
        None => None,
    }
}

/// How many characters at the start of `text` are digits or decimal points.
pub open spec fn number_len(text: Seq<char>) -> nat
    decreases text.len(),
{
    if text.len() > 0 && is_number_char(text[0]) {
        1 + number_len(text.skip(1))
    } else {
        0
    }
}

/// `text`, made of digits and decimal points, is a decimal number: it has a
/// digit, and no second decimal point.
pub open spec fn is_decimal_number(text: Seq<char>) -> bool {
    &&& exists|i: int| 0 <= i < text.len() && is_digit(#[trigger] text[i])
    &&& forall|i: int, j: int|
        0 <= i < text.len() && 0 <= j < text.len() && #[trigger] text[i] == '.' && #[trigger] text[j]
            == '.' ==> i == j
}

/// The number of bytes that `c` takes in UTF-8.
pub open spec fn utf8_len(c: char) -> nat {
    if c as u32 <= 0x7f {
        1
    } else if c as u32 <= 0x7ff {
        2
    } else if c as u32 <= 0xffff {
        3
    } else {
        4
    }
}

/// The number of bytes that `text` takes in UTF-8.
pub open spec fn utf8_len_of(text: Seq<char>) -> nat
    decreases text.len(),
{
    if text.len() == 0 {
        0
    } else {
        utf8_len_of(text.drop_last()) + utf8_len(text.last())
    }
}

/// The SI prefix that `c` stands for, if any.
pub open spec fn si_prefix(c: char) -> Option<SiPrefix> {
    if c == 'k' {
        Some(SiPrefix::Kilo)
    } else if c == 'M' {
        Some(SiPrefix::Mega)
    } else if c == 'G' {
        Some(SiPrefix::Giga)
    } else if c == 'T' {
        Some(SiPrefix::Tera)
    } else if c == 'P' {
        Some(SiPrefix::Peta)
    } else if c == 'E' {
        Some(SiPrefix::Exa)
    } else if c == 'Z' {
        Some(SiPrefix::Zetta)
    } else if c == 'Y' {
        Some(SiPrefix::Yotta)
    } else {
        None
    }
}

/// The unit that `c` stands for, if any.
pub open spec fn unit(c: char) -> Option<Unit> {
    if c == 'B' {
        Some(Unit::Bytes)
    } else if c == 'b' {
        Some(Unit::Bits)
    } else {
        None
    }
}

/// What the suffix of a size says, the number before it being the first
/// `number_len` characters of the text. The suffix is not empty.
pub open spec fn suffix_request(suffix: Seq<char>, number_len: usize) -> Result<
    SizeRequest,
    SizeError,
> {
    if utf8_len_of(suffix) > 2 {
        Err(SizeError::SuffixTooLong)
    } else {
        match unit(suffix.last()) {
            None => Err(SizeError::InvalidEnding(suffix.last())),
            Some(unit) => if suffix.len() == 1 {
                Ok(SizeRequest::Scaled { number_len, prefix: None, unit })
            } else {
                match si_prefix(suffix[suffix.len() - 2]) {
                    None => Err(SizeError::UnsupportedPrefix(suffix[suffix.len() - 2])),
                    Some(prefix) => Ok(
                        SizeRequest::Scaled { number_len, prefix: Some(prefix), unit },
                    ),
                }
            },
        }
    }
}

/// What `text` asks for.
///
/// A whole number that the machine can hold is a number of bytes, and must
/// not be zero. Any other text is a number, for as long as digits and
/// decimal points go on, and a suffix after it.
pub open spec fn size_request(text: Seq<char>) -> Result<SizeRequest, SizeError> {
    let split = number_len(text);
    match machine_number(text) {
        Some(bytes) => if bytes == 0 {
            Err(SizeError::Zero)
        } else {
            Ok(SizeRequest::Bytes(bytes))
        },
        None => if split == text.len() {
            Err(SizeError::MissingSuffix)
        } else if !is_decimal_number(text.take(split as int)) {
            Err(SizeError::InvalidNumber { number_len: split as usize })
        } else {
            suffix_request(text.skip(split as int), split as usize)
        },
    }
}

/// Reads the SI prefix that `c` stands for.
pub fn parse_si_prefix(c: char) -> (prefix: Result<SiPrefix, SizeError>)
    ensures
        prefix == match si_prefix(c) {
            Some(prefix) => Ok::<SiPrefix, SizeError>(prefix),
            None => Err::<SiPrefix, SizeError>(SizeError::UnsupportedPrefix(c)),
        },
{
    if c == 'k' {
        Ok(SiPrefix::Kilo)
    } else if c == 'M' {
        Ok(SiPrefix::Mega)
    } else if c == 'G' {
        Ok(SiPrefix::Giga)
    } else if c == 'T' {
        Ok(SiPrefix::Tera)
    } else if c == 'P' {
        Ok(SiPrefix::Peta)
    } else if c == 'E' {
        Ok(SiPrefix::Exa)
    } else if c == 'Z' {
        Ok(SiPrefix::Zetta)
    } else if c == 'Y' {
        Ok(SiPrefix::Yotta)
    } else {
        Err(SizeError::UnsupportedPrefix(c))
    }
}

/// A run of digits denotes no less than any of its beginnings.
proof fn lemma_decimal_value_grows(digits: Seq<char>, shorter: int)
    requires
        0 <= shorter <= digits.len(),
    ensures
        decimal_value(digits.take(shorter)) <= decimal_value(digits),
    decreases digits.len(),
{
    if shorter < digits.len() {
        assert(digits.drop_last().take(shorter) =~= digits.take(shorter));
        lemma_decimal_value_grows(digits.drop_last(), shorter);
    } else {
        assert(digits.take(shorter) =~= digits);
    }
}

/// The number part ends at the first character that is neither a digit nor
/// a decimal point.
proof fn lemma_number_len(text: Seq<char>, end: int)
    requires
        0 <= end <= text.len(),
        forall|i: int| 0 <= i < end ==> is_number_char(#[trigger] text[i]),
        end < text.len() ==> !is_number_char(text[end]),
    ensures
        number_len(text) == end,
    decreases end,
{
    if end > 0 {
        let rest = text.skip(1);
        assert forall|i: int| 0 <= i < end - 1 implies is_number_char(#[trigger] rest[i]) by {
            assert(rest[i] == text[i + 1]);
        }
        lemma_number_len(rest, end - 1);
    }
}

/// A text takes at least one byte for each of its characters.
proof fn lemma_utf8_len_of_bounds(text: Seq<char>)
    ensures
        utf8_len_of(text) >= text.len(),
        text.len() == 1 ==> utf8_len_of(text) == utf8_len(text[0]),
        text.len() == 2 ==> utf8_len_of(text) == utf8_len(text[0]) + utf8_len(text[1]),
    decreases text.len(),
{
    if text.len() > 0 {
        lemma_utf8_len_of_bounds(text.drop_last());
    }
}

/// Tells whether `c` is one of the ten ASCII digits.
fn is_decimal_digit(c: char) -> (digit: bool)
    ensures
        digit == is_digit(c),
{
    '0' <= c && c <= '9'
}

/// Returns the number of bytes that `c` takes in UTF-8.
fn encoded_len(c: char) -> (length: usize)
    ensures
        length == utf8_len(c),
{
    let code: u32 = c as u32;
    if code <= 0x7f {
        1
    } else if code <= 0x7ff {
        2
    } else if code <= 0xffff {
        3
    } else {
        4
    }
}

/// Reads `size_string` as a whole number that the machine can hold.
fn read_whole_number(size_string: &str, length: usize) -> (number: Option<usize>)
    requires
        length == size_string@.len(),
    ensures
        number == machine_number(size_string@),
{
    let ghost text = size_string@;
    let start: usize = if length > 0 && size_string.get_char(0) == '+' {
        1
    } else {
        0
    };
    let ghost digits = text.skip(start as int);
    if start == length {
        assert(text.skip(0) =~= text);
        return None;
    }
    let mut value: usize = 0;
    let mut index: usize = start;
    while index < length
        invariant
            text == size_string@,
            length == text.len(),
            digits == text.skip(start as int),
            start == if text.len() > 0 && text[0] == '+' {
                1usize
            } else {
                0usize
            },
            start < length,
            start <= index <= length,
            forall|i: int| 0 <= i < index - start ==> is_digit(#[trigger] digits[i]),
            value == decimal_value(digits.take(index - start)),
        decreases length - index,
    {
        let c = size_string.get_char(index);
        if !is_decimal_digit(c) {
            assert(!is_digit(digits[index - start]));
            assert(text.skip(0) =~= text);
            return None;
        }
        let digit: usize = (c as u32 - '0' as u32) as usize;
        proof {
            let longer = digits.take(index - start + 1);
            assert(longer.drop_last() =~= digits.take(index - start));
            assert(longer.last() == c);
            assert(decimal_value(longer) == value * 10 + digit);
            lemma_decimal_value_grows(digits, index - start + 1);
        }
        if value > (usize::MAX - digit) / 10 {
            assert(text.skip(0) =~= text);
            return None;
        }
        value = value * 10 + digit;
        index += 1;
    }
    assert(digits.take(index - start) =~= digits);
    assert(text.skip(0) =~= text);
    Some(value)
}

/// Finds where the number part of `size_string` ends, and tells whether it
/// is a decimal number.
fn read_number_part(size_string: &str, length: usize) -> (part: (usize, bool))
    requires
        length == size_string@.len(),
    ensures
        part.0 <= length,
        part.0 == number_len(size_string@),
        part.1 == is_decimal_number(size_string@.take(part.0 as int)),
{
    let ghost text = size_string@;
    let mut index: usize = 0;
    let mut has_digit = false;
    let mut points: usize = 0;
    let ghost mut digit_at: int = 0;
    let ghost mut first_point: int = 0;
    let ghost mut second_point: int = 0;
    while index < length
        invariant
            text == size_string@,
            length == text.len(),
            index <= length,
            forall|i: int| 0 <= i < index ==> is_number_char(#[trigger] text[i]),
            has_digit ==> 0 <= digit_at < index && is_digit(text[digit_at]),
            !has_digit ==> forall|i: int| 0 <= i < index ==> !is_digit(#[trigger] text[i]),
            points <= 2,
            points == 0 ==> forall|i: int| 0 <= i < index ==> #[trigger] text[i] != '.',
            points == 1 ==> 0 <= first_point < index && text[first_point] == '.' && forall|i: int|
                0 <= i < index && #[trigger] text[i] == '.' ==> i == first_point,
            points == 2 ==> 0 <= first_point < second_point < index && text[first_point] == '.'
                && text[second_point] == '.',
        ensures
            index < length ==> !is_number_char(text[index as int]),
        decreases length - index,
    {
        let c = size_string.get_char(index);
        if is_decimal_digit(c) {
            has_digit = true;
            proof {
                digit_at = index as int;
            }
        } else if c == '.' {
            if points == 0 {
                points = 1;
                proof {
                    first_point = index as int;
                }
            } else if points == 1 {
                points = 2;
                proof {
                    second_point = index as int;
                }
            }
        } else {
            break ;
        }
        index += 1;
    }
    proof {
        lemma_number_len(text, index as int);
        let number = text.take(index as int);
        if has_digit {
            assert(is_digit(number[digit_at]));
        }
        if points == 2 {
            assert(number[first_point] == '.' && number[second_point] == '.');
        }
        if has_digit && points <= 1 {
            assert forall|i: int, j: int|
                0 <= i < number.len() && 0 <= j < number.len() && #[trigger] number[i] == '.'
                    && #[trigger] number[j] == '.' implies i == j by {
                assert(text[i] == '.' && text[j] == '.');
            }
        }
    }
    (index, has_digit && points <= 1)
}

/// Reads the unit that `c` stands for.
fn parse_unit(c: char) -> (read: Result<Unit, SizeError>)
    ensures
        read == match unit(c) {
            Some(unit) => Ok::<Unit, SizeError>(unit),
            None => Err::<Unit, SizeError>(SizeError::InvalidEnding(c)),
        },
{
    if c == 'B' {
        Ok(Unit::Bytes)
    } else if c == 'b' {
        Ok(Unit::Bits)
    } else {
        Err(SizeError::InvalidEnding(c))
    }
}

/// Reads what `size_string` asks for.
///
/// A whole number is a number of bytes and is returned as such. Of a number
/// with a unit, the unit is read and the extent of the number is found: to
/// work out how many bytes that makes is left to the caller.
pub fn parse_size_request(size_string: &str) -> (request: Result<SizeRequest, SizeError>)
    ensures
        request == size_request(size_string@),
{
    let length = size_string.unicode_len();
    match read_whole_number(size_string, length) {
        Some(bytes) => {
            return if bytes == 0 {
                Err(SizeError::Zero)
            } else {
                Ok(SizeRequest::Bytes(bytes))
            };
        },
        None => {},
    }
    let (number_len, is_number) = read_number_part(size_string, length);
    if number_len == length {
        return Err(SizeError::MissingSuffix);
    }
    if !is_number {
        return Err(SizeError::InvalidNumber { number_len });
    }
    let ghost suffix = size_string@.skip(number_len as int);
    proof {
        lemma_utf8_len_of_bounds(suffix);
    }
    if length - number_len > 2 {
        return Err(SizeError::SuffixTooLong);
    }
    let ending = size_string.get_char(length - 1);
    assert(ending == suffix.last());
    if length - number_len == 1 {
        if encoded_len(ending) > 2 {
            return Err(SizeError::SuffixTooLong);
        }
        let unit = parse_unit(ending)?;
        Ok(SizeRequest::Scaled { number_len, prefix: None, unit })
    } else {
        let before = size_string.get_char(length - 2);
        assert(before == suffix[suffix.len() - 2]);
        if encoded_len(before) + encoded_len(ending) > 2 {
            return Err(SizeError::SuffixTooLong);
        }
        let unit = parse_unit(ending)?;
        let prefix = parse_si_prefix(before)?;
        Ok(SizeRequest::Scaled { number_len, prefix: Some(prefix), unit })
    }
}

} // verus!
