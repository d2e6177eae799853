//! Conversions of identifiers and numbers that arrive as text or as big
//! numbers, with the errors that the calling layer reports.

use crate::big_nat::{decimal_numeral, BigNat};
use crate::types::UUID;
use std::str::FromStr;
use uuid::Uuid;
use vstd::prelude::*;
use vstd::utf8::encode_utf8;

verus! {

/// Why a conversion failed. Each variant carries the input that was refused.
#[derive(Clone, Debug, PartialEq, Eq)]
pub enum MapperError {
    MalformedUuid { malformed_uuid: String },
    BigUintConversionError { biguint: String },
    StringToNumberConversionError { input: String },
}

/// The sixteen bytes that a textual identifier denotes, or `None` for a text
/// that is no identifier.
pub uninterp spec fn uuid_from_text(text: Seq<char>) -> Option<Seq<u8>>;

/// Calls `uuid::Uuid::from_str` and hands out the bytes of the identifier it
/// parsed. Trusted: the result is a function of the text alone.
#[verifier::external_body]
fn parse_uuid(text: &str) -> (parsed: Option<UUID>)
    ensures
        parsed matches Some(bytes) ==> uuid_from_text(text@) == Some(bytes@),
        parsed is None ==> uuid_from_text(text@) is None,
{
    match Uuid::from_str(text) {
        Ok(uuid) => Some(uuid.into_bytes()),
        Err(_) => None,
    }
}

/// Whether the byte is an ASCII decimal digit.
pub open spec fn is_decimal_digit(byte: u8) -> bool {
    48 <= byte <= 57
}

/// Whether every byte is an ASCII decimal digit.
pub open spec fn all_decimal_digits(bytes: Seq<u8>) -> bool {
    forall|i: int| 0 <= i < bytes.len() ==> is_decimal_digit(#[trigger] bytes[i])
}

/// The number that a string of decimal digits denotes.
pub open spec fn decimal_value(digits: Seq<u8>) -> int
    decreases digits.len(),
{
    if digits.len() == 0 {
        0
    } else {
        decimal_value(digits.drop_last()) * 10 + (digits.last() - 48)
    }
}

/// The input without one leading plus sign.
pub open spec fn without_plus(bytes: Seq<u8>) -> Seq<u8> {
    if bytes.len() > 0 && bytes[0] == 43 {
        bytes.drop_first()
    } else {
        bytes
    }
}

/// The `u64` that the bytes spell: an optional plus sign, then one or more
/// decimal digits and nothing else, denoting a number that a `u64` holds.
pub open spec fn parsed_u64(bytes: Seq<u8>) -> Option<u64> {
    let digits = without_plus(bytes);
    if digits.len() > 0 && all_decimal_digits(digits) && decimal_value(digits) <= u64::MAX {
        Some(decimal_value(digits) as u64)
    } else {
        None
    }
}

/// A string of digits denotes at least what any of its prefixes denotes.
pub proof fn lemma_decimal_value_prefix(digits: Seq<u8>, k: int)
    requires
        all_decimal_digits(digits),
        0 <= k <= digits.len(),
    ensures
        0 <= decimal_value(digits.subrange(0, k)) <= decimal_value(digits),
    decreases digits.len() - k,
{
    if k == digits.len() {
        assert(digits.subrange(0, k) =~= digits);
        lemma_decimal_value_nonnegative(digits);
    } else {
        lemma_decimal_value_prefix(digits, k + 1);
        let longer = digits.subrange(0, k + 1);
        assert(longer.drop_last() =~= digits.subrange(0, k));
        assert(is_decimal_digit(longer.last()));
        lemma_decimal_value_nonnegative(digits.subrange(0, k));
    }
}

/// A string of digits denotes a natural number.
pub proof fn lemma_decimal_value_nonnegative(digits: Seq<u8>)
    requires
        all_decimal_digits(digits),
    ensures
        0 <= decimal_value(digits),
    decreases digits.len(),
{
    if digits.len() > 0 {
        lemma_decimal_value_nonnegative(digits.drop_last());
        assert(is_decimal_digit(digits.last()));
    }
}

/// What `uuid_from_str` answers, given what the parser made of the input.
pub fn uuid_outcome(input_uuid: String, parsed: Option<UUID>) -> (outcome: Result<
    UUID,
    MapperError,
>)
    ensures
        match parsed {
            Some(bytes) => outcome == Ok::<UUID, MapperError>(bytes),
            None => outcome == Err::<UUID, MapperError>(
                MapperError::MalformedUuid { malformed_uuid: input_uuid },
            ),
        },
{
    match parsed {
        Some(bytes) => Ok(bytes),
        None => Err(MapperError::MalformedUuid { malformed_uuid: input_uuid }),
    }
}

/// What `biguint_to_u64` answers, given the converted number and the decimal
/// numeral of the input.
pub fn biguint_outcome(converted: Option<u64>, numeral: String) -> (outcome: Result<
    u64,
    MapperError,
>)
    ensures
        match converted {
            Some(value) => outcome == Ok::<u64, MapperError>(value),
            None => outcome == Err::<u64, MapperError>(
                MapperError::BigUintConversionError { biguint: numeral },
            ),
        },
{
    match converted {
        Some(value) => Ok(value),
        None => Err(MapperError::BigUintConversionError { biguint: numeral }),
    }
}

/// Parses the decimal numeral of a `u64` from bytes.
pub fn parse_u64(bytes: &[u8]) -> (parsed: Option<u64>)
    ensures
        parsed == parsed_u64(bytes@),
{
    let start: usize = if bytes.len() > 0 && bytes[0] == 43 {
        1
    } else {
        0
    };
    let ghost digits = without_plus(bytes@);
    assert(digits =~= bytes@.subrange(start as int, bytes@.len() as int));
    if start == bytes.len() {
        return None;
    }
    let mut value: u64 = 0;
    let mut i: usize = start;
    assert(digits.subrange(0, 0) =~= Seq::<u8>::empty());
    while i < bytes.len()
        invariant
            start <= i <= bytes.len(),
            start <= 1,
            digits == bytes@.subrange(start as int, bytes@.len() as int),
            digits == without_plus(bytes@),
            all_decimal_digits(digits.subrange(0, i - start)),
            value == decimal_value(digits.subrange(0, i - start)),
        decreases bytes.len() - i,
    {
        let byte = bytes[i];
        let ghost seen = digits.subrange(0, i - start);
        let ghost next = digits.subrange(0, i - start + 1);
        assert(next.drop_last() =~= seen);
        assert(next.last() == byte);
        if byte < 48 || byte > 57 {
            assert(!is_decimal_digit(digits[i - start]));
            return None;
        }
        let digit: u64 = (byte - 48) as u64;
        if value > (u64::MAX - digit) / 10 {
            proof {
                assert(decimal_value(next) == value * 10 + digit);
                assert(value * 10 + digit > u64::MAX);
                if all_decimal_digits(digits) {
                    lemma_decimal_value_prefix(digits, i - start + 1);
                }
            }
            return None;
        }
        value = value * 10 + digit;
        assert forall|j: int| 0 <= j < next.len() implies is_decimal_digit(#[trigger] next[j]) by {
            if j < seen.len() {
                assert(next[j] == seen[j]);
            }
        }
        i += 1;
    }
    assert(digits.subrange(0, i - start) =~= digits);
    Some(value)
}

/// Maps identifiers and numbers between their forms.
#[derive(Default, Clone, Debug)]
pub struct HelperMapper {}

impl HelperMapper {
    /// Parses a textual identifier into its sixteen bytes.
    pub fn uuid_from_str(&self, input_uuid: String) -> (outcome: Result<UUID, MapperError>)
        ensures
            match uuid_from_text(input_uuid@) {
                Some(bytes) => outcome is Ok && outcome->Ok_0@ == bytes,
                None => outcome == Err::<UUID, MapperError>(
                    MapperError::MalformedUuid { malformed_uuid: input_uuid },
                ),
            },
    {
        let parsed = parse_uuid(input_uuid.as_str());
        uuid_outcome(input_uuid, parsed)
    }

    /// Converts a big natural number to a `u64`, where one can hold it.
    pub fn biguint_to_u64(&self, input: &BigNat) -> (outcome: Result<u64, MapperError>)
        ensures
            input.value() <= u64::MAX ==> outcome == Ok::<u64, MapperError>(input.value() as u64),
            input.value() > u64::MAX ==> (outcome matches Err(
                MapperError::BigUintConversionError { biguint },
            ) && biguint@ == decimal_numeral(input.value())),
    {
        biguint_outcome(input.to_u64(), input.to_decimal())
    }

    /// Parses the decimal numeral of a `u64`.
    pub fn str_to_u64(&self, input: &str) -> (outcome: Result<u64, MapperError>)
        ensures
            match parsed_u64(encode_utf8(input@)) {
                Some(value) => outcome == Ok::<u64, MapperError>(value),
                None => (outcome matches Err(
                    MapperError::StringToNumberConversionError { input: refused },
                ) && refused@ == input@),
            },
    {
        match parse_u64(input.as_bytes()) {
            Some(value) => Ok(value),
            None => Err(MapperError::StringToNumberConversionError { input: input.to_owned() }),
        }
    }
}

} // verus!
