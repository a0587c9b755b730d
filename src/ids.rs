//! Identifiers, taken from the uuid crate, and readings of the system clock.
use vstd::prelude::*;

use vstd::string::StringSliceAdditionalSpecFns;

use crate::error_handler::AppError;

verus! {

/// The value that `uuid::Uuid::parse_str` gives for a text, if it accepts it.
pub uninterp spec fn uuid_text_value(s: Seq<char>) -> Option<u128>;

/// The hexadecimal digit, in lower case, for `n` below 16.
pub open spec fn hex_char(n: u128) -> char {
    seq!['0', '1', '2', '3', '4', '5', '6', '7', '8', '9', 'a', 'b', 'c', 'd', 'e', 'f'][n as int]
}

/// Which of the 32 digits the `i`-th character of the hyphenated form
/// holds (for `i` not at a hyphen).
pub open spec fn digit_position(i: int) -> int {
    if i < 8 {
        i
    } else if i < 13 {
        i - 1
    } else if i < 18 {
        i - 2
    } else if i < 23 {
        i - 3
    } else {
        i - 4
    }
}

/// The hyphenated lower-case text of `v`, most significant digit first,
/// as in `936da01f-9abd-4d9d-80c7-02af85c822a8`.
pub open spec fn uuid_hyphenated(v: u128) -> Seq<char> {
    Seq::new(
        36,
        |i: int|
            if i == 8 || i == 13 || i == 18 || i == 23 {
                '-'
            } else {
                hex_char((v >> ((124 - 4 * digit_position(i)) as u128)) & 0xfu128)
            },
    )
}

/// Relies on `uuid::Uuid::parse_str` (with `Uuid::as_u128`): the value of a
/// UUID written in one of its textual forms, or an error; the answer depends
/// on the text alone; an empty text, and one whose UTF-8 length is none of
/// 32, 36, 38 and 45 bytes, is refused; the hyphenated text of a value
/// reads back as that value.
#[verifier::external_body]
fn parse_uuid_text(s: &str) -> (r: Option<u128>)
    ensures
        r == uuid_text_value(s@),
        s@.len() == 0 ==> r is None,
        !(s.spec_bytes().len() == 32 || s.spec_bytes().len() == 36 || s.spec_bytes().len() == 38
            || s.spec_bytes().len() == 45) ==> r is None,
        forall|v: u128| #[trigger] uuid_hyphenated(v) == s@ ==> r == Some(v),
{
    match uuid::Uuid::parse_str(s) {
        Ok(u) => Some(u.as_u128()),
        Err(_) => None,
    }
}

/// Whether `v` carries the version (random) and variant (RFC 4122) bits of
/// a version 4 UUID.
pub open spec fn is_v4(v: u128) -> bool {
    &&& (v >> 76u128) & 0xfu128 == 4u128
    &&& (v >> 62u128) & 0x3u128 == 2u128
}

/// Relies on `uuid::Uuid::new_v4` (with `Uuid::as_u128`): random bits with
/// the version and variant bits of a version 4 UUID set.
#[verifier::external_body]
pub(crate) fn fresh_id() -> (r: u128)
    ensures
        is_v4(r),
{
    uuid::Uuid::new_v4().as_u128()
}

#[verifier::external_type_specification]
#[verifier::external_body]
pub struct ExSystemTime(std::time::SystemTime);

/// Relies on `std::time::SystemTime::now`: a reading of the system clock.
/// Nothing is promised of its value.
#[verifier::external_body]
fn system_now() -> (r: std::time::SystemTime) {
    std::time::SystemTime::now()
}

/// Relies on `std::time::SystemTime::duration_since` with `UNIX_EPOCH`,
/// which returns the time elapsed since the epoch, or, for an earlier
/// reading, an error holding the time by which it falls short (read with
/// `SystemTimeError::duration`); either is given in whole microseconds
/// (`Duration::as_micros`). The flag says whether the reading is at or
/// after the epoch. Neither call panics.
#[verifier::external_body]
fn offset_from_epoch(t: &std::time::SystemTime) -> (r: (bool, u128)) {
    match t.duration_since(std::time::UNIX_EPOCH) {
        Ok(d) => (true, d.as_micros()),
        Err(e) => (false, e.duration().as_micros()),
    }
}

/// Microseconds since the epoch, as a signed stamp: `micros` after the
/// epoch when `after`, else before it, clamped to the range of `i64`.
pub open spec fn stamp_of(after: bool, micros: u128) -> int {
    if after {
        if micros <= i64::MAX as u128 {
            micros as int
        } else {
            i64::MAX as int
        }
    } else {
        if micros <= i64::MAX as u128 {
            -(micros as int)
        } else {
            i64::MIN as int
        }
    }
}

/// Turns an offset from the epoch into a stamp.
pub fn micros_stamp(after: bool, micros: u128) -> (r: i64)
    ensures
        r as int == stamp_of(after, micros),
{
    if micros <= i64::MAX as u128 {
        let m = micros as i64;
        if after {
            m
        } else {
            -m
        }
    } else if after {
        i64::MAX
    } else {
        i64::MIN
    }
}

/// The current time in microseconds since the Unix epoch, negative before
/// it, clamped to the range of `i64`.
pub(crate) fn now_micros() -> (r: i64) {
    let t = system_now();
    let (after, micros) = offset_from_epoch(&t);
    micros_stamp(after, micros)
}

/// The identifier written in `s`, or a validation failure.
pub open spec fn parsed_id(s: Seq<char>) -> Result<u128, AppError> {
    match uuid_text_value(s) {
        Some(v) => Ok(v),
        None => Err(AppError::ValidationError),
    }
}

/// Reads an identifier from a path or body parameter.
pub fn parse_id(s: &str) -> (r: Result<u128, AppError>)
    ensures
        r == parsed_id(s@),
        forall|v: u128| #[trigger] uuid_hyphenated(v) == s@ ==> r == Ok::<u128, AppError>(v),
{
    match parse_uuid_text(s) {
        Some(v) => Ok(v),
        None => Err(AppError::ValidationError),
    }
}

} // verus!
