use std::time::{Duration, SystemTime, SystemTimeError};
use vstd::prelude::*;

use crate::error::ApiError;

pub mod chars;
pub mod datetime;
pub mod pattern;
pub mod text;

verus! {

/// `std::time::SystemTime`, as a value that is only carried along.
#[verifier::external_type_specification]
#[verifier::external_body]
pub struct ExSystemTime(std::time::SystemTime);

/// `std::time::SystemTimeError`, as a value that is only carried along.
#[verifier::external_type_specification]
#[verifier::external_body]
pub struct ExSystemTimeError(std::time::SystemTimeError);

/// Whether a character is a digit or an unaccented Latin letter.
pub open spec fn is_alphabet_char(c: char) -> bool {
    ||| '0' <= c <= '9'
    ||| 'a' <= c <= 'z'
    ||| 'A' <= c <= 'Z'
}

/// The characters that identifiers are made of: the digits and the
/// unaccented Latin letters.
pub fn alphabet() -> (letters: Vec<char>)
    ensures
        letters@.len() == 62,
        forall|i: int| 0 <= i < letters@.len() ==> is_alphabet_char(#[trigger] letters@[i]),
{
    vec![
        '0', '1', '2', '3', '4', '5', '6', '7', '8', '9', 'a', 'b', 'c', 'd', 'e', 'f', 'g', 'h',
        'i', 'j', 'k', 'l', 'm', 'n', 'o', 'p', 'q', 'r', 's', 't', 'u', 'v', 'w', 'x', 'y', 'z',
        'A', 'B', 'C', 'D', 'E', 'F', 'G', 'H', 'I', 'J', 'K', 'L', 'M', 'N', 'O', 'P', 'Q', 'R',
        'S', 'T', 'U', 'V', 'W', 'X', 'Y', 'Z',
    ]
}

/// A random identifier of `size` characters of `alphabet`.
///
/// Calls `nanoid::format` with the generator `nanoid::rngs::default`. It
/// pushes characters of the alphabet until the identifier has `size` bytes,
/// so with an alphabet of one-byte characters, `size` characters. It panics
/// on an alphabet of more than 255 characters and does not return for an
/// empty alphabet or a size of 0; it computes 8 times the size.
#[verifier::external_body]
fn nanoid_format(alphabet: &[char], size: usize) -> (id: String)
    requires
        0 < alphabet@.len() <= 255,
        forall|i: int| 0 <= i < alphabet@.len() ==> (#[trigger] alphabet@[i]) as u32 <= 127,
        0 < size <= usize::MAX / 8,
    ensures
        id@.len() == size,
        forall|i: int|
            0 <= i < id@.len() ==> exists|j: int|
                0 <= j < alphabet@.len() && (#[trigger] id@[i]) == alphabet@[j],
{
    nanoid::format(nanoid::rngs::default, alphabet, size)
}

/// Generates a random identifier of `id_length` digits and unaccented Latin
/// letters.
pub fn generate_nano_id(id_length: usize) -> (id: String)
    requires
        0 < id_length <= usize::MAX / 8,
    ensures
        id@.len() == id_length,
        forall|i: int| 0 <= i < id@.len() ==> is_alphabet_char(#[trigger] id@[i]),
{
    let letters = alphabet();
    let id = nanoid_format(letters.as_slice(), id_length);
    assert forall|i: int| 0 <= i < id@.len() implies is_alphabet_char(#[trigger] id@[i]) by {
        let j = choose|j: int| 0 <= j < letters@.len() && id@[i] == letters@[j];
        assert(is_alphabet_char(letters@[j]));
    }
    id
}

/// Generates a version 7 UUID as a string, to identify an account.
///
/// Calls `uuid::Uuid::now_v7` and renders the identifier, which gives the
/// hyphenated form of 36 characters. The identifier is made of the time and
/// of random bits, so no more is claimed.
#[verifier::external_body]
pub fn generate_uuid() -> (id: String)
    ensures
        id@.len() == 36,
{
    uuid::Uuid::now_v7().to_string()
}

/// Calls `std::time::SystemTime::now`. The result is read off the clock.
#[verifier::external_body]
fn system_time_now() -> SystemTime {
    SystemTime::now()
}

/// Calls `std::time::SystemTime::checked_add`, which gives nothing where the
/// sum cannot be represented.
#[verifier::external_body]
fn system_time_add(moment: &SystemTime, duration: Duration) -> Option<SystemTime> {
    moment.checked_add(duration)
}

/// Calls `std::time::SystemTime::duration_since` with the Unix epoch, which
/// fails where the moment is earlier than the epoch.
#[verifier::external_body]
fn since_unix_epoch(moment: &SystemTime) -> Result<Duration, SystemTimeError> {
    moment.duration_since(std::time::UNIX_EPOCH)
}

/// Calls `std::time::Duration::from_secs`.
#[verifier::external_body]
pub(crate) fn duration_from_secs(seconds: u64) -> Duration {
    Duration::from_secs(seconds)
}

/// Calls `std::time::Duration::as_secs`.
#[verifier::external_body]
pub(crate) fn duration_as_secs(duration: &Duration) -> u64 {
    duration.as_secs()
}

/// The expiration time that corresponds to a moment, as the time since the
/// Unix epoch: it fails where the moment could not be computed or lies
/// before the epoch.
pub fn expiration(expiry: Option<Result<Duration, SystemTimeError>>) -> (exp: Result<
    Duration,
    ApiError,
>)
    ensures
        match expiry {
            None => exp matches Err(ApiError::UnknownError(text)) && text@
                == "Failed to add exp_duration to current system time"@,
            Some(Err(_)) => exp matches Err(ApiError::UnknownError(text)) && text@
                == "Failed to compute elapsed time"@,
            Some(Ok(elapsed)) => exp == Ok::<Duration, ApiError>(elapsed),
        },
{
    match expiry {
        None => Err(ApiError::UnknownError("Failed to add exp_duration to current system time")),
        Some(Err(_)) => Err(ApiError::UnknownError("Failed to compute elapsed time")),
        Some(Ok(elapsed)) => Ok(elapsed),
    }
}

/// Generates an expiration time: the current time plus `exp_duration`, as the
/// time since the Unix epoch.
pub fn generate_exp(exp_duration: Duration) -> (exp: Result<Duration, ApiError>)
    ensures
        exp matches Err(error) ==> error matches ApiError::UnknownError(text) && (text@
            == "Failed to add exp_duration to current system time"@ || text@
            == "Failed to compute elapsed time"@),
{
    let now = system_time_now();
    let expiry = match system_time_add(&now, exp_duration) {
        Some(moment) => Some(since_unix_epoch(&moment)),
        None => None,
    };
    expiration(expiry)
}

} // verus!
