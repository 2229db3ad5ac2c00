use vstd::prelude::*;

verus! {

use crate::EpochMs;
use crate::errors::ValidationError;

/// What `chrono::DateTime::parse_from_rfc3339`, taken to epoch
/// milliseconds, returns for a string: a function of the text alone,
/// named only.
pub uninterp spec fn rfc3339_epoch_ms(s: Seq<char>) -> Option<i64>;

/// Relies on `chrono::DateTime::parse_from_rfc3339` and
/// `chrono::DateTime::timestamp_millis`: parsing is a pure function of the
/// string, yielding the parsed instant in milliseconds since the epoch, or
/// nothing when the text is not a valid RFC 3339 date-time.
#[verifier::external_body]
pub(crate) fn parse_rfc3339_ms(s: &str) -> (r: Option<EpochMs>)
    ensures
        r == rfc3339_epoch_ms(s@),
{
    match chrono::DateTime::parse_from_rfc3339(s) {
        Ok(d) => Some(d.timestamp_millis()),
        Err(_) => None,
    }
}

/// What `validator`'s email check decides for a string: a function of the
/// text alone, named only.
pub uninterp spec fn email_ok(s: Seq<char>) -> bool;

/// Relies on `validator::ValidateEmail::validate_email` for `&str`: the
/// verdict is a function of the text alone.
#[verifier::external_body]
pub(crate) fn is_valid_email(s: &str) -> (r: bool)
    ensures
        r == email_ok(s@),
{
    validator::ValidateEmail::validate_email(&s)
}

/// Exactly when a requested expiration date is acceptable: present,
/// well-formed RFC 3339, and strictly after `now`.
pub open spec fn expiration_date_valid(s: Seq<char>, now: EpochMs) -> bool {
    &&& s.len() > 0
    &&& rfc3339_epoch_ms(s) matches Some(t) && t > now
}

/// Validate a requested expiration date against the current time.  Each
/// rejection names the first rule the text breaks: absent, malformed, or
/// not strictly in the future.
pub fn validate_expiration_date(expiration_date: &str, now: EpochMs) -> (r: Result<
    (),
    ValidationError,
>)
    ensures
        r is Ok <==> expiration_date_valid(expiration_date@, now),
        r == Err::<(), ValidationError>(ValidationError::ExpirationDateRequired)
            <==> expiration_date@.len() == 0,
        r == Err::<(), ValidationError>(ValidationError::InvalidDateFormat) <==> (
        expiration_date@.len() > 0 && rfc3339_epoch_ms(expiration_date@) is None),
        r == Err::<(), ValidationError>(ValidationError::ExpirationNotInFuture) <==> (
        expiration_date@.len() > 0 && (rfc3339_epoch_ms(expiration_date@) matches Some(t) && t
            <= now)),
{
    if expiration_date.is_empty() {
        return Err(ValidationError::ExpirationDateRequired);
    }
    match parse_rfc3339_ms(expiration_date) {
        None => Err(ValidationError::InvalidDateFormat),
        Some(t) => {
            if t <= now {
                Err(ValidationError::ExpirationNotInFuture)
            } else {
                Ok(())
            }
        },
    }
}

} // verus!
