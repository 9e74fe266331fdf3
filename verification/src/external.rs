//! Trusted bridges to outside crates.
//!
//! Each function here wraps one call whose result the library cannot
//! compute itself. Verus believes the stated contract; nothing more is
//! assumed of the outside code.

use vstd::prelude::*;

verus! {

/// Relies on `uuid::Uuid::new_v4` and the `Display` impl of `Uuid`: a
/// fresh random version-4 UUID, formatted in the lowercase hyphenated
/// form, which is exactly 36 characters long. The value itself is random,
/// so nothing is promised of it beyond its length.
#[verifier::external_body]
pub fn new_uuid_string() -> (r: String)
    ensures
        r@.len() == 36,
{
    uuid::Uuid::new_v4().to_string()
}

/// Relies on `chrono::Utc::now` and `DateTime::timestamp`: the current
/// wall-clock time as whole seconds since the Unix epoch. The value
/// depends on the clock, so nothing is promised of it.
#[verifier::external_body]
pub fn now_timestamp() -> i64 {
    chrono::Utc::now().timestamp()
}

} // verus!
