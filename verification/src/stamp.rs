//! What marks a document as it is created: the time and a fresh identifier.
//!
//! Both come from outside the library and differ from call to call, so
//! nothing is claimed of them; every function that takes one is proved for
//! whatever text it holds.

use vstd::prelude::*;

verus! {

/// The current time in UTC as `chrono` prints it in debug form, such as
/// `2021-03-04T05:06:07.089Z`. Calls `chrono::Utc::now`, which reads the
/// system clock and panics only if that clock reads before 1970.
#[verifier::external_body]
pub(crate) fn timestamp_now() -> (text: String) {
    format!("{:?}", chrono::Utc::now())
}

/// A random version 4 UUID in its hyphenated lower-case form. Calls
/// `uuid::Uuid::new_v4`, which draws from the operating system's random
/// source and panics only if that source fails.
#[verifier::external_body]
pub(crate) fn fresh_uuid() -> (text: String) {
    uuid::Uuid::new_v4().to_string()
}

} // verus!
