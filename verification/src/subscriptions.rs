//! Subscription intake. Intake itself (validation, persistence, the
//! confirmation email) is an edge concern around the core; the library
//! holds the form data as plain values.
use vstd::prelude::*;

verus! {

/// The fields a candidate subscriber submits.
pub struct FormData {
    pub name: String,
    pub email: String,
}

} // verus!
