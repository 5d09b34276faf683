//! An opaque credential wrapper: the secret's characters are reachable
//! only through an explicit reveal operation, so that neither default
//! formatting nor serialization can leak them.
use vstd::prelude::*;

verus! {

/// A process-scoped secret (an API key or API secret).
///
/// The wrapped string is reachable only through [`SecretString::expose_secret`];
/// the type deliberately offers no formatting or serialization.
pub struct SecretString {
    value: String,
}

impl View for SecretString {
    type V = Seq<char>;

    closed spec fn view(&self) -> Seq<char> {
        self.value@
    }
}

impl SecretString {
    /// Wraps a secret value.
    pub fn new(value: String) -> (r: SecretString)
        ensures
            r@ == value@,
    {
        SecretString { value }
    }

    /// The explicit reveal operation: hands out the wrapped secret.
    pub fn expose_secret(&self) -> (r: &String)
        ensures
            r@ == self@,
    {
        &self.value
    }
}

} // verus!
