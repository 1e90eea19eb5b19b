//! The secret integration key.
//!
//! The key is a credential (UUID-shaped text) that must never leak
//! through an accidental textual rendering, so the wrapper exposes the
//! raw value through a single accessor, offers only a redacted
//! placeholder for display purposes, and can be explicitly overwritten
//! with the nil value when the credential is retired.
use vstd::prelude::*;

verus! {

/// Secret Paynow integration key.
///
/// Deliberately carries no `Debug`, `Display` or serialization
/// implementation: the only way at the raw text is `expose_secret`.
pub struct Key {
    value: String,
}

impl View for Key {
    type V = Seq<char>;

    closed spec fn view(&self) -> Seq<char> {
        self.value@
    }
}

impl Key {
    /// Wrap the raw key text.
    pub fn new(value: String) -> (r: Self)
        ensures
            r@ == value@,
    {
        Key { value }
    }

    /// The single accessor for the raw key text.
    pub fn expose_secret(&self) -> (r: &str)
        ensures
            r@ == self@,
    {
        self.value.as_str()
    }

    /// A placeholder safe to show in logs in place of the key.
    pub fn redacted(&self) -> (r: String)
        ensures
            r@ == "Key([REDACTED])"@,
    {
        String::from_str("Key([REDACTED])")
    }

    /// Overwrite the stored credential with the nil key, the all-zero
    /// UUID text, so a retired key no longer holds the secret.
    pub fn zeroize(&mut self)
        ensures
            final(self)@ == "00000000-0000-0000-0000-000000000000"@,
    {
        self.value = String::from_str("00000000-0000-0000-0000-000000000000");
    }
}

} // verus!
