//! The PIN gate in front of the manifest, pull and push endpoints.
//!
//! This is pairing friction, not a security boundary: the check is a plain
//! equality comparison between a configured PIN and a request header value,
//! in clear text, and is unsuitable for hostile networks.

use vstd::prelude::*;

verus! {

/// When access is granted: with no PIN configured every request passes;
/// with a PIN configured the header must be present and equal to it.
pub open spec fn auth_ok(pin: Option<Seq<char>>, header: Option<Seq<char>>) -> bool {
    match pin {
        Option::None => true,
        Option::Some(p) => header == Option::Some(p),
    }
}

/// Validates an optional shared-secret header against the configured PIN.
pub struct AuthGate {
    pin: Option<String>,
}

impl View for AuthGate {
    type V = Option<Seq<char>>;

    closed spec fn view(&self) -> Option<Seq<char>> {
        match self.pin {
            Option::None => Option::None,
            Option::Some(p) => Option::Some(p@),
        }
    }
}

impl AuthGate {
    /// A gate with no PIN configured: every request passes.
    pub fn new() -> (res: AuthGate)
        ensures
            res@ is None,
    {
        AuthGate { pin: None }
    }

    /// Sets or clears the required secret; the previous one is replaced,
    /// never merged.
    pub fn configure(&mut self, pin: Option<String>)
        ensures
            final(self)@ == pin.deep_view(),
    {
        self.pin = pin;
    }

    /// Whether a PIN is currently configured.
    pub fn has_pin(&self) -> (r: bool)
        ensures
            r == (self@ is Some),
    {
        self.pin.is_some()
    }

    /// Grants or refuses access for the given header value: exactly
    /// [`auth_ok`] of the configured PIN and the header.
    pub fn check(&self, header: Option<&String>) -> (r: bool)
        ensures
            r == auth_ok(self@, header.deep_view()),
    {
        match &self.pin {
            None => true,
            Some(required) => {
                match header {
                    None => false,
                    Some(supplied) => *supplied == *required,
                }
            },
        }
    }
}

} // verus!
