//! The configuration's shape.
//!
//! The configuration is loaded once at startup from a well-known
//! location, created with default (empty) credentials when absent, and
//! persisted again on explicit edit; the loading and saving themselves
//! are collaborator work outside this library. Empty credential values
//! are a valid "no e-mail configured" state, not an error.

use vstd::prelude::*;

verus! {

/// Credentials for the mail relay: account identifier and secret.
#[derive(Clone, Debug)]
pub struct EmailCreds {
    pub username: String,
    pub password: String,
}

/// Process-wide configuration.
#[derive(Clone, Debug)]
pub struct Config {
    pub email: EmailCreds,
}

impl EmailCreds {
    /// Sending is configured only when both values are present.
    pub open spec fn spec_configured(self) -> bool {
        self.username@.len() > 0 && self.password@.len() > 0
    }

    /// Whether an e-mail account is configured; empty values mean "no".
    pub fn configured(&self) -> (r: bool)
        ensures
            r == self.spec_configured(),
    {
        !self.username.as_str().is_empty() && !self.password.as_str().is_empty()
    }
}

impl Default for EmailCreds {
    /// The "no e-mail configured" state.
    fn default() -> (c: Self)
        ensures
            c.username@.len() == 0,
            c.password@.len() == 0,
            !c.spec_configured(),
    {
        EmailCreds { username: String::new(), password: String::new() }
    }
}

impl Default for Config {
    /// A fresh configuration: the empty-credential, no-e-mail-account
    /// state.
    fn default() -> (c: Self)
        ensures
            c.email.username@.len() == 0,
            c.email.password@.len() == 0,
            !c.email.spec_configured(),
    {
        Config { email: EmailCreds::default() }
    }
}

} // verus!
