//! What can go wrong in the store.

use vstd::prelude::*;

verus! {

/// The ways in which the store fails.
#[derive(Debug, Clone, Copy, PartialEq, Eq, Structural)]
pub enum ConfigError {
    /// There is no settings file.
    NotFound,
    /// The settings file does not hold a settings document.
    Parse,
    /// The settings file could not be written.
    Write,
    /// The shell could not be told of a change.
    Notify,
}

impl ConfigError {
    /// The text that describes this error.
    pub open spec fn message_text(self) -> Seq<char> {
        match self {
            ConfigError::NotFound => "settings file not found"@,
            ConfigError::Parse => "settings file is not a settings document"@,
            ConfigError::Write => "settings file could not be written"@,
            ConfigError::Notify => "change notification could not be written"@,
        }
    }

    /// A short description for logs.
    pub fn message(&self) -> (r: &'static str)
        ensures
            r@ == self.message_text(),
    {
        match self {
            ConfigError::NotFound => "settings file not found",
            ConfigError::Parse => "settings file is not a settings document",
            ConfigError::Write => "settings file could not be written",
            ConfigError::Notify => "change notification could not be written",
        }
    }
}

} // verus!
