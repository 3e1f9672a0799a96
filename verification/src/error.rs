//! Errors of configuration.

use vstd::prelude::*;

verus! {

/// Why a resource could not be created or configured. Each is reported at
/// once to the caller who configures the resource, never at request time.
#[derive(Debug, Clone, Copy, PartialEq, Eq, Structural)]
pub enum ConfigError {
    /// The URI declaration does not compile to a pattern.
    MalformedPattern,
    /// A literal body was given to a resource that has a body generator.
    BodyFnAlreadyDefined,
    /// A body generator was given to a resource that has a literal body.
    BodyAlreadyDefined,
}

impl ConfigError {
    /// The text of the message.
    pub open spec fn text(self) -> Seq<char> {
        match self {
            ConfigError::MalformedPattern => "The URI is not a valid pattern"@,
            ConfigError::BodyFnAlreadyDefined => "You can't define 'body' when 'body_fn' is already defined"@,
            ConfigError::BodyAlreadyDefined => "You can't define 'body_fn' when 'body' is already defined"@,
        }
    }

    /// A message for the person who configures the resource.
    pub fn message(&self) -> (r: &'static str)
        ensures
            r@ == self.text(),
    {
        match self {
            ConfigError::MalformedPattern => "The URI is not a valid pattern",
            ConfigError::BodyFnAlreadyDefined => "You can't define 'body' when 'body_fn' is already defined",
            ConfigError::BodyAlreadyDefined => "You can't define 'body_fn' when 'body' is already defined",
        }
    }
}

} // verus!
