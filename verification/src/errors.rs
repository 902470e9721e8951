//! The library's error values.

use vstd::prelude::*;

verus! {

/// Failures the library surfaces to its caller.
#[derive(Clone, Copy, PartialEq, Eq, Structural, Debug)]
pub enum Error {
    /// A second run was requested on an instance that is already running.
    AlreadyStarted,
    /// A stop was requested after the running loop had already gone away.
    AlreadyStopped,
    /// A reply template could not be compiled.
    Template,
    /// A required configuration value is missing or malformed.
    Config,
}

impl Error {
    /// A short description, for operators.
    pub fn describe(&self) -> (r: &'static str)
        ensures
            r@ == self.spec_describe(),
    {
        match self {
            Error::AlreadyStarted => "already started",
            Error::AlreadyStopped => "already stopped",
            Error::Template => "unable to compile a reply template",
            Error::Config => "missing or malformed configuration value",
        }
    }

    pub open spec fn spec_describe(&self) -> Seq<char> {
        match self {
            Error::AlreadyStarted => "already started"@,
            Error::AlreadyStopped => "already stopped"@,
            Error::Template => "unable to compile a reply template"@,
            Error::Config => "missing or malformed configuration value"@,
        }
    }
}

} // verus!
