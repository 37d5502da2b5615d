//! Configuration errors: each names what was wrong and carries the offending input.
use vstd::prelude::*;

verus! {

/// What is wrong with a telemetry configuration.
#[derive(Clone, Copy, Debug, PartialEq, Eq, Structural)]
pub enum ErrorKind {
    /// The protocol selector names no supported protocol.
    UnsupportedProtocol,
    /// A header token does not hold exactly one `=`.
    MalformedHeader,
    /// A header name is not a valid ASCII metadata key.
    InvalidHeaderKey,
    /// A header value holds a character outside visible ASCII and tab.
    InvalidHeaderValue,
}

/// A fatal configuration error, with the input that caused it.
#[derive(Clone, Debug, PartialEq, Eq)]
pub struct ConfigError {
    pub kind: ErrorKind,
    pub input: String,
}

impl View for ConfigError {
    type V = (ErrorKind, Seq<char>);

    open spec fn view(&self) -> (ErrorKind, Seq<char>) {
        (self.kind, self.input@)
    }
}

impl ConfigError {
    pub fn new(kind: ErrorKind, input: &str) -> (r: ConfigError)
        ensures
            r@ == (kind, input@),
    {
        ConfigError { kind, input: input.to_owned() }
    }
}

} // verus!
