//! Errors of reading the environment that systemd sets up.
use vstd::prelude::*;

verus! {

/// Why a text is not a `usize`.
#[derive(Debug, Clone, Copy, PartialEq, Eq, Structural)]
pub enum IntErrorKind {
    /// The text is empty.
    Empty,
    /// A character is not a digit, or a `+` stands alone.
    InvalidDigit,
    /// The number is larger than `usize::MAX`.
    PosOverflow,
}

/// What the environment holds for one variable.
#[derive(Debug, Clone)]
pub enum EnvValue {
    /// The variable is set to this text.
    Present(String),
    /// The variable is not set.
    NotPresent,
    /// The variable is set, but its bytes are not unicode.
    NotUnicode(Vec<u8>),
}

#[non_exhaustive]
#[derive(Debug, Clone)]
pub enum EnvVarErrorKind {
    /// The environment variables was not in the environment
    NotFound,
    /// The variable was not unicode encoded
    NotUnicode(Vec<u8>),
    /// The variables was supposed to be a number, but was not.
    NotANumber(IntErrorKind),
    /// Invalid format
    InvalidFormat(String),
}

/// Errors related to reading the environment variables.
#[derive(Debug, Clone)]
pub struct EnvVarError {
    /// The name of the environment variable. Do not attempt to fix or set the
    /// variables yourself, consult systemd documentation.
    pub name: String,
    pub kind: EnvVarErrorKind,
}

} // verus!
