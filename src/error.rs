use vstd::prelude::*;

verus! {

/// Why a body could not be read as an interaction.
#[derive(Debug, Clone, Copy, PartialEq, Eq, Structural)]
pub enum DecodeError {
    /// The body is not JSON, not an object, or the discriminant is not an integer.
    Malformed,
    /// The object has no `type` field.
    MissingDiscriminant,
    /// The `type` field is an integer outside the recognized set.
    UnknownInteractionType(i64),
    /// A submitted form lacks one of its text values.
    MissingField,
}

/// A failure of the request pipeline.
#[derive(Debug, Clone)]
pub enum Error {
    /// The caller's input is wrong (a required header is missing).
    InvalidInput(String),
    /// A required configuration value is absent; holds its name.
    VarError(String),
    /// Signature material is not valid hexadecimal.
    DecodingError,
    /// The signature does not verify.
    DecryptingError,
    /// The body is not a recognized interaction.
    ParsingError(DecodeError),
    /// An outbound request failed.
    RequestError,
}

pub open spec fn spec_status(e: Error) -> u16 {
    match e {
        Error::InvalidInput(_) => 400,
        _ => 500,
    }
}

impl Error {
    /// The HTTP status of the reply: 400 for caller input, 500 for everything else.
    pub fn status(&self) -> (r: u16)
        ensures
            r == spec_status(*self),
    {
        match self {
            Error::InvalidInput(_) => 400,
            _ => 500,
        }
    }
}

} // verus!
