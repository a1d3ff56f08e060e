//! The two payload representations a frame can carry, and the errors of
//! converting between a representation and the kind of frame at hand.

use vstd::prelude::*;

verus! {

/// A mismatch between the representation a value supports and the kind of
/// frame it met.
#[derive(Clone, Copy, Debug, PartialEq, Eq, Structural)]
pub enum FormatError {
    /// A text frame arrived where only binary is accepted.
    ReceivedTextForBinary,
    /// A binary frame arrived where only text is accepted.
    ReceivedBinaryForText,
    /// A binary-only encoding was asked to be stored as text.
    CantEncodeBinaryAsText,
}

/// A value stored as text, or the reason it cannot be.
pub type Text = Result<String, FormatError>;

/// A value stored as bytes, or the reason it cannot be.
pub type Binary = Result<Vec<u8>, FormatError>;

/// What a text representation holds, with the body read as a sequence of
/// characters.
pub open spec fn text_view(text: Text) -> Result<Seq<char>, FormatError> {
    match text {
        Ok(body) => Ok(body@),
        Err(error) => Err(error),
    }
}

/// What a binary representation holds, with the body read as a sequence of
/// bytes.
pub open spec fn binary_view(binary: Binary) -> Result<Seq<u8>, FormatError> {
    match binary {
        Ok(body) => Ok(body@),
        Err(error) => Err(error),
    }
}

impl FormatError {
    /// The human-readable description of this error.
    pub open spec fn description(self) -> Seq<char> {
        match self {
            FormatError::ReceivedTextForBinary => "received text for a binary format"@,
            FormatError::ReceivedBinaryForText => "received binary for a text format"@,
            FormatError::CantEncodeBinaryAsText => "trying to encode a binary format as Text"@,
        }
    }

    /// Renders the error as the sentence that describes it.
    pub fn message(&self) -> (text: String)
        ensures
            text@ == self.description(),
    {
        match self {
            FormatError::ReceivedTextForBinary => "received text for a binary format".to_owned(),
            FormatError::ReceivedBinaryForText => "received binary for a text format".to_owned(),
            FormatError::CantEncodeBinaryAsText => "trying to encode a binary format as Text".to_owned(),
        }
    }
}

} // verus!
