//! The ways in which a record definition is rejected.

use vstd::prelude::*;

verus! {

/// Why no declarations were produced for a record.
#[derive(Clone, Copy, Debug, PartialEq, Eq, Structural)]
pub enum GenerationError {
    /// The record carries both the `marked` and the `unmarked` flag.
    ConflictingFlags,
    /// The record has no named fields: it is a tuple-style record, a unit
    /// record, or a record with nothing between its braces.
    UnsupportedShape,
}

/// The text of the diagnostic that belongs to an error.
pub open spec fn message_text(e: GenerationError) -> Seq<char> {
    match e {
        GenerationError::ConflictingFlags => "Cannot mark single struct as marked and unmarked"@,
        GenerationError::UnsupportedShape => "Only structs with named fields are supported"@,
    }
}

impl GenerationError {
    /// The diagnostic shown to the record's author.
    pub fn message(&self) -> (text: String)
        ensures
            text@ == message_text(*self),
    {
        match self {
            GenerationError::ConflictingFlags => {
                "Cannot mark single struct as marked and unmarked".to_owned()
            },
            GenerationError::UnsupportedShape => {
                "Only structs with named fields are supported".to_owned()
            },
        }
    }
}

} // verus!
