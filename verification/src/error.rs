//! The ways in which generation fails.

use vstd::prelude::*;

verus! {

/// What is wrong with the annotations of a type definition. Any of these ends
/// generation for the whole type.
#[derive(Debug, Clone, Copy, PartialEq, Eq, Structural)]
pub enum GenerationError {
    /// A variant bears the display marker more than once.
    DuplicateAnnotation,
    /// The display marker has no parenthesised list, or the list does not
    /// start with the message text pair.
    MissingMessageKey,
    /// The message text is empty.
    EmptyMessage,
    /// A template argument names a field, by name or by position, that the
    /// variant does not have.
    UnresolvedFieldReference,
    /// The type of the cause field is not a named type, or is an optional
    /// of something other than a box.
    InvalidCauseShape,
    /// A template argument is neither an integer literal nor an identifier.
    InvalidAnnotationArgument,
}

/// Rendering failed: the template of the variant is malformed, it does not
/// have one placeholder for each of its arguments, or an argument is a field
/// that cannot be rendered.
#[derive(Debug, Clone, Copy, PartialEq, Eq, Structural)]
pub struct FormatFailure;

/// The text that describes each failure.
pub open spec fn diagnostic(error: GenerationError) -> Seq<char> {
    match error {
        GenerationError::DuplicateAnnotation => "attribute `display` is given more than once"@,
        GenerationError::MissingMessageKey => "attribute `display` must start with `msg = \"...\"` in parentheses"@,
        GenerationError::EmptyMessage => "the message of attribute `display` is empty"@,
        GenerationError::UnresolvedFieldReference => "an argument of attribute `display` names no field"@,
        GenerationError::InvalidCauseShape => "a cause must be an error type, a `Box` of one, or an `Option` of such a `Box`"@,
        GenerationError::InvalidAnnotationArgument => "an argument of attribute `display` must be an integer or an identifier"@,
    }
}

impl GenerationError {
    /// The diagnostic text for this failure.
    pub fn message(&self) -> (text: &'static str)
        ensures
            text@ == diagnostic(*self),
    {
        match self {
            GenerationError::DuplicateAnnotation => "attribute `display` is given more than once",
            GenerationError::MissingMessageKey => "attribute `display` must start with `msg = \"...\"` in parentheses",
            GenerationError::EmptyMessage => "the message of attribute `display` is empty",
            GenerationError::UnresolvedFieldReference => "an argument of attribute `display` names no field",
            GenerationError::InvalidCauseShape => "a cause must be an error type, a `Box` of one, or an `Option` of such a `Box`",
            GenerationError::InvalidAnnotationArgument => "an argument of attribute `display` must be an integer or an identifier",
        }
    }
}

} // verus!
