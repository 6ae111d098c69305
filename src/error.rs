//! What can go wrong while assembling.
use vstd::prelude::*;

verus! {

/// A word that the tokenizer could read as no token.
#[derive(Debug, Clone, Copy, PartialEq, Eq, Structural)]
pub enum TokenizationErrorVariant {
    /// An alphabetic word that is no mnemonic, register or boolean.
    OpcodeNotRecognised,
    /// A numeric literal that does not fit in 16 bits.
    ParseIntError,
}

/// A tokenizer error, at a 0-based line and word position.
#[derive(Debug, Clone, Copy, PartialEq, Eq, Structural)]
pub struct TokenizationError {
    pub line: usize,
    pub position: Option<usize>,
    pub variant: TokenizationErrorVariant,
}

/// What is wrong with a row of the pattern table.
#[derive(Debug, Clone, Copy, PartialEq, Eq, Structural)]
pub enum TableBuildErrorKind {
    /// The template is not 32 characters of `0`, `1` and `A`..`Z`.
    MalformedTemplate,
    /// The field map names a letter twice.
    DuplicateFieldLetter,
    /// A template letter has no field, or its field is no operand.
    UnmappedField,
    /// The template's top nibble is no instruction class.
    UnknownClass,
    /// The row expects the same token shapes as the row `other`.
    Ambiguous { other: usize },
}

/// A row of the pattern table that cannot be used.
#[derive(Debug, Clone, Copy, PartialEq, Eq, Structural)]
pub struct TableBuildError {
    pub row: usize,
    pub kind: TableBuildErrorKind,
}

/// What went wrong.
#[derive(Debug, Clone, PartialEq, Eq)]
pub enum AssemblyErrorVariant {
    /// An immediate does not fit in its field.
    ImmediateTooLarge { max: i32, got: i32 },
    /// A branch names a label that no line defines.
    NoLabelFound { name: String },
    /// A label is further away than a signed 16-bit offset reaches.
    OffsetTooLarge { limit: i32, required: i128 },
    /// No pattern matches the shapes of the line's tokens.
    UnknownTokenPattern,
    /// A word matches no lexical class.
    UnrecognizableParam { param_index: usize },
    TokenizationError(TokenizationError),
    TableBuildError(TableBuildError),
}

/// An assembly error at a 0-based source line.
#[derive(Debug, Clone, PartialEq, Eq)]
pub struct AssemblyError {
    pub line: usize,
    pub column: Option<usize>,
    pub variant: AssemblyErrorVariant,
}

/// An assembly error's variant as a value.
pub enum ErrorKind {
    ImmediateTooLarge { max: int, got: int },
    NoLabelFound { name: Seq<char> },
    OffsetTooLarge { limit: int, required: int },
    UnknownTokenPattern,
    UnrecognizableParam { param_index: nat },
    TokenizationError(TokenizationError),
    TableBuildError(TableBuildError),
}

/// An assembly error as a value.
pub struct ErrorModel {
    pub line: nat,
    pub column: Option<usize>,
    pub kind: ErrorKind,
}

impl View for AssemblyErrorVariant {
    type V = ErrorKind;

    open spec fn view(&self) -> ErrorKind {
        match self {
            AssemblyErrorVariant::ImmediateTooLarge { max, got } => ErrorKind::ImmediateTooLarge { max: *max as int, got: *got as int },
            AssemblyErrorVariant::NoLabelFound { name } => ErrorKind::NoLabelFound { name: name@ },
            AssemblyErrorVariant::OffsetTooLarge { limit, required } => ErrorKind::OffsetTooLarge { limit: *limit as int, required: *required as int },
            AssemblyErrorVariant::UnknownTokenPattern => ErrorKind::UnknownTokenPattern,
            AssemblyErrorVariant::UnrecognizableParam { param_index } => ErrorKind::UnrecognizableParam { param_index: *param_index as nat },
            AssemblyErrorVariant::TokenizationError(e) => ErrorKind::TokenizationError(*e),
            AssemblyErrorVariant::TableBuildError(e) => ErrorKind::TableBuildError(*e),
        }
    }
}

impl View for AssemblyError {
    type V = ErrorModel;

    open spec fn view(&self) -> ErrorModel {
        ErrorModel { line: self.line as nat, column: self.column, kind: self.variant@ }
    }
}

} // verus!
