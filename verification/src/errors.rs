use crate::fields::{FieldFormat, FieldType};
use vstd::prelude::*;

verus! {

/// What can go wrong while reading from a byte source.
#[derive(Debug, Eq, PartialEq, Clone, Copy, Structural)]
pub enum SourceError {
    /// Fewer bytes were left after the cursor than the read asked for.
    UnexpectedEof,
}

/// Every way in which opening a file or reading a field can fail.
#[derive(Debug, Eq, PartialEq)]
#[allow(inconsistent_fields)]
pub enum ReaderError {
    /// The file does not start with the magic marker; `actual` renders the
    /// four bytes that were found instead.
    InvalidHeader { actual: String },
    /// The registry lists no field kind under the code `actual`.
    InvalidFieldType { actual: u16 },
    /// The directory has no entry for `field`.
    MissingField { field: FieldType },
    /// The field kind does not hold one value per array element.
    FieldNotIterable,
    /// No decoding is defined for values stored in `format`.
    UnsupportedFormat { format: FieldFormat },
    /// The byte source could not satisfy a read.
    Io(SourceError),
}

/// The mathematical content of a [`ReaderError`]: the same cases, with the
/// header text as a sequence of characters.
#[allow(inconsistent_fields)]
pub enum ErrorView {
    InvalidHeader { actual: Seq<char> },
    InvalidFieldType { actual: u16 },
    MissingField { field: FieldType },
    FieldNotIterable,
    UnsupportedFormat { format: FieldFormat },
    Io(SourceError),
}

impl View for ReaderError {
    type V = ErrorView;

    open spec fn view(&self) -> ErrorView {
        match *self {
            ReaderError::InvalidHeader { actual } => ErrorView::InvalidHeader { actual: actual@ },
            ReaderError::InvalidFieldType { actual } => ErrorView::InvalidFieldType { actual },
            ReaderError::MissingField { field } => ErrorView::MissingField { field },
            ReaderError::FieldNotIterable => ErrorView::FieldNotIterable,
            ReaderError::UnsupportedFormat { format } => ErrorView::UnsupportedFormat { format },
            ReaderError::Io(cause) => ErrorView::Io(cause),
        }
    }
}

} // verus!
