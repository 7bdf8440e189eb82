//! A reader for IDAT files, the container in which microarray scanners store
//! bead intensities.
//!
//! A file starts with a header and a directory. The directory names the
//! fields of the file and says where the data of each begins. Some fields
//! hold a single value, others one value for each element of an array whose
//! length is stored in a field of its own.
//!
//! [`Reader`] opens a file from a [`ByteSource`], looks fields up in the
//! directory, and decodes their values. What each operation returns is
//! stated over the bytes of the file: see [`layout`] for the format and
//! [`decode`] for the values.

pub mod decode;
pub mod errors;
pub mod fields;
pub mod layout;
pub mod reader;
pub mod source;
pub mod text;
pub mod wire;

pub use errors::{ReaderError, SourceError};
pub use fields::{Field, FieldDef, FieldFormat, FieldType, FieldValue};
pub use reader::{FieldIterator, Reader};
pub use source::ByteSource;

use errors::ErrorView;
use layout::{opened, ReaderView};
use vstd::prelude::*;

verus! {

/// The decoded contents of a file: its directory, and its fields with their
/// values.
#[derive(Debug)]
pub struct Record {
    pub data: Vec<Field>,
    pub fields: Vec<FieldDef>,
}

/// Makes readers.
pub struct Builder;

impl Builder {
    /// Opens the file that `reader` holds, as [`Reader::new`] does.
    pub fn build_from_reader(reader: ByteSource) -> (built: Result<Reader, ReaderError>)
        ensures
            match built {
                Ok(built) => opened(reader@) == Ok::<ReaderView, ErrorView>(built@)
                    && built@.well_formed(),
                Err(error) => opened(reader@) == Err::<ReaderView, ErrorView>(error@),
            },
    {
        Reader::new(reader)
    }
}

} // verus!
