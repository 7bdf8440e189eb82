use crate::errors::ReaderError;
use vstd::prelude::*;
use vstd::std_specs::convert::TryFromSpecImpl;

verus! {

/// The kinds of field that a directory entry can name.
///
/// Seventeen kinds have a name and a code of their own. Every other code is
/// kept as `Unknown` together with the code, so that no entry of a directory
/// is lost.
#[derive(Debug, Eq, PartialEq, Clone, Copy, Structural)]
pub enum FieldType {
    SNPCount,
    IlluminaID,
    SD,
    Mean,
    BeadCounts,
    Midblock,
    RunInfo,
    RedGreen,
    Manifest,
    Barcode,
    Format,
    Label,
    Opa,
    SampleID,
    Descr,
    Plate,
    Well,
    Unknown(u16),
}

/// How the data of a field is laid out in the file.
///
/// Each named kind has one of the first seven layouts. `Unknown` is the
/// layout of the kinds without a name: nothing is known of their data, so it
/// has no width and no value is ever decoded from it.
#[derive(Debug, Eq, PartialEq, Clone, Copy, Structural)]
pub enum FieldFormat {
    String,
    Long,
    Short,
    Int,
    Byte,
    RunInfo,
    MidBlock,
    Unknown,
}

/// One decoded value.
#[derive(Debug, Eq, PartialEq)]
pub enum FieldValue {
    String(String),
    Long(i64),
    Short(u16),
    Int(i32),
    Byte(Vec<u8>),
    RunInfo,
    MidBlock,
}

/// One entry of a directory: a field kind and the offset, from the start of
/// the file, at which the data of that field begins.
#[derive(Debug, Eq, PartialEq, Clone, Copy, Structural)]
pub struct FieldDef {
    pub field_type: FieldType,
    pub byte_offset: u64,
}

/// A field kind together with a value decoded for it.
#[derive(Debug, Eq, PartialEq)]
pub struct Field {
    pub field_type: FieldType,
    pub value: FieldValue,
}

/// The code that the registry reserves for the catch-all kind itself.
pub const UNKNOWN_CODE: u16 = 410;

/// The named kind that the registry lists under `code`, if there is one.
pub open spec fn named_kind(code: u16) -> Option<FieldType> {
    if code == 1000 {
        Some(FieldType::SNPCount)
    } else if code == 102 {
        Some(FieldType::IlluminaID)
    } else if code == 103 {
        Some(FieldType::SD)
    } else if code == 104 {
        Some(FieldType::Mean)
    } else if code == 107 {
        Some(FieldType::BeadCounts)
    } else if code == 200 {
        Some(FieldType::Midblock)
    } else if code == 300 {
        Some(FieldType::RunInfo)
    } else if code == 400 {
        Some(FieldType::RedGreen)
    } else if code == 401 {
        Some(FieldType::Manifest)
    } else if code == 402 {
        Some(FieldType::Barcode)
    } else if code == 403 {
        Some(FieldType::Format)
    } else if code == 404 {
        Some(FieldType::Label)
    } else if code == 405 {
        Some(FieldType::Opa)
    } else if code == 406 {
        Some(FieldType::SampleID)
    } else if code == 407 {
        Some(FieldType::Descr)
    } else if code == 408 {
        Some(FieldType::Plate)
    } else if code == 409 {
        Some(FieldType::Well)
    } else {
        None
    }
}

/// The kind that a directory entry with `code` stands for: the named kind
/// where the registry has one, and `Unknown` with the code otherwise.
pub open spec fn classified(code: u16) -> FieldType {
    match named_kind(code) {
        Some(kind) => kind,
        None => FieldType::Unknown(code),
    }
}

impl FieldType {
    /// The code under which a directory names this kind.
    pub open spec fn spec_code(&self) -> u16 {
        match *self {
            FieldType::SNPCount => 1000,
            FieldType::IlluminaID => 102,
            FieldType::SD => 103,
            FieldType::Mean => 104,
            FieldType::BeadCounts => 107,
            FieldType::Midblock => 200,
            FieldType::RunInfo => 300,
            FieldType::RedGreen => 400,
            FieldType::Manifest => 401,
            FieldType::Barcode => 402,
            FieldType::Format => 403,
            FieldType::Label => 404,
            FieldType::Opa => 405,
            FieldType::SampleID => 406,
            FieldType::Descr => 407,
            FieldType::Plate => 408,
            FieldType::Well => 409,
            FieldType::Unknown(code) => code,
        }
    }

    /// An `Unknown` never carries the code of a named kind.
    pub open spec fn well_formed(self) -> bool {
        self matches FieldType::Unknown(code) ==> named_kind(code) is None
    }

    /// The layout in which the data of a field of this kind is stored. The
    /// registry gives one to each named kind, and none to a kind without a
    /// name: the layout of such a kind is `Unknown`.
    pub open spec fn data_type(self) -> FieldFormat {
        match self {
            FieldType::SNPCount | FieldType::IlluminaID | FieldType::RedGreen => FieldFormat::Int,
            FieldType::SD | FieldType::BeadCounts | FieldType::Mean => FieldFormat::Short,
            FieldType::Manifest
            | FieldType::Barcode
            | FieldType::Format
            | FieldType::Descr
            | FieldType::Plate
            | FieldType::SampleID
            | FieldType::Opa
            | FieldType::Label
            | FieldType::Well => FieldFormat::String,
            FieldType::RunInfo => FieldFormat::RunInfo,
            FieldType::Midblock => FieldFormat::MidBlock,
            FieldType::Unknown(_) => FieldFormat::Unknown,
        }
    }

    /// Whether a field of this kind holds one value per array element.
    pub open spec fn spec_is_iterable(&self) -> bool {
        *self == FieldType::IlluminaID || *self == FieldType::SD || *self == FieldType::Mean
            || *self == FieldType::BeadCounts
    }

    pub fn get_data_type(&self) -> (format: FieldFormat)
        ensures
            format == self.data_type(),
    {
        match self {
            Self::SNPCount | Self::IlluminaID | Self::RedGreen => FieldFormat::Int,
            Self::SD | Self::BeadCounts | Self::Mean => FieldFormat::Short,
            Self::Manifest
            | Self::Barcode
            | Self::Format
            | Self::Descr
            | Self::Plate
            | Self::SampleID
            | Self::Opa
            | Self::Label
            | Self::Well => FieldFormat::String,
            Self::RunInfo => FieldFormat::RunInfo,
            Self::Midblock => FieldFormat::MidBlock,
            Self::Unknown(_) => FieldFormat::Unknown,
        }
    }

    /// The kind that a directory entry with `code` stands for. Every code
    /// has one: a code without a named kind is kept in `Unknown`.
    pub fn classify(code: u16) -> (kind: FieldType)
        ensures
            kind == classified(code),
    {
        match FieldType::try_from(code) {
            Ok(kind) => kind,
            Err(_) => FieldType::Unknown(code),
        }
    }

    #[verifier::when_used_as_spec(spec_code)]
    pub fn code(&self) -> (code: u16)
        ensures
            code == self.spec_code(),
    {
        match self {
            Self::SNPCount => 1000,
            Self::IlluminaID => 102,
            Self::SD => 103,
            Self::Mean => 104,
            Self::BeadCounts => 107,
            Self::Midblock => 200,
            Self::RunInfo => 300,
            Self::RedGreen => 400,
            Self::Manifest => 401,
            Self::Barcode => 402,
            Self::Format => 403,
            Self::Label => 404,
            Self::Opa => 405,
            Self::SampleID => 406,
            Self::Descr => 407,
            Self::Plate => 408,
            Self::Well => 409,
            Self::Unknown(code) => *code,
        }
    }

    #[verifier::when_used_as_spec(spec_is_iterable)]
    pub fn is_iterable(&self) -> (iterable: bool)
        ensures
            iterable == self.spec_is_iterable(),
    {
        match self {
            Self::IlluminaID | Self::SD | Self::Mean | Self::BeadCounts => true,
            _ => false,
        }
    }
}

/// The strict lookup: it succeeds on the codes that the registry lists, which
/// are those of the named kinds and the one reserved for the catch-all kind,
/// and fails with `InvalidFieldType` on every other code.
impl TryFrom<u16> for FieldType {
    type Error = ReaderError;

    fn try_from(code: u16) -> (kind: Result<FieldType, ReaderError>) {
        match code {
            1000 => Ok(FieldType::SNPCount),
            102 => Ok(FieldType::IlluminaID),
            103 => Ok(FieldType::SD),
            104 => Ok(FieldType::Mean),
            107 => Ok(FieldType::BeadCounts),
            200 => Ok(FieldType::Midblock),
            300 => Ok(FieldType::RunInfo),
            400 => Ok(FieldType::RedGreen),
            401 => Ok(FieldType::Manifest),
            402 => Ok(FieldType::Barcode),
            403 => Ok(FieldType::Format),
            404 => Ok(FieldType::Label),
            405 => Ok(FieldType::Opa),
            406 => Ok(FieldType::SampleID),
            407 => Ok(FieldType::Descr),
            408 => Ok(FieldType::Plate),
            409 => Ok(FieldType::Well),
            UNKNOWN_CODE => Ok(FieldType::Unknown(code)),
            _ => Err(ReaderError::InvalidFieldType { actual: code }),
        }
    }
}

impl TryFromSpecImpl<u16> for FieldType {
    open spec fn obeys_try_from_spec() -> bool {
        true
    }

    open spec fn try_from_spec(code: u16) -> Result<FieldType, ReaderError> {
        match named_kind(code) {
            Some(kind) => Ok(kind),
            None => if code == UNKNOWN_CODE {
                Ok(FieldType::Unknown(code))
            } else {
                Err(ReaderError::InvalidFieldType { actual: code })
            },
        }
    }
}

impl FieldFormat {
    /// The number of bytes that one value takes, for the layouts in which
    /// every value takes the same number. The layout of the kinds without a
    /// name has none.
    pub open spec fn spec_width(self) -> Option<nat> {
        match self {
            FieldFormat::Short => Some(2nat),
            FieldFormat::Int => Some(4nat),
            FieldFormat::Long => Some(8nat),
            FieldFormat::String
            | FieldFormat::Byte
            | FieldFormat::RunInfo
            | FieldFormat::MidBlock
            | FieldFormat::Unknown => None,
        }
    }

    pub fn width(&self) -> (width: Option<u8>)
        ensures
            match width {
                Some(w) => self.spec_width() == Some(w as nat),
                None => self.spec_width() is None,
            },
    {
        match self {
            FieldFormat::Short => Some(2),
            FieldFormat::Int => Some(4),
            FieldFormat::Long => Some(8),
            FieldFormat::String
            | FieldFormat::Byte
            | FieldFormat::RunInfo
            | FieldFormat::MidBlock
            | FieldFormat::Unknown => None,
        }
    }
}

/// Classifying a code and asking the kind for its code gives the code back:
/// a directory can be written out again, unrecognised entries included.
pub proof fn lemma_code_of_classified(code: u16)
    ensures
        classified(code).well_formed(),
        classified(code).spec_code() == code,
{
}

/// Asking a well-formed kind for its code and classifying that code gives
/// the kind back.
pub proof fn lemma_classified_of_code(kind: FieldType)
    requires
        kind.well_formed(),
    ensures
        classified(kind.spec_code()) == kind,
{
}

/// The kinds without a name, and they alone, have the layout `Unknown`,
/// which has no width: none of the layouts of the named kinds is ever taken
/// for the data of an unrecognised field.
pub proof fn lemma_unknown_has_no_layout(kind: FieldType)
    ensures
        kind is Unknown <==> kind.data_type() == FieldFormat::Unknown,
        FieldFormat::Unknown.spec_width() is None,
{
}

/// The layout of every iterable kind has a fixed width.
pub proof fn lemma_iterable_has_width(kind: FieldType)
    requires
        kind.spec_is_iterable(),
    ensures
        kind.data_type().spec_width() is Some,
{
}

} // verus!
