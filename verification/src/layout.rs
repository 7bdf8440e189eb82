use crate::decode::{decoded, decoded_run, value_at};
use crate::errors::{ErrorView, SourceError};
use crate::fields::{classified, FieldDef, FieldType, FieldValue};
use crate::source::SourceView;
use crate::text::rendered;
use crate::wire::{in_file, le_u16, le_u32, le_u64, span};
use vstd::prelude::*;

verus! {

/// The number of bytes before the directory: the magic marker, the version
/// and the number of directory entries.
pub const HEADER_LEN: u64 = 16;

/// The number of bytes of one directory entry: a field code and an offset.
pub const ENTRY_LEN: u64 = 10;

/// The four bytes with which every file starts: `IDAT` in ASCII.
pub open spec fn magic() -> Seq<u8> {
    seq![0x49u8, 0x44u8, 0x41u8, 0x54u8]
}

/// The directory entry that the ten bytes at offset `at` spell: a field
/// code in two bytes, then the offset of the data of the field in eight.
pub open spec fn entry_at(bytes: Seq<u8>, at: int) -> FieldDef {
    FieldDef {
        field_type: classified(le_u16(span(bytes, at, 2)) as u16),
        byte_offset: le_u64(span(bytes, at + 2, 8)) as u64,
    }
}

/// The `count` directory entries that are stored in a row from offset `at`.
pub open spec fn entries(bytes: Seq<u8>, at: int, count: nat) -> Seq<FieldDef> {
    Seq::new(count, |i: int| entry_at(bytes, at + ENTRY_LEN * i))
}

/// The definition that a directory has for `kind`. Where several entries
/// name the kind, the last of them counts.
pub open spec fn lookup(directory: Seq<FieldDef>, kind: FieldType) -> Option<FieldDef>
    decreases directory.len(),
{
    if directory.len() == 0 {
        None
    } else if directory.last().field_type == kind {
        Some(directory.last())
    } else {
        lookup(directory.drop_last(), kind)
    }
}

/// What is known of a file once it has been opened: its bytes, where the
/// cursor stands, the version that its header gives, its directory, and the
/// number of elements that each of its array fields holds.
pub struct ReaderView {
    pub bytes: Seq<u8>,
    pub position: nat,
    pub version: u64,
    pub fields: Seq<FieldDef>,
    pub snp_count: u32,
}

impl ReaderView {
    /// The bytes and the cursor.
    pub open spec fn source(self) -> SourceView {
        SourceView { bytes: self.bytes, position: self.position }
    }

    /// Whether `other` is the same file, wherever its cursor stands.
    pub open spec fn same_file(self, other: ReaderView) -> bool {
        &&& self.bytes == other.bytes
        &&& self.version == other.version
        &&& self.fields == other.fields
        &&& self.snp_count == other.snp_count
    }

    /// What reading the single value of the field `kind` comes to: the
    /// directory must name the kind, and the value is decoded at the offset
    /// that it gives, in the format of the kind.
    pub open spec fn scalar(self, kind: FieldType) -> Result<FieldValue, ErrorView> {
        match lookup(self.fields, kind) {
            None => Err(ErrorView::MissingField { field: kind }),
            Some(definition) => decoded(
                self.bytes,
                kind.data_type(),
                definition.byte_offset as int,
            ),
        }
    }

    /// What reading the array field `kind` comes to: the kind must be
    /// iterable and the directory must name it, and the values are those of
    /// as many elements as the file has array elements, stored in a row from
    /// the offset that the directory gives.
    pub open spec fn values(self, kind: FieldType) -> Result<Seq<FieldValue>, ErrorView> {
        if !kind.is_iterable() {
            Err(ErrorView::FieldNotIterable)
        } else {
            match lookup(self.fields, kind) {
                None => Err(ErrorView::MissingField { field: kind }),
                Some(definition) => decoded_run(
                    self.bytes,
                    kind.data_type(),
                    definition.byte_offset as int,
                    self.snp_count as nat,
                ),
            }
        }
    }

    /// The number of elements was read from the data of the entry for
    /// `SNPCount`.
    pub open spec fn well_formed(self) -> bool {
        &&& lookup(self.fields, FieldType::SNPCount) matches Some(definition)
        &&& in_file(self.bytes, definition.byte_offset as int, 4)
        &&& self.snp_count == le_u32(span(self.bytes, definition.byte_offset as int, 4))
    }
}

/// Whether the magic marker stands at the cursor.
pub open spec fn has_magic(source: SourceView) -> bool {
    source.can_read(4) && source.ahead(4) == magic()
}

/// The version that the header at the cursor gives. It is kept as it is
/// found: no version is refused.
pub open spec fn declared_version(source: SourceView) -> u64 {
    le_u64(span(source.bytes, source.position as int + 4, 8)) as u64
}

/// The number of directory entries that the header at the cursor declares.
pub open spec fn declared_count(source: SourceView) -> nat {
    le_u32(span(source.bytes, source.position as int + 12, 4)) as nat
}

/// Whether the file holds the whole header and every directory entry that
/// the header declares.
pub open spec fn has_directory(source: SourceView) -> bool {
    &&& source.can_read(HEADER_LEN as nat)
    &&& source.can_read(HEADER_LEN as nat + ENTRY_LEN as nat * declared_count(source))
}

/// The directory that follows the header at the cursor.
pub open spec fn directory(source: SourceView) -> Seq<FieldDef> {
    entries(source.bytes, source.position + HEADER_LEN, declared_count(source))
}

/// What opening a file comes to, for a source whose cursor stands where the
/// file begins.
///
/// The checks are made in the order in which the file is read: the magic
/// marker, the rest of the header and the directory, the entry for
/// `SNPCount`, and the four bytes of the count itself.
pub open spec fn opened(source: SourceView) -> Result<ReaderView, ErrorView> {
    if !source.can_read(4) {
        Err(ErrorView::Io(SourceError::UnexpectedEof))
    } else if source.ahead(4) != magic() {
        Err(ErrorView::InvalidHeader { actual: rendered(source.ahead(4)) })
    } else if !has_directory(source) {
        Err(ErrorView::Io(SourceError::UnexpectedEof))
    } else {
        match lookup(directory(source), FieldType::SNPCount) {
            None => Err(ErrorView::MissingField { field: FieldType::SNPCount }),
            Some(definition) => if in_file(source.bytes, definition.byte_offset as int, 4) {
                Ok(
                    ReaderView {
                        bytes: source.bytes,
                        position: (definition.byte_offset + 4) as nat,
                        version: declared_version(source),
                        fields: directory(source),
                        snp_count: le_u32(span(source.bytes, definition.byte_offset as int, 4)) as u32,
                    },
                )
            } else {
                Err(ErrorView::Io(SourceError::UnexpectedEof))
            },
        }
    }
}

/// Whether no read that opening makes can fall short: the file holds its
/// header, its directory, and the count, if the directory has an entry for it.
pub open spec fn complete(source: SourceView) -> bool {
    &&& has_directory(source)
    &&& lookup(directory(source), FieldType::SNPCount) matches Some(definition) ==> in_file(
        source.bytes,
        definition.byte_offset as int,
        4,
    )
}

/// A directory in which `kind` is named at index `i` and nowhere behind it
/// has the entry at `i` as its definition of `kind`.
pub proof fn lemma_lookup_last(directory: Seq<FieldDef>, kind: FieldType, i: int)
    requires
        0 <= i < directory.len(),
        directory[i].field_type == kind,
        forall|j: int| i < j < directory.len() ==> directory[j].field_type != kind,
    ensures
        lookup(directory, kind) == Some(directory[i]),
    decreases directory.len(),
{
    if i < directory.len() - 1 {
        lemma_lookup_last(directory.drop_last(), kind, i);
    }
}

/// A directory has no definition of `kind` exactly when no entry names it.
pub proof fn lemma_lookup_none(directory: Seq<FieldDef>, kind: FieldType)
    ensures
        lookup(directory, kind) is None <==> forall|j: int|
            0 <= j < directory.len() ==> directory[j].field_type != kind,
    decreases directory.len(),
{
    if directory.len() > 0 {
        lemma_lookup_none(directory.drop_last(), kind);
        if directory.last().field_type != kind {
            assert forall|j: int| 0 <= j < directory.len() && lookup(directory, kind) is None
                implies directory[j].field_type != kind by {
                if j < directory.len() - 1 {
                    assert(directory.drop_last()[j] == directory[j]);
                }
            }
        }
    }
}

/// The definition that a directory has for `kind` is the last of its entries
/// that names `kind`.
pub proof fn lemma_lookup_some(directory: Seq<FieldDef>, kind: FieldType)
    requires
        lookup(directory, kind) is Some,
    ensures
        exists|i: int|
            {
                &&& 0 <= i < directory.len()
                &&& #[trigger] directory[i] == lookup(directory, kind).unwrap()
                &&& directory[i].field_type == kind
                &&& forall|j: int| i < j < directory.len() ==> directory[j].field_type != kind
            },
    decreases directory.len(),
{
    if directory.last().field_type == kind {
        let i = directory.len() - 1;
        assert(directory[i] == lookup(directory, kind).unwrap());
    } else {
        let shorter = directory.drop_last();
        lemma_lookup_some(shorter, kind);
        let i = choose|i: int|
            {
                &&& 0 <= i < shorter.len()
                &&& #[trigger] shorter[i] == lookup(shorter, kind).unwrap()
                &&& shorter[i].field_type == kind
                &&& forall|j: int| i < j < shorter.len() ==> shorter[j].field_type != kind
            };
        assert(directory[i] == shorter[i]);
        assert forall|j: int| i < j < directory.len() implies directory[j].field_type != kind by {
            if j < shorter.len() {
                assert(shorter[j] == directory[j]);
            }
        }
    }
}

/// A file that holds everything that opening reads can be opened exactly
/// when it starts with the magic marker and its directory has an entry for
/// `SNPCount`. Without the marker it is refused for its header, and with the
/// marker but without the entry it is refused for the missing field.
pub proof fn lemma_open_complete(source: SourceView)
    requires
        complete(source),
    ensures
        opened(source) is Ok <==> has_magic(source) && lookup(
            directory(source),
            FieldType::SNPCount,
        ) is Some,
        !has_magic(source) ==> opened(source) == Err::<ReaderView, ErrorView>(
            ErrorView::InvalidHeader { actual: rendered(source.ahead(4)) },
        ),
        has_magic(source) && lookup(directory(source), FieldType::SNPCount) is None ==> opened(
            source,
        ) == Err::<ReaderView, ErrorView>(ErrorView::MissingField { field: FieldType::SNPCount }),
{
}

/// Whatever can be opened starts with the magic marker and names
/// `SNPCount` in its directory, complete or not; and what opening gives is
/// well formed and holds the bytes and the directory of the file.
pub proof fn lemma_opened(source: SourceView)
    ensures
        opened(source) matches Ok(reader) ==> {
            &&& has_magic(source)
            &&& has_directory(source)
            &&& reader.well_formed()
            &&& reader.bytes == source.bytes
            &&& reader.version == declared_version(source)
            &&& reader.fields == directory(source)
        },
{
}

/// A reader stays well formed whatever is read through it: reading moves
/// the cursor and changes nothing else.
pub proof fn lemma_well_formed_kept(before: ReaderView, after: ReaderView)
    requires
        before.well_formed(),
        before.same_file(after),
    ensures
        after.well_formed(),
{
}

/// Reading an array field again gives the same outcome: it does not depend
/// on where an earlier read has left the cursor.
pub proof fn lemma_values_repeatable(first: ReaderView, second: ReaderView, kind: FieldType)
    requires
        first.same_file(second),
    ensures
        first.values(kind) == second.values(kind),
        first.scalar(kind) == second.scalar(kind),
{
}

/// An array field that can be read is iterable and named in the directory,
/// and gives exactly as many values as the file has array elements: the
/// value at index `i` is the one stored `i` widths behind the offset of the
/// field, so that the values come in the order of their offsets.
pub proof fn lemma_values_in_order(reader: ReaderView, kind: FieldType)
    requires
        reader.values(kind) is Ok,
    ensures
        kind.is_iterable(),
        lookup(reader.fields, kind) is Some,
        kind.data_type().spec_width() is Some,
        reader.values(kind) matches Ok(values) && values.len() == reader.snp_count && forall|
            i: int,
        |
            0 <= i < values.len() ==> #[trigger] values[i] == value_at(
                reader.bytes,
                kind.data_type(),
                lookup(reader.fields, kind).unwrap().byte_offset + i
                    * kind.data_type().spec_width().unwrap(),
            ),
{
}

/// An array field of which the file holds every element can be read, and one
/// of which it does not is refused for the short read.
pub proof fn lemma_values_in_file(reader: ReaderView, kind: FieldType)
    requires
        kind.is_iterable(),
        lookup(reader.fields, kind) is Some,
        reader.snp_count > 0,
    ensures
        reader.values(kind) is Ok <==> in_file(
            reader.bytes,
            lookup(reader.fields, kind).unwrap().byte_offset as int,
            reader.snp_count * kind.data_type().spec_width().unwrap(),
        ),
        reader.values(kind) is Err ==> reader.values(kind) == Err::<Seq<FieldValue>, ErrorView>(
            ErrorView::Io(SourceError::UnexpectedEof),
        ),
{
}

} // verus!
