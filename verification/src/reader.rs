use crate::decode::{decode_as, decode_at, decoded, decoded_run, value_at};
use crate::errors::{ErrorView, ReaderError, SourceError};
use crate::fields::{FieldDef, FieldFormat, FieldType, FieldValue};
use crate::layout::{
    entries, entry_at, has_magic, lemma_lookup_last, lemma_lookup_none, lookup, magic, opened,
    ReaderView, ENTRY_LEN,
};
use crate::source::ByteSource;
use crate::text::{render, rendered};
use crate::wire::{in_file, le_u32, span};
use vstd::prelude::*;

verus! {

/// An opened file: the byte source, the version and the directory that were
/// read from it, and the number of elements in each of its array fields.
pub struct Reader {
    inner: ByteSource,
    version: u64,
    fields: Vec<FieldDef>,
    snp_count: u32,
}

impl View for Reader {
    type V = ReaderView;

    closed spec fn view(&self) -> ReaderView {
        ReaderView {
            bytes: self.inner@.bytes,
            position: self.inner@.position,
            version: self.version,
            fields: self.fields@,
            snp_count: self.snp_count,
        }
    }
}

/// Finds the definition that `fields` has for `kind`: the last entry that
/// names the kind.
pub fn find_field(fields: &Vec<FieldDef>, kind: FieldType) -> (found: Option<FieldDef>)
    ensures
        found == lookup(fields@, kind),
        found matches Some(definition) ==> definition.field_type == kind,
{
    let mut i: usize = fields.len();
    while i > 0
        invariant
            i <= fields.len(),
            forall|j: int| i <= j < fields.len() ==> fields@[j].field_type != kind,
        decreases i,
    {
        i = i - 1;
        if fields[i].field_type == kind {
            proof {
                lemma_lookup_last(fields@, kind, i as int);
            }
            return Some(fields[i]);
        }
    }
    proof {
        lemma_lookup_none(fields@, kind);
    }
    None
}

impl Reader {
    /// Opens the file that `inner` holds, reading from where its cursor
    /// stands: checks the magic marker, takes the version as it is, reads
    /// the directory, and reads the number of array elements from the data
    /// of the entry for `SNPCount`.
    pub fn new(inner: ByteSource) -> (reader: Result<Reader, ReaderError>)
        ensures
            match reader {
                Ok(reader) => opened(inner@) == Ok::<ReaderView, ErrorView>(reader@)
                    && reader@.well_formed(),
                Err(error) => opened(inner@) == Err::<ReaderView, ErrorView>(error@),
            },
    {
        let mut inner = inner;
        let ghost start = inner@;
        match Self::check_header(&mut inner) {
            Ok(()) => {},
            Err(error) => return Err(error),
        }
        let version = match inner.read_u64_le() {
            Ok(version) => version,
            Err(cause) => return Err(ReaderError::Io(cause)),
        };
        let fields = match Self::get_fields(&mut inner) {
            Ok(fields) => fields,
            Err(error) => return Err(error),
        };
        assert(span(start.bytes, start.position as int + 12, 4) == start.past(12).ahead(4));
        let definition = match find_field(&fields, FieldType::SNPCount) {
            Some(definition) => definition,
            None => return Err(ReaderError::MissingField { field: FieldType::SNPCount }),
        };
        inner.seek(definition.byte_offset);
        let snp_count = match inner.read_u32_le() {
            Ok(count) => count,
            Err(cause) => return Err(ReaderError::Io(cause)),
        };
        Ok(Reader { inner, version, fields, snp_count })
    }

    /// Reads the directory: the number of entries in four bytes, then the
    /// entries. Either every declared entry is returned or none: where the
    /// file is too short for them, no entry is read and the cursor stays
    /// behind the number.
    pub fn get_fields(inner: &mut ByteSource) -> (fields: Result<Vec<FieldDef>, ReaderError>)
        ensures
            final(inner)@.bytes == old(inner)@.bytes,
            match fields {
                Ok(fields) => {
                    let count = le_u32(old(inner)@.ahead(4)) as nat;
                    &&& old(inner)@.can_read(4 + ENTRY_LEN as nat * count)
                    &&& fields@ == entries(old(inner)@.bytes, old(inner)@.position as int + 4, count)
                    &&& final(inner)@ == old(inner)@.past(4 + ENTRY_LEN as nat * count)
                },
                Err(error) => {
                    &&& error@ == ErrorView::Io(SourceError::UnexpectedEof)
                    &&& if old(inner)@.can_read(4) {
                        &&& !old(inner)@.can_read(
                            4 + ENTRY_LEN as nat * le_u32(old(inner)@.ahead(4)) as nat,
                        )
                        &&& final(inner)@ == old(inner)@.past(4)
                    } else {
                        final(inner)@ == old(inner)@
                    }
                },
            },
    {
        let field_count = match inner.read_u32_le() {
            Ok(count) => count,
            Err(cause) => return Err(ReaderError::Io(cause)),
        };
        let ghost first = inner@;
        let left = inner.len() as u64 - inner.stream_position();
        if left / ENTRY_LEN < field_count as u64 {
            return Err(ReaderError::Io(SourceError::UnexpectedEof));
        }
        let mut fields: Vec<FieldDef> = Vec::new();
        let mut i: u32 = 0;
        while i < field_count
            invariant
                i <= field_count,
                inner@ == first.past(ENTRY_LEN as nat * i as nat),
                first.can_read(ENTRY_LEN as nat * field_count as nat),
                fields@ == entries(first.bytes, first.position as int, i as nat),
            decreases field_count - i,
        {
            match Self::get_field_definition(inner) {
                Ok(definition) => {
                    fields.push(definition);
                },
                Err(error) => {
                    return Err(error);
                },
            }
            i = i + 1;
            assert(fields@ =~= entries(first.bytes, first.position as int, i as nat));
        }
        Ok(fields)
    }

    /// Reads one directory entry: the field code in two bytes, then the
    /// offset of the data in eight. A code that names no kind is kept as
    /// `Unknown`; it is no failure.
    pub fn get_field_definition(inner: &mut ByteSource) -> (definition: Result<
        FieldDef,
        ReaderError,
    >)
        ensures
            final(inner)@.bytes == old(inner)@.bytes,
            match definition {
                Ok(definition) => {
                    &&& old(inner)@.can_read(ENTRY_LEN as nat)
                    &&& definition == entry_at(old(inner)@.bytes, old(inner)@.position as int)
                    &&& final(inner)@ == old(inner)@.past(ENTRY_LEN as nat)
                },
                Err(error) => {
                    &&& !old(inner)@.can_read(ENTRY_LEN as nat)
                    &&& error@ == ErrorView::Io(SourceError::UnexpectedEof)
                    &&& final(inner)@ == if old(inner)@.can_read(2) {
                        old(inner)@.past(2)
                    } else {
                        old(inner)@
                    }
                },
            },
    {
        let field_code = match inner.read_u16_le() {
            Ok(code) => code,
            Err(cause) => return Err(ReaderError::Io(cause)),
        };
        let field_type = FieldType::classify(field_code);
        let byte_offset = match inner.read_u64_le() {
            Ok(offset) => offset,
            Err(cause) => return Err(ReaderError::Io(cause)),
        };
        Ok(FieldDef { field_type, byte_offset })
    }

    /// Checks that the four bytes at the cursor are the magic marker. Where
    /// they are not, the failure shows them: as text where they are
    /// well-formed UTF-8, as a raw dump of the bytes where they are not.
    pub fn check_header(inner: &mut ByteSource) -> (checked: Result<(), ReaderError>)
        ensures
            final(inner)@ == if old(inner)@.can_read(4) {
                old(inner)@.past(4)
            } else {
                old(inner)@
            },
            match checked {
                Ok(()) => has_magic(old(inner)@),
                Err(error) => {
                    &&& !has_magic(old(inner)@)
                    &&& error@ == if old(inner)@.can_read(4) {
                        ErrorView::InvalidHeader { actual: rendered(old(inner)@.ahead(4)) }
                    } else {
                        ErrorView::Io(SourceError::UnexpectedEof)
                    }
                },
            },
    {
        let header = match inner.read_exact(4) {
            Ok(header) => header,
            Err(cause) => return Err(ReaderError::Io(cause)),
        };
        if header[0] == 0x49 && header[1] == 0x44 && header[2] == 0x41 && header[3] == 0x54 {
            assert(header@ =~= magic());
            Ok(())
        } else {
            Err(ReaderError::InvalidHeader { actual: render(header.as_slice()) })
        }
    }

    /// The version that the header gives.
    pub fn version(&self) -> (version: u64)
        ensures
            version == self@.version,
    {
        self.version
    }

    /// The directory, in the order of the file.
    pub fn fields(&self) -> (fields: &Vec<FieldDef>)
        ensures
            fields@ == self@.fields,
    {
        &self.fields
    }

    /// The number of elements in each array field.
    pub fn snp_count(&self) -> (count: u32)
        ensures
            count == self@.snp_count,
    {
        self.snp_count
    }

    /// The offset of the cursor from the start of the file.
    pub fn stream_position(&self) -> (position: u64)
        ensures
            position == self@.position,
    {
        self.inner.stream_position()
    }

    /// Gives the byte source back.
    pub fn into_inner(self) -> (inner: ByteSource)
        ensures
            inner@ == self@.source(),
    {
        self.inner
    }

    /// Reads the single value of the field `kind`: the value at the offset
    /// that the directory gives for the kind, in the format of the kind. A
    /// kind that the directory does not name is refused as missing, and the
    /// cursor then stays where it was.
    pub fn scalar_value(&mut self, kind: FieldType) -> (value: Result<FieldValue, ReaderError>)
        ensures
            final(self)@.same_file(old(self)@),
            match value {
                Ok(value) => {
                    &&& old(self)@.scalar(kind) == Ok::<FieldValue, ErrorView>(value)
                    &&& final(self)@.position == lookup(
                        old(self)@.fields,
                        kind,
                    ).unwrap().byte_offset + kind.data_type().spec_width().unwrap()
                },
                Err(error) => {
                    &&& old(self)@.scalar(kind) == Err::<FieldValue, ErrorView>(error@)
                    &&& final(self)@.position == match lookup(old(self)@.fields, kind) {
                        Some(definition) => definition.byte_offset as nat,
                        None => old(self)@.position,
                    }
                },
            },
    {
        let definition = match find_field(&self.fields, kind) {
            Some(definition) => definition,
            None => return Err(ReaderError::MissingField { field: kind }),
        };
        decode_at(&mut self.inner, &definition)
    }

    /// Reads every element of the array field `kind`, in the order in which
    /// the file stores them, which is the order of their indices.
    ///
    /// The outcome depends on the bytes, the directory and the number of
    /// elements alone, not on where the cursor stands: reading a field again
    /// gives the same values. Where the call fails, the cursor stays where it
    /// was.
    pub fn field_values(&mut self, kind: FieldType) -> (values: Result<Vec<FieldValue>, ReaderError>)
        ensures
            final(self)@.same_file(old(self)@),
            match values {
                Ok(values) => {
                    &&& old(self)@.values(kind) == Ok::<Seq<FieldValue>, ErrorView>(values@)
                    &&& values@.len() == old(self)@.snp_count
                    &&& final(self)@.position == if old(self)@.snp_count == 0 {
                        old(self)@.position as int
                    } else {
                        lookup(old(self)@.fields, kind).unwrap().byte_offset + old(
                            self,
                        )@.snp_count * kind.data_type().spec_width().unwrap()
                    }
                },
                Err(error) => {
                    &&& old(self)@.values(kind) == Err::<Seq<FieldValue>, ErrorView>(error@)
                    &&& final(self)@ == old(self)@
                },
            },
    {
        let mut iterator = match self.field_iter(kind) {
            Ok(iterator) => iterator,
            Err(error) => return Err(error),
        };
        iterator.collect()
    }

    /// The definition that the directory has for `kind`, if it has one.
    pub fn field_definition(&self, kind: FieldType) -> (found: Option<FieldDef>)
        ensures
            found == lookup(self@.fields, kind),
            found matches Some(definition) ==> definition.field_type == kind,
    {
        find_field(&self.fields, kind)
    }

    /// Starts an iteration over the elements of an array field.
    ///
    /// Only `IlluminaID`, `SD`, `Mean` and `BeadCounts` are array fields: any
    /// other kind is refused as not iterable, whatever the directory holds.
    /// An array field that the directory does not name is refused as missing.
    /// The reader is lent to the iterator, and is in neither case changed by
    /// this call.
    pub fn field_iter(&mut self, field: FieldType) -> (iterator: Result<
        FieldIterator<'_>,
        ReaderError,
    >)
        ensures
            match iterator {
                Ok(iterator) => {
                    &&& field.is_iterable()
                    &&& lookup(old(self)@.fields, field) == Some(iterator.field_def)
                    &&& iterator.field_def.field_type == field
                    &&& *iterator.reader == *old(self)
                    &&& *final(iterator.reader) == *final(self)
                    &&& iterator.returned == 0
                    &&& iterator.offset == iterator.field_def.byte_offset
                },
                Err(error) => {
                    &&& *final(self) == *old(self)
                    &&& error@ == if field.is_iterable() {
                        ErrorView::MissingField { field }
                    } else {
                        ErrorView::FieldNotIterable
                    }
                    &&& field.is_iterable() ==> lookup(old(self)@.fields, field) is None
                },
            },
    {
        match field {
            FieldType::IlluminaID | FieldType::SD | FieldType::Mean | FieldType::BeadCounts => (),
            _ => return Err(ReaderError::FieldNotIterable),
        }
        let field_def = match find_field(&self.fields, field) {
            Some(field_def) => field_def,
            None => return Err(ReaderError::MissingField { field }),
        };
        Ok(FieldIterator::new(self, field_def))
    }
}

/// An iteration over the elements of one array field, in the order in which
/// the file stores them.
///
/// It holds the reader for as long as it lives, so that nothing else moves
/// the cursor meanwhile. `offset` is where the next element starts, and
/// `returned` counts the elements that were handed out. It ends once as many
/// elements were handed out as the file has array elements, and cannot be
/// restarted: to read the field again, start another iteration.
pub struct FieldIterator<'a> {
    pub reader: &'a mut Reader,
    pub field_def: FieldDef,
    pub returned: usize,
    pub offset: u64,
}

impl<'a> FieldIterator<'a> {
    /// An iteration that starts at the offset of `field_def`.
    pub fn new(reader: &'a mut Reader, field_def: FieldDef) -> (iterator: FieldIterator<'a>)
        ensures
            *iterator.reader == *old(reader),
            *final(iterator.reader) == *final(reader),
            iterator.field_def == field_def,
            iterator.returned == 0,
            iterator.offset == field_def.byte_offset,
    {
        FieldIterator { reader, field_def, returned: 0, offset: field_def.byte_offset }
    }

    /// The format in which the elements are stored.
    pub open spec fn format(&self) -> FieldFormat {
        self.field_def.field_type.data_type()
    }

    /// Whether every element has been handed out.
    pub open spec fn exhausted(&self) -> bool {
        self.returned >= self.reader@.snp_count
    }

    /// The number of elements that are still to be handed out.
    pub open spec fn remaining(&self) -> nat {
        if self.exhausted() {
            0
        } else {
            (self.reader@.snp_count - self.returned) as nat
        }
    }

    /// Hands out the next element, or `None` once the iteration has ended.
    ///
    /// The element is decoded at `offset`, and `offset` then moves behind it.
    /// An element that cannot be decoded is handed out as the failure, and
    /// ends the iteration.
    pub fn next(&mut self) -> (item: Option<Result<FieldValue, ReaderError>>)
        ensures
            *final(final(self).reader) == *final(old(self).reader),
            final(self).field_def == old(self).field_def,
            final(self).reader@.same_file(old(self).reader@),
            old(self).exhausted() ==> {
                &&& item is None
                &&& final(self).returned == old(self).returned
                &&& final(self).offset == old(self).offset
                &&& final(self).reader@ == old(self).reader@
            },
            !old(self).exhausted() ==> match decoded(
                old(self).reader@.bytes,
                old(self).format(),
                old(self).offset as int,
            ) {
                Ok(value) => {
                    &&& item == Some(Ok::<FieldValue, ReaderError>(value))
                    &&& final(self).returned == old(self).returned + 1
                    &&& final(self).offset == old(self).offset + old(
                        self,
                    ).format().spec_width().unwrap()
                    &&& final(self).reader@.position == final(self).offset
                },
                Err(error) => {
                    &&& item matches Some(Err(failure))
                    &&& failure@ == error
                    &&& final(self).returned == old(self).reader@.snp_count
                    &&& final(self).offset == old(self).offset
                    &&& final(self).reader@.position == old(self).offset
                },
            },
    {
        if self.returned >= self.reader.snp_count as usize {
            return None;
        }
        let format = self.field_def.field_type.get_data_type();
        match decode_as(&mut self.reader.inner, format, self.offset) {
            Ok(value) => {
                self.offset = self.reader.inner.stream_position();
                self.returned = self.returned + 1;
                Some(Ok(value))
            },
            Err(error) => {
                self.returned = self.reader.snp_count as usize;
                Some(Err(error))
            },
        }
    }

    /// Hands out all the elements that are left, in their order, and ends
    /// the iteration.
    ///
    /// Either all of them are decoded or none is: where the format has no
    /// fixed width, or the file does not hold all of them, the call fails
    /// before it reads anything, and the cursor stays where it was.
    pub fn collect(&mut self) -> (values: Result<Vec<FieldValue>, ReaderError>)
        ensures
            *final(final(self).reader) == *final(old(self).reader),
            final(self).field_def == old(self).field_def,
            final(self).reader@.same_file(old(self).reader@),
            final(self).exhausted(),
            match values {
                Ok(values) => {
                    &&& decoded_run(
                        old(self).reader@.bytes,
                        old(self).format(),
                        old(self).offset as int,
                        old(self).remaining(),
                    ) == Ok::<Seq<FieldValue>, ErrorView>(values@)
                    &&& if old(self).exhausted() {
                        &&& final(self).returned == old(self).returned
                        &&& final(self).offset == old(self).offset
                        &&& final(self).reader@ == old(self).reader@
                    } else {
                        &&& final(self).returned == old(self).reader@.snp_count
                        &&& final(self).offset == old(self).offset + old(self).remaining() * old(
                            self,
                        ).format().spec_width().unwrap()
                        &&& final(self).reader@.position == final(self).offset
                    }
                },
                Err(error) => {
                    &&& decoded_run(
                        old(self).reader@.bytes,
                        old(self).format(),
                        old(self).offset as int,
                        old(self).remaining(),
                    ) == Err::<Seq<FieldValue>, ErrorView>(error@)
                    &&& final(self).returned == old(self).reader@.snp_count
                    &&& final(self).offset == old(self).offset
                    &&& final(self).reader@ == old(self).reader@
                },
            },
    {
        let total = self.reader.snp_count as usize;
        if self.returned >= total {
            return Ok(Vec::new());
        }
        let count = total - self.returned;
        let format = self.field_def.field_type.get_data_type();
        let width = match format.width() {
            Some(width) => width,
            None => {
                self.returned = total;
                return Err(ReaderError::UnsupportedFormat { format });
            },
        };
        assert(count as u64 * width as u64 <= 0xff * 0xffff_ffff) by (nonlinear_arith)
            requires
                count <= 0xffff_ffff,
                width <= 0xff,
        ;
        let needed = count as u64 * width as u64;
        let len = self.reader.inner.len() as u64;
        if self.offset > len || needed > len - self.offset {
            self.returned = total;
            return Err(ReaderError::Io(SourceError::UnexpectedEof));
        }
        let ghost bytes = self.reader@.bytes;
        let ghost first = self.offset as int;
        let ghost already = self.returned as int;
        let mut values: Vec<FieldValue> = Vec::new();
        while self.returned < total
            invariant
                *final(self.reader) == *final(old(self).reader),
                self.field_def == old(self).field_def,
                self.reader@.same_file(old(self).reader@),
                bytes == self.reader@.bytes,
                total == self.reader@.snp_count,
                format == self.format(),
                format.spec_width() == Some(width as nat),
                already <= self.returned <= total,
                count == total - already,
                in_file(bytes, first, count * width),
                self.offset == first + (self.returned - already) * width,
                self.returned > already ==> self.reader@.position == self.offset,
                self.returned == already ==> self.reader@ == old(self).reader@,
                values@ == Seq::new(
                    (self.returned - already) as nat,
                    |i: int| value_at(bytes, format, first + i * width),
                ),
            decreases total - self.returned,
        {
            let ghost done = self.returned - already;
            assert(done * width + width == (done + 1) * width && (done + 1) * width <= count
                * width) by (nonlinear_arith)
                requires
                    0 <= done < count,
                    0 <= width,
            ;
            match self.next() {
                Some(Ok(value)) => {
                    values.push(value);
                },
                Some(Err(error)) => {
                    return Err(error);
                },
                None => {
                    return Ok(values);
                },
            }
            assert(values@ =~= Seq::new(
                (self.returned - already) as nat,
                |i: int| value_at(bytes, format, first + i * width),
            ));
        }
        Ok(values)
    }
}

} // verus!
