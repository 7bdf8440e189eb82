use crate::errors::{ErrorView, ReaderError, SourceError};
use crate::fields::{FieldDef, FieldFormat, FieldType, FieldValue};
use crate::source::ByteSource;
use crate::wire::{in_file, le_i32, le_i64, le_u16, span};
use vstd::prelude::*;

verus! {

/// The value that the bytes at offset `at` of a file spell in a fixed-width
/// format.
pub open spec fn value_at(bytes: Seq<u8>, format: FieldFormat, at: int) -> FieldValue
    recommends
        format.spec_width() is Some,
{
    match format {
        FieldFormat::Short => FieldValue::Short(le_u16(span(bytes, at, 2)) as u16),
        FieldFormat::Int => FieldValue::Int(le_i32(span(bytes, at, 4)) as i32),
        FieldFormat::Long => FieldValue::Long(le_i64(span(bytes, at, 8)) as i64),
        _ => arbitrary(),
    }
}

/// What decoding one value of `format` at offset `at` of a file comes to:
/// the value, where the format has a fixed width and the file holds that
/// many bytes from `at`. A format without a fixed width is refused, and so
/// is the format of the kinds without a name, of which nothing is known.
pub open spec fn decoded(bytes: Seq<u8>, format: FieldFormat, at: int) -> Result<
    FieldValue,
    ErrorView,
> {
    match format.spec_width() {
        None => Err(ErrorView::UnsupportedFormat { format }),
        Some(width) => if in_file(bytes, at, width as int) {
            Ok(value_at(bytes, format, at))
        } else {
            Err(ErrorView::Io(SourceError::UnexpectedEof))
        },
    }
}

/// What decoding `count` values in a row comes to, the first at offset `at`
/// and each next one where the one before it ends: all of the values in the
/// order of their offsets, or no value at all. No value needs no bytes.
pub open spec fn decoded_run(bytes: Seq<u8>, format: FieldFormat, at: int, count: nat) -> Result<
    Seq<FieldValue>,
    ErrorView,
> {
    if count == 0 {
        Ok(Seq::empty())
    } else {
        match format.spec_width() {
            None => Err(ErrorView::UnsupportedFormat { format }),
            Some(width) => if in_file(bytes, at, (count * width) as int) {
                Ok(Seq::new(count, |i: int| value_at(bytes, format, at + i * width)))
            } else {
                Err(ErrorView::Io(SourceError::UnexpectedEof))
            },
        }
    }
}

/// No value is ever decoded for a kind without a name: whatever the file
/// holds and wherever the field lies, its data is refused as being of the
/// layout `Unknown`.
pub proof fn lemma_unknown_never_decoded(bytes: Seq<u8>, kind: FieldType, at: int, count: nat)
    requires
        kind is Unknown,
    ensures
        decoded(bytes, kind.data_type(), at) == Err::<FieldValue, ErrorView>(
            ErrorView::UnsupportedFormat { format: FieldFormat::Unknown },
        ),
        count > 0 ==> decoded_run(bytes, kind.data_type(), at, count) == Err::<
            Seq<FieldValue>,
            ErrorView,
        >(ErrorView::UnsupportedFormat { format: FieldFormat::Unknown }),
{
}

/// A run of values can be decoded exactly when each of its values can, and
/// its value at index `i` is then the one that is decoded `i` widths behind
/// the start of the run.
pub proof fn lemma_run_by_elements(bytes: Seq<u8>, format: FieldFormat, at: int, count: nat)
    requires
        0 <= at,
        format.spec_width() is Some,
    ensures
        decoded_run(bytes, format, at, count) is Ok <==> forall|i: int|
            0 <= i < count ==> (#[trigger] decoded(
                bytes,
                format,
                at + i * format.spec_width().unwrap(),
            )) is Ok,
        decoded_run(bytes, format, at, count) matches Ok(values) ==> values.len() == count
            && forall|i: int|
            0 <= i < count ==> decoded(bytes, format, at + i * format.spec_width().unwrap())
                == Ok::<FieldValue, ErrorView>(#[trigger] values[i]),
{
    let width = format.spec_width().unwrap();
    if count > 0 {
        if in_file(bytes, at, (count * width) as int) {
            let values = decoded_run(bytes, format, at, count)->Ok_0;
            assert forall|i: int| 0 <= i < count implies decoded(bytes, format, at + i * width)
                == Ok::<FieldValue, ErrorView>(#[trigger] values[i]) by {
                assert((i + 1) * width <= count * width && i * width + width == (i + 1) * width
                    && 0 <= i * width) by (nonlinear_arith)
                    requires
                        0 <= i < count,
                        0 < width,
                ;
            }
            assert forall|i: int| 0 <= i < count implies (#[trigger] decoded(
                bytes,
                format,
                at + i * width,
            )) is Ok by {
                assert(decoded(bytes, format, at + i * width) == Ok::<FieldValue, ErrorView>(
                    values[i],
                ));
            }
        } else {
            let last = count - 1;
            assert(last * width + width == count * width) by (nonlinear_arith)
                requires
                    last + 1 == count,
            ;
            assert(!(decoded(bytes, format, at + last * width) is Ok));
        }
    }
}

/// Decodes one value of `format` at offset `at`.
///
/// The cursor is moved to `at` unless it stands there already. A value is
/// decoded for the formats of fixed width: two bytes unsigned for `Short`,
/// four bytes signed for `Int`, eight bytes signed for `Long`, each least
/// significant byte first. After it the cursor stands behind the bytes of the
/// value. The other formats are refused, that of the kinds without a name
/// among them, and so is a value that the file does not hold in full; the
/// cursor then rests at `at`.
pub fn decode_as(source: &mut ByteSource, format: FieldFormat, at: u64) -> (value: Result<
    FieldValue,
    ReaderError,
>)
    ensures
        final(source)@.bytes == old(source)@.bytes,
        match value {
            Ok(value) => decoded(old(source)@.bytes, format, at as int) == Ok::<
                FieldValue,
                ErrorView,
            >(value) && final(source)@.position == at + format.spec_width().unwrap(),
            Err(error) => decoded(old(source)@.bytes, format, at as int) == Err::<
                FieldValue,
                ErrorView,
            >(error@) && final(source)@.position == at,
        },
{
    if source.stream_position() != at {
        source.seek(at);
    }
    let read = match format {
        FieldFormat::Short => match source.read_u16_le() {
            Ok(value) => Ok(FieldValue::Short(value)),
            Err(cause) => Err(cause),
        },
        FieldFormat::Int => match source.read_i32_le() {
            Ok(value) => Ok(FieldValue::Int(value)),
            Err(cause) => Err(cause),
        },
        FieldFormat::Long => match source.read_i64_le() {
            Ok(value) => Ok(FieldValue::Long(value)),
            Err(cause) => Err(cause),
        },
        FieldFormat::String
        | FieldFormat::Byte
        | FieldFormat::RunInfo
        | FieldFormat::MidBlock
        | FieldFormat::Unknown => return Err(ReaderError::UnsupportedFormat { format }),
    };
    match read {
        Ok(value) => Ok(value),
        Err(cause) => Err(ReaderError::Io(cause)),
    }
}

/// Decodes the value of the field that `definition` describes: one value of
/// the format of its kind, at its offset.
pub fn decode_at(source: &mut ByteSource, definition: &FieldDef) -> (value: Result<
    FieldValue,
    ReaderError,
>)
    ensures
        final(source)@.bytes == old(source)@.bytes,
        match value {
            Ok(value) => decoded(
                old(source)@.bytes,
                definition.field_type.data_type(),
                definition.byte_offset as int,
            ) == Ok::<FieldValue, ErrorView>(value) && final(source)@.position
                == definition.byte_offset + definition.field_type.data_type().spec_width().unwrap(),
            Err(error) => decoded(
                old(source)@.bytes,
                definition.field_type.data_type(),
                definition.byte_offset as int,
            ) == Err::<FieldValue, ErrorView>(error@) && final(source)@.position
                == definition.byte_offset,
        },
{
    decode_as(source, definition.field_type.get_data_type(), definition.byte_offset)
}

} // verus!
