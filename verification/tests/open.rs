use idat::{
    Builder, ByteSource, FieldDef, FieldType, FieldValue, Reader, ReaderError, SourceError,
};

/// A file with the header at the start, then the directory, then `data`.
fn file(magic: &[u8], declared: u32, entries: &[(u16, u64)], data: &[u8]) -> Vec<u8> {
    let mut bytes = Vec::new();
    bytes.extend_from_slice(magic);
    bytes.extend_from_slice(&3u64.to_le_bytes());
    bytes.extend_from_slice(&declared.to_le_bytes());
    for (code, offset) in entries {
        bytes.extend_from_slice(&code.to_le_bytes());
        bytes.extend_from_slice(&offset.to_le_bytes());
    }
    bytes.extend_from_slice(data);
    bytes
}

fn open(bytes: Vec<u8>) -> Result<Reader, ReaderError> {
    Reader::new(ByteSource::new(bytes))
}

fn io_failure() -> ReaderError {
    ReaderError::Io(SourceError::UnexpectedEof)
}

#[test]
fn a_valid_file_opens() {
    // header 16, two entries 20: data from 36
    let bytes = file(b"IDAT", 2, &[(1000, 36), (102, 40)], &[2, 0, 0, 0, 1, 0, 0, 0, 2, 0, 0, 0]);
    let reader = open(bytes.clone()).unwrap();
    assert_eq!(reader.snp_count(), 2);
    assert_eq!(
        reader.fields(),
        &vec![
            FieldDef { field_type: FieldType::SNPCount, byte_offset: 36 },
            FieldDef { field_type: FieldType::IlluminaID, byte_offset: 40 },
        ]
    );
    assert_eq!(reader.stream_position(), 40);
    assert_eq!(reader.into_inner().into_inner(), bytes);
}

#[test]
fn the_builder_opens_as_the_reader_does() {
    let bytes = file(b"IDAT", 1, &[(1000, 26)], &[9, 0, 0, 0]);
    let built = Builder::build_from_reader(ByteSource::new(bytes.clone())).unwrap();
    let opened = open(bytes).unwrap();
    assert_eq!(built.snp_count(), 9);
    assert_eq!(built.fields(), opened.fields());
    assert_eq!(built.snp_count(), opened.snp_count());
    assert_eq!(
        Builder::build_from_reader(ByteSource::new(b"IDAX".to_vec())).err(),
        Some(ReaderError::InvalidHeader { actual: "IDAX".to_string() })
    );
}

#[test]
fn a_wrong_magic_is_an_invalid_header() {
    let bytes = file(b"IDAX", 1, &[(1000, 26)], &[9, 0, 0, 0]);
    assert_eq!(
        open(bytes).err(),
        Some(ReaderError::InvalidHeader { actual: "IDAX".to_string() })
    );
    // four bytes are enough to refuse the header
    assert_eq!(
        open(b"IDAX".to_vec()).err(),
        Some(ReaderError::InvalidHeader { actual: "IDAX".to_string() })
    );
    assert_eq!(
        open(b"idat and more".to_vec()).err(),
        Some(ReaderError::InvalidHeader { actual: "idat".to_string() })
    );
}

#[test]
fn a_header_that_is_no_text_is_dumped() {
    let bytes = file(&[73, 68, 65, 255], 1, &[(1000, 26)], &[9, 0, 0, 0]);
    assert_eq!(
        open(bytes).err(),
        Some(ReaderError::InvalidHeader { actual: "[73, 68, 65, 255]".to_string() })
    );
    assert_eq!(
        open(vec![0xff, 0xfe, 0x00, 0x80]).err(),
        Some(ReaderError::InvalidHeader { actual: format!("{:?}", [0xffu8, 0xfe, 0x00, 0x80]) })
    );
}

#[test]
fn a_directory_without_the_count_is_refused() {
    let bytes = file(b"IDAT", 2, &[(102, 36), (104, 40)], &[0; 16]);
    assert_eq!(
        open(bytes).err(),
        Some(ReaderError::MissingField { field: FieldType::SNPCount })
    );
    let empty = file(b"IDAT", 0, &[], &[]);
    assert_eq!(
        open(empty).err(),
        Some(ReaderError::MissingField { field: FieldType::SNPCount })
    );
}

#[test]
fn a_truncated_directory_is_an_io_failure() {
    // five entries declared, two present
    let bytes = file(b"IDAT", 5, &[(1000, 36), (102, 40)], &[]);
    assert_eq!(open(bytes).err(), Some(io_failure()));
    // the same with data behind the two entries, but less than three entries of it
    let bytes = file(b"IDAT", 5, &[(1000, 36), (102, 40)], &[0; 29]);
    assert_eq!(open(bytes).err(), Some(io_failure()));
    // with thirty bytes the five entries are there, whatever they hold
    let bytes = file(b"IDAT", 5, &[(1000, 36), (102, 40)], &[0; 30]);
    assert_eq!(open(bytes).unwrap().fields().len(), 5);
}

#[test]
fn every_cut_of_a_valid_file_is_refused() {
    let bytes = file(b"IDAT", 2, &[(102, 40), (1000, 36)], &[2, 0, 0, 0, 1, 0, 0, 0, 2, 0, 0, 0]);
    assert!(open(bytes.clone()).is_ok());
    for cut in 0..40 {
        assert_eq!(open(bytes[..cut].to_vec()).err(), Some(io_failure()), "cut at {}", cut);
    }
    // the data of the array may be missing: only an iteration needs it
    assert!(open(bytes[..40].to_vec()).is_ok());
}

#[test]
fn a_count_outside_the_file_is_an_io_failure() {
    let bytes = file(b"IDAT", 1, &[(1000, 1000)], &[9, 0, 0, 0]);
    assert_eq!(open(bytes).err(), Some(io_failure()));
    let bytes = file(b"IDAT", 1, &[(1000, 27)], &[9, 0, 0, 0]);
    assert_eq!(open(bytes).err(), Some(io_failure()));
    let bytes = file(b"IDAT", 1, &[(1000, u64::MAX)], &[9, 0, 0, 0]);
    assert_eq!(open(bytes).err(), Some(io_failure()));
}

#[test]
fn any_version_is_taken() {
    let mut bytes = file(b"IDAT", 1, &[(1000, 26)], &[9, 0, 0, 0]);
    assert_eq!(open(bytes.clone()).unwrap().version(), 3);
    for version in [0u64, 1, 0x0102_0304_0506_0708, u64::MAX] {
        bytes[4..12].copy_from_slice(&version.to_le_bytes());
        let reader = open(bytes.clone()).unwrap();
        assert_eq!(reader.version(), version);
        assert_eq!(reader.snp_count(), 9);
    }
}

#[test]
fn unknown_codes_are_kept() {
    let bytes = file(
        b"IDAT",
        4,
        &[(7, 1), (1000, 56), (410, 2), (65535, u64::MAX)],
        &[1, 0, 0, 0],
    );
    let reader = open(bytes).unwrap();
    assert_eq!(
        reader.fields(),
        &vec![
            FieldDef { field_type: FieldType::Unknown(7), byte_offset: 1 },
            FieldDef { field_type: FieldType::SNPCount, byte_offset: 56 },
            FieldDef { field_type: FieldType::Unknown(410), byte_offset: 2 },
            FieldDef { field_type: FieldType::Unknown(65535), byte_offset: u64::MAX },
        ]
    );
    let codes: Vec<u16> = reader.fields().iter().map(|entry| entry.field_type.code()).collect();
    assert_eq!(codes, vec![7, 1000, 410, 65535]);
    assert_eq!(
        reader.field_definition(FieldType::Unknown(7)),
        Some(FieldDef { field_type: FieldType::Unknown(7), byte_offset: 1 })
    );
    assert_eq!(reader.field_definition(FieldType::Unknown(8)), None);
}

#[test]
fn the_last_of_two_entries_for_a_kind_counts() {
    let bytes = file(b"IDAT", 3, &[(1000, 46), (104, 50), (1000, 50)], &[1, 0, 0, 0, 5, 0, 0, 0]);
    let mut reader = open(bytes).unwrap();
    assert_eq!(reader.snp_count(), 5);
    assert_eq!(
        reader.field_definition(FieldType::SNPCount),
        Some(FieldDef { field_type: FieldType::SNPCount, byte_offset: 50 })
    );
    assert_eq!(reader.scalar_value(FieldType::SNPCount), Ok(FieldValue::Int(5)));
}

#[test]
fn the_count_is_unsigned() {
    let bytes = file(b"IDAT", 1, &[(1000, 26)], &[0xff, 0xff, 0xff, 0xff]);
    assert_eq!(open(bytes).unwrap().snp_count(), u32::MAX);
}

#[test]
fn opening_starts_where_the_cursor_stands() {
    let mut bytes = vec![0xee; 5];
    bytes.extend_from_slice(&file(b"IDAT", 1, &[(1000, 1)], &[]));
    let mut source = ByteSource::new(bytes.clone());
    assert_eq!(
        Reader::new(ByteSource::new(bytes)).err(),
        Some(ReaderError::InvalidHeader { actual: format!("{:?}", [0xeeu8; 4]) })
    );
    source.seek(5);
    let reader = Reader::new(source).unwrap();
    assert_eq!(reader.snp_count(), 0xeeee_eeee);
    assert_eq!(reader.stream_position(), 5);
}

#[test]
fn the_parts_of_opening() {
    let bytes = file(b"IDAT", 2, &[(1000, 36), (999, 40)], &[]);
    let mut source = ByteSource::new(bytes);
    assert_eq!(Reader::check_header(&mut source), Ok(()));
    assert_eq!(source.stream_position(), 4);
    source.seek(12);
    assert_eq!(
        Reader::get_fields(&mut source),
        Ok(vec![
            FieldDef { field_type: FieldType::SNPCount, byte_offset: 36 },
            FieldDef { field_type: FieldType::Unknown(999), byte_offset: 40 },
        ])
    );
    assert_eq!(source.stream_position(), 36);
    source.seek(26);
    assert_eq!(
        Reader::get_field_definition(&mut source),
        Ok(FieldDef { field_type: FieldType::Unknown(999), byte_offset: 40 })
    );
    assert_eq!(source.stream_position(), 36);
}

#[test]
fn the_parts_of_opening_fail_where_the_file_ends() {
    let mut source = ByteSource::new(b"IDA".to_vec());
    assert_eq!(Reader::check_header(&mut source), Err(io_failure()));
    assert_eq!(source.stream_position(), 0);

    let mut source = ByteSource::new(b"ADAT".to_vec());
    assert_eq!(
        Reader::check_header(&mut source),
        Err(ReaderError::InvalidHeader { actual: "ADAT".to_string() })
    );
    assert_eq!(source.stream_position(), 4);

    // an entry without its offset: the code is read, the offset is not
    let mut source = ByteSource::new(vec![0xe8, 0x03, 1, 2, 3]);
    assert_eq!(Reader::get_field_definition(&mut source), Err(io_failure()));
    assert_eq!(source.stream_position(), 2);
    let mut source = ByteSource::new(vec![0xe8]);
    assert_eq!(Reader::get_field_definition(&mut source), Err(io_failure()));
    assert_eq!(source.stream_position(), 0);

    // a directory without its count, and one with fewer entries than it declares
    let mut source = ByteSource::new(vec![1, 0, 0]);
    assert_eq!(Reader::get_fields(&mut source), Err(io_failure()));
    assert_eq!(source.stream_position(), 0);
    let mut source = ByteSource::new(vec![2, 0, 0, 0, 0xe8, 0x03, 0, 0, 0, 0, 0, 0, 0, 0, 0x66]);
    assert_eq!(Reader::get_fields(&mut source), Err(io_failure()));
    assert_eq!(source.stream_position(), 4);
    let mut source = ByteSource::new(vec![0xff, 0xff, 0xff, 0xff]);
    assert_eq!(Reader::get_fields(&mut source), Err(io_failure()));
    let mut source = ByteSource::new(vec![0, 0, 0, 0]);
    assert_eq!(Reader::get_fields(&mut source), Ok(vec![]));
    assert_eq!(source.stream_position(), 4);
}
