use idat::fields::{Field, FieldDef, FieldFormat, FieldType, FieldValue, UNKNOWN_CODE};
use idat::{ReaderError, Record};

const NAMED: [(u16, FieldType); 17] = [
    (1000, FieldType::SNPCount),
    (102, FieldType::IlluminaID),
    (103, FieldType::SD),
    (104, FieldType::Mean),
    (107, FieldType::BeadCounts),
    (200, FieldType::Midblock),
    (300, FieldType::RunInfo),
    (400, FieldType::RedGreen),
    (401, FieldType::Manifest),
    (402, FieldType::Barcode),
    (403, FieldType::Format),
    (404, FieldType::Label),
    (405, FieldType::Opa),
    (406, FieldType::SampleID),
    (407, FieldType::Descr),
    (408, FieldType::Plate),
    (409, FieldType::Well),
];

#[test]
fn test_determine_field_type() {
    let field_int = 1000;
    assert_eq!(FieldType::try_from(field_int).unwrap(), FieldType::SNPCount);
}

#[test]
fn try_from_knows_every_named_code() {
    for (code, kind) in NAMED {
        assert_eq!(FieldType::try_from(code), Ok(kind));
    }
}

#[test]
fn try_from_keeps_the_reserved_code() {
    assert_eq!(UNKNOWN_CODE, 410);
    assert_eq!(FieldType::try_from(410u16), Ok(FieldType::Unknown(410)));
}

#[test]
fn try_from_refuses_other_codes() {
    assert_eq!(FieldType::try_from(0u16), Err(ReaderError::InvalidFieldType { actual: 0 }));
    assert_eq!(FieldType::try_from(101u16), Err(ReaderError::InvalidFieldType { actual: 101 }));
    assert_eq!(FieldType::try_from(411u16), Err(ReaderError::InvalidFieldType { actual: 411 }));
    assert_eq!(
        FieldType::try_from(u16::MAX),
        Err(ReaderError::InvalidFieldType { actual: u16::MAX })
    );
}

#[test]
fn classify_never_fails() {
    for (code, kind) in NAMED {
        assert_eq!(FieldType::classify(code), kind);
    }
    assert_eq!(FieldType::classify(0), FieldType::Unknown(0));
    assert_eq!(FieldType::classify(105), FieldType::Unknown(105));
    assert_eq!(FieldType::classify(410), FieldType::Unknown(410));
    assert_eq!(FieldType::classify(999), FieldType::Unknown(999));
    assert_eq!(FieldType::classify(65535), FieldType::Unknown(65535));
}

#[test]
fn code_gives_back_what_was_classified() {
    for code in 0..=u16::MAX {
        assert_eq!(FieldType::classify(code).code(), code);
    }
}

#[test]
fn classify_gives_back_the_kind_of_a_code() {
    for (_, kind) in NAMED {
        assert_eq!(FieldType::classify(kind.code()), kind);
    }
    let unknown = FieldType::Unknown(7);
    assert_eq!(FieldType::classify(unknown.code()), unknown);
}

#[test]
fn data_type_of_each_kind() {
    assert_eq!(FieldType::SNPCount.get_data_type(), FieldFormat::Int);
    assert_eq!(FieldType::IlluminaID.get_data_type(), FieldFormat::Int);
    assert_eq!(FieldType::RedGreen.get_data_type(), FieldFormat::Int);
    assert_eq!(FieldType::SD.get_data_type(), FieldFormat::Short);
    assert_eq!(FieldType::Mean.get_data_type(), FieldFormat::Short);
    assert_eq!(FieldType::BeadCounts.get_data_type(), FieldFormat::Short);
    assert_eq!(FieldType::RunInfo.get_data_type(), FieldFormat::RunInfo);
    assert_eq!(FieldType::Midblock.get_data_type(), FieldFormat::MidBlock);
    for kind in [
        FieldType::Manifest,
        FieldType::Barcode,
        FieldType::Format,
        FieldType::Label,
        FieldType::Opa,
        FieldType::SampleID,
        FieldType::Descr,
        FieldType::Plate,
        FieldType::Well,
    ] {
        assert_eq!(kind.get_data_type(), FieldFormat::String);
    }
}

#[test]
fn a_kind_without_a_name_has_no_layout_of_a_named_kind() {
    for code in 0..=u16::MAX {
        let kind = FieldType::classify(code);
        let unknown = matches!(kind, FieldType::Unknown(_));
        assert_eq!(kind.get_data_type() == FieldFormat::Unknown, unknown);
    }
    for kind in [
        FieldType::Unknown(0),
        FieldType::Unknown(410),
        FieldType::Unknown(12345),
        // also one that carries the code of a named kind
        FieldType::Unknown(1000),
    ] {
        assert_eq!(kind.get_data_type(), FieldFormat::Unknown);
        assert_eq!(kind.get_data_type().width(), None);
    }
    for (_, kind) in NAMED {
        assert_ne!(kind.get_data_type(), FieldFormat::Unknown);
    }
}

#[test]
fn only_four_kinds_are_iterable() {
    for (_, kind) in NAMED {
        let expected = matches!(
            kind,
            FieldType::IlluminaID | FieldType::SD | FieldType::Mean | FieldType::BeadCounts
        );
        assert_eq!(kind.is_iterable(), expected);
    }
    assert!(!FieldType::Unknown(102).is_iterable());
}

#[test]
fn widths_of_the_formats() {
    assert_eq!(FieldFormat::Short.width(), Some(2));
    assert_eq!(FieldFormat::Int.width(), Some(4));
    assert_eq!(FieldFormat::Long.width(), Some(8));
    assert_eq!(FieldFormat::String.width(), None);
    assert_eq!(FieldFormat::Byte.width(), None);
    assert_eq!(FieldFormat::RunInfo.width(), None);
    assert_eq!(FieldFormat::MidBlock.width(), None);
    assert_eq!(FieldFormat::Unknown.width(), None);
}

#[test]
fn definitions_are_plain_values() {
    let definition = FieldDef { field_type: FieldType::Mean, byte_offset: 64 };
    let copy = definition;
    assert_eq!(copy, definition);
    assert_eq!(copy.field_type, FieldType::Mean);
    assert_eq!(copy.byte_offset, 64);
}

#[test]
fn a_record_holds_fields_and_their_definitions() {
    let record = Record {
        data: vec![
            Field { field_type: FieldType::SNPCount, value: FieldValue::Int(2) },
            Field { field_type: FieldType::Barcode, value: FieldValue::String("R04C01".to_string()) },
            Field { field_type: FieldType::Unknown(9), value: FieldValue::Byte(vec![1, 2]) },
        ],
        fields: vec![
            FieldDef { field_type: FieldType::SNPCount, byte_offset: 46 },
            FieldDef { field_type: FieldType::Barcode, byte_offset: 50 },
            FieldDef { field_type: FieldType::Unknown(9), byte_offset: 60 },
        ],
    };
    assert_eq!(record.data.len(), record.fields.len());
    assert_eq!(record.data[0].value, FieldValue::Int(2));
    assert_eq!(record.data[1].field_type, record.fields[1].field_type);
    assert_ne!(record.data[2].value, FieldValue::RunInfo);
    assert_ne!(FieldValue::Long(1), FieldValue::MidBlock);
    assert!(format!("{:?}", record).contains("R04C01"));
}
