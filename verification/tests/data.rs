use cpusim::data::{Data, Diagnostic, Width};

#[test]
fn width_byte_counts() {
    assert_eq!(Width::Byte.byte_count(), 1);
    assert_eq!(Width::Word.byte_count(), 2);
    assert_eq!(Width::Dword.byte_count(), 4);
}

#[test]
fn get_value_zero_extends() {
    assert_eq!(Data::Byte(0xAB).get_value(), 0xAB);
    assert_eq!(Data::Word(0xABCD).get_value(), 0xABCD);
    assert_eq!(Data::Dword(0xABCD_EF01).get_value(), 0xABCD_EF01);
}

#[test]
fn new_truncates_to_the_width() {
    assert_eq!(Data::new(Width::Byte, 0x1234_5678), Data::Byte(0x78));
    assert_eq!(Data::new(Width::Word, 0x1234_5678), Data::Word(0x5678));
    assert_eq!(Data::new(Width::Dword, 0x1234_5678), Data::Dword(0x1234_5678));
    assert_eq!(Data::new(Width::Byte, 0xFF), Data::Byte(0xFF));
    assert_eq!(Data::new(Width::Byte, 0x100), Data::Byte(0));
}

#[test]
fn set_value_keeps_the_width() {
    let mut byte = Data::Byte(1);
    assert_eq!(
        byte.set_value(0x1FF),
        (Data::Byte(0xFF), Some(Diagnostic::Truncated { lost: 1 }))
    );
    assert_eq!(byte, Data::Byte(0xFF));

    let mut word = Data::Word(1);
    assert_eq!(
        word.set_value(0x0012_3456),
        (Data::Word(0x3456), Some(Diagnostic::Truncated { lost: 0x12 }))
    );
    assert_eq!(word, Data::Word(0x3456));
    assert_eq!(
        word.set_value(7),
        (Data::Word(7), Some(Diagnostic::Truncated { lost: 0 }))
    );

    let mut dword = Data::Dword(1);
    assert_eq!(dword.set_value(0xFFFF_FFFF), (Data::Dword(0xFFFF_FFFF), None));
    assert_eq!(dword, Data::Dword(0xFFFF_FFFF));
}

#[test]
fn width_is_the_tag() {
    assert_eq!(Data::Byte(0).width(), Width::Byte);
    assert_eq!(Data::Word(0).width(), Width::Word);
    assert_eq!(Data::Dword(0).width(), Width::Dword);
}

#[test]
fn to_le_bytes_is_little_endian() {
    assert_eq!(Data::Byte(0x12).to_le_bytes(), vec![0x12]);
    assert_eq!(Data::Word(0x1234).to_le_bytes(), vec![0x34, 0x12]);
    assert_eq!(Data::Dword(0x1234_5678).to_le_bytes(), vec![0x78, 0x56, 0x34, 0x12]);
    assert_eq!(Data::Dword(290).to_le_bytes(), vec![0x22, 0x01, 0, 0]);
}

#[test]
fn from_le_bytes_reads_the_front() {
    assert_eq!(Data::from_le_bytes(Width::Word, &vec![0x34, 0x12]), Data::Word(0x1234));
    assert_eq!(Data::from_le_bytes(Width::Word, &vec![0x34]), Data::Word(0x34));
    assert_eq!(Data::from_le_bytes(Width::Byte, &vec![0x34, 0x12]), Data::Byte(0x34));
    assert_eq!(
        Data::from_le_bytes(Width::Dword, &vec![0x78, 0x56, 0x34, 0x12, 0xFF]),
        Data::Dword(0x1234_5678)
    );
    assert_eq!(Data::from_le_bytes(Width::Dword, &vec![]), Data::Dword(0));
}

#[test]
fn bytes_round_trip() {
    for data in [Data::Byte(0x9C), Data::Word(0xBEEF), Data::Dword(0xDEAD_BEEF)] {
        assert_eq!(Data::from_le_bytes(data.width(), &data.to_le_bytes()), data);
    }
}

#[test]
fn narrowing_is_remarked_with_the_lost_bits() {
    assert_eq!(
        Data::Dword(0x1234_5678).convert(Width::Word),
        (Data::Word(0x5678), Some(Diagnostic::Truncated { lost: 0x1234 }))
    );
    assert_eq!(
        Data::Dword(0x1234_5678).convert(Width::Byte),
        (Data::Byte(0x78), Some(Diagnostic::Truncated { lost: 0x0012_3456 }))
    );
    assert_eq!(
        Data::Word(0x0034).convert(Width::Byte),
        (Data::Byte(0x34), Some(Diagnostic::Truncated { lost: 0 }))
    );
    assert_eq!(
        Data::Word(0xABCD).convert(Width::Byte),
        (Data::Byte(0xCD), Some(Diagnostic::Truncated { lost: 0xAB }))
    );
}

#[test]
fn widening_is_remarked() {
    assert_eq!(
        Data::Byte(7).convert(Width::Word),
        (Data::Word(7), Some(Diagnostic::ZeroExtended))
    );
    assert_eq!(
        Data::Byte(0xFF).convert(Width::Dword),
        (Data::Dword(0xFF), Some(Diagnostic::ZeroExtended))
    );
    assert_eq!(
        Data::Word(0xFFFF).convert(Width::Dword),
        (Data::Dword(0xFFFF), Some(Diagnostic::ZeroExtended))
    );
}

#[test]
fn equal_widths_are_silent() {
    assert_eq!(Data::Byte(7).convert(Width::Byte), (Data::Byte(7), None));
    assert_eq!(Data::Word(7).convert(Width::Word), (Data::Word(7), None));
    assert_eq!(Data::Dword(7).convert(Width::Dword), (Data::Dword(7), None));
}
