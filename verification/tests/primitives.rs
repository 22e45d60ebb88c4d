use dicom::parser::{
    parse_data, parse_length, parse_tag, parse_u16, parse_u32, parse_vr,
};
use dicom::{Endianness, ParseFailure, Tag, ValueRepresentation};

#[test]
pub fn test_known_vr() {
    let vr_str = "UL234".as_bytes();
    let res = parse_vr(vr_str);
    assert!(res.is_ok());

    let (rest, vr) = res.unwrap();
    assert_eq!(ValueRepresentation::UL, vr);
    assert_eq!(rest.len(), 3);
}

#[test]
pub fn test_unknown_vr() {
    let vr_str = "ul123".as_bytes();
    let res = parse_vr(vr_str);
    assert!(res.is_ok());

    let (rest, vr) = res.unwrap();
    assert_eq!(ValueRepresentation::UNKNOWN("ul".to_string()), vr);
    assert_eq!(rest.len(), 3);
}

#[test]
pub fn test_error() {
    let vr_str = "a1";
    let res = parse_vr(vr_str.as_bytes());
    assert!(res.is_err());
}

#[test]
pub fn test_u16() {
    let nb = vec![0xE0, 0x12];
    let (_, parsed) = parse_u16(&nb, Endianness::Big).unwrap();
    assert_eq!(parsed, 0xE012);
    let (_, parsed) = parse_u16(&nb, Endianness::Little).unwrap();
    assert_eq!(parsed, 0x12E0);
}

#[test]
pub fn test_u32() {
    let nb = vec![0xE0, 0x12, 0x01, 0x22];
    let (_, parsed) = parse_u32(&nb, Endianness::Big).unwrap();
    assert_eq!(parsed, 0xE0120122);
    let (_, parsed) = parse_u32(&nb, Endianness::Little).unwrap();
    assert_eq!(parsed, 0x220112E0);
}

#[test]
pub fn parse_known_tag() {
    // x0028x0103
    let bytes = vec![0, 0x28, 0x01, 0x03];
    let (_, tag) = parse_tag(&bytes, Endianness::Big).unwrap();
    assert_eq!(tag, Tag::x0028x0103);
}

#[test]
pub fn parse_unknown_tag() {
    let bytes = vec![0, 0, 0x01, 0x03];
    let (_, tag) = parse_tag(&bytes, Endianness::Big).unwrap();
    assert_eq!(tag, Tag::UNKNOWN(0, 0x0103));
}

#[test]
pub fn parse_length_novr() {
    let bytes = vec![0x00, 0x10, 0x00, 0x03];
    let (_, length) = parse_length(&bytes, &None, Endianness::Big).unwrap();
    assert_eq!(length, 0x100003);
}

#[test]
pub fn parse_length_normalvr() {
    let bytes = vec![0x00, 0x10, 0x00, 0x03];
    let (_, length) =
        parse_length(&bytes, &Some(ValueRepresentation::UL), Endianness::Big).unwrap();
    assert_eq!(length, 0x10);
}

#[test]
pub fn parse_length_special_vr() {
    let bytes = vec![0x00, 0x10, 0x00, 0x03, 0x02, 0x02];
    let (_, length) =
        parse_length(&bytes, &Some(ValueRepresentation::UV), Endianness::Big).unwrap();
    assert_eq!(length, 0x030202);
}

#[test]
pub fn test_parse_data() {
    let bytes = vec![0x00, 0x10, 0x00, 0x03, 0x02, 0x02];
    let (rest, value) = parse_data(&bytes, 2).unwrap();
    assert_eq!(rest, &[0x00, 0x03, 0x02, 0x02]);
    assert_eq!(value, &[0x00, 0x10]);
}

#[test]
pub fn u16_and_u32_round_trip_in_both_orders() {
    for v in [0u16, 1, 0x00FF, 0x0100, 0x1234, 0xFFFE, 0xFFFF] {
        let le = v.to_le_bytes();
        let be = v.to_be_bytes();
        assert_eq!(parse_u16(&le, Endianness::Little).unwrap().1, v);
        assert_eq!(parse_u16(&be, Endianness::Big).unwrap().1, v);
    }
    for v in [0u32, 1, 0xFF, 0x0100, 0x00010000, 0x12345678, 0xFFFFFFFE, 0xFFFFFFFF] {
        let le = v.to_le_bytes();
        let be = v.to_be_bytes();
        let (rest, parsed) = parse_u32(&le, Endianness::Little).unwrap();
        assert_eq!(parsed, v);
        assert!(rest.is_empty());
        assert_eq!(parse_u32(&be, Endianness::Big).unwrap().1, v);
    }
}

#[test]
pub fn numbers_need_all_their_bytes() {
    assert_eq!(parse_u16(&[], Endianness::Little), Err(ParseFailure::Incomplete));
    assert_eq!(parse_u16(&[1], Endianness::Big), Err(ParseFailure::Incomplete));
    assert_eq!(parse_u32(&[1, 2, 3], Endianness::Little), Err(ParseFailure::Incomplete));
    assert_eq!(parse_tag(&[1, 2, 3], Endianness::Little), Err(ParseFailure::Incomplete));
    assert_eq!(parse_data(&[1, 2, 3], 4), Err(ParseFailure::Incomplete));
}

#[test]
pub fn parse_data_takes_exactly_the_length() {
    let bytes = [9u8, 8, 7];
    let (rest, value) = parse_data(&bytes, 0).unwrap();
    assert!(value.is_empty());
    assert_eq!(rest, &bytes);
    let (rest, value) = parse_data(&bytes, 3).unwrap();
    assert_eq!(value, &bytes);
    assert!(rest.is_empty());
}

#[test]
pub fn vr_failures_by_position() {
    assert_eq!(parse_vr(b""), Err(ParseFailure::Incomplete));
    assert_eq!(parse_vr(b"U"), Err(ParseFailure::Incomplete));
    assert_eq!(parse_vr(b"1"), Err(ParseFailure::InvalidVr));
    assert_eq!(parse_vr(b"U1"), Err(ParseFailure::InvalidVr));
    assert_eq!(parse_vr(b"[A"), Err(ParseFailure::InvalidVr));
    assert_eq!(parse_vr(b"A`"), Err(ParseFailure::InvalidVr));
    let (rest, vr) = parse_vr(b"zZ").unwrap();
    assert_eq!(vr, ValueRepresentation::UNKNOWN("zZ".to_string()));
    assert!(rest.is_empty());
}

#[test]
pub fn every_special_vr_has_the_long_length() {
    let special = [
        "OB", "OD", "OF", "OL", "OV", "OW", "SQ", "SV", "UC", "UR", "UT", "UN", "UV",
    ];
    let normal = [
        "UL", "CS", "AG", "DA", "DS", "DT", "SH", "ST", "US", "UI", "LO", "PN", "AS", "SL",
    ];
    let bytes = [0xAAu8, 0xBB, 0x01, 0x02, 0x03, 0x04];
    for code in special {
        let (_, vr) = parse_vr(code.as_bytes()).unwrap();
        assert!(vr.has_special_length(), "{}", code);
        let (rest, length) = parse_length(&bytes, &Some(vr), Endianness::Little).unwrap();
        assert_eq!(length, 0x04030201);
        assert!(rest.is_empty());
    }
    for code in normal {
        let (_, vr) = parse_vr(code.as_bytes()).unwrap();
        assert!(!vr.has_special_length(), "{}", code);
        let (rest, length) = parse_length(&bytes, &Some(vr), Endianness::Little).unwrap();
        assert_eq!(length, 0xBBAA);
        assert_eq!(rest.len(), 4);
    }
    let unknown = ValueRepresentation::UNKNOWN("ob".to_string());
    assert!(!unknown.has_special_length());
}

#[test]
pub fn special_length_needs_six_bytes() {
    let vr = Some(ValueRepresentation::OB);
    assert_eq!(
        parse_length(&[0, 0, 1, 2, 3], &vr, Endianness::Little),
        Err(ParseFailure::Incomplete)
    );
    assert_eq!(parse_length(&[0], &vr, Endianness::Little), Err(ParseFailure::Incomplete));
    assert_eq!(
        parse_length(&[0], &Some(ValueRepresentation::CS), Endianness::Little),
        Err(ParseFailure::Incomplete)
    );
    assert_eq!(parse_length(&[0, 1, 2], &None, Endianness::Big), Err(ParseFailure::Incomplete));
}

#[test]
pub fn vr_from_chars_and_from_bytes() {
    assert_eq!(ValueRepresentation::from_chars('S', 'Q'), ValueRepresentation::SQ);
    assert_eq!(
        ValueRepresentation::from_chars('s', 'q'),
        ValueRepresentation::UNKNOWN("sq".to_string())
    );
    assert_eq!(ValueRepresentation::parse(b"PN12").unwrap(), ValueRepresentation::PN);
    assert_eq!(
        ValueRepresentation::parse(b"a1").unwrap(),
        ValueRepresentation::UNKNOWN("a1".to_string())
    );
    assert_eq!(
        ValueRepresentation::parse("é".as_bytes()).unwrap(),
        ValueRepresentation::UNKNOWN("é".to_string())
    );
    assert_eq!(ValueRepresentation::parse(b"P"), Err(dicom::DicomError::IoError));
    assert_eq!(ValueRepresentation::parse(&[0xFF, 0x41]), Err(dicom::DicomError::ParseCS));
    assert_eq!(ValueRepresentation::UL.to_string(), "Unsigned Long");
    assert_eq!(
        ValueRepresentation::UNKNOWN("zz".to_string()).to_string(),
        "Unknown VR(zz)"
    );
}
