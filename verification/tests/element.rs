use dicom::parser::element::{
    parse_dataelement, parse_dataelement_bounded, parse_element_data, parse_element_header,
};
use dicom::types::{TransferSyntax, Value};
use dicom::{ParseFailure, Tag, ValueRepresentation};

#[test]
fn parse_lee_dataelement() {
    //x0010x0010
    let vr = "CS".as_bytes();
    let name = "benoit".as_bytes();
    let mut data = vec![
        0x10, 0x00, 0x10, 0x00, // patient name
        vr[0], vr[1], // CS code string
        0x06, 0x00, // length is two bytes for CS
    ];
    data.extend_from_slice(name);

    let data_element = parse_dataelement(&data, TransferSyntax::little_endian_explicit());
    assert!(data_element.is_ok());
    let (_, data_element) = data_element.unwrap();

    assert_eq!(Tag::x0010x0010, data_element.tag);
    assert_eq!(data_element.length, 6);
    if let Value::Buf(data) = data_element.data {
        assert_eq!(std::str::from_utf8(data).unwrap(), "benoit");
    } else {
        assert!(false);
    }
    assert_eq!(ValueRepresentation::CS, *data_element.vr.as_ref().unwrap());
}

#[test]
fn parse_lei_dataelement() {
    //x0010x0010
    let name = "benoit".as_bytes();
    let mut data = vec![
        0x10, 0x00, 0x10, 0x00, // patient name
        0x06, 0x00, 0x00, 0x00, // length is four bytes when no VR
    ];
    data.extend_from_slice(name);

    let data_element = parse_dataelement(&data, TransferSyntax::little_endian_implicit());
    assert!(data_element.is_ok());
    let (_, data_element) = data_element.unwrap();
    assert_eq!(Tag::x0010x0010, data_element.tag);
    assert_eq!(data_element.length, 6);
    if let Value::Buf(data) = data_element.data {
        assert_eq!(std::str::from_utf8(data).unwrap(), "benoit");
    } else {
        assert!(false);
    }
    assert!(data_element.vr.is_none());
}

#[test]
fn parse_bee_dataelement() {
    //x0010x0010
    let vr = "CS".as_bytes();
    let name = "benoit".as_bytes();
    let mut data = vec![
        0x00, 0x10, 0x00, 0x10, // patient name
        vr[0], vr[1], // CS code string
        0x00, 0x06, // length is two bytes for CS
    ];
    data.extend_from_slice(name);

    let data_element = parse_dataelement(&data, TransferSyntax::big_endian_explicit());
    assert!(data_element.is_ok());
    let (_, data_element) = data_element.unwrap();
    assert_eq!(Tag::x0010x0010, data_element.tag);
    assert_eq!(data_element.length, 6);
    if let Value::Buf(data) = data_element.data {
        assert_eq!(std::str::from_utf8(data).unwrap(), "benoit");
    } else {
        assert!(false);
    }
    assert_eq!(ValueRepresentation::CS, *data_element.vr.as_ref().unwrap());
}

#[test]
fn element_leaves_what_follows() {
    let data = [0x10, 0x00, 0x10, 0x00, b'C', b'S', 0x02, 0x00, b'a', b'b', 0xEE, 0xFF];
    let (rest, element) =
        parse_dataelement(&data, TransferSyntax::little_endian_explicit()).unwrap();
    assert_eq!(rest, &[0xEE, 0xFF]);
    assert_eq!(element.length, 2);
    match element.data {
        Value::Buf(bytes) => assert_eq!(bytes, b"ab"),
        Value::Sequence(_) => panic!("expected bytes"),
    }
}

#[test]
fn element_with_special_vr_skips_the_reserved_bytes() {
    let data = [
        0x02, 0x00, 0x01, 0x00, b'O', b'B', 0x12, 0x34, 0x02, 0x00, 0x00, 0x00, 0x00, 0x01,
    ];
    let (rest, element) =
        parse_dataelement(&data, TransferSyntax::little_endian_explicit()).unwrap();
    assert!(rest.is_empty());
    assert_eq!(element.tag, Tag::x0002x0001);
    assert_eq!(element.vr, Some(ValueRepresentation::OB));
    assert_eq!(element.length, 2);
    match element.data {
        Value::Buf(bytes) => assert_eq!(bytes, &[0x00, 0x01]),
        Value::Sequence(_) => panic!("expected bytes"),
    }
}

#[test]
fn element_of_length_zero() {
    let data = [0x10, 0x00, 0x20, 0x00, 0x00, 0x00, 0x00, 0x00];
    let (rest, element) =
        parse_dataelement(&data, TransferSyntax::little_endian_implicit()).unwrap();
    assert!(rest.is_empty());
    assert_eq!(element.tag, Tag::x0010x0020);
    assert_eq!(element.length, 0);
    match element.data {
        Value::Buf(bytes) => assert!(bytes.is_empty()),
        Value::Sequence(_) => panic!("expected bytes"),
    }
}

#[test]
fn element_failures() {
    let le = TransferSyntax::little_endian_explicit();
    // the tag is cut
    assert_eq!(parse_dataelement(&[0x10, 0x00, 0x10], le).err(), Some(ParseFailure::Incomplete));
    // the value representation is not two letters
    assert_eq!(
        parse_dataelement(&[0x10, 0x00, 0x10, 0x00, b'C', b'1', 0, 0], le).err(),
        Some(ParseFailure::InvalidVr)
    );
    // the length is cut
    assert_eq!(
        parse_dataelement(&[0x10, 0x00, 0x10, 0x00, b'C', b'S', 0], le).err(),
        Some(ParseFailure::Incomplete)
    );
    // the value is shorter than the length says
    assert_eq!(
        parse_dataelement(&[0x10, 0x00, 0x10, 0x00, b'C', b'S', 3, 0, b'a', b'b'], le).err(),
        Some(ParseFailure::Incomplete)
    );
}

#[test]
fn header_alone() {
    let data = [0x00, 0x28, 0x00, 0x10, b'U', b'S', 0x00, 0x02, 0x01, 0x00];
    let (rest, (tag, vr, length)) =
        parse_element_header(&data, TransferSyntax::big_endian_explicit()).unwrap();
    assert_eq!(tag, Tag::x0028x0010);
    assert_eq!(vr, Some(ValueRepresentation::US));
    assert_eq!(length, 2);
    assert_eq!(rest, &[0x01, 0x00]);
}

#[test]
fn value_by_length() {
    let ts = TransferSyntax::little_endian_explicit();
    let (rest, value) = parse_element_data(&[1, 2, 3], 2, ts).unwrap();
    assert_eq!(rest, &[3]);
    match value {
        Value::Buf(bytes) => assert_eq!(bytes, &[1, 2]),
        Value::Sequence(_) => panic!("expected bytes"),
    }
    // undefined length: a sequence, here an empty one
    let delimiter = [0xFE, 0xFF, 0xDD, 0xE0, 0, 0, 0, 0, 7];
    let (rest, value) = parse_element_data(&delimiter, 0xFFFF_FFFF, ts).unwrap();
    assert_eq!(rest, &[7]);
    match value {
        Value::Sequence(items) => assert!(items.is_empty()),
        Value::Buf(_) => panic!("expected a sequence"),
    }
}

#[test]
fn sequence_at_depth_zero_is_refused() {
    let data = [
        0x08, 0x00, 0x00, 0x01, b'S', b'Q', 0, 0, 0xFF, 0xFF, 0xFF, 0xFF, // sequence header
        0xFE, 0xFF, 0xDD, 0xE0, 0, 0, 0, 0, // sequence delimiter
    ];
    let ts = TransferSyntax::little_endian_explicit();
    assert_eq!(
        parse_dataelement_bounded(&data, ts, 0).err(),
        Some(ParseFailure::DepthExceeded)
    );
    let (rest, element) = parse_dataelement_bounded(&data, ts, 1).unwrap();
    assert!(rest.is_empty());
    assert_eq!(element.length, 0xFFFF_FFFF);
    assert_eq!(element.vr, Some(ValueRepresentation::SQ));
}
