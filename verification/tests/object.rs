use dicom::parser::obj::{parse_content, parse_group2, parse_header, Parser};
use dicom::types::{PersonName, TransferSyntax, Value};
use dicom::{DicomError, DicomImage, ParseFailure, Tag};

fn explicit(group: u16, element: u16, vr: &str, value: &[u8]) -> Vec<u8> {
    let mut data = Vec::new();
    data.extend_from_slice(&group.to_le_bytes());
    data.extend_from_slice(&element.to_le_bytes());
    data.extend_from_slice(vr.as_bytes());
    if ["OB", "OW", "SQ", "UN", "UT"].contains(&vr) {
        data.extend_from_slice(&[0, 0]);
        data.extend_from_slice(&(value.len() as u32).to_le_bytes());
    } else {
        data.extend_from_slice(&(value.len() as u16).to_le_bytes());
    }
    data.extend_from_slice(value);
    data
}

fn implicit(group: u16, element: u16, value: &[u8]) -> Vec<u8> {
    let mut data = Vec::new();
    data.extend_from_slice(&group.to_le_bytes());
    data.extend_from_slice(&element.to_le_bytes());
    data.extend_from_slice(&(value.len() as u32).to_le_bytes());
    data.extend_from_slice(value);
    data
}

fn header() -> Vec<u8> {
    let mut data = vec![0u8; 128];
    data.extend_from_slice(b"DICM");
    data
}

fn group2(uid: &[u8]) -> Vec<u8> {
    let mut data = Vec::new();
    data.extend_from_slice(&explicit(0x0002, 0x0000, "UL", &[0, 0, 0, 0]));
    data.extend_from_slice(&explicit(0x0002, 0x0001, "OB", &[0, 1]));
    data.extend_from_slice(&explicit(0x0002, 0x0010, "UI", uid));
    data.extend_from_slice(&explicit(0x0002, 0x0013, "SH", b"TEST"));
    data
}

fn layout(rows: u16, columns: u16, allocated: u16, stored: u16) -> Vec<u8> {
    let mut data = Vec::new();
    data.extend_from_slice(&explicit(0x0010, 0x0010, "PN", b"Doe^John"));
    data.extend_from_slice(&explicit(0x0028, 0x0002, "US", &1u16.to_le_bytes()));
    data.extend_from_slice(&explicit(0x0028, 0x0010, "US", &rows.to_le_bytes()));
    data.extend_from_slice(&explicit(0x0028, 0x0011, "US", &columns.to_le_bytes()));
    data.extend_from_slice(&explicit(0x0028, 0x0100, "US", &allocated.to_le_bytes()));
    data.extend_from_slice(&explicit(0x0028, 0x0101, "US", &stored.to_le_bytes()));
    data
}

fn file(rows: u16, columns: u16, allocated: u16, stored: u16, frame: &[u8]) -> Vec<u8> {
    let mut data = header();
    data.extend_from_slice(&group2(b"1.2.840.10008.1.2.1\0"));
    data.extend_from_slice(&layout(rows, columns, allocated, stored));
    data.extend_from_slice(&explicit(0x7FE0, 0x0010, "OW", frame));
    data
}

#[test]
fn header_is_a_preamble_and_the_magic() {
    let mut data = header();
    data.push(5);
    let (rest, _) = parse_header(&data).unwrap();
    assert_eq!(rest, &[5]);
    assert_eq!(parse_header(&data[..127]), Err(ParseFailure::Incomplete));
    assert_eq!(parse_header(&data[..128]), Err(ParseFailure::Incomplete));
    assert_eq!(parse_header(&data[..131]), Err(ParseFailure::Incomplete));
    let mut wrong = header();
    wrong[130] = b'c';
    assert_eq!(parse_header(&wrong), Err(ParseFailure::BadMagic));
    // a letter that differs is noticed before one that is missing
    assert_eq!(parse_header(&wrong[..131]), Err(ParseFailure::BadMagic));
    let mut any = vec![0xA5u8; 128];
    any.extend_from_slice(b"DICM");
    assert!(parse_header(&any).is_ok());
}

#[test]
fn group2_names_the_transfer_syntax() {
    let mut data = group2(b"1.2.840.10008.1.2.2\0");
    let tail = explicit(0x0008, 0x0060, "CS", b"CT");
    data.extend_from_slice(&tail);
    let (rest, (ts, elements)) = parse_group2(&data, 64).unwrap();
    assert_eq!(rest, &tail[..]);
    assert_eq!(ts, TransferSyntax::big_endian_explicit());
    assert_eq!(elements.len(), 4);
    assert_eq!(elements[0].tag, Tag::x0002x0000);
    assert_eq!(elements[1].tag, Tag::x0002x0001);
    assert_eq!(elements[2].tag, Tag::x0002x0010);
    assert_eq!(elements[3].tag, Tag::x0002x0013);
}

#[test]
fn group2_is_reproduced_by_its_elements() {
    let meta = group2(b"1.2.840.10008.1.2.1\0");
    let mut data = meta.clone();
    data.extend_from_slice(&explicit(0x0008, 0x0060, "CS", b"CT"));
    let (rest, (_, elements)) = parse_group2(&data, 64).unwrap();
    let taken = data.len() - rest.len();
    let mut written = Vec::new();
    for element in &elements {
        let vr = match element.vr.as_ref().unwrap() {
            dicom::ValueRepresentation::UL => "UL",
            dicom::ValueRepresentation::OB => "OB",
            dicom::ValueRepresentation::UI => "UI",
            dicom::ValueRepresentation::SH => "SH",
            other => panic!("{:?}", other),
        };
        let value = match &element.data {
            Value::Buf(bytes) => bytes.to_vec(),
            Value::Sequence(_) => panic!("expected bytes"),
        };
        assert_eq!(element.length as usize, value.len());
        written.extend_from_slice(&explicit(
            element.tag.get_group(),
            element.tag.get_element(),
            vr,
            &value,
        ));
    }
    assert_eq!(written, &data[..taken]);
    assert_eq!(written, meta);
}

#[test]
fn the_last_transfer_syntax_counts() {
    let mut data = Vec::new();
    data.extend_from_slice(&explicit(0x0002, 0x0010, "UI", b"1.2.840.10008.1.2\0"));
    data.extend_from_slice(&explicit(0x0002, 0x0010, "UI", b"1.2.840.10008.1.2.2\0"));
    data.extend_from_slice(&explicit(0x0008, 0x0060, "CS", b"CT"));
    let (_, (ts, elements)) = parse_group2(&data, 64).unwrap();
    assert_eq!(ts, TransferSyntax::big_endian_explicit());
    assert_eq!(elements.len(), 2);
}

#[test]
fn group2_failures() {
    // the first element is not of group 2
    let data = explicit(0x0008, 0x0060, "CS", b"CT");
    assert_eq!(
        parse_group2(&data, 64).err(),
        Some(DicomError::ExpectedGroup2(Tag::x0008x0060))
    );
    // group 2 names no transfer syntax
    let mut data = explicit(0x0002, 0x0013, "SH", b"TEST");
    data.extend_from_slice(&explicit(0x0008, 0x0060, "CS", b"CT"));
    assert_eq!(
        parse_group2(&data, 64).err(),
        Some(DicomError::MissingTag(Tag::x0002x0010))
    );
    // the transfer syntax is not supported
    let mut data = group2(b"1.2.840.10008.1.2.4.50");
    data.extend_from_slice(&explicit(0x0008, 0x0060, "CS", b"CT"));
    assert_eq!(
        parse_group2(&data, 64).err(),
        Some(DicomError::TransferSyntaxNotSupported("1.2.840.10008.1.2.4.50".to_string()))
    );
    // nothing follows group 2
    let data = group2(b"1.2.840.10008.1.2.1\0");
    assert_eq!(
        parse_group2(&data, 64).err(),
        Some(DicomError::ParseError(ParseFailure::Incomplete))
    );
    assert_eq!(
        parse_group2(&[], 64).err(),
        Some(DicomError::ParseError(ParseFailure::Incomplete))
    );
}

#[test]
fn content_stops_before_the_pixel_data() {
    let mut data = layout(1, 1, 8, 8);
    let pixels = explicit(0x7FE0, 0x0010, "OW", &[7]);
    data.extend_from_slice(&pixels);
    let (rest, elements) =
        parse_content(&data, TransferSyntax::little_endian_explicit(), 64).unwrap();
    assert_eq!(rest, &pixels[..]);
    assert_eq!(elements.len(), 6);
    assert_eq!(elements[0].tag, Tag::x0010x0010);
    assert_eq!(elements[5].tag, Tag::x0028x0101);
    // without pixel data the content does not end
    let data = layout(1, 1, 8, 8);
    assert_eq!(
        parse_content(&data, TransferSyntax::little_endian_explicit(), 64).err(),
        Some(ParseFailure::Incomplete)
    );
    let (rest, elements) =
        parse_content(&pixels, TransferSyntax::little_endian_explicit(), 64).unwrap();
    assert_eq!(rest, &pixels[..]);
    assert!(elements.is_empty());
}

#[test]
fn a_whole_file_with_its_image() {
    let frame = [0x34u8, 0x02, 0xFF, 0x0F, 0x00, 0x00, 0x00, 0x08];
    let data = file(2, 2, 16, 12, &frame);
    let object = Parser::default().parse_object(&data).unwrap();
    assert_eq!(object.transfer_syntax, TransferSyntax::little_endian_explicit());
    assert_eq!(object.elements().len(), 10);
    let tags: Vec<Tag> = object.elements.iter().map(|e| e.tag).collect();
    assert_eq!(
        tags,
        vec![
            Tag::x0002x0000,
            Tag::x0002x0001,
            Tag::x0002x0010,
            Tag::x0002x0013,
            Tag::x0010x0010,
            Tag::x0028x0002,
            Tag::x0028x0010,
            Tag::x0028x0011,
            Tag::x0028x0100,
            Tag::x0028x0101,
        ]
    );
    assert_eq!(object.get::<u16>(Tag::x0028x0010), 2);
    assert_eq!(object.try_get::<u16>(Tag::x0028x0101), Ok(12));
    assert_eq!(
        object.try_get::<PersonName>(Tag::x0010x0010),
        Ok(PersonName(vec!["Doe".to_owned(), "John".to_owned()]))
    );
    let image = object.image.as_ref().unwrap();
    assert_eq!(image.dimensions(), (2, 2));
    match image {
        DicomImage::Grayscale16 { image } => {
            assert_eq!(image.samples(), vec![0x2342, 0xFFFF, 0x0000, 0x8008]);
        }
        _ => panic!("expected 16 bits"),
    }
}

#[test]
fn a_whole_file_without_its_image() {
    let data = file(2, 2, 16, 16, &[1, 2, 3, 4, 5, 6, 7, 8]);
    let object = Parser::new(false).parse_object(&data).unwrap();
    assert!(object.image.is_none());
    assert_eq!(object.elements().len(), 10);
    // the pixel data need not even be there
    let cut = &data[..data.len() - 8];
    let object = Parser::new(false).parse_object(cut).unwrap();
    assert!(object.image.is_none());
    assert_eq!(
        Parser::new(true).parse_object(cut).err(),
        Some(DicomError::ParseError(ParseFailure::Incomplete))
    );
}

#[test]
fn a_file_under_implicit_vr() {
    let mut data = header();
    data.extend_from_slice(&group2(b"1.2.840.10008.1.2\0"));
    data.extend_from_slice(&implicit(0x0028, 0x0002, &1u16.to_le_bytes()));
    data.extend_from_slice(&implicit(0x0028, 0x0010, &1u16.to_le_bytes()));
    data.extend_from_slice(&implicit(0x0028, 0x0011, &3u16.to_le_bytes()));
    data.extend_from_slice(&implicit(0x0028, 0x0100, &8u16.to_le_bytes()));
    data.extend_from_slice(&implicit(0x0028, 0x0101, &8u16.to_le_bytes()));
    data.extend_from_slice(&implicit(0x7FE0, 0x0010, &[10, 20, 30]));
    let object = Parser::default().parse_object(&data).unwrap();
    assert_eq!(object.transfer_syntax, TransferSyntax::little_endian_implicit());
    assert!(object.elements[4].vr.is_none());
    assert!(object.elements[0].vr.is_some());
    match object.image.unwrap() {
        DicomImage::Grayscale8 { image } => {
            assert_eq!(image.dimensions(), (3, 1));
            assert_eq!(image.samples(), vec![10, 20, 30]);
        }
        _ => panic!("expected 8 bits"),
    }
}

#[test]
fn a_file_under_big_endian() {
    let be = |group: u16, element: u16, vr: &str, value: &[u8]| {
        let mut data = Vec::new();
        data.extend_from_slice(&group.to_be_bytes());
        data.extend_from_slice(&element.to_be_bytes());
        data.extend_from_slice(vr.as_bytes());
        if vr == "OW" {
            data.extend_from_slice(&[0, 0]);
            data.extend_from_slice(&(value.len() as u32).to_be_bytes());
        } else {
            data.extend_from_slice(&(value.len() as u16).to_be_bytes());
        }
        data.extend_from_slice(value);
        data
    };
    let mut data = header();
    data.extend_from_slice(&group2(b"1.2.840.10008.1.2.2\0"));
    data.extend_from_slice(&be(0x0028, 0x0002, "US", &1u16.to_be_bytes()));
    data.extend_from_slice(&be(0x0028, 0x0010, "US", &1u16.to_be_bytes()));
    data.extend_from_slice(&be(0x0028, 0x0011, "US", &2u16.to_be_bytes()));
    data.extend_from_slice(&be(0x0028, 0x0100, "US", &16u16.to_be_bytes()));
    data.extend_from_slice(&be(0x0028, 0x0101, "US", &16u16.to_be_bytes()));
    data.extend_from_slice(&be(0x7FE0, 0x0010, "OW", &[0x12, 0x34, 0x56, 0x78]));
    let object = Parser::default().parse_object(&data).unwrap();
    assert_eq!(object.transfer_syntax, TransferSyntax::big_endian_explicit());
    assert_eq!(object.try_get::<u16>(Tag::x0028x0011), Ok(2));
    match object.image.unwrap() {
        DicomImage::Grayscale16 { image } => assert_eq!(image.samples(), vec![0x1234, 0x5678]),
        _ => panic!("expected 16 bits"),
    }
}

#[test]
fn a_compressed_file() {
    let mut data = header();
    data.extend_from_slice(&group2(b"1.2.840.10008.1.2.4.90"));
    data.extend_from_slice(&layout(512, 512, 16, 12));
    let stream = [0xFFu8, 0x4F, 0xFF, 0x51, 9, 9, 9];
    data.extend_from_slice(&explicit(0x7FE0, 0x0010, "OB", &stream));
    let object = Parser::default().parse_object(&data).unwrap();
    match object.image.unwrap() {
        DicomImage::Jpeg2000 { image } => assert_eq!(image, stream.to_vec()),
        _ => panic!("expected the stream"),
    }
}

#[test]
fn files_that_are_refused() {
    let mut parser = Parser::default();
    assert_eq!(
        parser.parse_object(&[]).err(),
        Some(DicomError::ParseError(ParseFailure::Incomplete))
    );
    let mut wrong = file(1, 1, 8, 8, &[1]);
    wrong[128] = b'X';
    assert_eq!(
        parser.parse_object(&wrong).err(),
        Some(DicomError::ParseError(ParseFailure::BadMagic))
    );
    // no group 2
    let mut data = header();
    data.extend_from_slice(&layout(1, 1, 8, 8));
    assert_eq!(
        parser.parse_object(&data).err(),
        Some(DicomError::ExpectedGroup2(Tag::x0010x0010))
    );
    // 32 bits allocated
    assert_eq!(
        parser.parse_object(&file(1, 1, 32, 32, &[1, 2, 3, 4])).err(),
        Some(DicomError::ImageFormatNotSupported)
    );
    // more bits stored than allocated, and none stored
    assert_eq!(
        parser.parse_object(&file(1, 1, 8, 12, &[1])).err(),
        Some(DicomError::ImageFormatNotSupported)
    );
    assert_eq!(
        parser.parse_object(&file(1, 1, 16, 0, &[1, 2])).err(),
        Some(DicomError::ImageFormatNotSupported)
    );
    // the frame is shorter than rows and columns say
    assert_eq!(
        parser.parse_object(&file(2, 2, 8, 8, &[1, 2, 3])).err(),
        Some(DicomError::ParseError(ParseFailure::Incomplete))
    );
}

#[test]
fn the_layout_is_needed_for_the_image() {
    for missing in [0x0010u16, 0x0011, 0x0002, 0x0100, 0x0101] {
        let mut data = header();
        data.extend_from_slice(&group2(b"1.2.840.10008.1.2.1\0"));
        for (element, value) in [(0x0002u16, 1u16), (0x0010, 1), (0x0011, 1), (0x0100, 8), (0x0101, 8)] {
            if element != missing {
                data.extend_from_slice(&explicit(0x0028, element, "US", &value.to_le_bytes()));
            }
        }
        data.extend_from_slice(&explicit(0x7FE0, 0x0010, "OW", &[1]));
        assert_eq!(
            Parser::new(true).parse_object(&data).err(),
            Some(DicomError::NoSuchTag(Tag::from_values(0x0028, missing)))
        );
        assert!(Parser::new(false).parse_object(&data).is_ok());
    }
}

#[test]
fn colour_is_not_supported() {
    let mut data = header();
    data.extend_from_slice(&group2(b"1.2.840.10008.1.2.1\0"));
    data.extend_from_slice(&explicit(0x0028, 0x0002, "US", &3u16.to_le_bytes()));
    data.extend_from_slice(&explicit(0x0028, 0x0010, "US", &1u16.to_le_bytes()));
    data.extend_from_slice(&explicit(0x0028, 0x0011, "US", &1u16.to_le_bytes()));
    data.extend_from_slice(&explicit(0x0028, 0x0100, "US", &8u16.to_le_bytes()));
    data.extend_from_slice(&explicit(0x0028, 0x0101, "US", &8u16.to_le_bytes()));
    data.extend_from_slice(&explicit(0x7FE0, 0x0010, "OW", &[1, 2, 3]));
    assert_eq!(
        Parser::default().parse_object(&data).err(),
        Some(DicomError::ImageFormatNotSupported)
    );
}

#[test]
fn the_depth_of_sequences_can_be_set() {
    let mut sequence = vec![0x08, 0x00, 0x00, 0x01, b'S', b'Q', 0, 0, 0xFF, 0xFF, 0xFF, 0xFF];
    sequence.extend_from_slice(&[0xFE, 0xFF, 0x00, 0xE0, 0xFF, 0xFF, 0xFF, 0xFF]);
    sequence.extend_from_slice(&explicit(0x0008, 0x0102, "SH", b"SNM3"));
    sequence.extend_from_slice(&[0xFE, 0xFF, 0x0D, 0xE0, 0, 0, 0, 0]);
    sequence.extend_from_slice(&[0xFE, 0xFF, 0xDD, 0xE0, 0, 0, 0, 0]);
    let mut data = header();
    data.extend_from_slice(&group2(b"1.2.840.10008.1.2.1\0"));
    data.extend_from_slice(&sequence);
    data.extend_from_slice(&explicit(0x7FE0, 0x0010, "OW", &[1]));
    let object = Parser::new(false).with_max_sequence_depth(1).parse_object(&data).unwrap();
    match &object.elements[4].data {
        Value::Sequence(items) => {
            assert_eq!(items.len(), 1);
            assert_eq!(items[0].elements[0].tag, Tag::x0008x0102);
        }
        Value::Buf(_) => panic!("expected a sequence"),
    }
    assert_eq!(
        Parser::new(false).with_max_sequence_depth(0).parse_object(&data).err(),
        Some(DicomError::ParseError(ParseFailure::DepthExceeded))
    );
}
