use dicom::parser::image::{parse_image, parse_img_u16, parse_img_u8};
use dicom::types::{CompressionScheme, TransferSyntax};
use dicom::{DicomError, DicomImage, Endianness, ParseFailure, Tag};

fn stretch(v: u16, allocated: u32, stored: u32) -> u16 {
    // the formula, written out in wide arithmetic
    let modulus = 1u32 << allocated;
    let diff = allocated - stored;
    let mask = (((1u32 << diff) - 1) << stored) % modulus;
    let left = ((v as u32) << diff) % modulus;
    (left | ((left & mask) >> stored)) as u16
}

#[test]
fn sixteen_bits_stored_are_kept_verbatim() {
    let bytes = [0x01u8, 0x02, 0xFF, 0xFF, 0x00, 0x80, 0x34, 0x12, 0xAA, 0xBB, 0xCC, 0xDD, 9];
    let (rest, image) = parse_img_u16(&bytes, Endianness::Little, 2, 3, 16, 16).unwrap();
    assert_eq!(rest, &[9]);
    assert_eq!(image.dimensions(), (3, 2));
    assert_eq!(image.samples(), vec![0x0201, 0xFFFF, 0x8000, 0x1234, 0xBBAA, 0xDDCC]);
    let (_, image) = parse_img_u16(&bytes, Endianness::Big, 2, 3, 16, 16).unwrap();
    assert_eq!(image.samples(), vec![0x0102, 0xFFFF, 0x0080, 0x3412, 0xAABB, 0xCCDD]);
}

#[test]
fn twelve_bits_stored_are_stretched() {
    let samples = [0x0000u16, 0x0001, 0x0800, 0x0FFF, 0x0ABC];
    let mut bytes = Vec::new();
    for s in samples {
        bytes.extend_from_slice(&s.to_le_bytes());
    }
    let (rest, image) = parse_img_u16(&bytes, Endianness::Little, 1, 5, 16, 12).unwrap();
    assert!(rest.is_empty());
    assert_eq!(image.dimensions(), (5, 1));
    assert_eq!(image.samples(), vec![0x0000, 0x0010, 0x8008, 0xFFFF, 0xABCA]);
}

#[test]
fn stretching_follows_the_formula_and_keeps_the_order() {
    for stored in 1..16u16 {
        let limit = 1u32 << stored;
        let mut raw: Vec<u16> = (0..limit.min(300)).map(|v| v as u16).collect();
        raw.push((limit - 1) as u16);
        raw.push((limit / 2) as u16);
        raw.sort();
        let mut bytes = Vec::new();
        for s in &raw {
            bytes.extend_from_slice(&s.to_be_bytes());
        }
        let (_, image) =
            parse_img_u16(&bytes, Endianness::Big, 1, raw.len() as u16, 16, stored).unwrap();
        let pixels = image.samples();
        for (v, p) in raw.iter().zip(pixels.iter()) {
            assert_eq!(*p, stretch(*v, 16, stored as u32), "{} bits, sample {}", stored, v);
        }
        for pair in pixels.windows(2) {
            assert!(pair[0] <= pair[1], "{} bits", stored);
        }
        assert_eq!(*pixels.last().unwrap(), stretch((limit - 1) as u16, 16, stored as u32));
    }
}

#[test]
fn eight_bit_frames() {
    let bytes = [0u8, 1, 2, 3, 250, 255, 77];
    let (rest, image) = parse_img_u8(&bytes, 3, 2, 8).unwrap();
    assert_eq!(rest, &[77]);
    assert_eq!(image.dimensions(), (2, 3));
    assert_eq!(image.samples(), vec![0, 1, 2, 3, 250, 255]);
    // seven bits stored
    let bytes = [0u8, 1, 0x40, 0x7F];
    let (_, image) = parse_img_u8(&bytes, 1, 4, 7).unwrap();
    assert_eq!(image.samples(), vec![0, 2, 0x81, 0xFF]);
    for stored in 1..8u16 {
        let raw: Vec<u8> = (0..(1u16 << stored)).map(|v| v as u8).collect();
        let (_, image) = parse_img_u8(&raw, 1, raw.len() as u16, stored).unwrap();
        let pixels = image.samples();
        for (v, p) in raw.iter().zip(pixels.iter()) {
            assert_eq!(*p as u16, stretch(*v as u16, 8, stored as u32));
        }
        for pair in pixels.windows(2) {
            assert!(pair[0] <= pair[1]);
        }
    }
}

#[test]
fn rows_are_stored_one_after_the_other() {
    // 2 rows of 3 columns: the sample of column x in row y is 10 * y + x
    let bytes = [0u8, 1, 2, 10, 11, 12];
    let (_, image) = parse_img_u8(&bytes, 2, 3, 8).unwrap();
    let (width, height) = image.dimensions();
    assert_eq!((width, height), (3, 2));
    let samples = image.samples();
    let raster = image::GrayImage::from_raw(width, height, samples).unwrap();
    for y in 0..2u32 {
        for x in 0..3u32 {
            assert_eq!(raster.get_pixel(x, y).0[0], (10 * y + x) as u8);
        }
    }
}

#[test]
fn frames_that_are_cut_or_empty() {
    assert_eq!(
        parse_img_u8(&[1, 2, 3], 2, 2, 8).err(),
        Some(DicomError::ParseError(ParseFailure::Incomplete))
    );
    assert_eq!(
        parse_img_u16(&[1, 2, 3, 4, 5, 6, 7], Endianness::Little, 2, 2, 16, 16).err(),
        Some(DicomError::ParseError(ParseFailure::Incomplete))
    );
    let (rest, image) = parse_img_u8(&[1, 2, 3], 0, 5, 8).unwrap();
    assert_eq!(rest, &[1, 2, 3]);
    assert_eq!(image.dimensions(), (5, 0));
    assert!(image.samples().is_empty());
    let (rest, image) = parse_img_u16(&[], Endianness::Big, 7, 0, 16, 12).unwrap();
    assert!(rest.is_empty());
    assert_eq!(image.dimensions(), (0, 7));
}

#[test]
fn sample_layouts_that_are_not_supported() {
    let bytes = [0u8; 64];
    for stored in [0u16, 17, 32, 0xFFFF] {
        assert_eq!(
            parse_img_u16(&bytes, Endianness::Little, 2, 2, 16, stored).err(),
            Some(DicomError::ImageFormatNotSupported)
        );
    }
    for stored in [0u16, 9, 16] {
        assert_eq!(
            parse_img_u8(&bytes, 2, 2, stored).err(),
            Some(DicomError::ImageFormatNotSupported)
        );
    }
    for allocated in [0u16, 8, 12, 15, 32] {
        assert_eq!(
            parse_img_u16(&bytes, Endianness::Little, 2, 2, allocated, 8).err(),
            Some(DicomError::ImageFormatNotSupported)
        );
    }
}

fn pixel_element(explicit: bool, frame: &[u8]) -> Vec<u8> {
    let mut data = vec![0xE0, 0x7F, 0x10, 0x00];
    if explicit {
        data.extend_from_slice(b"OW");
        data.extend_from_slice(&[0, 0]);
    }
    data.extend_from_slice(&(frame.len() as u32).to_le_bytes());
    data.extend_from_slice(frame);
    data
}

#[test]
fn pixel_data_element() {
    let frame = [1u8, 0, 2, 0, 3, 0, 4, 0];
    let data = pixel_element(true, &frame);
    let ts = TransferSyntax::little_endian_explicit();
    let (rest, image) = parse_image(&data, ts, 2, 2, 16, 16).unwrap();
    assert!(rest.is_empty());
    assert_eq!(image.dimensions(), (2, 2));
    match image {
        DicomImage::Grayscale16 { image } => assert_eq!(image.samples(), vec![1, 2, 3, 4]),
        _ => panic!("expected 16 bits"),
    }
    let (rest, image) = parse_image(&data, ts, 2, 4, 8, 8).unwrap();
    assert!(rest.is_empty());
    match image {
        DicomImage::Grayscale8 { image } => {
            assert_eq!(image.dimensions(), (4, 2));
            assert_eq!(image.samples(), frame.to_vec());
        }
        _ => panic!("expected 8 bits"),
    }
    let data = pixel_element(false, &frame);
    let (rest, image) =
        parse_image(&data, TransferSyntax::little_endian_implicit(), 1, 4, 16, 16).unwrap();
    assert!(rest.is_empty());
    assert_eq!(image.dimensions(), (4, 1));
}

#[test]
fn pixel_data_under_big_endian() {
    let data = [0x7F, 0xE0, 0x00, 0x10, b'O', b'W', 0, 0, 0, 0, 0, 4, 0x12, 0x34, 0xAB, 0xCD];
    let (rest, image) =
        parse_image(&data, TransferSyntax::big_endian_explicit(), 1, 2, 16, 16).unwrap();
    assert!(rest.is_empty());
    match image {
        DicomImage::Grayscale16 { image } => assert_eq!(image.samples(), vec![0x1234, 0xABCD]),
        _ => panic!("expected 16 bits"),
    }
}

#[test]
fn compressed_pixel_data_is_handed_out_as_it_is() {
    let stream = [0xFFu8, 0x4F, 0xFF, 0x51, 1, 2, 3];
    let data = pixel_element(true, &stream);
    let ts = TransferSyntax::with_compression_scheme(CompressionScheme::Jpeg2000Lossless);
    // rows, columns and bits play no part
    let (rest, image) = parse_image(&data, ts, 0, 0, 3, 0).unwrap();
    assert!(rest.is_empty());
    match image {
        DicomImage::Jpeg2000 { image } => assert_eq!(image, stream.to_vec()),
        _ => panic!("expected the stream"),
    }
}

#[test]
fn pixel_data_failures() {
    let ts = TransferSyntax::little_endian_explicit();
    let frame = [1u8, 2, 3, 4];
    let data = pixel_element(true, &frame);
    for allocated in [0u16, 1, 12, 24, 32] {
        assert_eq!(
            parse_image(&data, ts, 1, 1, allocated, 8).err(),
            Some(DicomError::ImageFormatNotSupported)
        );
    }
    assert_eq!(
        parse_image(&data, ts, 1, 1, 16, 0).err(),
        Some(DicomError::ImageFormatNotSupported)
    );
    assert_eq!(
        parse_image(&data, ts, 1, 1, 8, 9).err(),
        Some(DicomError::ImageFormatNotSupported)
    );
    assert_eq!(
        parse_image(&data, ts, 3, 3, 8, 8).err(),
        Some(DicomError::ParseError(ParseFailure::Incomplete))
    );
    // another element stands where the pixel data is expected
    let other = [0x10, 0x00, 0x10, 0x00, b'P', b'N', 0, 0];
    assert_eq!(
        parse_image(&other, ts, 1, 1, 8, 8).err(),
        Some(DicomError::ParseError(ParseFailure::UnexpectedTag(Tag::x0010x0010)))
    );
    assert_eq!(
        parse_image(&data[..3], ts, 1, 1, 8, 8).err(),
        Some(DicomError::ParseError(ParseFailure::Incomplete))
    );
    assert_eq!(
        parse_image(&[0xE0, 0x7F, 0x10, 0x00, b'O', b'1', 0, 0], ts, 1, 1, 8, 8).err(),
        Some(DicomError::ParseError(ParseFailure::InvalidVr))
    );
}
