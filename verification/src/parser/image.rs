//! The pixel data element: one raw grayscale frame of 8 or 16 bits a
//! sample, or a compressed stream that is handed out as it is.

use super::element::{spec_element_header, ElementHeader};
use super::{parse_length, parse_tag, parse_vr, spec_parse_tag, u16_at, Expected, ParseResult};
use crate::error::{parse_error, DicomError, DicomResult, ErrorModel, Outcome, ParseFailure};
use crate::img::{DicomImage, Gray16Image, Gray8Image, ImageModel};
use crate::tag::Tag;
use crate::types::{CompressionScheme, Endianness, TransferSyntax};
use vstd::prelude::*;
use vstd::slice::{slice_subrange, slice_to_vec};

verus! {

/// A sample of `bits_stored` significant bits, stretched over all 16 bits:
/// shifted to the top, with its highest bits repeated below.
pub open spec fn stretch16(v: u16, bits_stored: u16) -> u16 {
    let diff = (16 - bits_stored) as u16;
    let mask = (((1u16 << diff) - 1) as u16) << bits_stored;
    let left = v << diff;
    left | ((left & mask) >> bits_stored)
}

/// The pixel that a raw 16-bit sample becomes.
pub open spec fn rescale16(v: u16, bits_stored: u16) -> u16 {
    if bits_stored == 16 {
        v
    } else {
        stretch16(v, bits_stored)
    }
}

/// A sample of `bits_stored` significant bits, stretched over all 8 bits.
pub open spec fn stretch8(v: u8, bits_stored: u16) -> u8 {
    let diff = (8 - bits_stored) as u8;
    let mask = (((1u8 << diff) - 1) as u8) << bits_stored;
    let left = v << diff;
    left | ((left & mask) >> bits_stored)
}

/// The pixel that a raw 8-bit sample becomes.
pub open spec fn rescale8(v: u8, bits_stored: u16) -> u8 {
    if bits_stored == 8 {
        v
    } else {
        stretch8(v, bits_stored)
    }
}

/// The pixels of `count` raw 16-bit samples at the start of `s`.
pub open spec fn decoded16(s: Seq<u8>, endian: Endianness, count: nat, bits_stored: u16) -> Seq<
    u16,
> {
    Seq::new(count, |i: int| rescale16(u16_at(s, 2 * i, endian), bits_stored))
}

/// The pixels of `count` raw 8-bit samples at the start of `s`.
pub open spec fn decoded8(s: Seq<u8>, count: nat, bits_stored: u16) -> Seq<u8> {
    Seq::new(count, |i: int| rescale8(s[i], bits_stored))
}

/// A frame of 8-bit samples: `rows * columns` bytes, one pixel each, row by
/// row. The bits stored must be between 1 and 8.
pub open spec fn spec_parse_img_u8(s: Seq<u8>, rows: u16, columns: u16, bits_stored: u16) -> Outcome<
    (ImageModel, int),
> {
    if !(1 <= bits_stored <= 8) {
        Err(ErrorModel::ImageFormatNotSupported)
    } else if s.len() < rows * columns {
        parse_error(ParseFailure::Incomplete)
    } else {
        Ok(
            (
                ImageModel::Grayscale8 {
                    width: columns as u32,
                    height: rows as u32,
                    samples: decoded8(s, (rows * columns) as nat, bits_stored),
                },
                rows * columns,
            ),
        )
    }
}

/// A frame of 16-bit samples: `rows * columns` numbers of two bytes, one
/// pixel each, row by row. The bits allocated must be 16 and the bits stored
/// between 1 and 16.
pub open spec fn spec_parse_img_u16(
    s: Seq<u8>,
    endian: Endianness,
    rows: u16,
    columns: u16,
    bits_allocated: u16,
    bits_stored: u16,
) -> Outcome<(ImageModel, int)> {
    if bits_allocated != 16 || !(1 <= bits_stored <= 16) {
        Err(ErrorModel::ImageFormatNotSupported)
    } else if s.len() < 2 * (rows * columns) {
        parse_error(ParseFailure::Incomplete)
    } else {
        Ok(
            (
                ImageModel::Grayscale16 {
                    width: columns as u32,
                    height: rows as u32,
                    samples: decoded16(s, endian, (rows * columns) as nat, bits_stored),
                },
                2 * (rows * columns),
            ),
        )
    }
}

/// The header of the pixel data element. The tag is looked at before the
/// rest of the header is read.
pub open spec fn spec_parse_pixel_header(s: Seq<u8>, ts: TransferSyntax) -> Expected<
    ElementHeader,
> {
    match spec_parse_tag(s, ts.endianness) {
        Err(e) => Err(e),
        Ok((tag, _)) => if tag != Tag::x7FE0x0010 {
            Err(ParseFailure::UnexpectedTag(tag))
        } else {
            spec_element_header(s, ts)
        },
    }
}

/// The pixel data element. With compressed pixel data, all the bytes after
/// the header are the stream and nothing is left. Else the frame is decoded
/// by the number of bits allocated, which must be 8 or 16.
pub open spec fn spec_parse_image(
    s: Seq<u8>,
    ts: TransferSyntax,
    rows: u16,
    columns: u16,
    bits_allocated: u16,
    bits_stored: u16,
) -> Outcome<(ImageModel, int)> {
    match spec_parse_pixel_header(s, ts) {
        Err(e) => parse_error(e),
        Ok((_, h)) => {
            let frame = if ts.compression_scheme == Some(CompressionScheme::Jpeg2000Lossless) {
                Ok((ImageModel::Jpeg2000 { stream: s.skip(h) }, s.len() - h))
            } else if bits_allocated == 8 {
                spec_parse_img_u8(s.skip(h), rows, columns, bits_stored)
            } else if bits_allocated == 16 {
                spec_parse_img_u16(
                    s.skip(h),
                    ts.endianness,
                    rows,
                    columns,
                    bits_allocated,
                    bits_stored,
                )
            } else {
                Err(ErrorModel::ImageFormatNotSupported)
            };
            match frame {
                Err(e) => Err(e),
                Ok((image, n)) => Ok((image, h + n)),
            }
        },
    }
}

/// A decoder that returned `r` on `buf` did what `expected` asks for.
pub open spec fn decoded_as(
    buf: &[u8],
    r: DicomResult<(&[u8], DicomImage)>,
    expected: Outcome<(ImageModel, int)>,
) -> bool {
    match r {
        Ok((rest, image)) => expected matches Ok((model, n)) && model == image@ && 0 <= n
            <= buf@.len() && rest@ == buf@.skip(n),
        Err(e) => expected == Err::<(ImageModel, int), _>(e@),
    }
}

fn rescale_u16(v: u16, bits_stored: u16) -> (r: u16)
    requires
        1 <= bits_stored <= 16,
    ensures
        r == rescale16(v, bits_stored),
{
    if bits_stored != 16 {
        let diff: u16 = 16 - bits_stored;
        assert((1u16 << diff) >= 1) by (bit_vector)
            requires
                1 <= diff < 16,
        ;
        let mask: u16 = ((1u16 << diff) - 1) << bits_stored;
        let left: u16 = v << diff;
        left | ((left & mask) >> bits_stored)
    } else {
        v
    }
}

fn rescale_u8(v: u8, bits_stored: u16) -> (r: u8)
    requires
        1 <= bits_stored <= 8,
    ensures
        r == rescale8(v, bits_stored),
{
    if bits_stored != 8 {
        let diff: u8 = (8 - bits_stored) as u8;
        assert((1u8 << diff) >= 1) by (bit_vector)
            requires
                1 <= diff < 8,
        ;
        let mask: u8 = ((1u8 << diff) - 1) << bits_stored;
        let left: u8 = v << diff;
        left | ((left & mask) >> bits_stored)
    } else {
        v
    }
}

/// Reads the header of the pixel data element.
fn parse_pixel_header<'a>(buf: &'a [u8], transfer_syntax: TransferSyntax) -> (r: ParseResult<
    'a,
    (),
>)
    ensures
        match r {
            Ok((rest, _)) => spec_parse_pixel_header(buf@, transfer_syntax) matches Ok((_, h))
                && 0 <= h <= buf@.len() && rest@ == buf@.skip(h),
            Err(e) => spec_parse_pixel_header(buf@, transfer_syntax) == Err::<
                (ElementHeader, int),
                _,
            >(e),
        },
{
    let endian = transfer_syntax.endianness();
    let (after_tag, tag) = match parse_tag(buf, endian) {
        Ok(read) => read,
        Err(e) => { return Err(e); },
    };
    if tag != Tag::x7FE0x0010 {
        return Err(ParseFailure::UnexpectedTag(tag));
    }
    let (after_vr, vr) = if transfer_syntax.is_vr_explicit() {
        match parse_vr(after_tag) {
            Ok((rest, vr)) => (rest, Some(vr)),
            Err(e) => { return Err(e); },
        }
    } else {
        (after_tag, None)
    };
    assert(transfer_syntax.is_vr_explicit ==> after_vr@ == buf@.skip(6));
    match parse_length(after_vr, &vr, endian) {
        Ok((rest, _)) => {
            assert(rest@ == buf@.skip(buf@.len() - rest@.len()));
            Ok((rest, ()))
        },
        Err(e) => Err(e),
    }
}

pub fn parse_image<'a>(
    buf: &'a [u8],
    transfer_syntax: TransferSyntax,
    rows: u16,
    columns: u16,
    bits_allocated: u16,
    bits_stored: u16,
) -> (r: DicomResult<(&'a [u8], DicomImage)>)
    ensures
        decoded_as(
            buf,
            r,
            spec_parse_image(buf@, transfer_syntax, rows, columns, bits_allocated, bits_stored),
        ),
{
    // First need to consume the tag, vr and length.
    let frame = match parse_pixel_header(buf, transfer_syntax) {
        Ok((rest, _)) => rest,
        Err(e) => { return Err(DicomError::ParseError(e)); },
    };
    let ghost h = buf@.len() - frame@.len();

    if let Some(CompressionScheme::Jpeg2000Lossless) = transfer_syntax.compression_scheme {
        let nothing = slice_subrange(buf, buf.len(), buf.len());
        let image = DicomImage::Jpeg2000 { image: slice_to_vec(frame) };
        proof {
            let expected = spec_parse_image(
                buf@,
                transfer_syntax,
                rows,
                columns,
                bits_allocated,
                bits_stored,
            );
            assert(transfer_syntax.compression_scheme == Some(CompressionScheme::Jpeg2000Lossless));
            assert(expected == Ok::<_, ErrorModel>(
                (ImageModel::Jpeg2000 { stream: buf@.skip(h) }, buf@.len() as int),
            ));
            assert(nothing@ =~= buf@.skip(buf@.len() as int));
            assert(image@ == ImageModel::Jpeg2000 { stream: frame@ });
        }
        return Ok((nothing, image));
    }
    // Depending on bits allocated, we need to read either 8 or 16 bytes.

    if bits_allocated == 8 {
        match parse_img_u8(frame, rows, columns, bits_stored) {
            Ok((rest, image)) => {
                assert(rest@ == buf@.skip(h + (frame@.len() - rest@.len())));
                Ok((rest, DicomImage::Grayscale8 { image }))
            },
            Err(e) => Err(e),
        }
    } else if bits_allocated == 16 {
        match parse_img_u16(
            frame,
            transfer_syntax.endianness(),
            rows,
            columns,
            bits_allocated,
            bits_stored,
        ) {
            Ok((rest, image)) => {
                assert(rest@ == buf@.skip(h + (frame@.len() - rest@.len())));
                Ok((rest, DicomImage::Grayscale16 { image }))
            },
            Err(e) => Err(e),
        }
    } else {
        Err(DicomError::ImageFormatNotSupported)
    }
}

pub fn parse_img_u8<'a>(buf: &'a [u8], rows: u16, columns: u16, bits_stored: u16) -> (r:
    DicomResult<(&'a [u8], Gray8Image)>)
    ensures
        match r {
            Ok((rest, image)) => decoded_as(
                buf,
                Ok((rest, DicomImage::Grayscale8 { image })),
                spec_parse_img_u8(buf@, rows, columns, bits_stored),
            ),
            Err(e) => spec_parse_img_u8(buf@, rows, columns, bits_stored) == Err::<
                (ImageModel, int),
                _,
            >(e@),
        },
{
    if bits_stored < 1 || bits_stored > 8 {
        return Err(DicomError::ImageFormatNotSupported);
    }
    assert(rows * columns <= 0xFFFF * 0xFFFF) by (nonlinear_arith)
        requires
            rows <= 0xFFFF,
            columns <= 0xFFFF,
    ;
    let count_wide: u64 = rows as u64 * columns as u64;
    if (buf.len() as u64) < count_wide {
        return Err(DicomError::ParseError(ParseFailure::Incomplete));
    }
    let count: usize = count_wide as usize;
    let mut samples: Vec<u8> = Vec::with_capacity(count);
    let mut i: usize = 0;
    while i < count
        invariant
            i <= count <= buf@.len(),
            1 <= bits_stored <= 8,
            samples@ == decoded8(buf@, i as nat, bits_stored),
        decreases count - i,
    {
        samples.push(rescale_u8(buf[i], bits_stored));
        assert(samples@ =~= decoded8(buf@, (i + 1) as nat, bits_stored));
        i += 1;
    }
    let rest = slice_subrange(buf, count, buf.len());
    assert(columns as u32 * rows as u32 == rows * columns) by (nonlinear_arith);
    match Gray8Image::from_raw(columns as u32, rows as u32, samples) {
        Some(image) => Ok((rest, image)),
        None => {
            proof {
                assert(false);
            }
            Err(DicomError::ImageFormatNotSupported)
        },
    }
}

pub fn parse_img_u16<'a>(
    buf: &'a [u8],
    endian: Endianness,
    rows: u16,
    columns: u16,
    bits_allocated: u16,
    bits_stored: u16,
) -> (r: DicomResult<(&'a [u8], Gray16Image)>)
    ensures
        match r {
            Ok((rest, image)) => decoded_as(
                buf,
                Ok((rest, DicomImage::Grayscale16 { image })),
                spec_parse_img_u16(buf@, endian, rows, columns, bits_allocated, bits_stored),
            ),
            Err(e) => spec_parse_img_u16(buf@, endian, rows, columns, bits_allocated, bits_stored)
                == Err::<(ImageModel, int), _>(e@),
        },
{
    if bits_allocated != 16 || bits_stored < 1 || bits_stored > 16 {
        return Err(DicomError::ImageFormatNotSupported);
    }
    assert(rows * columns <= 0xFFFF * 0xFFFF) by (nonlinear_arith)
        requires
            rows <= 0xFFFF,
            columns <= 0xFFFF,
    ;
    let count_wide: u64 = rows as u64 * columns as u64;
    if (buf.len() as u64) < 2 * count_wide {
        return Err(DicomError::ParseError(ParseFailure::Incomplete));
    }
    let count: usize = count_wide as usize;
    let mut samples: Vec<u16> = Vec::with_capacity(count);
    let mut i: usize = 0;
    while i < count
        invariant
            i <= count,
            2 * count <= buf@.len() <= usize::MAX,
            1 <= bits_stored <= 16,
            samples@ == decoded16(buf@, endian, i as nat, bits_stored),
        decreases count - i,
    {
        reveal(u16_at);
        let b0 = buf[2 * i] as u16;
        let b1 = buf[2 * i + 1] as u16;
        let grey_value = match endian {
            Endianness::Little => b0 + 256 * b1,
            Endianness::Big => 256 * b0 + b1,
        };
        samples.push(rescale_u16(grey_value, bits_stored));
        assert(samples@ =~= decoded16(buf@, endian, (i + 1) as nat, bits_stored));
        i += 1;
    }
    let rest = slice_subrange(buf, 2 * count, buf.len());
    assert(columns as u32 * rows as u32 == rows * columns) by (nonlinear_arith);
    match Gray16Image::from_raw(columns as u32, rows as u32, samples) {
        Some(image) => Ok((rest, image)),
        None => {
            proof {
                assert(false);
            }
            Err(DicomError::ImageFormatNotSupported)
        },
    }
}

/// The raw 16-bit samples at the start of `s`.
pub open spec fn raw16(s: Seq<u8>, endian: Endianness, count: nat) -> Seq<u16> {
    Seq::new(count, |i: int| u16_at(s, 2 * i, endian))
}

/// Where all the bits allocated are stored, the pixels are the raw samples.
pub proof fn lemma_all_bits_stored_is_verbatim(s: Seq<u8>, endian: Endianness, count: nat)
    ensures
        decoded16(s, endian, count, 16) == raw16(s, endian, count),
        count <= s.len() ==> decoded8(s, count, 8) == s.take(count as int),
{
    assert(decoded16(s, endian, count, 16) =~= raw16(s, endian, count));
    if count <= s.len() {
        assert(decoded8(s, count, 8) =~= s.take(count as int));
    }
}

/// Where fewer bits are stored than allocated, a greater raw sample never
/// gives a smaller pixel. This holds of samples that fit in the bits stored.
pub proof fn lemma_rescale16_is_monotone(a: u16, b: u16, bits_stored: u16)
    requires
        1 <= bits_stored < 16,
        a <= b,
        b < (1u16 << bits_stored),
    ensures
        rescale16(a, bits_stored) <= rescale16(b, bits_stored),
{
    assert(stretch16(a, bits_stored) <= stretch16(b, bits_stored)) by (bit_vector)
        requires
            1 <= bits_stored < 16,
            a <= b,
            b < (1u16 << bits_stored),
    ;
}

/// Where fewer bits are stored than allocated, a greater raw sample never
/// gives a smaller pixel. This holds of samples that fit in the bits stored.
pub proof fn lemma_rescale8_is_monotone(a: u8, b: u8, bits_stored: u16)
    requires
        1 <= bits_stored < 8,
        a <= b,
        b < (1u8 << bits_stored),
    ensures
        rescale8(a, bits_stored) <= rescale8(b, bits_stored),
{
    assert(stretch8(a, bits_stored) <= stretch8(b, bits_stored)) by (bit_vector)
        requires
            1 <= bits_stored < 8,
            a <= b,
            b < (1u8 << bits_stored),
    ;
}

} // verus!
