//! All the functions to parse the DICOM.
//!
//! A parser takes the bytes that are left and returns what it read together
//! with the bytes that follow. Of each parser a spec function over `Seq<u8>`
//! says what it reads and how many bytes it takes.

use crate::error::ParseFailure;
use crate::tag::Tag;
use crate::types::Endianness;
use crate::vr::{vr_of_letters, ValueRepresentation, VrModel};
use vstd::prelude::*;
use vstd::slice::slice_subrange;

pub mod element;
pub mod image;
pub mod obj;
pub mod sq;
pub mod wire;

verus! {

/// The 16-bit number that the two bytes at `at` encode.
#[verifier::opaque]
pub open spec fn u16_at(s: Seq<u8>, at: int, endian: Endianness) -> u16 {
    match endian {
        Endianness::Little => (s[at] + 256 * s[at + 1]) as u16,
        Endianness::Big => (256 * s[at] + s[at + 1]) as u16,
    }
}

/// The 32-bit number that the four bytes at `at` encode.
#[verifier::opaque]
pub open spec fn u32_at(s: Seq<u8>, at: int, endian: Endianness) -> u32 {
    match endian {
        Endianness::Little => (s[at] + 256 * s[at + 1] + 65536 * s[at + 2] + 16777216 * s[at
            + 3]) as u32,
        Endianness::Big => (16777216 * s[at] + 65536 * s[at + 1] + 256 * s[at + 2] + s[at
            + 3]) as u32,
    }
}

/// The tag that the four bytes at `at` encode: the group, then the element.
pub open spec fn tag_at(s: Seq<u8>, at: int, endian: Endianness) -> Tag {
    Tag::spec_from_values(u16_at(s, at, endian), u16_at(s, at + 2, endian))
}

/// Whether a byte is an ASCII letter, upper or lower case.
pub open spec fn is_letter(byte: u8) -> bool {
    (0x41 <= byte <= 0x5A) || (0x61 <= byte <= 0x7A)
}

/// What a parser is to return on the bytes `s`: the value and the number of
/// bytes it takes, or the failure.
pub type Expected<T> = Result<(T, int), ParseFailure>;

/// What a parser returns: the bytes that follow and the value, or the failure.
pub type ParseResult<'a, T> = Result<(&'a [u8], T), ParseFailure>;

/// A parser that returned `r` on `buf` did what `expected` asks for: it
/// returned that value and the bytes after it, or that failure.
pub open spec fn conforms<T>(buf: &[u8], r: ParseResult<T>, expected: Expected<T>) -> bool {
    match r {
        Ok((rest, value)) => expected matches Ok((v, n)) && v == value && 0 <= n <= buf@.len()
            && rest@ == buf@.skip(n),
        Err(e) => expected == Err::<(T, int), ParseFailure>(e),
    }
}

pub open spec fn spec_parse_data(s: Seq<u8>, length: u32) -> Expected<Seq<u8>> {
    if s.len() < length {
        Err(ParseFailure::Incomplete)
    } else {
        Ok((s.subrange(0, length as int), length as int))
    }
}

pub open spec fn spec_parse_u16(s: Seq<u8>, endian: Endianness) -> Expected<u16> {
    if s.len() < 2 {
        Err(ParseFailure::Incomplete)
    } else {
        Ok((u16_at(s, 0, endian), 2))
    }
}

pub open spec fn spec_parse_u32(s: Seq<u8>, endian: Endianness) -> Expected<u32> {
    if s.len() < 4 {
        Err(ParseFailure::Incomplete)
    } else {
        Ok((u32_at(s, 0, endian), 4))
    }
}

pub open spec fn spec_parse_tag(s: Seq<u8>, endian: Endianness) -> Expected<Tag> {
    if s.len() < 4 {
        Err(ParseFailure::Incomplete)
    } else {
        Ok((tag_at(s, 0, endian), 4))
    }
}

/// The two letters of a value representation. The first byte is looked at
/// before the second is asked for.
pub open spec fn spec_parse_vr(s: Seq<u8>) -> Expected<VrModel> {
    if s.len() < 1 {
        Err(ParseFailure::Incomplete)
    } else if !is_letter(s[0]) {
        Err(ParseFailure::InvalidVr)
    } else if s.len() < 2 {
        Err(ParseFailure::Incomplete)
    } else if !is_letter(s[1]) {
        Err(ParseFailure::InvalidVr)
    } else {
        Ok((vr_of_letters(s[0] as char, s[1] as char), 2))
    }
}

/// The length field of a data element: four bytes where the element has no
/// value representation; with one, two bytes, or two reserved bytes and then
/// four where the value representation has the special length.
pub open spec fn spec_parse_length(
    s: Seq<u8>,
    vr: Option<VrModel>,
    endian: Endianness,
) -> Expected<u32> {
    match vr {
        Some(vr) => if vr.special_length() {
            if s.len() < 6 {
                Err(ParseFailure::Incomplete)
            } else {
                Ok((u32_at(s, 2, endian), 6))
            }
        } else {
            if s.len() < 2 {
                Err(ParseFailure::Incomplete)
            } else {
                Ok((u16_at(s, 0, endian) as u32, 2))
            }
        },
        None => spec_parse_u32(s, endian),
    }
}

/// The model of a value representation, if there is one.
pub open spec fn vr_model_of(vr: Option<ValueRepresentation>) -> Option<VrModel> {
    match vr {
        Some(vr) => Some(vr@),
        None => None,
    }
}

/// Normal value of a data element is just a number of bytes.
pub fn parse_data<'a>(buf: &'a [u8], length: u32) -> (r: ParseResult<'a, &'a [u8]>)
    ensures
        match r {
            Ok((rest, data)) => spec_parse_data(buf@, length) == Ok::<_, ParseFailure>(
                (data@, length as int),
            ) && rest@ == buf@.skip(length as int),
            Err(e) => spec_parse_data(buf@, length) == Err::<(Seq<u8>, int), _>(e),
        },
{
    if buf.len() < length as usize {
        return Err(ParseFailure::Incomplete);
    }
    let data = slice_subrange(buf, 0, length as usize);
    let rest = slice_subrange(buf, length as usize, buf.len());
    Ok((rest, data))
}

/// A tag is made of two u16: the group and the element.
///
/// some tags are known from the standard and added to the library.
pub fn parse_tag<'a>(buf: &'a [u8], endian: Endianness) -> (r: ParseResult<'a, Tag>)
    ensures
        conforms(buf, r, spec_parse_tag(buf@, endian)),
{
    let (rest, group) = match parse_u16(buf, endian) {
        Ok(read) => read,
        Err(e) => { return Err(e); },
    };
    let (rest, element) = match parse_u16(rest, endian) {
        Ok(read) => read,
        Err(e) => { return Err(e); },
    };
    proof {
        reveal(u16_at);
        assert(rest@ =~= buf@.skip(4));
    }
    Ok((rest, Tag::from_values(group, element)))
}

/// Parse a 4 bytes unsigned integer according to the endianness
pub fn parse_u32<'a>(buf: &'a [u8], endian: Endianness) -> (r: ParseResult<'a, u32>)
    ensures
        conforms(buf, r, spec_parse_u32(buf@, endian)),
{
    if buf.len() < 4 {
        return Err(ParseFailure::Incomplete);
    }
    reveal(u32_at);
    let b0 = buf[0] as u32;
    let b1 = buf[1] as u32;
    let b2 = buf[2] as u32;
    let b3 = buf[3] as u32;
    let value = match endian {
        Endianness::Little => b0 + 256 * b1 + 65536 * b2 + 16777216 * b3,
        Endianness::Big => 16777216 * b0 + 65536 * b1 + 256 * b2 + b3,
    };
    Ok((slice_subrange(buf, 4, buf.len()), value))
}

/// Parse a 2 bytes unsigned integer according to the endianness
pub fn parse_u16<'a>(buf: &'a [u8], endian: Endianness) -> (r: ParseResult<'a, u16>)
    ensures
        conforms(buf, r, spec_parse_u16(buf@, endian)),
{
    if buf.len() < 2 {
        return Err(ParseFailure::Incomplete);
    }
    reveal(u16_at);
    let b0 = buf[0] as u16;
    let b1 = buf[1] as u16;
    let value = match endian {
        Endianness::Little => b0 + 256 * b1,
        Endianness::Big => 256 * b0 + b1,
    };
    Ok((slice_subrange(buf, 2, buf.len()), value))
}

/// Whether a byte is an ASCII letter.
fn letter(byte: u8) -> (r: bool)
    ensures
        r == is_letter(byte),
{
    (0x41 <= byte && byte <= 0x5A) || (0x61 <= byte && byte <= 0x7A)
}

/// Value Representation is encoded as two characters (ascii).
pub fn parse_vr<'a>(buf: &'a [u8]) -> (r: ParseResult<'a, ValueRepresentation>)
    ensures
        match r {
            Ok((rest, vr)) => spec_parse_vr(buf@) == Ok::<_, ParseFailure>((vr@, 2int)) && rest@
                == buf@.skip(2),
            Err(e) => spec_parse_vr(buf@) == Err::<(VrModel, int), _>(e),
        },
{
    if buf.len() < 1 {
        return Err(ParseFailure::Incomplete);
    }
    if !letter(buf[0]) {
        return Err(ParseFailure::InvalidVr);
    }
    if buf.len() < 2 {
        return Err(ParseFailure::Incomplete);
    }
    if !letter(buf[1]) {
        return Err(ParseFailure::InvalidVr);
    }
    let vr = ValueRepresentation::from_chars(buf[0] as char, buf[1] as char);
    Ok((slice_subrange(buf, 2, buf.len()), vr))
}

/// Depending on whether there is a VR, the length is parsed differently:
/// - No VR => 4 bytes
/// - VR => normal case, 2 bytes,
///         special case, 2 bytes padding + 4 bytes of length.
pub fn parse_length<'buf>(
    buf: &'buf [u8],
    vr: &Option<ValueRepresentation>,
    endian: Endianness,
) -> (r: ParseResult<'buf, u32>)
    ensures
        conforms(buf, r, spec_parse_length(buf@, vr_model_of(*vr), endian)),
{
    match vr {
        Some(vr) => {
            if vr.has_special_length() {
                // in some VR cases, there is some padding before the actual length...
                let (after, _padding) = match parse_u16(buf, endian) {
                    Ok(read) => read,
                    Err(e) => { return Err(e); },
                };
                match parse_u32(after, endian) {
                    Ok((rest, length)) => {
                        reveal(u32_at);
                        assert(rest@ == buf@.skip(6));
                        Ok((rest, length))
                    },
                    Err(e) => Err(e),
                }
            } else {
                match parse_u16(buf, endian) {
                    Ok((rest, length)) => Ok((rest, length as u32)),
                    Err(e) => Err(e),
                }
            }
        },
        None => {
            // If no VR, length is 4 bytes.
            parse_u32(buf, endian)
        },
    }
}

/// The two bytes that encode a 16-bit number.
#[verifier::opaque]
pub open spec fn u16_bytes(v: u16, endian: Endianness) -> Seq<u8> {
    match endian {
        Endianness::Little => seq![(v % 256) as u8, (v / 256) as u8],
        Endianness::Big => seq![(v / 256) as u8, (v % 256) as u8],
    }
}

/// The four bytes that encode a 32-bit number.
#[verifier::opaque]
pub open spec fn u32_bytes(v: u32, endian: Endianness) -> Seq<u8> {
    match endian {
        Endianness::Little => seq![
            (v % 256) as u8,
            ((v / 256) % 256) as u8,
            ((v / 65536) % 256) as u8,
            (v / 16777216) as u8,
        ],
        Endianness::Big => seq![
            (v / 16777216) as u8,
            ((v / 65536) % 256) as u8,
            ((v / 256) % 256) as u8,
            (v % 256) as u8,
        ],
    }
}

/// A 16-bit number is written in two bytes.
pub proof fn lemma_u16_bytes_len(v: u16, endian: Endianness)
    ensures
        u16_bytes(v, endian).len() == 2,
{
    reveal(u16_bytes);
}

/// A 32-bit number is written in four bytes.
pub proof fn lemma_u32_bytes_len(v: u32, endian: Endianness)
    ensures
        u32_bytes(v, endian).len() == 4,
{
    reveal(u32_bytes);
}

/// Where the bytes of a 16-bit number stand, that number is read.
pub proof fn lemma_u16_read_back(s: Seq<u8>, at: int, v: u16, endian: Endianness)
    requires
        0 <= at,
        at + 2 <= s.len(),
        s.subrange(at, at + 2) == u16_bytes(v, endian),
    ensures
        u16_at(s, at, endian) == v,
{
    reveal(u16_bytes);
    reveal(u16_at);
    let b = s.subrange(at, at + 2);
    assert(s[at] == b[0]);
    assert(s[at + 1] == b[1]);
    assert(v == (v % 256) + 256 * (v / 256)) by (bit_vector);
    assert(v / 256 < 256) by (bit_vector);
    assert(v % 256 < 256) by (bit_vector);
}

/// Where the bytes of a 32-bit number stand, that number is read.
pub proof fn lemma_u32_read_back(s: Seq<u8>, at: int, v: u32, endian: Endianness)
    requires
        0 <= at,
        at + 4 <= s.len(),
        s.subrange(at, at + 4) == u32_bytes(v, endian),
    ensures
        u32_at(s, at, endian) == v,
{
    reveal(u32_bytes);
    reveal(u32_at);
    let b = s.subrange(at, at + 4);
    assert(s[at] == b[0]);
    assert(s[at + 1] == b[1]);
    assert(s[at + 2] == b[2]);
    assert(s[at + 3] == b[3]);
    assert(v == (v % 256) + 256 * ((v / 256) % 256) + 65536 * ((v / 65536) % 256) + 16777216 * (v
        / 16777216)) by (bit_vector);
    assert(v / 16777216 < 256) by (bit_vector);
    assert((v / 65536) % 256 < 256 && (v / 256) % 256 < 256 && v % 256 < 256) by (bit_vector);
}

/// A 16-bit number that is encoded and parsed again, in either byte order,
/// is the same number, and the parser takes just its two bytes.
pub proof fn lemma_u16_round_trip(v: u16, endian: Endianness, rest: Seq<u8>)
    ensures
        spec_parse_u16(u16_bytes(v, endian) + rest, endian) == Ok::<_, ParseFailure>((v, 2int)),
        (u16_bytes(v, endian) + rest).skip(2) == rest,
{
    let s = u16_bytes(v, endian) + rest;
    lemma_u16_bytes_len(v, endian);
    assert(s.subrange(0, 2) =~= u16_bytes(v, endian));
    lemma_u16_read_back(s, 0, v, endian);
    assert(s.skip(2) =~= rest);
}

/// A 32-bit number that is encoded and parsed again, in either byte order,
/// is the same number, and the parser takes just its four bytes.
pub proof fn lemma_u32_round_trip(v: u32, endian: Endianness, rest: Seq<u8>)
    ensures
        spec_parse_u32(u32_bytes(v, endian) + rest, endian) == Ok::<_, ParseFailure>((v, 4int)),
        (u32_bytes(v, endian) + rest).skip(4) == rest,
{
    let s = u32_bytes(v, endian) + rest;
    lemma_u32_bytes_len(v, endian);
    assert(s.subrange(0, 4) =~= u32_bytes(v, endian));
    lemma_u32_read_back(s, 0, v, endian);
    assert(s.skip(4) =~= rest);
}

} // verus!
