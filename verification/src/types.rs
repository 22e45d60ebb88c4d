//! The data types of a parsed DICOM object, and their mathematical models.

use crate::error::{outcome, DicomError, DicomResult, ErrorModel, Outcome};
use crate::img::{DicomImage, ImageModel};
use crate::parser::u16_at;
use crate::tag::Tag;
use crate::text::{
    bytes_equal, decimal_text, digit, digit_char, digit_value, is_digit, lemma_text_of_bytes,
    push_decimal, str_equal, str_from_utf8, string_push, text_of,
};
use crate::vr::{ValueRepresentation, VrModel};
use byteorder::{BigEndian, LittleEndian, ReadBytesExt};
use std::io::Cursor;
use vstd::prelude::*;
use vstd::slice::slice_subrange;
use chrono::{Datelike, NaiveDate};
use vstd::string::{StrSliceExecFns, StringExecFns, StringSliceAdditionalSpecFns};
use vstd::utf8::{encode_utf8, is_ascii_chars, is_ascii_chars_encode_utf8, valid_utf8};

verus! {

/// The byte order of the multi-byte numbers of a data set.
#[derive(Debug, Clone, Copy, PartialEq, Eq, Structural)]
pub enum Endianness {
    Little,
    Big,
}

/// Sometime DCM files contain the image as JPG...
#[derive(Debug, Clone, Copy, PartialEq, Eq, Structural)]
pub enum CompressionScheme {
    Jpeg2000Lossless,
}

/// Transfer syntax defines the endianness and the presence of value representation.
/// It is necessary during parsing. The transfer syntax is defined in the tag (0x0002,0x010) which
/// is at the beginning of the file
#[derive(Debug, Clone, Copy, PartialEq, Eq, Structural)]
pub struct TransferSyntax {
    pub endianness: Endianness,
    pub is_vr_explicit: bool,
    pub compression_scheme: Option<CompressionScheme>,
}

/// Little endian, explicit value representations, not compressed.
pub open spec fn le_explicit() -> TransferSyntax {
    TransferSyntax {
        endianness: Endianness::Little,
        is_vr_explicit: true,
        compression_scheme: None,
    }
}

/// Little endian, no value representations, not compressed.
pub open spec fn le_implicit() -> TransferSyntax {
    TransferSyntax {
        endianness: Endianness::Little,
        is_vr_explicit: false,
        compression_scheme: None,
    }
}

/// Big endian, explicit value representations, not compressed.
pub open spec fn be_explicit() -> TransferSyntax {
    TransferSyntax {
        endianness: Endianness::Big,
        is_vr_explicit: true,
        compression_scheme: None,
    }
}

/// Little endian, explicit value representations, pixel data compressed.
pub open spec fn le_explicit_compressed(scheme: CompressionScheme) -> TransferSyntax {
    TransferSyntax {
        endianness: Endianness::Little,
        is_vr_explicit: true,
        compression_scheme: Some(scheme),
    }
}

impl TransferSyntax {
    pub fn with_compression_scheme(scheme: CompressionScheme) -> (ts: Self)
        ensures
            ts == le_explicit_compressed(scheme),
    {
        Self {
            endianness: Endianness::Little,
            is_vr_explicit: true,
            compression_scheme: Some(scheme),
        }
    }

    pub fn little_endian_explicit() -> (ts: Self)
        ensures
            ts == le_explicit(),
    {
        Self { endianness: Endianness::Little, is_vr_explicit: true, compression_scheme: None }
    }

    pub fn big_endian_explicit() -> (ts: Self)
        ensures
            ts == be_explicit(),
    {
        Self { endianness: Endianness::Big, is_vr_explicit: true, compression_scheme: None }
    }

    pub fn little_endian_implicit() -> (ts: Self)
        ensures
            ts == le_implicit(),
    {
        Self { endianness: Endianness::Little, is_vr_explicit: false, compression_scheme: None }
    }

    /// Return the endianness in which the dicom data was encoded.
    pub fn endianness(&self) -> (endian: Endianness)
        ensures
            endian == self.endianness,
    {
        self.endianness
    }

    /// Return true if the value representation is explicit in data elements
    pub fn is_vr_explicit(&self) -> (explicit: bool)
        ensures
            explicit == self.is_vr_explicit,
    {
        self.is_vr_explicit
    }
}

/// A UID without the NUL byte that pads it to an even length, if it has one.
pub open spec fn without_padding(uid: Seq<u8>) -> Seq<u8> {
    if uid.len() > 0 && uid.last() == 0 {
        uid.drop_last()
    } else {
        uid
    }
}

/// The transfer syntax that a UID names, if it is one that is supported.
pub open spec fn transfer_syntax_of_uid(uid: Seq<u8>) -> Option<TransferSyntax> {
    let uid = without_padding(uid);
    if uid == "1.2.840.10008.1.2.2".spec_bytes() {
        Some(be_explicit())
    } else if uid == "1.2.840.10008.1.2.1".spec_bytes() {
        Some(le_explicit())
    } else if uid == "1.2.840.10008.1.2".spec_bytes() {
        Some(le_implicit())
    } else if uid == "1.2.840.10008.1.2.4.90".spec_bytes() {
        Some(le_explicit_compressed(CompressionScheme::Jpeg2000Lossless))
    } else {
        None
    }
}

/// The transfer syntax that the value of the transfer syntax element names.
pub open spec fn transfer_syntax_of(value: ValueModel) -> Outcome<TransferSyntax> {
    match value {
        ValueModel::Sequence(_) => Err(ErrorModel::ConvertTypeExpectBuf("TransferSyntax"@)),
        ValueModel::Buf(uid) => if !valid_utf8(uid) {
            Err(ErrorModel::ParseCS)
        } else {
            match transfer_syntax_of_uid(uid) {
                Some(ts) => Ok(ts),
                None => Err(ErrorModel::TransferSyntaxNotSupported(text_of(uid))),
            }
        },
    }
}

impl TransferSyntax {
    /// The transfer syntax that the value of the element (0002,0010) names.
    ///
    /// If a Value Field containing one or more UIDs is an odd number of bytes in length, the
    /// Value Field is padded with a single trailing NULL (00H) character: one such byte at the
    /// end of the UID is left out before the UID is looked up.
    pub fn try_from(v: &Value) -> (r: DicomResult<TransferSyntax>)
        ensures
            outcome(r) == transfer_syntax_of(v@),
    {
        match v {
            Value::Buf(bytes) => {
                let value = match str_from_utf8(bytes) {
                    Ok(value) => value,
                    Err(_) => { return Err(DicomError::ParseCS); },
                };
                let uid = if bytes.len() > 0 && bytes[bytes.len() - 1] == 0 {
                    slice_subrange(bytes, 0, bytes.len() - 1)
                } else {
                    *bytes
                };
                assert(uid@ == without_padding(bytes@));
                if bytes_equal(uid, "1.2.840.10008.1.2.2".as_bytes()) {
                    Ok(TransferSyntax::big_endian_explicit())
                } else if bytes_equal(uid, "1.2.840.10008.1.2.1".as_bytes()) {
                    Ok(TransferSyntax::little_endian_explicit())
                } else if bytes_equal(uid, "1.2.840.10008.1.2".as_bytes()) {
                    Ok(TransferSyntax::little_endian_implicit())
                } else if bytes_equal(uid, "1.2.840.10008.1.2.4.90".as_bytes()) {
                    Ok(
                        TransferSyntax::with_compression_scheme(
                            CompressionScheme::Jpeg2000Lossless,
                        ),
                    )
                } else {
                    proof {
                        lemma_text_of_bytes(value, bytes@);
                    }
                    Err(DicomError::TransferSyntaxNotSupported(value.to_owned()))
                }
            },
            Value::Sequence(_) => Err(
                DicomError::ConvertTypeExpectBuf("TransferSyntax".to_owned()),
            ),
        }
    }
}

/// Data elements are the basic unit of a DICOM object.
///
/// They are made of:
/// - a Tag that indicates what the element is referring to
/// - an optional ValueRepresentation that gives information about the type of the data.
/// - the length that the element declares for its value
/// - the value: bytes borrowed from the buffer that was parsed, or a sequence of items.
#[derive(Debug)]
pub struct DataElement<'buf> {
    pub tag: Tag,
    pub vr: Option<ValueRepresentation>,
    pub length: u32,
    pub data: Value<'buf>,
}

#[derive(Debug)]
pub enum Value<'a> {
    Buf(&'a [u8]),
    Sequence(Vec<Item<'a>>),
}

/// An item is a list of data elements.
#[derive(Debug)]
pub struct Item<'buf> {
    pub elements: Vec<DataElement<'buf>>,
}

/// What a data element is, apart from where its bytes are stored.
#[verifier::ext_equal]
pub struct ElementModel {
    pub tag: Tag,
    pub vr: Option<VrModel>,
    pub length: u32,
    pub data: ValueModel,
}

/// What a value is: its bytes, or its items in their order.
#[verifier::ext_equal]
pub enum ValueModel {
    Buf(Seq<u8>),
    Sequence(Seq<ItemModel>),
}

/// What an item is: its data elements in their order.
#[verifier::ext_equal]
pub struct ItemModel {
    pub elements: Seq<ElementModel>,
}

pub open spec fn element_model(element: DataElement) -> ElementModel
    decreases element, 0int,
{
    ElementModel {
        tag: element.tag,
        vr: match element.vr {
            Some(vr) => Some(vr@),
            None => None,
        },
        length: element.length,
        data: value_model(element.data),
    }
}

pub open spec fn value_model(value: Value) -> ValueModel
    decreases value, 0int,
{
    match value {
        Value::Buf(bytes) => ValueModel::Buf(bytes@),
        Value::Sequence(items) => ValueModel::Sequence(item_models(items@)),
    }
}

pub open spec fn item_model(item: Item) -> ItemModel
    decreases item, 0int,
{
    ItemModel { elements: element_models(item.elements@) }
}

/// The models of a list of data elements, in the order of the list.
pub open spec fn element_models(elements: Seq<DataElement>) -> Seq<ElementModel>
    decreases elements, 1int,
{
    Seq::new(
        elements.len(),
        |i: int|
            if 0 <= i < elements.len() {
                element_model(elements[i])
            } else {
                arbitrary()
            },
    )
}

/// The models of a list of items, in the order of the list.
pub open spec fn item_models(items: Seq<Item>) -> Seq<ItemModel>
    decreases items, 1int,
{
    Seq::new(
        items.len(),
        |i: int|
            if 0 <= i < items.len() {
                item_model(items[i])
            } else {
                arbitrary()
            },
    )
}

/// The models of a list with one more data element at its end.
pub proof fn lemma_element_models_push(elements: Seq<DataElement>, element: DataElement)
    ensures
        element_models(elements.push(element)) == element_models(elements) + seq![element@],
{
    assert(element_models(elements.push(element)) =~= element_models(elements) + seq![element@]);
}

/// The models of a list with one more item at its end.
pub proof fn lemma_item_models_push(items: Seq<Item>, item: Item)
    ensures
        item_models(items.push(item)) == item_models(items) + seq![item@],
{
    assert(item_models(items.push(item)) =~= item_models(items) + seq![item@]);
}

impl<'buf> View for DataElement<'buf> {
    type V = ElementModel;

    open spec fn view(&self) -> ElementModel {
        element_model(*self)
    }
}

impl<'a> View for Value<'a> {
    type V = ValueModel;

    open spec fn view(&self) -> ValueModel {
        value_model(*self)
    }
}

impl<'buf> View for Item<'buf> {
    type V = ItemModel;

    open spec fn view(&self) -> ItemModel {
        item_model(*self)
    }
}

/// The first data element of the list that has the tag.
pub open spec fn find_element(elements: Seq<ElementModel>, tag: Tag) -> Option<ElementModel>
    decreases elements.len(),
{
    if elements.len() == 0 {
        None
    } else if elements[0].tag == tag {
        Some(elements[0])
    } else {
        find_element(elements.skip(1), tag)
    }
}

/// Represent a DICOM file
#[derive(Debug)]
pub struct DicomObject<'buf> {
    /// All the tags that were parsed from .dcm file
    pub elements: Vec<DataElement<'buf>>,
    /// Transfer syntax extracted from x0002
    pub transfer_syntax: TransferSyntax,
    pub image: Option<DicomImage>,
}

/// What a DICOM object is: its data elements in their order, its transfer
/// syntax and, where it was decoded, its image.
#[verifier::ext_equal]
pub struct ObjectModel {
    pub elements: Seq<ElementModel>,
    pub transfer_syntax: TransferSyntax,
    pub image: Option<ImageModel>,
}

impl<'buf> View for DicomObject<'buf> {
    type V = ObjectModel;

    open spec fn view(&self) -> ObjectModel {
        ObjectModel {
            elements: element_models(self.elements@),
            transfer_syntax: self.transfer_syntax,
            image: match self.image {
                Some(image) => Some(image@),
                None => None,
            },
        }
    }
}

/// Trait to convert a series of bytes to the correct type.
pub trait FromDicomValue: Sized {
    /// Whether `r` is what converting the element gives.
    spec fn conversion(el: ElementModel, transfer_syntax: TransferSyntax, r: Outcome<Self>) -> bool;

    /// Parse the Dicom Type from the bytes
    fn from_element(el: &DataElement, transfer_syntax: &TransferSyntax) -> (r: DicomResult<Self>)
        ensures
            Self::conversion(el@, *transfer_syntax, outcome(r)),
    ;
}

impl<'buf> DicomObject<'buf> {
    pub fn new(elements: Vec<DataElement<'buf>>, transfer_syntax: TransferSyntax) -> (object: Self)
        ensures
            object@ == (ObjectModel {
                elements: element_models(elements@),
                transfer_syntax,
                image: None,
            }),
    {
        Self { elements, transfer_syntax, image: None }
    }

    pub fn append(&mut self, elements: Vec<DataElement<'buf>>)
        ensures
            final(self)@ == (ObjectModel {
                elements: old(self)@.elements + element_models(elements@),
                ..old(self)@
            }),
    {
        let mut elements = elements;
        let ghost added = elements@;
        self.elements.append(&mut elements);
        assert(element_models(self.elements@) =~= element_models(old(self).elements@)
            + element_models(added));
    }

    pub fn elements(&self) -> (elements: &Vec<DataElement<'buf>>)
        ensures
            elements == &self.elements,
    {
        &self.elements
    }

    /// The first data element of the object that has the tag.
    pub fn get_element(&self, tag: Tag) -> (found: Option<&DataElement<'buf>>)
        ensures
            match found {
                Some(element) => find_element(self@.elements, tag) == Some(element@),
                None => find_element(self@.elements, tag) is None,
            },
    {
        let ghost models = element_models(self.elements@);
        let mut i: usize = 0;
        assert(models.skip(0) =~= models);
        while i < self.elements.len()
            invariant
                i <= self.elements@.len(),
                models == element_models(self.elements@),
                find_element(models, tag) == find_element(models.skip(i as int), tag),
            decreases self.elements@.len() - i,
        {
            if self.elements[i].tag == tag {
                return Some(&self.elements[i]);
            }
            assert(models.skip(i as int).skip(1) =~= models.skip(i + 1));
            i += 1;
        }
        None
    }

    /// The value of the first data element that has the tag, as a `T`.
    ///
    /// For a call that cannot fail: the object has the tag and its value can
    /// be converted. Where that is not known, use [`DicomObject::try_get`].
    pub fn get<T: FromDicomValue>(&self, tag: Tag) -> (value: T)
        requires
            find_element(self@.elements, tag) is Some,
            forall|r: Outcome<T>|
                T::conversion(
                    find_element(self@.elements, tag).unwrap(),
                    self.transfer_syntax,
                    r,
                ) ==> r is Ok,
        ensures
            T::conversion(
                find_element(self@.elements, tag).unwrap(),
                self.transfer_syntax,
                Ok(value),
            ),
    {
        match self.try_get(tag) {
            Ok(v) => v,
            Err(_) => vstd::pervasive::unreached(),
        }
    }

    /// The value of the first data element that has the tag, as a `T`.
    pub fn try_get<T: FromDicomValue>(&self, tag: Tag) -> (r: DicomResult<T>)
        ensures
            match find_element(self@.elements, tag) {
                Some(element) => T::conversion(element, self.transfer_syntax, outcome(r)),
                None => outcome(r) == Err::<T, _>(ErrorModel::NoSuchTag(tag)),
            },
    {
        match self.get_element(tag) {
            Some(el) => T::from_element(el, &self.transfer_syntax),
            None => Err(DicomError::NoSuchTag(tag)),
        }
    }
}

/// `std::io::Error`: why a read failed. It is only passed on.
#[verifier::external_type_specification]
#[verifier::external_body]
pub struct ExIoError(std::io::Error);

/// `byteorder::ReadBytesExt::read_u16::<LittleEndian>` on a cursor over the
/// bytes: the number that the first two bytes encode, low byte first; an
/// error where there are fewer than two.
#[verifier::external_body]
fn read_u16_le(data: &[u8]) -> (r: Result<u16, std::io::Error>)
    ensures
        r is Ok <==> data@.len() >= 2,
        r matches Ok(v) ==> v == u16_at(data@, 0, Endianness::Little),
{
    let mut rdr = Cursor::new(data);
    rdr.read_u16::<LittleEndian>()
}

/// `byteorder::ReadBytesExt::read_u16::<BigEndian>` on a cursor over the
/// bytes: the number that the first two bytes encode, high byte first; an
/// error where there are fewer than two.
#[verifier::external_body]
fn read_u16_be(data: &[u8]) -> (r: Result<u16, std::io::Error>)
    ensures
        r is Ok <==> data@.len() >= 2,
        r matches Ok(v) ==> v == u16_at(data@, 0, Endianness::Big),
{
    let mut rdr = Cursor::new(data);
    rdr.read_u16::<BigEndian>()
}

/// The number that the value of a data element is: two bytes in the byte
/// order of the transfer syntax.
pub open spec fn u16_of(el: ElementModel, transfer_syntax: TransferSyntax) -> Outcome<u16> {
    match el.data {
        ValueModel::Sequence(_) => Err(ErrorModel::ConvertTypeExpectBuf("u16"@)),
        ValueModel::Buf(data) => if data.len() != 2 {
            Err(ErrorModel::IoError)
        } else {
            Ok(u16_at(data, 0, transfer_syntax.endianness))
        },
    }
}

impl FromDicomValue for u16 {
    open spec fn conversion(el: ElementModel, transfer_syntax: TransferSyntax, r: Outcome<u16>) -> bool {
        r == u16_of(el, transfer_syntax)
    }

    fn from_element(el: &DataElement, transfer_syntax: &TransferSyntax) -> (r: Result<
        Self,
        DicomError,
    >) {
        if let Value::Buf(data) = el.data {
            if data.len() != 2 {
                return Err(DicomError::IoError);
            }
            let read = if let Endianness::Little = transfer_syntax.endianness() {
                read_u16_le(data)
            } else {
                read_u16_be(data)
            };
            match read {
                Ok(repr) => Ok(repr),
                Err(_) => Err(DicomError::IoError),
            }
        } else {
            Err(DicomError::ConvertTypeExpectBuf("u16".to_owned()))
        }
    }
}

/// The text that the value of a data element is. `wanted` names the type
/// that is asked for, for the error.
pub open spec fn text_value(el: ElementModel, wanted: Seq<char>) -> Outcome<Seq<char>> {
    match el.data {
        ValueModel::Sequence(_) => Err(ErrorModel::ConvertTypeExpectBuf(wanted)),
        ValueModel::Buf(data) => if valid_utf8(data) {
            Ok(text_of(data))
        } else {
            Err(ErrorModel::ParseCS)
        },
    }
}

/// Decodes the value of a data element as UTF-8 text.
fn text_of_element<'a>(el: &DataElement<'a>, wanted: &str) -> (r: DicomResult<&'a str>)
    ensures
        match r {
            Ok(text) => text_value(el@, wanted@) == Ok::<_, ErrorModel>(text@) && el@.data
                == ValueModel::Buf(text.spec_bytes()),
            Err(e) => text_value(el@, wanted@) == Err::<Seq<char>, _>(e@),
        },
{
    if let Value::Buf(data) = el.data {
        match str_from_utf8(data) {
            Ok(text) => {
                proof {
                    lemma_text_of_bytes(text, data@);
                }
                Ok(text)
            },
            Err(_) => Err(DicomError::ParseCS),
        }
    } else {
        Err(DicomError::ConvertTypeExpectBuf(wanted.to_owned()))
    }
}

impl FromDicomValue for String {
    open spec fn conversion(el: ElementModel, transfer_syntax: TransferSyntax, r: Outcome<String>) -> bool {
        match text_value(el, "String"@) {
            Ok(text) => r matches Ok(value) && value@ == text,
            Err(e) => r == Err::<String, _>(e),
        }
    }

    fn from_element(el: &DataElement, _transfer_syntax: &TransferSyntax) -> (r: Result<
        Self,
        DicomError,
    >) {
        match text_of_element(el, "String") {
            Ok(v) => Ok(v.to_owned()),
            Err(e) => Err(e),
        }
    }
}

/// The same DICOM type :) When the VR is known, this will give the correct type.
#[derive(Debug)]
pub enum DicomType {
    Str(Vec<String>),
    UnsignedInt(Vec<u16>),
    Date(Vec<DicomDate>),
    PersonName(Vec<String>),
    Age(Vec<Age>),
    SignedLong(Vec<i32>),
}

#[derive(Debug, Eq, PartialEq, Clone, Copy, Structural)]
pub enum AgeFormat {
    Day,
    Week,
    Month,
    Year,
}

/// Age formatted according to DCM protocol. It's always three digits and the
/// letter of the unit.
#[derive(Debug, Clone, Copy, Eq, PartialEq, Structural)]
pub struct Age {
    pub age: u8,
    pub format: AgeFormat,
}

/// The unit that a text names: `D`, `W`, `M` or `Y`.
pub open spec fn spec_age_format(text: Seq<char>) -> Outcome<AgeFormat> {
    if text == "D"@ {
        Ok(AgeFormat::Day)
    } else if text == "W"@ {
        Ok(AgeFormat::Week)
    } else if text == "M"@ {
        Ok(AgeFormat::Month)
    } else if text == "Y"@ {
        Ok(AgeFormat::Year)
    } else {
        Err(ErrorModel::ParseAS("Unknown age format = "@ + text))
    }
}

/// The age that a text states: four bytes, of which the first three are
/// decimal digits of a number up to 255 and the last is the letter of the
/// unit.
pub open spec fn spec_age(text: Seq<char>) -> Outcome<Age> {
    let length = encode_utf8(text).len();
    if length != 4 {
        Err(
            ErrorModel::ParseAS(
                "The length of the Age String should be 4 (got "@ + decimal_text(length) + ")"@,
            ),
        )
    } else if !(is_ascii_chars(text) && is_digit(text[0]) && is_digit(text[1]) && is_digit(
        text[2],
    )) {
        Err(
            ErrorModel::ParseAS("Cannot get integer = ParseIntError { kind: InvalidDigit }"@),
        )
    } else {
        let number = 100 * digit_value(text[0]) + 10 * digit_value(text[1]) + digit_value(
            text[2],
        );
        if number > 255 {
            Err(
                ErrorModel::ParseAS(
                    "Cannot get integer = ParseIntError { kind: PosOverflow }"@,
                ),
            )
        } else {
            match spec_age_format(text.skip(3)) {
                Ok(format) => Ok(Age { age: number as u8, format }),
                Err(e) => Err(e),
            }
        }
    }
}

impl AgeFormat {
    /// The letter that stands for the unit.
    pub open spec fn letter(self) -> char {
        match self {
            AgeFormat::Day => 'D',
            AgeFormat::Week => 'W',
            AgeFormat::Month => 'M',
            AgeFormat::Year => 'Y',
        }
    }

    pub fn parse_from_str(repr: &str) -> (r: DicomResult<Self>)
        ensures
            outcome(r) == spec_age_format(repr@),
    {
        if str_equal(repr, "D") {
            Ok(AgeFormat::Day)
        } else if str_equal(repr, "W") {
            Ok(AgeFormat::Week)
        } else if str_equal(repr, "M") {
            Ok(AgeFormat::Month)
        } else if str_equal(repr, "Y") {
            Ok(AgeFormat::Year)
        } else {
            let mut reason = "Unknown age format = ".to_owned();
            reason.append(repr);
            Err(DicomError::ParseAS(reason))
        }
    }

    /// The letter of the unit, as a string.
    pub fn to_string(&self) -> (text: String)
        ensures
            text@ == seq![self.letter()],
    {
        let mut text = String::new();
        let letter = match self {
            AgeFormat::Day => 'D',
            AgeFormat::Week => 'W',
            AgeFormat::Month => 'M',
            AgeFormat::Year => 'Y',
        };
        string_push(&mut text, letter);
        assert(text@ =~= seq![self.letter()]);
        text
    }
}

/// An age as it is written: three digits, then the letter of the unit.
pub open spec fn age_text(age: Age) -> Seq<char> {
    seq![
        digit_char((age.age / 100) as nat),
        digit_char(((age.age / 10) % 10) as nat),
        digit_char((age.age % 10) as nat),
        age.format.letter(),
    ]
}

impl Age {
    pub fn parse_from_str(repr: &str) -> (r: DicomResult<Age>)
        ensures
            outcome(r) == spec_age(repr@),
    {
        let length = repr.as_bytes().len();
        if length != 4 {
            let mut reason = "The length of the Age String should be 4 (got ".to_owned();
            push_decimal(&mut reason, length);
            reason.append(")");
            return Err(DicomError::ParseAS(reason));
        }
        if !repr.is_ascii() {
            return Err(
                DicomError::ParseAS(
                    "Cannot get integer = ParseIntError { kind: InvalidDigit }".to_owned(),
                ),
            );
        }
        proof {
            is_ascii_chars_encode_utf8(repr@);
        }
        let d0 = repr.get_ascii(0);
        let d1 = repr.get_ascii(1);
        let d2 = repr.get_ascii(2);
        if !(48 <= d0 && d0 <= 57 && 48 <= d1 && d1 <= 57 && 48 <= d2 && d2 <= 57) {
            return Err(
                DicomError::ParseAS(
                    "Cannot get integer = ParseIntError { kind: InvalidDigit }".to_owned(),
                ),
            );
        }
        let number: u16 = 100 * ((d0 - 48) as u16) + 10 * ((d1 - 48) as u16) + (d2 - 48) as u16;
        if number > 255 {
            return Err(
                DicomError::ParseAS(
                    "Cannot get integer = ParseIntError { kind: PosOverflow }".to_owned(),
                ),
            );
        }
        let unit = repr.substring_ascii(3, 4);
        match AgeFormat::parse_from_str(unit) {
            Ok(format) => Ok(Age { age: number as u8, format }),
            Err(e) => Err(e),
        }
    }

    /// The age as it is written in a DICOM file.
    pub fn to_string(&self) -> (text: String)
        ensures
            text@ == age_text(*self),
    {
        let mut text = String::new();
        string_push(&mut text, digit(self.age / 100));
        string_push(&mut text, digit((self.age / 10) % 10));
        string_push(&mut text, digit(self.age % 10));
        let letter = match self.format {
            AgeFormat::Day => 'D',
            AgeFormat::Week => 'W',
            AgeFormat::Month => 'M',
            AgeFormat::Year => 'Y',
        };
        string_push(&mut text, letter);
        assert(text@ =~= age_text(*self));
        text
    }
}

/// An age that is written and read again is the same age.
pub proof fn lemma_age_round_trip(age: Age)
    ensures
        spec_age(age_text(age)) == Ok::<_, ErrorModel>(age),
{
    let text = age_text(age);
    assert(is_ascii_chars(text));
    is_ascii_chars_encode_utf8(text);
    reveal_strlit("D");
    reveal_strlit("W");
    reveal_strlit("M");
    reveal_strlit("Y");
    assert(text.skip(3) =~= seq![age.format.letter()]);
    assert("D"@ =~= seq!['D']);
    assert("W"@ =~= seq!['W']);
    assert("M"@ =~= seq!['M']);
    assert("Y"@ =~= seq!['Y']);
    assert(seq!['D'][0] == 'D' && seq!['W'][0] == 'W' && seq!['M'][0] == 'M' && seq!['Y'][0]
        == 'Y');
}

impl FromDicomValue for Age {
    open spec fn conversion(el: ElementModel, transfer_syntax: TransferSyntax, r: Outcome<Age>) -> bool {
        match text_value(el, "Age"@) {
            Ok(text) => r == spec_age(text),
            Err(e) => r == Err::<Age, _>(e),
        }
    }

    fn from_element(el: &DataElement, _transfer_syntax: &TransferSyntax) -> (r: Result<
        Self,
        DicomError,
    >) {
        match text_of_element(el, "Age") {
            Ok(repr) => Age::parse_from_str(repr),
            Err(e) => Err(e),
        }
    }
}

/// A calendar date.
#[derive(Debug, Clone, Copy, Eq, PartialEq, Structural)]
pub struct DicomDate {
    pub year: i32,
    pub month: u32,
    pub day: u32,
}

/// `chrono::format::ParseError`: why a text is no date. It is only passed on.
#[verifier::external_type_specification]
#[verifier::external_body]
pub struct ExDateParseError(chrono::format::ParseError);

/// The year, month and day of the date that `chrono` reads from a text by a
/// format of its own notation; `None` where it reads no date.
pub uninterp spec fn chrono_date(text: Seq<char>, format: Seq<char>) -> Option<(i32, u32, u32)>;

/// `chrono::NaiveDate::parse_from_str`, with the date it returns taken
/// apart into year, month and day.
#[verifier::external_body]
fn parse_naive_date(text: &str, format: &str) -> (r: Result<
    (i32, u32, u32),
    chrono::format::ParseError,
>)
    ensures
        r is Ok <==> chrono_date(text@, format@) is Some,
        r matches Ok(date) ==> chrono_date(text@, format@) == Some(date),
{
    match NaiveDate::parse_from_str(text, format) {
        Ok(date) => Ok((date.year(), date.month(), date.day())),
        Err(e) => Err(e),
    }
}

/// Whether a text is eight decimal digits.
pub open spec fn is_date_text(text: Seq<char>) -> bool {
    text.len() == 8 && forall|i: int| 0 <= i < 8 ==> is_digit(#[trigger] text[i])
}

/// The date that a text states: eight digits `YYYYMMDD` that `chrono` reads
/// as a date by the format `%Y%m%d`.
pub open spec fn spec_date(text: Seq<char>) -> Outcome<DicomDate> {
    if !is_date_text(text) {
        Err(ErrorModel::ParseDA)
    } else {
        DicomDate::spec_from_parsed(chrono_date(text, "%Y%m%d"@))
    }
}

impl DicomDate {
    pub open spec fn spec_from_parsed(parsed: Option<(i32, u32, u32)>) -> Outcome<DicomDate> {
        match parsed {
            Some((year, month, day)) => Ok(DicomDate { year, month, day }),
            None => Err(ErrorModel::ParseDA),
        }
    }

    /// The date of a year, month and day that were read, or the error where
    /// none were.
    pub fn from_parsed(parsed: Option<(i32, u32, u32)>) -> (r: DicomResult<DicomDate>)
        ensures
            outcome(r) == DicomDate::spec_from_parsed(parsed),
    {
        match parsed {
            Some((year, month, day)) => Ok(DicomDate { year, month, day }),
            None => Err(DicomError::ParseDA),
        }
    }

    /// Reads a date written as eight digits: four of the year, two of the
    /// month, two of the day.
    pub fn parse_from_str(repr: &str) -> (r: DicomResult<DicomDate>)
        ensures
            outcome(r) == spec_date(repr@),
    {
        if !repr.is_ascii() || repr.as_bytes().len() != 8 {
            proof {
                if is_date_text(repr@) {
                    assert(is_ascii_chars(repr@)) by {
                        assert forall|i: int| 0 <= i < repr@.len() implies '\0' <= #[trigger] repr@[i]
                            <= '\u{7f}' by {
                            assert(is_digit(repr@[i]));
                        }
                    }
                    is_ascii_chars_encode_utf8(repr@);
                }
            }
            return Err(DicomError::ParseDA);
        }
        proof {
            is_ascii_chars_encode_utf8(repr@);
        }
        let mut i: usize = 0;
        while i < 8
            invariant
                i <= 8,
                repr@.len() == 8,
                repr.is_ascii(),
                forall|k: int| 0 <= k < i ==> is_digit(#[trigger] repr@[k]),
            decreases 8 - i,
        {
            let d = repr.get_ascii(i);
            if !(48 <= d && d <= 57) {
                return Err(DicomError::ParseDA);
            }
            i += 1;
        }
        match parse_naive_date(repr, "%Y%m%d") {
            Ok(date) => DicomDate::from_parsed(Some(date)),
            Err(_) => DicomDate::from_parsed(None),
        }
    }
}

impl FromDicomValue for DicomDate {
    open spec fn conversion(el: ElementModel, transfer_syntax: TransferSyntax, r: Outcome<DicomDate>) -> bool {
        match text_value(el, "NaiveDate"@) {
            Ok(text) => r == spec_date(text),
            Err(e) => r == Err::<DicomDate, _>(e),
        }
    }

    fn from_element(el: &DataElement, _transfer_syntax: &TransferSyntax) -> (r: Result<
        Self,
        DicomError,
    >) {
        match text_of_element(el, "NaiveDate") {
            Ok(repr) => DicomDate::parse_from_str(repr),
            Err(e) => Err(e),
        }
    }
}

/// The components of a person's name.
#[derive(Debug, Eq, PartialEq, Clone)]
pub struct PersonName(pub Vec<String>);

impl View for PersonName {
    type V = Seq<Seq<char>>;

    open spec fn view(&self) -> Seq<Seq<char>> {
        Seq::new(self.0@.len(), |i: int| self.0@[i]@)
    }
}

/// The components, put together again with a `^` between each two.
pub open spec fn joined(parts: Seq<Seq<char>>) -> Seq<char>
    decreases parts.len(),
{
    if parts.len() == 0 {
        Seq::empty()
    } else if parts.len() == 1 {
        parts[0]
    } else {
        joined(parts.drop_last()) + seq!['^'] + parts.last()
    }
}

/// `parts` are the components of `text`: the pieces that `^` separates. There
/// is at least one; none holds a `^`; joined again they give the text.
pub open spec fn is_split_of(parts: Seq<Seq<char>>, text: Seq<char>) -> bool {
    &&& parts.len() >= 1
    &&& joined(parts) == text
    &&& forall|i: int, k: int|
        0 <= i < parts.len() && 0 <= k < parts[i].len() ==> #[trigger] parts[i][k] != '^'
}

impl PersonName {
    /// Splits a name at each `^`.
    pub fn parse_from_str(repr: &str) -> (name: PersonName)
        ensures
            is_split_of(name@, repr@),
    {
        let mut done: Vec<String> = Vec::new();
        let mut current = String::new();
        let ghost mut parts: Seq<Seq<char>> = Seq::empty();
        for c in it: repr.chars()
            invariant
                it.seq() == repr@,
                parts == Seq::new(done@.len(), |i: int| done@[i]@),
                joined(parts.push(current@)) == repr@.take(it.index() as int),
                forall|i: int, k: int|
                    0 <= i < parts.len() && 0 <= k < parts[i].len() ==> #[trigger] parts[i][k]
                        != '^',
                forall|k: int| 0 <= k < current@.len() ==> current@[k] != '^',
        {
            let ghost before = parts.push(current@);
            if c == '^' {
                done.push(current);
                current = String::new();
                proof {
                    parts = before;
                    assert(parts.push(current@).drop_last() =~= before);
                    assert(repr@.take(it.index() + 1) =~= repr@.take(it.index() as int) + seq![
                        '^',
                    ] + Seq::<char>::empty());
                    assert(parts =~= Seq::new(done@.len(), |i: int| done@[i]@));
                }
            } else {
                string_push(&mut current, c);
                proof {
                    let after = parts.push(current@);
                    assert(repr@.take(it.index() + 1) =~= repr@.take(it.index() as int).push(c));
                    if parts.len() == 0 {
                        assert(joined(after) == current@);
                        assert(joined(before) == before[0]);
                    } else {
                        assert(after.drop_last() =~= parts);
                        assert(before.drop_last() =~= parts);
                        assert(joined(after) =~= joined(before).push(c));
                    }
                }
            }
        }
        done.push(current);
        let name = PersonName(done);
        proof {
            assert(name@ =~= parts.push(current@));
            assert(repr@.take(repr@.len() as int) =~= repr@);
        }
        name
    }
}

impl FromDicomValue for PersonName {
    open spec fn conversion(el: ElementModel, transfer_syntax: TransferSyntax, r: Outcome<PersonName>) -> bool {
        match text_value(el, "PersonName"@) {
            Ok(text) => r matches Ok(name) && is_split_of(name@, text),
            Err(e) => r == Err::<PersonName, _>(e),
        }
    }

    fn from_element(el: &DataElement, _transfer_syntax: &TransferSyntax) -> (r: Result<
        Self,
        DicomError,
    >) {
        match text_of_element(el, "PersonName") {
            Ok(repr) => Ok(PersonName::parse_from_str(repr)),
            Err(e) => Err(e),
        }
    }
}

} // verus!
