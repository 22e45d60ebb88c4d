//! The ways in which reading a DICOM buffer can fail.

use crate::tag::Tag;
use crate::vr::{ValueRepresentation, VrModel};
use vstd::prelude::*;
use vstd::string::StringExecFns;

verus! {

/// Why a parser gave up on its input.
#[derive(Debug, Clone, Copy, PartialEq, Eq, Structural)]
pub enum ParseFailure {
    /// The input ends before the value does.
    Incomplete,
    /// The 128-byte preamble is not followed by the letters `DICM`.
    BadMagic,
    /// A byte of a value representation is not an ASCII letter.
    InvalidVr,
    /// Another tag stands where a fixed one is required.
    UnexpectedTag(Tag),
    /// Sequences are nested more deeply than the parser was told to follow.
    DepthExceeded,
    /// The elements of an item take more bytes than the item declares.
    LengthOverrun,
}

#[derive(Debug, Clone, PartialEq, Eq)]
pub enum DicomError {
    /// The bytes are not laid out as a DICOM file is.
    ParseError(ParseFailure),
    CannotReadHeader,
    /// A value ended before all of its bytes were read.
    IoError,
    UnknownTag,
    /// The bytes of a value are no UTF-8 text.
    ParseCS,
    /// A sequence stands where bytes are needed; holds the name of the type
    /// that was asked for.
    ConvertTypeExpectBuf(String),
    /// The text of a value is no date.
    ParseDA,
    /// The text of a value is no age; holds the reason.
    ParseAS(String),
    ParseIS,
    /// The pixel data cannot be decoded: the sample layout is not supported.
    ImageFormatNotSupported,
    ImageError,
    MissingTag(Tag),
    /// Holds the transfer syntax UID that is not supported.
    TransferSyntaxNotSupported(String),
    VrValueNotImplementated(ValueRepresentation),
    /// The object holds no element with this tag.
    NoSuchTag(Tag),
    /// The file does not start with an element of group 2; holds the tag
    /// that was found.
    ExpectedGroup2(Tag),
}

/// What an error is, with its texts as sequences of characters.
#[verifier::ext_equal]
pub enum ErrorModel {
    ParseError(ParseFailure),
    CannotReadHeader,
    IoError,
    UnknownTag,
    ParseCS,
    ConvertTypeExpectBuf(Seq<char>),
    ParseDA,
    ParseAS(Seq<char>),
    ParseIS,
    ImageFormatNotSupported,
    ImageError,
    MissingTag(Tag),
    TransferSyntaxNotSupported(Seq<char>),
    VrValueNotImplementated(VrModel),
    NoSuchTag(Tag),
    ExpectedGroup2(Tag),
}

impl View for DicomError {
    type V = ErrorModel;

    open spec fn view(&self) -> ErrorModel {
        match *self {
            DicomError::ParseError(failure) => ErrorModel::ParseError(failure),
            DicomError::CannotReadHeader => ErrorModel::CannotReadHeader,
            DicomError::IoError => ErrorModel::IoError,
            DicomError::UnknownTag => ErrorModel::UnknownTag,
            DicomError::ParseCS => ErrorModel::ParseCS,
            DicomError::ConvertTypeExpectBuf(name) => ErrorModel::ConvertTypeExpectBuf(name@),
            DicomError::ParseDA => ErrorModel::ParseDA,
            DicomError::ParseAS(reason) => ErrorModel::ParseAS(reason@),
            DicomError::ParseIS => ErrorModel::ParseIS,
            DicomError::ImageFormatNotSupported => ErrorModel::ImageFormatNotSupported,
            DicomError::ImageError => ErrorModel::ImageError,
            DicomError::MissingTag(tag) => ErrorModel::MissingTag(tag),
            DicomError::TransferSyntaxNotSupported(uid) => ErrorModel::TransferSyntaxNotSupported(
                uid@,
            ),
            DicomError::VrValueNotImplementated(vr) => ErrorModel::VrValueNotImplementated(vr@),
            DicomError::NoSuchTag(tag) => ErrorModel::NoSuchTag(tag),
            DicomError::ExpectedGroup2(tag) => ErrorModel::ExpectedGroup2(tag),
        }
    }
}

pub type DicomResult<T> = Result<T, DicomError>;

/// What a function is to return: the value, or the model of the error.
pub type Outcome<T> = Result<T, ErrorModel>;

/// What a function returned, with the error as its model.
pub open spec fn outcome<T>(r: DicomResult<T>) -> Outcome<T> {
    match r {
        Ok(value) => Ok(value),
        Err(e) => Err(e@),
    }
}

/// The failure of a parser as the error of the library.
pub open spec fn parse_error<T>(failure: ParseFailure) -> Outcome<T> {
    Err(ErrorModel::ParseError(failure))
}

impl ParseFailure {
    /// The failure in words.
    pub open spec fn message(self) -> Seq<char> {
        match self {
            ParseFailure::Incomplete => "Parsing requires more data"@,
            ParseFailure::BadMagic => "Parsing Error: the header does not hold DICM"@,
            ParseFailure::InvalidVr => "Parsing Error: a value representation is not two letters"@,
            ParseFailure::UnexpectedTag(tag) => "Parsing Error: unexpected tag "@
                + tag.labelled_name(),
            ParseFailure::DepthExceeded => "Parsing Error: sequences are nested too deeply"@,
            ParseFailure::LengthOverrun => "Parsing Error: an item is longer than it declares"@,
        }
    }

    /// The failure in words, as a string.
    pub fn to_string(&self) -> (text: String)
        ensures
            text@ == self.message(),
    {
        match self {
            ParseFailure::Incomplete => "Parsing requires more data".to_owned(),
            ParseFailure::BadMagic => "Parsing Error: the header does not hold DICM".to_owned(),
            ParseFailure::InvalidVr => "Parsing Error: a value representation is not two letters".to_owned(),
            ParseFailure::UnexpectedTag(tag) => {
                let mut text = "Parsing Error: unexpected tag ".to_owned();
                let name = tag.debug_string();
                text.append(name.as_str());
                text
            },
            ParseFailure::DepthExceeded => "Parsing Error: sequences are nested too deeply".to_owned(),
            ParseFailure::LengthOverrun => "Parsing Error: an item is longer than it declares".to_owned(),
        }
    }
}

impl ErrorModel {
    /// The error in words, on one line.
    pub open spec fn message(self) -> Seq<char> {
        match self {
            ErrorModel::ParseError(failure) => "Error while parsing = "@ + failure.message(),
            ErrorModel::CannotReadHeader => "Cannot read header"@,
            ErrorModel::IoError => "failed to fill whole buffer"@,
            ErrorModel::UnknownTag => "Could not parse tag"@,
            ErrorModel::ParseCS => "Cannot convert VR CS to string = invalid utf-8 sequence"@,
            ErrorModel::ConvertTypeExpectBuf(name) => "Cannot convert to "@ + name
                + ": expect Buf but got sequence"@,
            ErrorModel::ParseDA => "Cannot convert VR DA to timestamp = input is not a date"@,
            ErrorModel::ParseAS(reason) => "Cannot parse AS to Age = "@ + reason,
            ErrorModel::ParseIS => "invalid digit found in string"@,
            ErrorModel::ImageFormatNotSupported => "Cannot save to PNG, image format is not supported"@,
            ErrorModel::ImageError => "The image could not be encoded"@,
            ErrorModel::MissingTag(tag) => "Missing Tag: "@ + tag.name(),
            ErrorModel::TransferSyntaxNotSupported(uid) => "Transfer syntax is not supported: "@
                + uid,
            ErrorModel::VrValueNotImplementated(vr) => "Cannot get value from ValueRepresentation: "@
                + vr.description(),
            ErrorModel::NoSuchTag(tag) => "No tag "@ + tag.labelled_name()
                + " in Dicom object. Did you forget to parse it?"@,
            ErrorModel::ExpectedGroup2(tag) => "First group should be 0x0002 but got "@
                + tag.labelled_name() + " instead"@,
        }
    }
}

impl DicomError {
    /// The error in words, on one line.
    pub fn to_string(&self) -> (text: String)
        ensures
            text@ == self@.message(),
    {
        match self {
            DicomError::ParseError(failure) => {
                let mut text = "Error while parsing = ".to_owned();
                let reason = failure.to_string();
                text.append(reason.as_str());
                text
            },
            DicomError::CannotReadHeader => "Cannot read header".to_owned(),
            DicomError::IoError => "failed to fill whole buffer".to_owned(),
            DicomError::UnknownTag => "Could not parse tag".to_owned(),
            DicomError::ParseCS => "Cannot convert VR CS to string = invalid utf-8 sequence".to_owned(),
            DicomError::ConvertTypeExpectBuf(name) => {
                let mut text = "Cannot convert to ".to_owned();
                text.append(name.as_str());
                text.append(": expect Buf but got sequence");
                text
            },
            DicomError::ParseDA => "Cannot convert VR DA to timestamp = input is not a date".to_owned(),
            DicomError::ParseAS(reason) => {
                let mut text = "Cannot parse AS to Age = ".to_owned();
                text.append(reason.as_str());
                text
            },
            DicomError::ParseIS => "invalid digit found in string".to_owned(),
            DicomError::ImageFormatNotSupported => "Cannot save to PNG, image format is not supported".to_owned(),
            DicomError::ImageError => "The image could not be encoded".to_owned(),
            DicomError::MissingTag(tag) => {
                let mut text = "Missing Tag: ".to_owned();
                let name = tag.to_string();
                text.append(name.as_str());
                text
            },
            DicomError::TransferSyntaxNotSupported(uid) => {
                let mut text = "Transfer syntax is not supported: ".to_owned();
                text.append(uid.as_str());
                text
            },
            DicomError::VrValueNotImplementated(vr) => {
                let mut text = "Cannot get value from ValueRepresentation: ".to_owned();
                let name = vr.to_string();
                text.append(name.as_str());
                text
            },
            DicomError::NoSuchTag(tag) => {
                let mut text = "No tag ".to_owned();
                let name = tag.debug_string();
                text.append(name.as_str());
                text.append(" in Dicom object. Did you forget to parse it?");
                text
            },
            DicomError::ExpectedGroup2(tag) => {
                let mut text = "First group should be 0x0002 but got ".to_owned();
                let name = tag.debug_string();
                text.append(name.as_str());
                text.append(" instead");
                text
            },
        }
    }
}

} // verus!
