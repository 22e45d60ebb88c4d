//! A reader for DICOM files: the tagged metadata elements of a byte buffer
//! and, where the encoding is supported, its grayscale pixel data.
//!
//! Every parser is a function from bytes to a value and the bytes that
//! follow it. What each one accepts and returns is stated over `Seq<u8>` by
//! the spec functions of [`parser`]; the data types are described by the
//! models of [`types`].

pub mod error;
pub mod img;
pub mod parser;
pub mod tag;
pub mod text;
pub mod types;
pub mod vr;

/*
    Crate exports.
*/
pub use error::{DicomError, DicomResult, ParseFailure};
pub use img::DicomImage;
pub use parser::obj::Parser;
pub use tag::Tag;
pub use types::{DicomObject, Endianness, TransferSyntax};
pub use vr::ValueRepresentation;
