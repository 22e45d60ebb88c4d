//! Tags name the fields of a DICOM object. A tag is two 16-bit numbers,
//! written `gggg,eeee`: the group and the element.
//!
//! The tags of the dictionary have a variant each, named `xGGGGxEEEE`; any
//! other pair of numbers is kept as `Tag::UNKNOWN(group, element)`.

use crate::text::{hex_text, push_hex, str_equal};
use vstd::string::StringExecFns;
use vstd::prelude::*;

verus! {

#[allow(non_camel_case_types)]
#[derive(Debug, Clone, Copy, PartialEq, Eq, Hash, Structural)]
pub enum Tag {
    /// (0002,0000) File Meta Information Group Length
    x0002x0000,
    /// (0002,0001) File Meta Information Version
    x0002x0001,
    /// (0002,0002) Media Storage SOP Class UID
    x0002x0002,
    /// (0002,0003) Media Storage SOP Instance UID
    x0002x0003,
    /// (0002,0010) Transfer Syntax UID
    x0002x0010,
    /// (0002,0012) Implementation Class UID
    x0002x0012,
    /// (0002,0013) Implementation Version Name
    x0002x0013,
    /// (0008,0016) SOP Class UID
    x0008x0016,
    /// (0008,0018) SOP Instance UID
    x0008x0018,
    /// (0008,0020) Study Date
    x0008x0020,
    /// (0008,0060) Modality
    x0008x0060,
    /// (0008,0100) Code Value
    x0008x0100,
    /// (0008,0102) Coding Scheme Designator
    x0008x0102,
    /// (0008,0104) Code Meaning
    x0008x0104,
    /// (0010,0010) Patient's Name
    x0010x0010,
    /// (0010,0020) Patient ID
    x0010x0020,
    /// (0010,0030) Patient's Birth Date
    x0010x0030,
    /// (0010,0040) Patient's Sex
    x0010x0040,
    /// (0010,1010) Patient's Age
    x0010x1010,
    /// (0028,0002) Samples per Pixel
    x0028x0002,
    /// (0028,0004) Photometric Interpretation
    x0028x0004,
    /// (0028,0008) Number of Frames
    x0028x0008,
    /// (0028,0010) Rows
    x0028x0010,
    /// (0028,0011) Columns
    x0028x0011,
    /// (0028,0100) Bits Allocated
    x0028x0100,
    /// (0028,0101) Bits Stored
    x0028x0101,
    /// (0028,0102) High Bit
    x0028x0102,
    /// (0028,0103) Pixel Representation
    x0028x0103,
    /// (0028,1050) Window Center
    x0028x1050,
    /// (0028,1051) Window Width
    x0028x1051,
    /// (7FE0,0010) Pixel Data
    x7FE0x0010,
    /// (FFFE,E000) Item
    xFFFExE000,
    /// (FFFE,E00D) Item Delimitation Item
    xFFFExE00D,
    /// (FFFE,E0DD) Sequence Delimitation Item
    xFFFExE0DD,
    /// A tag that the dictionary does not list.
    UNKNOWN(u16, u16),
}

impl Tag {
    /// The tag that a group and an element number stand for.
    #[verifier::opaque]
    pub open spec fn spec_from_values(group: u16, element: u16) -> Tag {
        if group == 0x0002 && element == 0x0000 {
            Tag::x0002x0000
        } else if group == 0x0002 && element == 0x0001 {
            Tag::x0002x0001
        } else if group == 0x0002 && element == 0x0002 {
            Tag::x0002x0002
        } else if group == 0x0002 && element == 0x0003 {
            Tag::x0002x0003
        } else if group == 0x0002 && element == 0x0010 {
            Tag::x0002x0010
        } else if group == 0x0002 && element == 0x0012 {
            Tag::x0002x0012
        } else if group == 0x0002 && element == 0x0013 {
            Tag::x0002x0013
        } else if group == 0x0008 && element == 0x0016 {
            Tag::x0008x0016
        } else if group == 0x0008 && element == 0x0018 {
            Tag::x0008x0018
        } else if group == 0x0008 && element == 0x0020 {
            Tag::x0008x0020
        } else if group == 0x0008 && element == 0x0060 {
            Tag::x0008x0060
        } else if group == 0x0008 && element == 0x0100 {
            Tag::x0008x0100
        } else if group == 0x0008 && element == 0x0102 {
            Tag::x0008x0102
        } else if group == 0x0008 && element == 0x0104 {
            Tag::x0008x0104
        } else if group == 0x0010 && element == 0x0010 {
            Tag::x0010x0010
        } else if group == 0x0010 && element == 0x0020 {
            Tag::x0010x0020
        } else if group == 0x0010 && element == 0x0030 {
            Tag::x0010x0030
        } else if group == 0x0010 && element == 0x0040 {
            Tag::x0010x0040
        } else if group == 0x0010 && element == 0x1010 {
            Tag::x0010x1010
        } else if group == 0x0028 && element == 0x0002 {
            Tag::x0028x0002
        } else if group == 0x0028 && element == 0x0004 {
            Tag::x0028x0004
        } else if group == 0x0028 && element == 0x0008 {
            Tag::x0028x0008
        } else if group == 0x0028 && element == 0x0010 {
            Tag::x0028x0010
        } else if group == 0x0028 && element == 0x0011 {
            Tag::x0028x0011
        } else if group == 0x0028 && element == 0x0100 {
            Tag::x0028x0100
        } else if group == 0x0028 && element == 0x0101 {
            Tag::x0028x0101
        } else if group == 0x0028 && element == 0x0102 {
            Tag::x0028x0102
        } else if group == 0x0028 && element == 0x0103 {
            Tag::x0028x0103
        } else if group == 0x0028 && element == 0x1050 {
            Tag::x0028x1050
        } else if group == 0x0028 && element == 0x1051 {
            Tag::x0028x1051
        } else if group == 0x7FE0 && element == 0x0010 {
            Tag::x7FE0x0010
        } else if group == 0xFFFE && element == 0xE000 {
            Tag::xFFFExE000
        } else if group == 0xFFFE && element == 0xE00D {
            Tag::xFFFExE00D
        } else if group == 0xFFFE && element == 0xE0DD {
            Tag::xFFFExE0DD
        } else {
            Tag::UNKNOWN(group, element)
        }
    }

    /// The group number of the tag.
    pub open spec fn group(self) -> u16 {
        match self {
            Tag::x0002x0000 => 0x0002,
            Tag::x0002x0001 => 0x0002,
            Tag::x0002x0002 => 0x0002,
            Tag::x0002x0003 => 0x0002,
            Tag::x0002x0010 => 0x0002,
            Tag::x0002x0012 => 0x0002,
            Tag::x0002x0013 => 0x0002,
            Tag::x0008x0016 => 0x0008,
            Tag::x0008x0018 => 0x0008,
            Tag::x0008x0020 => 0x0008,
            Tag::x0008x0060 => 0x0008,
            Tag::x0008x0100 => 0x0008,
            Tag::x0008x0102 => 0x0008,
            Tag::x0008x0104 => 0x0008,
            Tag::x0010x0010 => 0x0010,
            Tag::x0010x0020 => 0x0010,
            Tag::x0010x0030 => 0x0010,
            Tag::x0010x0040 => 0x0010,
            Tag::x0010x1010 => 0x0010,
            Tag::x0028x0002 => 0x0028,
            Tag::x0028x0004 => 0x0028,
            Tag::x0028x0008 => 0x0028,
            Tag::x0028x0010 => 0x0028,
            Tag::x0028x0011 => 0x0028,
            Tag::x0028x0100 => 0x0028,
            Tag::x0028x0101 => 0x0028,
            Tag::x0028x0102 => 0x0028,
            Tag::x0028x0103 => 0x0028,
            Tag::x0028x1050 => 0x0028,
            Tag::x0028x1051 => 0x0028,
            Tag::x7FE0x0010 => 0x7FE0,
            Tag::xFFFExE000 => 0xFFFE,
            Tag::xFFFExE00D => 0xFFFE,
            Tag::xFFFExE0DD => 0xFFFE,
            Tag::UNKNOWN(group, _) => group,
        }
    }

    /// The element number of the tag.
    pub open spec fn element(self) -> u16 {
        match self {
            Tag::x0002x0000 => 0x0000,
            Tag::x0002x0001 => 0x0001,
            Tag::x0002x0002 => 0x0002,
            Tag::x0002x0003 => 0x0003,
            Tag::x0002x0010 => 0x0010,
            Tag::x0002x0012 => 0x0012,
            Tag::x0002x0013 => 0x0013,
            Tag::x0008x0016 => 0x0016,
            Tag::x0008x0018 => 0x0018,
            Tag::x0008x0020 => 0x0020,
            Tag::x0008x0060 => 0x0060,
            Tag::x0008x0100 => 0x0100,
            Tag::x0008x0102 => 0x0102,
            Tag::x0008x0104 => 0x0104,
            Tag::x0010x0010 => 0x0010,
            Tag::x0010x0020 => 0x0020,
            Tag::x0010x0030 => 0x0030,
            Tag::x0010x0040 => 0x0040,
            Tag::x0010x1010 => 0x1010,
            Tag::x0028x0002 => 0x0002,
            Tag::x0028x0004 => 0x0004,
            Tag::x0028x0008 => 0x0008,
            Tag::x0028x0010 => 0x0010,
            Tag::x0028x0011 => 0x0011,
            Tag::x0028x0100 => 0x0100,
            Tag::x0028x0101 => 0x0101,
            Tag::x0028x0102 => 0x0102,
            Tag::x0028x0103 => 0x0103,
            Tag::x0028x1050 => 0x1050,
            Tag::x0028x1051 => 0x1051,
            Tag::x7FE0x0010 => 0x0010,
            Tag::xFFFExE000 => 0xE000,
            Tag::xFFFExE00D => 0xE00D,
            Tag::xFFFExE0DD => 0xE0DD,
            Tag::UNKNOWN(_, element) => element,
        }
    }

    /// The keyword of the tag; `Unknown` for a tag outside the dictionary.
    pub open spec fn keyword(self) -> Seq<char> {
        match self {
            Tag::x0002x0000 => "FileMetaInformationGroupLength"@,
            Tag::x0002x0001 => "FileMetaInformationVersion"@,
            Tag::x0002x0002 => "MediaStorageSOPClassUID"@,
            Tag::x0002x0003 => "MediaStorageSOPInstanceUID"@,
            Tag::x0002x0010 => "TransferSyntaxUID"@,
            Tag::x0002x0012 => "ImplementationClassUID"@,
            Tag::x0002x0013 => "ImplementationVersionName"@,
            Tag::x0008x0016 => "SOPClassUID"@,
            Tag::x0008x0018 => "SOPInstanceUID"@,
            Tag::x0008x0020 => "StudyDate"@,
            Tag::x0008x0060 => "Modality"@,
            Tag::x0008x0100 => "CodeValue"@,
            Tag::x0008x0102 => "CodingSchemeDesignator"@,
            Tag::x0008x0104 => "CodeMeaning"@,
            Tag::x0010x0010 => "PatientName"@,
            Tag::x0010x0020 => "PatientID"@,
            Tag::x0010x0030 => "PatientBirthDate"@,
            Tag::x0010x0040 => "PatientSex"@,
            Tag::x0010x1010 => "PatientAge"@,
            Tag::x0028x0002 => "SamplesPerPixel"@,
            Tag::x0028x0004 => "PhotometricInterpretation"@,
            Tag::x0028x0008 => "NumberOfFrames"@,
            Tag::x0028x0010 => "Rows"@,
            Tag::x0028x0011 => "Columns"@,
            Tag::x0028x0100 => "BitsAllocated"@,
            Tag::x0028x0101 => "BitsStored"@,
            Tag::x0028x0102 => "HighBit"@,
            Tag::x0028x0103 => "PixelRepresentation"@,
            Tag::x0028x1050 => "WindowCenter"@,
            Tag::x0028x1051 => "WindowWidth"@,
            Tag::x7FE0x0010 => "PixelData"@,
            Tag::xFFFExE000 => "Item"@,
            Tag::xFFFExE00D => "ItemDelimitationItem"@,
            Tag::xFFFExE0DD => "SequenceDelimitationItem"@,
            Tag::UNKNOWN(_, _) => "Unknown"@,
        }
    }

    /// The tag of the dictionary that has the given keyword.
    pub open spec fn spec_lookup_by_kw(kw: Seq<char>) -> Option<Tag> {
        if kw == "FileMetaInformationGroupLength"@ {
            Some(Tag::x0002x0000)
        } else if kw == "FileMetaInformationVersion"@ {
            Some(Tag::x0002x0001)
        } else if kw == "MediaStorageSOPClassUID"@ {
            Some(Tag::x0002x0002)
        } else if kw == "MediaStorageSOPInstanceUID"@ {
            Some(Tag::x0002x0003)
        } else if kw == "TransferSyntaxUID"@ {
            Some(Tag::x0002x0010)
        } else if kw == "ImplementationClassUID"@ {
            Some(Tag::x0002x0012)
        } else if kw == "ImplementationVersionName"@ {
            Some(Tag::x0002x0013)
        } else if kw == "SOPClassUID"@ {
            Some(Tag::x0008x0016)
        } else if kw == "SOPInstanceUID"@ {
            Some(Tag::x0008x0018)
        } else if kw == "StudyDate"@ {
            Some(Tag::x0008x0020)
        } else if kw == "Modality"@ {
            Some(Tag::x0008x0060)
        } else if kw == "CodeValue"@ {
            Some(Tag::x0008x0100)
        } else if kw == "CodingSchemeDesignator"@ {
            Some(Tag::x0008x0102)
        } else if kw == "CodeMeaning"@ {
            Some(Tag::x0008x0104)
        } else if kw == "PatientName"@ {
            Some(Tag::x0010x0010)
        } else if kw == "PatientID"@ {
            Some(Tag::x0010x0020)
        } else if kw == "PatientBirthDate"@ {
            Some(Tag::x0010x0030)
        } else if kw == "PatientSex"@ {
            Some(Tag::x0010x0040)
        } else if kw == "PatientAge"@ {
            Some(Tag::x0010x1010)
        } else if kw == "SamplesPerPixel"@ {
            Some(Tag::x0028x0002)
        } else if kw == "PhotometricInterpretation"@ {
            Some(Tag::x0028x0004)
        } else if kw == "NumberOfFrames"@ {
            Some(Tag::x0028x0008)
        } else if kw == "Rows"@ {
            Some(Tag::x0028x0010)
        } else if kw == "Columns"@ {
            Some(Tag::x0028x0011)
        } else if kw == "BitsAllocated"@ {
            Some(Tag::x0028x0100)
        } else if kw == "BitsStored"@ {
            Some(Tag::x0028x0101)
        } else if kw == "HighBit"@ {
            Some(Tag::x0028x0102)
        } else if kw == "PixelRepresentation"@ {
            Some(Tag::x0028x0103)
        } else if kw == "WindowCenter"@ {
            Some(Tag::x0028x1050)
        } else if kw == "WindowWidth"@ {
            Some(Tag::x0028x1051)
        } else if kw == "PixelData"@ {
            Some(Tag::x7FE0x0010)
        } else if kw == "Item"@ {
            Some(Tag::xFFFExE000)
        } else if kw == "ItemDelimitationItem"@ {
            Some(Tag::xFFFExE00D)
        } else if kw == "SequenceDelimitationItem"@ {
            Some(Tag::xFFFExE0DD)
        } else {
            None
        }
    }

    /// A tag is canonical when it is the one that its two numbers stand
    /// for: an `UNKNOWN` tag is canonical only outside the dictionary.
    pub open spec fn canonical(self) -> bool {
        Tag::spec_from_values(self.group(), self.element()) == self
    }

    /// The name that the standard gives the tag; for a tag outside the
    /// dictionary, its two numbers.
    pub open spec fn name(self) -> Seq<char> {
        match self {
            Tag::x0002x0000 => "File Meta Information Group Length"@,
            Tag::x0002x0001 => "File Meta Information Version"@,
            Tag::x0002x0002 => "Media Storage SOP Class UID"@,
            Tag::x0002x0003 => "Media Storage SOP Instance UID"@,
            Tag::x0002x0010 => "Transfer Syntax UID"@,
            Tag::x0002x0012 => "Implementation Class UID"@,
            Tag::x0002x0013 => "Implementation Version Name"@,
            Tag::x0008x0016 => "SOP Class UID"@,
            Tag::x0008x0018 => "SOP Instance UID"@,
            Tag::x0008x0020 => "Study Date"@,
            Tag::x0008x0060 => "Modality"@,
            Tag::x0008x0100 => "Code Value"@,
            Tag::x0008x0102 => "Coding Scheme Designator"@,
            Tag::x0008x0104 => "Code Meaning"@,
            Tag::x0010x0010 => "Patient's Name"@,
            Tag::x0010x0020 => "Patient ID"@,
            Tag::x0010x0030 => "Patient's Birth Date"@,
            Tag::x0010x0040 => "Patient's Sex"@,
            Tag::x0010x1010 => "Patient's Age"@,
            Tag::x0028x0002 => "Samples per Pixel"@,
            Tag::x0028x0004 => "Photometric Interpretation"@,
            Tag::x0028x0008 => "Number of Frames"@,
            Tag::x0028x0010 => "Rows"@,
            Tag::x0028x0011 => "Columns"@,
            Tag::x0028x0100 => "Bits Allocated"@,
            Tag::x0028x0101 => "Bits Stored"@,
            Tag::x0028x0102 => "High Bit"@,
            Tag::x0028x0103 => "Pixel Representation"@,
            Tag::x0028x1050 => "Window Center"@,
            Tag::x0028x1051 => "Window Width"@,
            Tag::x7FE0x0010 => "Pixel Data"@,
            Tag::xFFFExE000 => "Item"@,
            Tag::xFFFExE00D => "Item Delimitation Item"@,
            Tag::xFFFExE0DD => "Sequence Delimitation Item"@,
            Tag::UNKNOWN(group, element) => "Unkown tag: x"@ + hex_text(group as nat) + ", x"@
                + hex_text(element as nat),
        }
    }

    /// The tag written with the name of its variant in front of its name.
    pub open spec fn labelled_name(self) -> Seq<char> {
        match self {
            Tag::x0002x0000 => "x0002x0000: "@ + self.name(),
            Tag::x0002x0001 => "x0002x0001: "@ + self.name(),
            Tag::x0002x0002 => "x0002x0002: "@ + self.name(),
            Tag::x0002x0003 => "x0002x0003: "@ + self.name(),
            Tag::x0002x0010 => "x0002x0010: "@ + self.name(),
            Tag::x0002x0012 => "x0002x0012: "@ + self.name(),
            Tag::x0002x0013 => "x0002x0013: "@ + self.name(),
            Tag::x0008x0016 => "x0008x0016: "@ + self.name(),
            Tag::x0008x0018 => "x0008x0018: "@ + self.name(),
            Tag::x0008x0020 => "x0008x0020: "@ + self.name(),
            Tag::x0008x0060 => "x0008x0060: "@ + self.name(),
            Tag::x0008x0100 => "x0008x0100: "@ + self.name(),
            Tag::x0008x0102 => "x0008x0102: "@ + self.name(),
            Tag::x0008x0104 => "x0008x0104: "@ + self.name(),
            Tag::x0010x0010 => "x0010x0010: "@ + self.name(),
            Tag::x0010x0020 => "x0010x0020: "@ + self.name(),
            Tag::x0010x0030 => "x0010x0030: "@ + self.name(),
            Tag::x0010x0040 => "x0010x0040: "@ + self.name(),
            Tag::x0010x1010 => "x0010x1010: "@ + self.name(),
            Tag::x0028x0002 => "x0028x0002: "@ + self.name(),
            Tag::x0028x0004 => "x0028x0004: "@ + self.name(),
            Tag::x0028x0008 => "x0028x0008: "@ + self.name(),
            Tag::x0028x0010 => "x0028x0010: "@ + self.name(),
            Tag::x0028x0011 => "x0028x0011: "@ + self.name(),
            Tag::x0028x0100 => "x0028x0100: "@ + self.name(),
            Tag::x0028x0101 => "x0028x0101: "@ + self.name(),
            Tag::x0028x0102 => "x0028x0102: "@ + self.name(),
            Tag::x0028x0103 => "x0028x0103: "@ + self.name(),
            Tag::x0028x1050 => "x0028x1050: "@ + self.name(),
            Tag::x0028x1051 => "x0028x1051: "@ + self.name(),
            Tag::x7FE0x0010 => "x7FE0x0010: "@ + self.name(),
            Tag::xFFFExE000 => "xFFFExE000: "@ + self.name(),
            Tag::xFFFExE00D => "xFFFExE00D: "@ + self.name(),
            Tag::xFFFExE0DD => "xFFFExE0DD: "@ + self.name(),
            Tag::UNKNOWN(_, _) => self.name(),
        }
    }

    pub fn from_values(group: u16, element: u16) -> (tag: Tag)
        ensures
            tag == Tag::spec_from_values(group, element),
    {
        reveal(Tag::spec_from_values);
        match (group, element) {
            (0x0002, 0x0000) => Tag::x0002x0000,
            (0x0002, 0x0001) => Tag::x0002x0001,
            (0x0002, 0x0002) => Tag::x0002x0002,
            (0x0002, 0x0003) => Tag::x0002x0003,
            (0x0002, 0x0010) => Tag::x0002x0010,
            (0x0002, 0x0012) => Tag::x0002x0012,
            (0x0002, 0x0013) => Tag::x0002x0013,
            (0x0008, 0x0016) => Tag::x0008x0016,
            (0x0008, 0x0018) => Tag::x0008x0018,
            (0x0008, 0x0020) => Tag::x0008x0020,
            (0x0008, 0x0060) => Tag::x0008x0060,
            (0x0008, 0x0100) => Tag::x0008x0100,
            (0x0008, 0x0102) => Tag::x0008x0102,
            (0x0008, 0x0104) => Tag::x0008x0104,
            (0x0010, 0x0010) => Tag::x0010x0010,
            (0x0010, 0x0020) => Tag::x0010x0020,
            (0x0010, 0x0030) => Tag::x0010x0030,
            (0x0010, 0x0040) => Tag::x0010x0040,
            (0x0010, 0x1010) => Tag::x0010x1010,
            (0x0028, 0x0002) => Tag::x0028x0002,
            (0x0028, 0x0004) => Tag::x0028x0004,
            (0x0028, 0x0008) => Tag::x0028x0008,
            (0x0028, 0x0010) => Tag::x0028x0010,
            (0x0028, 0x0011) => Tag::x0028x0011,
            (0x0028, 0x0100) => Tag::x0028x0100,
            (0x0028, 0x0101) => Tag::x0028x0101,
            (0x0028, 0x0102) => Tag::x0028x0102,
            (0x0028, 0x0103) => Tag::x0028x0103,
            (0x0028, 0x1050) => Tag::x0028x1050,
            (0x0028, 0x1051) => Tag::x0028x1051,
            (0x7FE0, 0x0010) => Tag::x7FE0x0010,
            (0xFFFE, 0xE000) => Tag::xFFFExE000,
            (0xFFFE, 0xE00D) => Tag::xFFFExE00D,
            (0xFFFE, 0xE0DD) => Tag::xFFFExE0DD,
            _ => Tag::UNKNOWN(group, element),
        }
    }

    pub fn get_keyword(&self) -> (kw: &'static str)
        ensures
            kw@ == self.keyword(),
    {
        match *self {
            Tag::x0002x0000 => "FileMetaInformationGroupLength",
            Tag::x0002x0001 => "FileMetaInformationVersion",
            Tag::x0002x0002 => "MediaStorageSOPClassUID",
            Tag::x0002x0003 => "MediaStorageSOPInstanceUID",
            Tag::x0002x0010 => "TransferSyntaxUID",
            Tag::x0002x0012 => "ImplementationClassUID",
            Tag::x0002x0013 => "ImplementationVersionName",
            Tag::x0008x0016 => "SOPClassUID",
            Tag::x0008x0018 => "SOPInstanceUID",
            Tag::x0008x0020 => "StudyDate",
            Tag::x0008x0060 => "Modality",
            Tag::x0008x0100 => "CodeValue",
            Tag::x0008x0102 => "CodingSchemeDesignator",
            Tag::x0008x0104 => "CodeMeaning",
            Tag::x0010x0010 => "PatientName",
            Tag::x0010x0020 => "PatientID",
            Tag::x0010x0030 => "PatientBirthDate",
            Tag::x0010x0040 => "PatientSex",
            Tag::x0010x1010 => "PatientAge",
            Tag::x0028x0002 => "SamplesPerPixel",
            Tag::x0028x0004 => "PhotometricInterpretation",
            Tag::x0028x0008 => "NumberOfFrames",
            Tag::x0028x0010 => "Rows",
            Tag::x0028x0011 => "Columns",
            Tag::x0028x0100 => "BitsAllocated",
            Tag::x0028x0101 => "BitsStored",
            Tag::x0028x0102 => "HighBit",
            Tag::x0028x0103 => "PixelRepresentation",
            Tag::x0028x1050 => "WindowCenter",
            Tag::x0028x1051 => "WindowWidth",
            Tag::x7FE0x0010 => "PixelData",
            Tag::xFFFExE000 => "Item",
            Tag::xFFFExE00D => "ItemDelimitationItem",
            Tag::xFFFExE0DD => "SequenceDelimitationItem",
            Tag::UNKNOWN(_, _) => "Unknown",
        }
    }

    pub fn lookup_by_kw(kw: &str) -> (found: Option<Tag>)
        ensures
            found == Tag::spec_lookup_by_kw(kw@),
    {
        if str_equal(kw, "FileMetaInformationGroupLength") {
            Some(Tag::x0002x0000)
        } else if str_equal(kw, "FileMetaInformationVersion") {
            Some(Tag::x0002x0001)
        } else if str_equal(kw, "MediaStorageSOPClassUID") {
            Some(Tag::x0002x0002)
        } else if str_equal(kw, "MediaStorageSOPInstanceUID") {
            Some(Tag::x0002x0003)
        } else if str_equal(kw, "TransferSyntaxUID") {
            Some(Tag::x0002x0010)
        } else if str_equal(kw, "ImplementationClassUID") {
            Some(Tag::x0002x0012)
        } else if str_equal(kw, "ImplementationVersionName") {
            Some(Tag::x0002x0013)
        } else if str_equal(kw, "SOPClassUID") {
            Some(Tag::x0008x0016)
        } else if str_equal(kw, "SOPInstanceUID") {
            Some(Tag::x0008x0018)
        } else if str_equal(kw, "StudyDate") {
            Some(Tag::x0008x0020)
        } else if str_equal(kw, "Modality") {
            Some(Tag::x0008x0060)
        } else if str_equal(kw, "CodeValue") {
            Some(Tag::x0008x0100)
        } else if str_equal(kw, "CodingSchemeDesignator") {
            Some(Tag::x0008x0102)
        } else if str_equal(kw, "CodeMeaning") {
            Some(Tag::x0008x0104)
        } else if str_equal(kw, "PatientName") {
            Some(Tag::x0010x0010)
        } else if str_equal(kw, "PatientID") {
            Some(Tag::x0010x0020)
        } else if str_equal(kw, "PatientBirthDate") {
            Some(Tag::x0010x0030)
        } else if str_equal(kw, "PatientSex") {
            Some(Tag::x0010x0040)
        } else if str_equal(kw, "PatientAge") {
            Some(Tag::x0010x1010)
        } else if str_equal(kw, "SamplesPerPixel") {
            Some(Tag::x0028x0002)
        } else if str_equal(kw, "PhotometricInterpretation") {
            Some(Tag::x0028x0004)
        } else if str_equal(kw, "NumberOfFrames") {
            Some(Tag::x0028x0008)
        } else if str_equal(kw, "Rows") {
            Some(Tag::x0028x0010)
        } else if str_equal(kw, "Columns") {
            Some(Tag::x0028x0011)
        } else if str_equal(kw, "BitsAllocated") {
            Some(Tag::x0028x0100)
        } else if str_equal(kw, "BitsStored") {
            Some(Tag::x0028x0101)
        } else if str_equal(kw, "HighBit") {
            Some(Tag::x0028x0102)
        } else if str_equal(kw, "PixelRepresentation") {
            Some(Tag::x0028x0103)
        } else if str_equal(kw, "WindowCenter") {
            Some(Tag::x0028x1050)
        } else if str_equal(kw, "WindowWidth") {
            Some(Tag::x0028x1051)
        } else if str_equal(kw, "PixelData") {
            Some(Tag::x7FE0x0010)
        } else if str_equal(kw, "Item") {
            Some(Tag::xFFFExE000)
        } else if str_equal(kw, "ItemDelimitationItem") {
            Some(Tag::xFFFExE00D)
        } else if str_equal(kw, "SequenceDelimitationItem") {
            Some(Tag::xFFFExE0DD)
        } else {
            None
        }
    }

    /// Return the group for the given tag.
    pub fn get_group(&self) -> (group: u16)
        ensures
            group == self.group(),
    {
        match *self {
            Tag::x0002x0000 => 0x0002,
            Tag::x0002x0001 => 0x0002,
            Tag::x0002x0002 => 0x0002,
            Tag::x0002x0003 => 0x0002,
            Tag::x0002x0010 => 0x0002,
            Tag::x0002x0012 => 0x0002,
            Tag::x0002x0013 => 0x0002,
            Tag::x0008x0016 => 0x0008,
            Tag::x0008x0018 => 0x0008,
            Tag::x0008x0020 => 0x0008,
            Tag::x0008x0060 => 0x0008,
            Tag::x0008x0100 => 0x0008,
            Tag::x0008x0102 => 0x0008,
            Tag::x0008x0104 => 0x0008,
            Tag::x0010x0010 => 0x0010,
            Tag::x0010x0020 => 0x0010,
            Tag::x0010x0030 => 0x0010,
            Tag::x0010x0040 => 0x0010,
            Tag::x0010x1010 => 0x0010,
            Tag::x0028x0002 => 0x0028,
            Tag::x0028x0004 => 0x0028,
            Tag::x0028x0008 => 0x0028,
            Tag::x0028x0010 => 0x0028,
            Tag::x0028x0011 => 0x0028,
            Tag::x0028x0100 => 0x0028,
            Tag::x0028x0101 => 0x0028,
            Tag::x0028x0102 => 0x0028,
            Tag::x0028x0103 => 0x0028,
            Tag::x0028x1050 => 0x0028,
            Tag::x0028x1051 => 0x0028,
            Tag::x7FE0x0010 => 0x7FE0,
            Tag::xFFFExE000 => 0xFFFE,
            Tag::xFFFExE00D => 0xFFFE,
            Tag::xFFFExE0DD => 0xFFFE,
            Tag::UNKNOWN(group, _) => group,
        }
    }

    /// Return the element for the given tag.
    pub fn get_element(&self) -> (element: u16)
        ensures
            element == self.element(),
    {
        match *self {
            Tag::x0002x0000 => 0x0000,
            Tag::x0002x0001 => 0x0001,
            Tag::x0002x0002 => 0x0002,
            Tag::x0002x0003 => 0x0003,
            Tag::x0002x0010 => 0x0010,
            Tag::x0002x0012 => 0x0012,
            Tag::x0002x0013 => 0x0013,
            Tag::x0008x0016 => 0x0016,
            Tag::x0008x0018 => 0x0018,
            Tag::x0008x0020 => 0x0020,
            Tag::x0008x0060 => 0x0060,
            Tag::x0008x0100 => 0x0100,
            Tag::x0008x0102 => 0x0102,
            Tag::x0008x0104 => 0x0104,
            Tag::x0010x0010 => 0x0010,
            Tag::x0010x0020 => 0x0020,
            Tag::x0010x0030 => 0x0030,
            Tag::x0010x0040 => 0x0040,
            Tag::x0010x1010 => 0x1010,
            Tag::x0028x0002 => 0x0002,
            Tag::x0028x0004 => 0x0004,
            Tag::x0028x0008 => 0x0008,
            Tag::x0028x0010 => 0x0010,
            Tag::x0028x0011 => 0x0011,
            Tag::x0028x0100 => 0x0100,
            Tag::x0028x0101 => 0x0101,
            Tag::x0028x0102 => 0x0102,
            Tag::x0028x0103 => 0x0103,
            Tag::x0028x1050 => 0x1050,
            Tag::x0028x1051 => 0x1051,
            Tag::x7FE0x0010 => 0x0010,
            Tag::xFFFExE000 => 0xE000,
            Tag::xFFFExE00D => 0xE00D,
            Tag::xFFFExE0DD => 0xE0DD,
            Tag::UNKNOWN(_, element) => element,
        }
    }

    /// The name of the tag, as a string.
    pub fn to_string(&self) -> (text: String)
        ensures
            text@ == self.name(),
    {
        match *self {
            Tag::x0002x0000 => "File Meta Information Group Length".to_owned(),
            Tag::x0002x0001 => "File Meta Information Version".to_owned(),
            Tag::x0002x0002 => "Media Storage SOP Class UID".to_owned(),
            Tag::x0002x0003 => "Media Storage SOP Instance UID".to_owned(),
            Tag::x0002x0010 => "Transfer Syntax UID".to_owned(),
            Tag::x0002x0012 => "Implementation Class UID".to_owned(),
            Tag::x0002x0013 => "Implementation Version Name".to_owned(),
            Tag::x0008x0016 => "SOP Class UID".to_owned(),
            Tag::x0008x0018 => "SOP Instance UID".to_owned(),
            Tag::x0008x0020 => "Study Date".to_owned(),
            Tag::x0008x0060 => "Modality".to_owned(),
            Tag::x0008x0100 => "Code Value".to_owned(),
            Tag::x0008x0102 => "Coding Scheme Designator".to_owned(),
            Tag::x0008x0104 => "Code Meaning".to_owned(),
            Tag::x0010x0010 => "Patient's Name".to_owned(),
            Tag::x0010x0020 => "Patient ID".to_owned(),
            Tag::x0010x0030 => "Patient's Birth Date".to_owned(),
            Tag::x0010x0040 => "Patient's Sex".to_owned(),
            Tag::x0010x1010 => "Patient's Age".to_owned(),
            Tag::x0028x0002 => "Samples per Pixel".to_owned(),
            Tag::x0028x0004 => "Photometric Interpretation".to_owned(),
            Tag::x0028x0008 => "Number of Frames".to_owned(),
            Tag::x0028x0010 => "Rows".to_owned(),
            Tag::x0028x0011 => "Columns".to_owned(),
            Tag::x0028x0100 => "Bits Allocated".to_owned(),
            Tag::x0028x0101 => "Bits Stored".to_owned(),
            Tag::x0028x0102 => "High Bit".to_owned(),
            Tag::x0028x0103 => "Pixel Representation".to_owned(),
            Tag::x0028x1050 => "Window Center".to_owned(),
            Tag::x0028x1051 => "Window Width".to_owned(),
            Tag::x7FE0x0010 => "Pixel Data".to_owned(),
            Tag::xFFFExE000 => "Item".to_owned(),
            Tag::xFFFExE00D => "Item Delimitation Item".to_owned(),
            Tag::xFFFExE0DD => "Sequence Delimitation Item".to_owned(),
            Tag::UNKNOWN(group, element) => {
                let mut text = "Unkown tag: x".to_owned();
                push_hex(&mut text, group);
                text.append(", x");
                push_hex(&mut text, element);
                text
            },
        }
    }

    /// The name of the tag with the name of its variant in front, as a
    /// string.
    pub fn debug_string(&self) -> (text: String)
        ensures
            text@ == self.labelled_name(),
    {
        let label = match *self {
            Tag::x0002x0000 => "x0002x0000: ",
            Tag::x0002x0001 => "x0002x0001: ",
            Tag::x0002x0002 => "x0002x0002: ",
            Tag::x0002x0003 => "x0002x0003: ",
            Tag::x0002x0010 => "x0002x0010: ",
            Tag::x0002x0012 => "x0002x0012: ",
            Tag::x0002x0013 => "x0002x0013: ",
            Tag::x0008x0016 => "x0008x0016: ",
            Tag::x0008x0018 => "x0008x0018: ",
            Tag::x0008x0020 => "x0008x0020: ",
            Tag::x0008x0060 => "x0008x0060: ",
            Tag::x0008x0100 => "x0008x0100: ",
            Tag::x0008x0102 => "x0008x0102: ",
            Tag::x0008x0104 => "x0008x0104: ",
            Tag::x0010x0010 => "x0010x0010: ",
            Tag::x0010x0020 => "x0010x0020: ",
            Tag::x0010x0030 => "x0010x0030: ",
            Tag::x0010x0040 => "x0010x0040: ",
            Tag::x0010x1010 => "x0010x1010: ",
            Tag::x0028x0002 => "x0028x0002: ",
            Tag::x0028x0004 => "x0028x0004: ",
            Tag::x0028x0008 => "x0028x0008: ",
            Tag::x0028x0010 => "x0028x0010: ",
            Tag::x0028x0011 => "x0028x0011: ",
            Tag::x0028x0100 => "x0028x0100: ",
            Tag::x0028x0101 => "x0028x0101: ",
            Tag::x0028x0102 => "x0028x0102: ",
            Tag::x0028x0103 => "x0028x0103: ",
            Tag::x0028x1050 => "x0028x1050: ",
            Tag::x0028x1051 => "x0028x1051: ",
            Tag::x7FE0x0010 => "x7FE0x0010: ",
            Tag::xFFFExE000 => "xFFFExE000: ",
            Tag::xFFFExE00D => "xFFFExE00D: ",
            Tag::xFFFExE0DD => "xFFFExE0DD: ",
            Tag::UNKNOWN(_, _) => { return self.to_string(); },
        };
        let mut text = label.to_owned();
        let name = self.to_string();
        text.append(name.as_str());
        text
    }

    /// How many values the standard gives the tag; 0 for an unknown tag.
    pub fn multiplicity(&self) -> (count: usize)
        ensures
            count == (if *self is UNKNOWN { 0usize } else { 1usize }),
    {
        match *self {
            Tag::UNKNOWN(_, _) => 0,
            _ => 1,
        }
    }
}

/// The tag that two numbers stand for has these numbers, and is canonical.
pub proof fn lemma_from_values_keeps_numbers(group: u16, element: u16)
    ensures
        Tag::spec_from_values(group, element).group() == group,
        Tag::spec_from_values(group, element).element() == element,
        Tag::spec_from_values(group, element).canonical(),
{
    reveal(Tag::spec_from_values);
}

/// Every tag of the dictionary is found again: by its two numbers, so that
/// these never give `UNKNOWN`, and by its keyword, which gives a tag with the
/// same two numbers.
pub proof fn lemma_dictionary_lookup(tag: Tag)
    requires
        !(tag is UNKNOWN),
    ensures
        Tag::spec_from_values(tag.group(), tag.element()) == tag,
        !(Tag::spec_from_values(tag.group(), tag.element()) is UNKNOWN),
        Tag::spec_lookup_by_kw(tag.keyword()) == Some(tag),
{
    reveal(Tag::spec_from_values);
    lemma_keywords_differ(tag, Tag::x0002x0000);
    lemma_keywords_differ(tag, Tag::x0002x0001);
    lemma_keywords_differ(tag, Tag::x0002x0002);
    lemma_keywords_differ(tag, Tag::x0002x0003);
    lemma_keywords_differ(tag, Tag::x0002x0010);
    lemma_keywords_differ(tag, Tag::x0002x0012);
    lemma_keywords_differ(tag, Tag::x0002x0013);
    lemma_keywords_differ(tag, Tag::x0008x0016);
    lemma_keywords_differ(tag, Tag::x0008x0018);
    lemma_keywords_differ(tag, Tag::x0008x0020);
    lemma_keywords_differ(tag, Tag::x0008x0060);
    lemma_keywords_differ(tag, Tag::x0008x0100);
    lemma_keywords_differ(tag, Tag::x0008x0102);
    lemma_keywords_differ(tag, Tag::x0008x0104);
    lemma_keywords_differ(tag, Tag::x0010x0010);
    lemma_keywords_differ(tag, Tag::x0010x0020);
    lemma_keywords_differ(tag, Tag::x0010x0030);
    lemma_keywords_differ(tag, Tag::x0010x0040);
    lemma_keywords_differ(tag, Tag::x0010x1010);
    lemma_keywords_differ(tag, Tag::x0028x0002);
    lemma_keywords_differ(tag, Tag::x0028x0004);
    lemma_keywords_differ(tag, Tag::x0028x0008);
    lemma_keywords_differ(tag, Tag::x0028x0010);
    lemma_keywords_differ(tag, Tag::x0028x0011);
    lemma_keywords_differ(tag, Tag::x0028x0100);
    lemma_keywords_differ(tag, Tag::x0028x0101);
    lemma_keywords_differ(tag, Tag::x0028x0102);
    lemma_keywords_differ(tag, Tag::x0028x0103);
    lemma_keywords_differ(tag, Tag::x0028x1050);
    lemma_keywords_differ(tag, Tag::x0028x1051);
    lemma_keywords_differ(tag, Tag::x7FE0x0010);
    lemma_keywords_differ(tag, Tag::xFFFExE000);
    lemma_keywords_differ(tag, Tag::xFFFExE00D);
    lemma_keywords_differ(tag, Tag::xFFFExE0DD);
}

/// No two tags of the dictionary have the same keyword.
pub proof fn lemma_keywords_differ(a: Tag, b: Tag)
    ensures
        !(a is UNKNOWN) && !(b is UNKNOWN) && a != b ==> a.keyword() != b.keyword(),
{
    reveal_strlit("FileMetaInformationGroupLength");
    reveal_strlit("FileMetaInformationVersion");
    reveal_strlit("MediaStorageSOPClassUID");
    reveal_strlit("MediaStorageSOPInstanceUID");
    reveal_strlit("TransferSyntaxUID");
    reveal_strlit("ImplementationClassUID");
    reveal_strlit("ImplementationVersionName");
    reveal_strlit("SOPClassUID");
    reveal_strlit("SOPInstanceUID");
    reveal_strlit("StudyDate");
    reveal_strlit("Modality");
    reveal_strlit("CodeValue");
    reveal_strlit("CodingSchemeDesignator");
    reveal_strlit("CodeMeaning");
    reveal_strlit("PatientName");
    reveal_strlit("PatientID");
    reveal_strlit("PatientBirthDate");
    reveal_strlit("PatientSex");
    reveal_strlit("PatientAge");
    reveal_strlit("SamplesPerPixel");
    reveal_strlit("PhotometricInterpretation");
    reveal_strlit("NumberOfFrames");
    reveal_strlit("Rows");
    reveal_strlit("Columns");
    reveal_strlit("BitsAllocated");
    reveal_strlit("BitsStored");
    reveal_strlit("HighBit");
    reveal_strlit("PixelRepresentation");
    reveal_strlit("WindowCenter");
    reveal_strlit("WindowWidth");
    reveal_strlit("PixelData");
    reveal_strlit("Item");
    reveal_strlit("ItemDelimitationItem");
    reveal_strlit("SequenceDelimitationItem");
    assert("FileMetaInformationGroupLength"@.len() == 30);
    assert("FileMetaInformationVersion"@.len() == 26);
    assert("MediaStorageSOPClassUID"@.len() == 23);
    assert("MediaStorageSOPInstanceUID"@.len() == 26);
    assert("TransferSyntaxUID"@.len() == 17);
    assert("ImplementationClassUID"@.len() == 22);
    assert("ImplementationVersionName"@.len() == 25);
    assert("SOPClassUID"@.len() == 11);
    assert("SOPInstanceUID"@.len() == 14);
    assert("StudyDate"@.len() == 9);
    assert("Modality"@.len() == 8);
    assert("CodeValue"@.len() == 9);
    assert("CodingSchemeDesignator"@.len() == 22);
    assert("CodeMeaning"@.len() == 11);
    assert("PatientName"@.len() == 11);
    assert("PatientID"@.len() == 9);
    assert("PatientBirthDate"@.len() == 16);
    assert("PatientSex"@.len() == 10);
    assert("PatientAge"@.len() == 10);
    assert("SamplesPerPixel"@.len() == 15);
    assert("PhotometricInterpretation"@.len() == 25);
    assert("NumberOfFrames"@.len() == 14);
    assert("Rows"@.len() == 4);
    assert("Columns"@.len() == 7);
    assert("BitsAllocated"@.len() == 13);
    assert("BitsStored"@.len() == 10);
    assert("HighBit"@.len() == 7);
    assert("PixelRepresentation"@.len() == 19);
    assert("WindowCenter"@.len() == 12);
    assert("WindowWidth"@.len() == 11);
    assert("PixelData"@.len() == 9);
    assert("Item"@.len() == 4);
    assert("ItemDelimitationItem"@.len() == 20);
    assert("SequenceDelimitationItem"@.len() == 24);
    assert("FileMetaInformationVersion"@[0] != "MediaStorageSOPInstanceUID"@[0]);
    assert("ImplementationClassUID"@[0] != "CodingSchemeDesignator"@[0]);
    assert("ImplementationVersionName"@[0] != "PhotometricInterpretation"@[0]);
    assert("SOPClassUID"@[0] != "CodeMeaning"@[0]);
    assert("SOPClassUID"@[0] != "PatientName"@[0]);
    assert("SOPClassUID"@[0] != "WindowWidth"@[0]);
    assert("SOPInstanceUID"@[0] != "NumberOfFrames"@[0]);
    assert("StudyDate"@[0] != "CodeValue"@[0]);
    assert("StudyDate"@[0] != "PatientID"@[0]);
    assert("StudyDate"@[0] != "PixelData"@[0]);
    assert("CodeValue"@[0] != "PatientID"@[0]);
    assert("CodeValue"@[0] != "PixelData"@[0]);
    assert("CodeMeaning"@[0] != "PatientName"@[0]);
    assert("CodeMeaning"@[0] != "WindowWidth"@[0]);
    assert("PatientName"@[0] != "WindowWidth"@[0]);
    assert("PatientID"@[1] != "PixelData"@[1]);
    assert("PatientSex"@[7] != "PatientAge"@[7]);
    assert("PatientSex"@[0] != "BitsStored"@[0]);
    assert("PatientAge"@[0] != "BitsStored"@[0]);
    assert("Rows"@[0] != "Item"@[0]);
    assert("Columns"@[0] != "HighBit"@[0]);
}

} // verus!
