//! Value representation defines what type is the data in the data element.
//!
//! A value representation is written as two ASCII letters. The codes of the
//! standard that this library knows have a variant each; any other pair of
//! letters is kept in `ValueRepresentation::UNKNOWN`.

use crate::error::{DicomError, DicomResult, ErrorModel, Outcome};
use crate::text::{lemma_text_of_bytes, str_from_utf8, string_push, text_of};
use vstd::slice::slice_subrange;
use vstd::string::StrSliceExecFns;
use vstd::utf8::{is_ascii_chars_encode_utf8, valid_utf8};
use vstd::prelude::*;
use vstd::string::StringExecFns;

verus! {

#[allow(non_camel_case_types)]
#[derive(Debug, Clone, Eq, PartialEq)]
pub enum ValueRepresentation {
    /// Unsigned Long
    UL,
    /// Code String
    CS,
    /// Age String
    AG,
    /// Date
    DA,
    /// Decimal String
    DS,
    /// Date Time
    DT,
    /// Short String
    SH,
    /// Short Text
    ST,
    /// Unsigned Short
    US,
    /// Unique Identifier
    UI,
    /// Long String
    LO,
    /// Person Name
    PN,
    /// Age String
    AS,
    /// Signed Long
    SL,
    /// Other byte
    OB,
    /// Other double
    OD,
    /// Other float
    OF,
    /// Other long
    OL,
    /// Other 64-bits very long
    OV,
    /// Other word
    OW,
    /// Sequence of items
    SQ,
    /// Signed 64-bits very long
    SV,
    /// Unlimited characters
    UC,
    /// URI or URL
    UR,
    /// Unlimited text
    UT,
    /// Unknown
    UN,
    /// Unsigned 64-bits very long
    UV,
    /// Two letters that are no code of the standard.
    UNKNOWN(String),
}

/// What a value representation is: its letters, and whether it is one of
/// the variants that stand for a code of the standard.
#[verifier::ext_equal]
pub struct VrModel {
    pub code: Seq<char>,
    pub listed: bool,
}

/// Whether two letters are one of the codes with a variant of their own.
pub open spec fn is_known_code(first: char, second: char) -> bool {
    ||| (first == 'U' && second == 'L')
    ||| (first == 'C' && second == 'S')
    ||| (first == 'A' && second == 'G')
    ||| (first == 'D' && second == 'A')
    ||| (first == 'D' && second == 'S')
    ||| (first == 'D' && second == 'T')
    ||| (first == 'S' && second == 'H')
    ||| (first == 'S' && second == 'T')
    ||| (first == 'U' && second == 'S')
    ||| (first == 'U' && second == 'I')
    ||| (first == 'L' && second == 'O')
    ||| (first == 'P' && second == 'N')
    ||| (first == 'A' && second == 'S')
    ||| (first == 'S' && second == 'L')
    ||| (first == 'O' && second == 'B')
    ||| (first == 'O' && second == 'D')
    ||| (first == 'O' && second == 'F')
    ||| (first == 'O' && second == 'L')
    ||| (first == 'O' && second == 'V')
    ||| (first == 'O' && second == 'W')
    ||| (first == 'S' && second == 'Q')
    ||| (first == 'S' && second == 'V')
    ||| (first == 'U' && second == 'C')
    ||| (first == 'U' && second == 'R')
    ||| (first == 'U' && second == 'T')
    ||| (first == 'U' && second == 'N')
    ||| (first == 'U' && second == 'V')
}

/// Whether the length of a value with this code is written in four bytes
/// after two reserved ones, rather than in two bytes.
pub open spec fn is_special_code(first: char, second: char) -> bool {
    ||| (first == 'O' && second == 'B')
    ||| (first == 'O' && second == 'D')
    ||| (first == 'O' && second == 'F')
    ||| (first == 'O' && second == 'L')
    ||| (first == 'O' && second == 'V')
    ||| (first == 'O' && second == 'W')
    ||| (first == 'S' && second == 'Q')
    ||| (first == 'S' && second == 'V')
    ||| (first == 'U' && second == 'C')
    ||| (first == 'U' && second == 'R')
    ||| (first == 'U' && second == 'T')
    ||| (first == 'U' && second == 'N')
    ||| (first == 'U' && second == 'V')
}

/// The value representation that a text stands for: one of the standard
/// where the text is two letters that are a known code.
pub open spec fn vr_of_text(text: Seq<char>) -> VrModel {
    VrModel { code: text, listed: text.len() == 2 && is_known_code(text[0], text[1]) }
}

/// The value representation that the first two bytes stand for, read as
/// UTF-8 text.
pub open spec fn spec_vr_of_bytes(bytes: Seq<u8>) -> Outcome<VrModel> {
    if bytes.len() < 2 {
        Err(ErrorModel::IoError)
    } else if !valid_utf8(bytes.take(2)) {
        Err(ErrorModel::ParseCS)
    } else {
        Ok(vr_of_text(text_of(bytes.take(2))))
    }
}

/// The value representation that two letters stand for.
pub open spec fn vr_of_letters(first: char, second: char) -> VrModel {
    VrModel { code: seq![first, second], listed: is_known_code(first, second) }
}

impl VrModel {
    /// Whether the length of a value of this representation is written the
    /// special way. Letters outside the standard never are.
    pub open spec fn special_length(self) -> bool {
        self.listed && is_special_code(self.code[0], self.code[1])
    }

    /// The name that the standard gives the value representation.
    pub open spec fn description(self) -> Seq<char> {
        if !self.listed {
            "Unknown VR("@ + self.code + ")"@
        } else if self.code[0] == 'U' && self.code[1] == 'L' {
            "Unsigned Long"@
        } else if self.code[0] == 'C' && self.code[1] == 'S' {
            "Code String"@
        } else if self.code[0] == 'A' && self.code[1] == 'G' {
            "Age String"@
        } else if self.code[0] == 'D' && self.code[1] == 'A' {
            "Date"@
        } else if self.code[0] == 'D' && self.code[1] == 'S' {
            "Decimal String"@
        } else if self.code[0] == 'D' && self.code[1] == 'T' {
            "Date Time"@
        } else if self.code[0] == 'S' && self.code[1] == 'H' {
            "Short String"@
        } else if self.code[0] == 'S' && self.code[1] == 'T' {
            "Short Text"@
        } else if self.code[0] == 'U' && self.code[1] == 'S' {
            "Unsigned Short"@
        } else if self.code[0] == 'U' && self.code[1] == 'I' {
            "Unique Identifier"@
        } else if self.code[0] == 'L' && self.code[1] == 'O' {
            "Long String"@
        } else if self.code[0] == 'P' && self.code[1] == 'N' {
            "Person Name"@
        } else if self.code[0] == 'A' && self.code[1] == 'S' {
            "Age String"@
        } else if self.code[0] == 'S' && self.code[1] == 'L' {
            "Signed Long"@
        } else if self.code[0] == 'O' && self.code[1] == 'B' {
            "Other byte"@
        } else if self.code[0] == 'O' && self.code[1] == 'D' {
            "Other double"@
        } else if self.code[0] == 'O' && self.code[1] == 'F' {
            "Other float"@
        } else if self.code[0] == 'O' && self.code[1] == 'L' {
            "Other long"@
        } else if self.code[0] == 'O' && self.code[1] == 'V' {
            "Other 64-bits very long"@
        } else if self.code[0] == 'O' && self.code[1] == 'W' {
            "Other word"@
        } else if self.code[0] == 'S' && self.code[1] == 'Q' {
            "Sequence of items"@
        } else if self.code[0] == 'S' && self.code[1] == 'V' {
            "Signed 64-bits very long"@
        } else if self.code[0] == 'U' && self.code[1] == 'C' {
            "Unlimited characters"@
        } else if self.code[0] == 'U' && self.code[1] == 'R' {
            "URI or URL"@
        } else if self.code[0] == 'U' && self.code[1] == 'T' {
            "Unlimited text"@
        } else if self.code[0] == 'U' && self.code[1] == 'N' {
            "Unknown"@
        } else if self.code[0] == 'U' && self.code[1] == 'V' {
            "Unsigned 64-bits very long"@
        } else {
            Seq::empty()
        }
    }
}

impl View for ValueRepresentation {
    type V = VrModel;

    open spec fn view(&self) -> VrModel {
        match *self {
            ValueRepresentation::UL => VrModel { code: seq!['U', 'L'], listed: true },
            ValueRepresentation::CS => VrModel { code: seq!['C', 'S'], listed: true },
            ValueRepresentation::AG => VrModel { code: seq!['A', 'G'], listed: true },
            ValueRepresentation::DA => VrModel { code: seq!['D', 'A'], listed: true },
            ValueRepresentation::DS => VrModel { code: seq!['D', 'S'], listed: true },
            ValueRepresentation::DT => VrModel { code: seq!['D', 'T'], listed: true },
            ValueRepresentation::SH => VrModel { code: seq!['S', 'H'], listed: true },
            ValueRepresentation::ST => VrModel { code: seq!['S', 'T'], listed: true },
            ValueRepresentation::US => VrModel { code: seq!['U', 'S'], listed: true },
            ValueRepresentation::UI => VrModel { code: seq!['U', 'I'], listed: true },
            ValueRepresentation::LO => VrModel { code: seq!['L', 'O'], listed: true },
            ValueRepresentation::PN => VrModel { code: seq!['P', 'N'], listed: true },
            ValueRepresentation::AS => VrModel { code: seq!['A', 'S'], listed: true },
            ValueRepresentation::SL => VrModel { code: seq!['S', 'L'], listed: true },
            ValueRepresentation::OB => VrModel { code: seq!['O', 'B'], listed: true },
            ValueRepresentation::OD => VrModel { code: seq!['O', 'D'], listed: true },
            ValueRepresentation::OF => VrModel { code: seq!['O', 'F'], listed: true },
            ValueRepresentation::OL => VrModel { code: seq!['O', 'L'], listed: true },
            ValueRepresentation::OV => VrModel { code: seq!['O', 'V'], listed: true },
            ValueRepresentation::OW => VrModel { code: seq!['O', 'W'], listed: true },
            ValueRepresentation::SQ => VrModel { code: seq!['S', 'Q'], listed: true },
            ValueRepresentation::SV => VrModel { code: seq!['S', 'V'], listed: true },
            ValueRepresentation::UC => VrModel { code: seq!['U', 'C'], listed: true },
            ValueRepresentation::UR => VrModel { code: seq!['U', 'R'], listed: true },
            ValueRepresentation::UT => VrModel { code: seq!['U', 'T'], listed: true },
            ValueRepresentation::UN => VrModel { code: seq!['U', 'N'], listed: true },
            ValueRepresentation::UV => VrModel { code: seq!['U', 'V'], listed: true },
            ValueRepresentation::UNKNOWN(letters) => VrModel { code: letters@, listed: false },
        }
    }
}

impl ValueRepresentation {
    /// The value representation that two letters stand for.
    pub fn from_chars(first: char, second: char) -> (vr: Self)
        ensures
            vr@ == vr_of_letters(first, second),
    {
        match (first, second) {
            ('U', 'L') => ValueRepresentation::UL,
            ('C', 'S') => ValueRepresentation::CS,
            ('A', 'G') => ValueRepresentation::AG,
            ('D', 'A') => ValueRepresentation::DA,
            ('D', 'S') => ValueRepresentation::DS,
            ('D', 'T') => ValueRepresentation::DT,
            ('S', 'H') => ValueRepresentation::SH,
            ('S', 'T') => ValueRepresentation::ST,
            ('U', 'S') => ValueRepresentation::US,
            ('U', 'I') => ValueRepresentation::UI,
            ('L', 'O') => ValueRepresentation::LO,
            ('P', 'N') => ValueRepresentation::PN,
            ('A', 'S') => ValueRepresentation::AS,
            ('S', 'L') => ValueRepresentation::SL,
            ('O', 'B') => ValueRepresentation::OB,
            ('O', 'D') => ValueRepresentation::OD,
            ('O', 'F') => ValueRepresentation::OF,
            ('O', 'L') => ValueRepresentation::OL,
            ('O', 'V') => ValueRepresentation::OV,
            ('O', 'W') => ValueRepresentation::OW,
            ('S', 'Q') => ValueRepresentation::SQ,
            ('S', 'V') => ValueRepresentation::SV,
            ('U', 'C') => ValueRepresentation::UC,
            ('U', 'R') => ValueRepresentation::UR,
            ('U', 'T') => ValueRepresentation::UT,
            ('U', 'N') => ValueRepresentation::UN,
            ('U', 'V') => ValueRepresentation::UV,
            _ => {
                let mut letters = String::new();
                string_push(&mut letters, first);
                string_push(&mut letters, second);
                assert(letters@ =~= seq![first, second]);
                ValueRepresentation::UNKNOWN(letters)
            },
        }
    }

    /// The name that the standard gives the value representation, as a
    /// string.
    pub fn to_string(&self) -> (text: String)
        ensures
            text@ == self@.description(),
    {
        match self {
            ValueRepresentation::UL => "Unsigned Long".to_owned(),
            ValueRepresentation::CS => "Code String".to_owned(),
            ValueRepresentation::AG => "Age String".to_owned(),
            ValueRepresentation::DA => "Date".to_owned(),
            ValueRepresentation::DS => "Decimal String".to_owned(),
            ValueRepresentation::DT => "Date Time".to_owned(),
            ValueRepresentation::SH => "Short String".to_owned(),
            ValueRepresentation::ST => "Short Text".to_owned(),
            ValueRepresentation::US => "Unsigned Short".to_owned(),
            ValueRepresentation::UI => "Unique Identifier".to_owned(),
            ValueRepresentation::LO => "Long String".to_owned(),
            ValueRepresentation::PN => "Person Name".to_owned(),
            ValueRepresentation::AS => "Age String".to_owned(),
            ValueRepresentation::SL => "Signed Long".to_owned(),
            ValueRepresentation::OB => "Other byte".to_owned(),
            ValueRepresentation::OD => "Other double".to_owned(),
            ValueRepresentation::OF => "Other float".to_owned(),
            ValueRepresentation::OL => "Other long".to_owned(),
            ValueRepresentation::OV => "Other 64-bits very long".to_owned(),
            ValueRepresentation::OW => "Other word".to_owned(),
            ValueRepresentation::SQ => "Sequence of items".to_owned(),
            ValueRepresentation::SV => "Signed 64-bits very long".to_owned(),
            ValueRepresentation::UC => "Unlimited characters".to_owned(),
            ValueRepresentation::UR => "URI or URL".to_owned(),
            ValueRepresentation::UT => "Unlimited text".to_owned(),
            ValueRepresentation::UN => "Unknown".to_owned(),
            ValueRepresentation::UV => "Unsigned 64-bits very long".to_owned(),
            ValueRepresentation::UNKNOWN(letters) => {
                let mut text = "Unknown VR(".to_owned();
                text.append(letters.as_str());
                text.append(")");
                text
            },
        }
    }

    /// Will parse the value representation from the first two bytes.
    pub fn parse(bytes: &[u8]) -> (r: DicomResult<Self>)
        ensures
            match r {
                Ok(vr) => spec_vr_of_bytes(bytes@) == Ok::<_, ErrorModel>(vr@),
                Err(e) => spec_vr_of_bytes(bytes@) == Err::<VrModel, _>(e@),
            },
    {
        if bytes.len() < 2 {
            return Err(DicomError::IoError);
        }
        let buf = slice_subrange(bytes, 0, 2);
        let text = match str_from_utf8(buf) {
            Ok(text) => text,
            Err(_) => { return Err(DicomError::ParseCS); },
        };
        proof {
            lemma_text_of_bytes(text, buf@);
        }
        if text.is_ascii() {
            proof {
                is_ascii_chars_encode_utf8(text@);
            }
            let first = text.get_ascii(0) as char;
            let second = text.get_ascii(1) as char;
            assert(text@ =~= seq![first, second]);
            Ok(ValueRepresentation::from_chars(first, second))
        } else {
            proof {
                if text@.len() == 2 && is_known_code(text@[0], text@[1]) {
                    assert forall|i: int| 0 <= i < text@.len() implies '\0' <= #[trigger] text@[i]
                        <= '\u{7f}' by {}
                }
            }
            Ok(ValueRepresentation::UNKNOWN(text.to_owned()))
        }
    }

    pub fn has_special_length(&self) -> (special: bool)
        ensures
            special == self@.special_length(),
    {
        match self {
            ValueRepresentation::OB => true,
            ValueRepresentation::OD => true,
            ValueRepresentation::OF => true,
            ValueRepresentation::OL => true,
            ValueRepresentation::OV => true,
            ValueRepresentation::OW => true,
            ValueRepresentation::SQ => true,
            ValueRepresentation::SV => true,
            ValueRepresentation::UC => true,
            ValueRepresentation::UR => true,
            ValueRepresentation::UT => true,
            ValueRepresentation::UN => true,
            ValueRepresentation::UV => true,
            _ => false,
        }
    }
}

} // verus!
