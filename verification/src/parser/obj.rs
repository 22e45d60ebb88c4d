//! The driver: the header, the elements of group 2, which name the
//! transfer syntax, the content elements under that transfer syntax, and the
//! pixel data.

use super::element::{
    lemma_prepend_nothing, lemma_prepend_one_more, lemma_skip_skip, parse_dataelement_bounded,
    prepend, spec_parse_element, MAX_SEQUENCE_DEPTH,
};
use super::image::{parse_image, spec_parse_image};
use super::{parse_tag, tag_at, Expected, ParseResult};
use crate::error::{outcome, parse_error, DicomError, DicomResult, ErrorModel, Outcome, ParseFailure};
use crate::tag::Tag;
use crate::types::{
    element_models, find_element, le_explicit, lemma_element_models_push, transfer_syntax_of,
    u16_of, DataElement, DicomObject, ElementModel, Endianness, ObjectModel, TransferSyntax,
};
use vstd::prelude::*;
use vstd::slice::slice_subrange;

verus! {

/// Whether the bytes that are there differ from the start of `DICM`.
pub open spec fn magic_differs(m: Seq<u8>) -> bool {
    ||| (m.len() > 0 && m[0] != 0x44)
    ||| (m.len() > 1 && m[1] != 0x49)
    ||| (m.len() > 2 && m[2] != 0x43)
    ||| (m.len() > 3 && m[3] != 0x4D)
}

/// The header: 128 bytes of any content, then the four letters `DICM`. A
/// letter that differs is noticed before a letter that is missing.
pub open spec fn spec_parse_header(s: Seq<u8>) -> Expected<()> {
    if s.len() < 128 {
        Err(ParseFailure::Incomplete)
    } else if magic_differs(s.skip(128)) {
        Err(ParseFailure::BadMagic)
    } else if s.len() < 132 {
        Err(ParseFailure::Incomplete)
    } else {
        Ok(((), 132))
    }
}

/// The elements of group 2, read little endian with explicit value
/// representations for as long as the next tag is of group 2, with the
/// transfer syntax that the last element (0002,0010) among them names.
pub open spec fn spec_group2_elements(s: Seq<u8>, depth: nat) -> Outcome<
    (Seq<ElementModel>, Option<TransferSyntax>, int),
>
    decreases s.len(),
{
    if s.len() < 4 {
        parse_error(ParseFailure::Incomplete)
    } else if tag_at(s, 0, Endianness::Little).group() != 2 {
        Ok((Seq::empty(), None, 0))
    } else {
        match spec_parse_element(s, le_explicit(), depth) {
            Err(e) => parse_error(e),
            Ok((element, n)) => match named_here(element) {
                Err(e) => Err(e),
                Ok(here) => if 0 < n <= s.len() {
                    group2_prepend(
                        seq![element],
                        here,
                        n,
                        spec_group2_elements(s.skip(n), depth),
                    )
                } else {
                    // never taken: a data element spans its header at least
                    parse_error(ParseFailure::Incomplete)
                },
            },
        }
    }
}

/// The transfer syntax that a data element names, if it is the transfer
/// syntax element.
pub open spec fn named_here(element: ElementModel) -> Outcome<Option<TransferSyntax>> {
    if element.tag == Tag::x0002x0010 {
        match transfer_syntax_of(element.data) {
            Err(e) => Err(e),
            Ok(ts) => Ok(Some(ts)),
        }
    } else {
        Ok(None)
    }
}

/// The outcome `rest` of what follows, with the elements `done` in front,
/// which took `taken` bytes and named the transfer syntax `named`. A
/// transfer syntax that is named later replaces one that was named before.
pub open spec fn group2_prepend(
    done: Seq<ElementModel>,
    named: Option<TransferSyntax>,
    taken: int,
    rest: Outcome<(Seq<ElementModel>, Option<TransferSyntax>, int)>,
) -> Outcome<(Seq<ElementModel>, Option<TransferSyntax>, int)> {
    match rest {
        Err(e) => Err(e),
        Ok((more, later, n)) => Ok(
            (
                done + more,
                if later is Some {
                    later
                } else {
                    named
                },
                taken + n,
            ),
        ),
    }
}

/// Group 2: its elements and the transfer syntax that they name. A file
/// whose first tag is not of group 2, and one whose group 2 names no
/// transfer syntax, are refused.
pub open spec fn spec_parse_group2(s: Seq<u8>, depth: nat) -> Outcome<
    ((TransferSyntax, Seq<ElementModel>), int),
> {
    match spec_group2_elements(s, depth) {
        Err(e) => Err(e),
        Ok((elements, named, n)) => match named {
            Some(ts) => Ok(((ts, elements), n)),
            None => if elements.len() == 0 {
                Err(ErrorModel::ExpectedGroup2(tag_at(s, 0, Endianness::Little)))
            } else {
                Err(ErrorModel::MissingTag(Tag::x0002x0010))
            },
        },
    }
}

/// The content: data elements under the transfer syntax up to, and without,
/// the pixel data element.
pub open spec fn spec_parse_content(s: Seq<u8>, ts: TransferSyntax, depth: nat) -> Expected<
    Seq<ElementModel>,
>
    decreases s.len(),
{
    if s.len() < 4 {
        Err(ParseFailure::Incomplete)
    } else if tag_at(s, 0, ts.endianness) == Tag::x7FE0x0010 {
        Ok((Seq::empty(), 0))
    } else {
        match spec_parse_element(s, ts, depth) {
            Err(e) => Err(e),
            Ok((element, n)) => if 0 < n <= s.len() {
                prepend(seq![element], n, spec_parse_content(s.skip(n), ts, depth))
            } else {
                // never taken: a data element spans its header at least
                Err(ParseFailure::Incomplete)
            },
        }
    }
}

/// How the samples of the pixel data are laid out.
pub struct ImageLayout {
    pub rows: u16,
    pub columns: u16,
    pub bits_allocated: u16,
    pub bits_stored: u16,
}

/// The number in the first element of the list that has the tag.
pub open spec fn u16_value(elements: Seq<ElementModel>, tag: Tag, ts: TransferSyntax) -> Outcome<
    u16,
> {
    match find_element(elements, tag) {
        Some(element) => u16_of(element, ts),
        None => Err(ErrorModel::NoSuchTag(tag)),
    }
}

/// The layout that the elements of an object give for its pixel data: the
/// rows, the columns, the samples per pixel, which must be 1 or less, the
/// bits stored and the bits allocated, looked up in this order.
pub open spec fn image_layout(elements: Seq<ElementModel>, ts: TransferSyntax) -> Outcome<
    ImageLayout,
> {
    match u16_value(elements, Tag::x0028x0010, ts) {
        Err(e) => Err(e),
        Ok(rows) => match u16_value(elements, Tag::x0028x0011, ts) {
            Err(e) => Err(e),
            Ok(columns) => match u16_value(elements, Tag::x0028x0002, ts) {
                Err(e) => Err(e),
                Ok(samples_per_pixel) => if samples_per_pixel > 1 {
                    Err(ErrorModel::ImageFormatNotSupported)
                } else {
                    match u16_value(elements, Tag::x0028x0101, ts) {
                        Err(e) => Err(e),
                        Ok(bits_stored) => match u16_value(elements, Tag::x0028x0100, ts) {
                            Err(e) => Err(e),
                            Ok(bits_allocated) => Ok(
                                ImageLayout { rows, columns, bits_allocated, bits_stored },
                            ),
                        },
                    }
                },
            },
        },
    }
}

/// The image of an object with these elements, whose pixel data element
/// starts `s`.
pub open spec fn spec_object_image(
    s: Seq<u8>,
    elements: Seq<ElementModel>,
    ts: TransferSyntax,
) -> Outcome<crate::img::ImageModel> {
    match image_layout(elements, ts) {
        Err(e) => Err(e),
        Ok(layout) => match spec_parse_image(
            s,
            ts,
            layout.rows,
            layout.columns,
            layout.bits_allocated,
            layout.bits_stored,
        ) {
            Err(e) => Err(e),
            Ok((image, _)) => Ok(image),
        },
    }
}

/// A whole DICOM file: the header, group 2, the content and, where the
/// image is asked for, the pixel data. The elements of the object are those
/// of group 2 and then those of the content.
pub open spec fn spec_parse_object(s: Seq<u8>, decode_image: bool, depth: nat) -> Outcome<
    ObjectModel,
> {
    match spec_parse_header(s) {
        Err(e) => parse_error(e),
        Ok((_, h)) => match spec_parse_group2(s.skip(h), depth) {
            Err(e) => Err(e),
            Ok(((ts, meta), g)) => match spec_parse_content(s.skip(h + g), ts, depth) {
                Err(e) => parse_error(e),
                Ok((content, c)) => if decode_image {
                    match spec_object_image(s.skip(h + g + c), meta + content, ts) {
                        Err(e) => Err(e),
                        Ok(image) => Ok(
                            ObjectModel {
                                elements: meta + content,
                                transfer_syntax: ts,
                                image: Some(image),
                            },
                        ),
                    }
                } else {
                    Ok(ObjectModel { elements: meta + content, transfer_syntax: ts, image: None })
                },
            },
        },
    }
}

/// The elements that are read as group 2 all have a tag of group 2.
pub proof fn lemma_group2_is_of_group_two(s: Seq<u8>, depth: nat)
    ensures
        spec_group2_elements(s, depth) matches Ok((elements, _, _)) ==> forall|i: int|
            0 <= i < elements.len() ==> (#[trigger] elements[i]).tag.group() == 2,
    decreases s.len(),
{
    if let Ok((elements, _, _)) = spec_group2_elements(s, depth) {
        if elements.len() > 0 {
            let (element, n) = spec_parse_element(s, le_explicit(), depth).unwrap();
            lemma_group2_is_of_group_two(s.skip(n), depth);
            let others = spec_group2_elements(s.skip(n), depth)->Ok_0.0;
            assert(elements =~= seq![element] + others);
            assert(element.tag == tag_at(s, 0, Endianness::Little));
        }
    }
}

pub proof fn lemma_group2_prepend_one_more(
    done: Seq<ElementModel>,
    named: Option<TransferSyntax>,
    taken: int,
    next: ElementModel,
    here: Option<TransferSyntax>,
    n: int,
    rest: Outcome<(Seq<ElementModel>, Option<TransferSyntax>, int)>,
)
    ensures
        group2_prepend(done, named, taken, group2_prepend(seq![next], here, n, rest))
            == group2_prepend(
            done + seq![next],
            if here is Some {
                here
            } else {
                named
            },
            taken + n,
            rest,
        ),
{
    if let Ok((more, later, m)) = rest {
        assert(done + (seq![next] + more) =~= (done + seq![next]) + more);
    }
}

/// Header is just 128 bytes of padding + the value DICM.
pub fn parse_header<'a>(buf: &'a [u8]) -> (r: ParseResult<'a, ()>)
    ensures
        super::conforms(buf, r, spec_parse_header(buf@)),
{
    if buf.len() < 128 {
        return Err(ParseFailure::Incomplete);
    }
    let magic = slice_subrange(buf, 128, buf.len());
    if (magic.len() > 0 && magic[0] != 0x44) || (magic.len() > 1 && magic[1] != 0x49) || (
    magic.len() > 2 && magic[2] != 0x43) || (magic.len() > 3 && magic[3] != 0x4D) {
        return Err(ParseFailure::BadMagic);
    }
    if magic.len() < 4 {
        return Err(ParseFailure::Incomplete);
    }
    Ok((slice_subrange(buf, 132, buf.len()), ()))
}

/// High-level parser for dicom objects.
///
/// A parser made with [`Parser::new`] or `Parser::default` follows sequences
/// up to [`MAX_SEQUENCE_DEPTH`] deep; [`Parser::with_max_sequence_depth`]
/// sets another limit.
pub struct Parser {
    parse_image: bool,
    max_sequence_depth: usize,
}

impl Default for Parser {
    fn default() -> (parser: Self)
        ensures
            parser.decodes_image(),
            parser.depth() == MAX_SEQUENCE_DEPTH,
    {
        Self { parse_image: true, max_sequence_depth: MAX_SEQUENCE_DEPTH }
    }
}

impl Parser {
    /// Whether the parser decodes the pixel data.
    pub closed spec fn decodes_image(self) -> bool {
        self.parse_image
    }

    /// How deeply the parser follows nested sequences.
    pub closed spec fn depth(self) -> usize {
        self.max_sequence_depth
    }

    /// Create a new parser. if `parse_image` is true, the images will be parsed and returned in the
    /// `DicomObject`. Otherwise, only the tags that are before the image data tag will be parsed.
    pub fn new(parse_image: bool) -> (parser: Self)
        ensures
            parser.decodes_image() == parse_image,
            parser.depth() == MAX_SEQUENCE_DEPTH,
    {
        Self { parse_image, max_sequence_depth: MAX_SEQUENCE_DEPTH }
    }

    /// The same parser, following nested sequences up to `depth` deep.
    pub fn with_max_sequence_depth(self, depth: usize) -> (parser: Self)
        ensures
            parser.decodes_image() == self.decodes_image(),
            parser.depth() == depth,
    {
        Self { parse_image: self.parse_image, max_sequence_depth: depth }
    }

    /// Parse the DICOM object.
    ///
    /// Will return a `DicomObject` which has the same lifetime as the input slice.
    pub fn parse_object<'buf>(&mut self, buf: &'buf [u8]) -> (r: Result<
        DicomObject<'buf>,
        DicomError,
    >)
        ensures
            *final(self) == *old(self),
            match r {
                Ok(object) => spec_parse_object(
                    buf@,
                    old(self).decodes_image(),
                    old(self).depth() as nat,
                ) == Ok::<_, ErrorModel>(object@),
                Err(e) => spec_parse_object(
                    buf@,
                    old(self).decodes_image(),
                    old(self).depth() as nat,
                ) == Err::<ObjectModel, _>(e@),
            },
    {
        let depth = self.max_sequence_depth;
        // Header
        let after_header = match parse_header(buf) {
            Ok((rest, _)) => rest,
            Err(e) => { return Err(DicomError::ParseError(e)); },
        };
        let ghost h = buf@.len() - after_header@.len();
        // Group 2
        let (after_meta, (transfer_syntax, elements)) = match parse_group2(after_header, depth) {
            Ok(read) => read,
            Err(e) => { return Err(e); },
        };
        let ghost g = after_header@.len() - after_meta@.len();
        let ghost meta = element_models(elements@);
        let mut obj = DicomObject::new(elements, transfer_syntax);
        // Content
        let (after_content, elements) = match parse_content(after_meta, transfer_syntax, depth) {
            Ok(read) => read,
            Err(e) => {
                proof {
                    lemma_skip_skip(buf@, h, g);
                }
                return Err(DicomError::ParseError(e));
            },
        };
        let ghost c = after_meta@.len() - after_content@.len();
        let ghost content = element_models(elements@);
        obj.append(elements);
        proof {
            lemma_skip_skip(buf@, h, g);
            lemma_skip_skip(buf@, h + g, c);
            assert(obj@.elements == meta + content);
        }
        // Images
        if self.parse_image {
            let layout = match read_layout(&obj) {
                Ok(layout) => layout,
                Err(e) => { return Err(e); },
            };
            let image = match parse_image(
                after_content,
                transfer_syntax,
                layout.rows,
                layout.columns,
                layout.bits_allocated,
                layout.bits_stored,
            ) {
                Ok((_, image)) => image,
                Err(e) => { return Err(e); },
            };
            obj.image = Some(image);
        }
        Ok(obj)
    }
}

/// Reads from the elements of an object how its pixel data is laid out.
fn read_layout(obj: &DicomObject) -> (r: DicomResult<ImageLayout>)
    ensures
        outcome(r) == image_layout(obj@.elements, obj.transfer_syntax),
{
    let rows: u16 = match obj.try_get(Tag::x0028x0010) {
        Ok(v) => v,
        Err(e) => { return Err(e); },
    };
    let columns: u16 = match obj.try_get(Tag::x0028x0011) {
        Ok(v) => v,
        Err(e) => { return Err(e); },
    };
    let samples_per_pixel: u16 = match obj.try_get(Tag::x0028x0002) {
        Ok(v) => v,
        Err(e) => { return Err(e); },
    };
    if samples_per_pixel > 1 {
        return Err(DicomError::ImageFormatNotSupported);
    }
    let bits_stored: u16 = match obj.try_get(Tag::x0028x0101) {
        Ok(v) => v,
        Err(e) => { return Err(e); },
    };
    let bits_allocated: u16 = match obj.try_get(Tag::x0028x0100) {
        Ok(v) => v,
        Err(e) => { return Err(e); },
    };
    Ok(ImageLayout { rows, columns, bits_allocated, bits_stored })
}

/// Parses the elements of group 2 and finds the transfer syntax among them.
pub fn parse_group2<'a>(buf: &'a [u8], depth: usize) -> (r: DicomResult<
    (&'a [u8], (TransferSyntax, Vec<DataElement<'a>>)),
>)
    ensures
        match r {
            Ok((rest, (ts, elements))) => spec_parse_group2(buf@, depth as nat) matches Ok(
                ((named, models), n),
            ) && named == ts && models == element_models(elements@) && 0 <= n <= buf@.len()
                && rest@ == buf@.skip(n),
            Err(e) => spec_parse_group2(buf@, depth as nat) == Err::<
                ((TransferSyntax, Seq<ElementModel>), int),
                _,
            >(e@),
        },
{
    let mut ts: Option<TransferSyntax> = None;
    let mut current_buf = buf;
    let mut group2_elements: Vec<DataElement<'a>> = Vec::new();
    let mut stop_tag = Tag::UNKNOWN(0, 0);
    proof {
        assert(buf@.skip(0) =~= buf@);
        assert(element_models(group2_elements@) =~= Seq::<ElementModel>::empty());
        if let Ok((more, later, m)) = spec_group2_elements(buf@, depth as nat) {
            assert(Seq::<ElementModel>::empty() + more =~= more);
        }
    }
    loop
        invariant_except_break
            current_buf@.len() <= buf@.len(),
            current_buf@ == buf@.skip(buf@.len() - current_buf@.len()),
            spec_group2_elements(buf@, depth as nat) == group2_prepend(
                element_models(group2_elements@),
                ts,
                buf@.len() - current_buf@.len(),
                spec_group2_elements(current_buf@, depth as nat),
            ),
        ensures
            current_buf@.len() <= buf@.len(),
            current_buf@ == buf@.skip(buf@.len() - current_buf@.len()),
            spec_group2_elements(buf@, depth as nat) == Ok::<_, ErrorModel>(
                (element_models(group2_elements@), ts, buf@.len() - current_buf@.len()),
            ),
            group2_elements@.len() == 0 ==> buf@.len() >= 4 && stop_tag == tag_at(
                buf@,
                0,
                Endianness::Little,
            ),
        decreases current_buf@.len(),
    {
        // Will stop if next tag is not for the second group.
        let next_tag = match parse_tag(current_buf, Endianness::Little) {
            Ok((_, tag)) => tag,
            Err(e) => { return Err(DicomError::ParseError(e)); },
        };
        if next_tag.get_group() != 2 {
            proof {
                assert(element_models(group2_elements@) + Seq::<ElementModel>::empty()
                    =~= element_models(group2_elements@));
                if group2_elements@.len() == 0 {
                    assert(current_buf@.len() == buf@.len());
                    assert(current_buf@ =~= buf@);
                }
            }
            stop_tag = next_tag;
            break ;
        }
        let (rest, data_element) = match parse_dataelement_bounded(
            current_buf,
            TransferSyntax::little_endian_explicit(),
            depth,
        ) {
            Ok(read) => read,
            Err(e) => { return Err(DicomError::ParseError(e)); },
        };
        let ghost before = ts;
        if data_element.tag == Tag::x0002x0010 {
            ts = match TransferSyntax::try_from(&data_element.data) {
                Ok(named) => Some(named),
                Err(e) => { return Err(e); },
            };
        }
        proof {
            let n = current_buf@.len() - rest@.len();
            let here = named_here(data_element@)->Ok_0;
            lemma_group2_prepend_one_more(
                element_models(group2_elements@),
                before,
                buf@.len() - current_buf@.len(),
                data_element@,
                here,
                n,
                spec_group2_elements(rest@, depth as nat),
            );
            lemma_element_models_push(group2_elements@, data_element);
            lemma_skip_skip(buf@, buf@.len() - current_buf@.len(), n);
        }
        group2_elements.push(data_element);
        current_buf = rest;
    }
    match ts {
        Some(ts) => Ok((current_buf, (ts, group2_elements))),
        None => if group2_elements.len() == 0 {
            Err(DicomError::ExpectedGroup2(stop_tag))
        } else {
            Err(DicomError::MissingTag(Tag::x0002x0010))
        },
    }
}

/// Parses the data elements before the pixel data.
pub fn parse_content<'a>(buf: &'a [u8], transfer_syntax: TransferSyntax, depth: usize) -> (r:
    ParseResult<'a, Vec<DataElement<'a>>>)
    ensures
        match r {
            Ok((rest, elements)) => spec_parse_content(buf@, transfer_syntax, depth as nat)
                matches Ok((models, n)) && models == element_models(elements@) && 0 <= n
                <= buf@.len() && rest@ == buf@.skip(n),
            Err(e) => spec_parse_content(buf@, transfer_syntax, depth as nat) == Err::<
                (Seq<ElementModel>, int),
                _,
            >(e),
        },
{
    let mut current_buf = buf;
    let mut elements: Vec<DataElement<'a>> = Vec::new();
    let endian = transfer_syntax.endianness();
    proof {
        assert(buf@.skip(0) =~= buf@);
        assert(element_models(elements@) =~= Seq::<ElementModel>::empty());
        if let Ok((more, m)) = spec_parse_content(buf@, transfer_syntax, depth as nat) {
            assert(Seq::<ElementModel>::empty() + more =~= more);
        }
    }
    loop
        invariant
            endian == transfer_syntax.endianness,
            current_buf@.len() <= buf@.len(),
            current_buf@ == buf@.skip(buf@.len() - current_buf@.len()),
            spec_parse_content(buf@, transfer_syntax, depth as nat) == prepend(
                element_models(elements@),
                buf@.len() - current_buf@.len(),
                spec_parse_content(current_buf@, transfer_syntax, depth as nat),
            ),
        decreases current_buf@.len(),
    {
        // Will stop if next tag is for images.
        let next_tag = match parse_tag(current_buf, endian) {
            Ok((_, tag)) => tag,
            Err(e) => { return Err(e); },
        };
        if next_tag == Tag::x7FE0x0010 {
            proof {
                lemma_prepend_nothing(
                    element_models(elements@),
                    buf@.len() - current_buf@.len(),
                    0,
                );
            }
            return Ok((current_buf, elements));
        }
        let (rest, data_element) = match parse_dataelement_bounded(
            current_buf,
            transfer_syntax,
            depth,
        ) {
            Ok(read) => read,
            Err(e) => { return Err(e); },
        };
        proof {
            let n = current_buf@.len() - rest@.len();
            lemma_prepend_one_more(
                element_models(elements@),
                buf@.len() - current_buf@.len(),
                data_element@,
                n,
                spec_parse_content(rest@, transfer_syntax, depth as nat),
            );
            lemma_element_models_push(elements@, data_element);
            lemma_skip_skip(buf@, buf@.len() - current_buf@.len(), n);
        }
        elements.push(data_element);
        current_buf = rest;
    }
}

} // verus!
