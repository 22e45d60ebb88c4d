//! SQ: Sequence of items, has its own special section in the DICOM specification.
//! It is a way to encode a sequence of multiple items.
//! A sequence of undefined length ends with a sequence delimitation item.
//!
//! One item can contain multiple data elements.
//!
//! There are three special SQ related Data Elements that are not ruled by the VR encoding rules
//! conveyed by the Transfer Syntax. They are encoded as little endian Implicit VR.
//! These special Data Elements are Item (FFFE,E000), Item Delimitation Item (FFFE,E00D),
//! and Sequence Delimitation Item (FFFE,E0DD). However, the Data Set within the Value Field of
//! the Data Element Item (FFFE,E000) is encoded according to the rules conveyed by the Transfer Syntax.

use super::element::{
    lemma_item_open_ends, lemma_item_open_goes_on, lemma_item_sized_goes_on,
    lemma_prepend_nothing, lemma_prepend_one_more, lemma_seq_ends, lemma_seq_starts_with_item,
    lemma_skip_skip, parse_dataelement_bounded, prepend, spec_parse_item,
    spec_parse_item_open, spec_parse_item_sized, spec_parse_seq, MAX_SEQUENCE_DEPTH,
    UNDEFINED_LENGTH,
};
use super::{parse_tag, parse_u32, ParseResult};
use crate::error::ParseFailure;
use crate::tag::Tag;
use crate::types::{
    element_models, item_models, lemma_element_models_push, lemma_item_models_push, DataElement,
    ElementModel, Endianness, ItemModel, TransferSyntax,
};
use vstd::prelude::*;

pub use crate::types::Item;

verus! {

/// A sequence is a list of items. Special sequence elements are always using little endian implicit (no VR)
/// A sequence with undefined length is finished by the special element xFFFExE0DD.
///
/// The buffer here only contains the data part of the SQ data element (the rest has already been
/// parsed). Sequences are entered up to [`MAX_SEQUENCE_DEPTH`] deep.
pub fn parse_seq<'a>(buf: &'a [u8], length: u32, transfer_syntax: TransferSyntax) -> (r:
    ParseResult<'a, Vec<Item<'a>>>)
    ensures
        match r {
            Ok((rest, items)) => spec_parse_seq(buf@, transfer_syntax, MAX_SEQUENCE_DEPTH as nat)
                matches Ok((models, n)) && models == item_models(items@) && 0 <= n <= buf@.len()
                && rest@ == buf@.skip(n),
            Err(e) => spec_parse_seq(buf@, transfer_syntax, MAX_SEQUENCE_DEPTH as nat) == Err::<
                (Seq<ItemModel>, int),
                _,
            >(e),
        },
{
    parse_seq_bounded(buf, length, transfer_syntax, MAX_SEQUENCE_DEPTH)
}

/// Parses the items of a sequence up to its delimiter. The declared length
/// is not used: the delimiter ends the sequence.
pub fn parse_seq_bounded<'a>(
    buf: &'a [u8],
    _length: u32,
    transfer_syntax: TransferSyntax,
    depth: usize,
) -> (r: ParseResult<'a, Vec<Item<'a>>>)
    ensures
        match r {
            Ok((rest, items)) => spec_parse_seq(buf@, transfer_syntax, depth as nat) matches Ok(
                (models, n),
            ) && models == item_models(items@) && 0 <= n <= buf@.len() && rest@ == buf@.skip(n),
            Err(e) => spec_parse_seq(buf@, transfer_syntax, depth as nat) == Err::<
                (Seq<ItemModel>, int),
                _,
            >(e),
        },
    decreases buf@.len() + 1, 3int,
{
    let mut current = buf;
    let mut items: Vec<Item<'a>> = Vec::new();
    proof {
        assert(item_models(items@) + Seq::<ItemModel>::empty() =~= Seq::<ItemModel>::empty());
        assert(buf@.skip(0) =~= buf@);
        assert(item_models(items@) =~= Seq::<ItemModel>::empty());
        if let Ok((more, m)) = spec_parse_seq(buf@, transfer_syntax, depth as nat) {
            assert(Seq::<ItemModel>::empty() + more =~= more);
        }
    }
    loop
        invariant
            current@.len() <= buf@.len(),
            current@ == buf@.skip(buf@.len() - current@.len()),
            spec_parse_seq(buf@, transfer_syntax, depth as nat) == prepend(
                item_models(items@),
                buf@.len() - current@.len(),
                spec_parse_seq(current@, transfer_syntax, depth as nat),
            ),
        decreases current@.len(),
    {
        let next_tag = match parse_tag(current, Endianness::Little) {
            Ok((_, tag)) => tag,
            Err(e) => { return Err(e); },
        };
        if next_tag == Tag::xFFFExE000 {
            // Item !
            let (rest, item) = match parse_item_bounded(current, transfer_syntax, depth) {
                Ok(read) => read,
                Err(e) => { return Err(e); },
            };
            proof {
                let n = current@.len() - rest@.len();
                lemma_seq_starts_with_item(current@, transfer_syntax, depth as nat);
                lemma_prepend_one_more(
                    item_models(items@),
                    buf@.len() - current@.len(),
                    item@,
                    n,
                    spec_parse_seq(rest@, transfer_syntax, depth as nat),
                );
                lemma_item_models_push(items@, item);
                lemma_skip_skip(buf@, buf@.len() - current@.len(), n);
            }
            current = rest;
            items.push(item);
        } else if next_tag == Tag::xFFFExE0DD {
            // Sequence delimitation !
            proof {
                lemma_seq_ends(current@, transfer_syntax, depth as nat);
            }
            match parse_dataelement_bounded(
                current,
                TransferSyntax::little_endian_implicit(),
                depth,
            ) {
                Ok((rest, _)) => {
                    proof {
                        let n = current@.len() - rest@.len();
                        lemma_prepend_nothing(
                            item_models(items@),
                            buf@.len() - current@.len(),
                            n,
                        );
                        lemma_skip_skip(buf@, buf@.len() - current@.len(), n);
                    }
                    return Ok((rest, items));
                },
                Err(e) => { return Err(e); },
            }
        } else {
            return Err(ParseFailure::UnexpectedTag(next_tag));
        }
    }
}

/// An Item is just a sequence of data elements. The Item starts with tag xFFFExE000. It has no
/// VR but it can have a length. If length is `u32::MAX`, then the Item will finish by the
/// Item delimitation tag xFFFExE00D
///
/// | TAG | LENGTH | DATA |
/// | 4   | 4      | n    |
///
/// Sequences inside the item are entered up to [`MAX_SEQUENCE_DEPTH`] deep.
pub fn parse_item<'a>(buf: &'a [u8], transfer_syntax: TransferSyntax) -> (r: ParseResult<
    'a,
    Item<'a>,
>)
    ensures
        match r {
            Ok((rest, item)) => spec_parse_item(buf@, transfer_syntax, MAX_SEQUENCE_DEPTH as nat)
                matches Ok((model, n)) && model == item@ && 8 <= n <= buf@.len() && rest@
                == buf@.skip(n),
            Err(e) => spec_parse_item(buf@, transfer_syntax, MAX_SEQUENCE_DEPTH as nat) == Err::<
                (ItemModel, int),
                _,
            >(e),
        },
{
    parse_item_bounded(buf, transfer_syntax, MAX_SEQUENCE_DEPTH)
}

/// Parses one item: its tag and length, then its data elements.
pub fn parse_item_bounded<'a>(buf: &'a [u8], transfer_syntax: TransferSyntax, depth: usize) -> (r:
    ParseResult<'a, Item<'a>>)
    ensures
        match r {
            Ok((rest, item)) => spec_parse_item(buf@, transfer_syntax, depth as nat) matches Ok(
                (model, n),
            ) && model == item@ && 8 <= n <= buf@.len() && rest@ == buf@.skip(n),
            Err(e) => spec_parse_item(buf@, transfer_syntax, depth as nat) == Err::<
                (ItemModel, int),
                _,
            >(e),
        },
    decreases buf@.len() + 1, 2int,
{
    let (after_tag, tag) = match parse_tag(buf, Endianness::Little) {
        Ok(read) => read,
        Err(e) => { return Err(e); },
    };
    if tag != Tag::xFFFExE000 {
        return Err(ParseFailure::UnexpectedTag(tag));
    }
    let (body, length) = match parse_u32(after_tag, Endianness::Little) {
        Ok(read) => read,
        Err(e) => { return Err(e); },
    };
    proof {
        reveal(super::u32_at);
        lemma_skip_skip(buf@, 4, 4);
    }
    // will parse the content of an item. An item contains a buf of data elements.
    let read = if length == UNDEFINED_LENGTH {
        parse_item_open(body, transfer_syntax, depth)
    } else {
        parse_item_sized(body, length, transfer_syntax, depth)
    };
    match read {
        Ok((rest, elements)) => {
            proof {
                lemma_skip_skip(buf@, 8, body@.len() - rest@.len());
            }
            Ok((rest, Item { elements }))
        },
        Err(e) => Err(e),
    }
}

/// Parses the data elements of an item of undefined length, up to and with
/// the item delimiter.
pub fn parse_item_open<'a>(buf: &'a [u8], transfer_syntax: TransferSyntax, depth: usize) -> (r:
    ParseResult<'a, Vec<DataElement<'a>>>)
    ensures
        match r {
            Ok((rest, elements)) => spec_parse_item_open(buf@, transfer_syntax, depth as nat)
                matches Ok((models, n)) && models == element_models(elements@) && 0 <= n
                <= buf@.len() && rest@ == buf@.skip(n),
            Err(e) => spec_parse_item_open(buf@, transfer_syntax, depth as nat) == Err::<
                (Seq<ElementModel>, int),
                _,
            >(e),
        },
    decreases buf@.len() + 1, 1int,
{
    let mut current = buf;
    let mut elements: Vec<DataElement<'a>> = Vec::new();
    proof {
        assert(buf@.skip(0) =~= buf@);
        assert(element_models(elements@) =~= Seq::<ElementModel>::empty());
        if let Ok((more, m)) = spec_parse_item_open(buf@, transfer_syntax, depth as nat) {
            assert(Seq::<ElementModel>::empty() + more =~= more);
        }
    }
    loop
        invariant
            current@.len() <= buf@.len(),
            current@ == buf@.skip(buf@.len() - current@.len()),
            spec_parse_item_open(buf@, transfer_syntax, depth as nat) == prepend(
                element_models(elements@),
                buf@.len() - current@.len(),
                spec_parse_item_open(current@, transfer_syntax, depth as nat),
            ),
        decreases current@.len(),
    {
        // Expect to have a Item delimitation element
        let next_tag = match parse_tag(current, Endianness::Little) {
            Ok((_, tag)) => tag,
            Err(e) => { return Err(e); },
        };
        if next_tag == Tag::xFFFExE00D {
            proof {
                lemma_item_open_ends(current@, transfer_syntax, depth as nat);
            }
            match parse_dataelement_bounded(
                current,
                TransferSyntax::little_endian_implicit(),
                depth,
            ) {
                Ok((rest, _)) => {
                    proof {
                        let n = current@.len() - rest@.len();
                        lemma_prepend_nothing(
                            element_models(elements@),
                            buf@.len() - current@.len(),
                            n,
                        );
                        lemma_skip_skip(buf@, buf@.len() - current@.len(), n);
                    }
                    return Ok((rest, elements));
                },
                Err(e) => { return Err(e); },
            }
        }
        let (rest, data_element) = match parse_dataelement_bounded(
            current,
            transfer_syntax,
            depth,
        ) {
            Ok(read) => read,
            Err(e) => { return Err(e); },
        };
        proof {
            let n = current@.len() - rest@.len();
            lemma_item_open_goes_on(current@, transfer_syntax, depth as nat);
            lemma_prepend_one_more(
                element_models(elements@),
                buf@.len() - current@.len(),
                data_element@,
                n,
                spec_parse_item_open(rest@, transfer_syntax, depth as nat),
            );
            lemma_element_models_push(elements@, data_element);
            lemma_skip_skip(buf@, buf@.len() - current@.len(), n);
        }
        elements.push(data_element);
        current = rest;
    }
}

/// Parses the data elements of an item that declares `length` bytes.
pub fn parse_item_sized<'a>(
    buf: &'a [u8],
    length: u32,
    transfer_syntax: TransferSyntax,
    depth: usize,
) -> (r: ParseResult<'a, Vec<DataElement<'a>>>)
    ensures
        match r {
            Ok((rest, elements)) => spec_parse_item_sized(
                buf@,
                length as nat,
                transfer_syntax,
                depth as nat,
            ) matches Ok((models, n)) && models == element_models(elements@) && 0 <= n
                <= buf@.len() && rest@ == buf@.skip(n),
            Err(e) => spec_parse_item_sized(buf@, length as nat, transfer_syntax, depth as nat)
                == Err::<(Seq<ElementModel>, int), _>(e),
        },
    decreases buf@.len() + 1, 1int,
{
    let mut current = buf;
    let mut remaining_len: usize = length as usize;
    let mut elements: Vec<DataElement<'a>> = Vec::new();
    proof {
        assert(buf@.skip(0) =~= buf@);
        assert(element_models(elements@) =~= Seq::<ElementModel>::empty());
        if let Ok((more, m)) = spec_parse_item_sized(
            buf@,
            length as nat,
            transfer_syntax,
            depth as nat,
        ) {
            assert(Seq::<ElementModel>::empty() + more =~= more);
        }
    }
    while remaining_len != 0
        invariant
            current@.len() <= buf@.len(),
            current@ == buf@.skip(buf@.len() - current@.len()),
            spec_parse_item_sized(buf@, length as nat, transfer_syntax, depth as nat) == prepend(
                element_models(elements@),
                buf@.len() - current@.len(),
                spec_parse_item_sized(
                    current@,
                    remaining_len as nat,
                    transfer_syntax,
                    depth as nat,
                ),
            ),
        decreases current@.len(),
    {
        let length_before = current.len();
        let (rest, data_element) = match parse_dataelement_bounded(
            current,
            transfer_syntax,
            depth,
        ) {
            Ok(read) => read,
            Err(e) => { return Err(e); },
        };
        let parsed_len = length_before - rest.len();
        if parsed_len > remaining_len {
            return Err(ParseFailure::LengthOverrun);
        }
        proof {
            lemma_item_sized_goes_on(
                current@,
                remaining_len as nat,
                transfer_syntax,
                depth as nat,
            );
            lemma_prepend_one_more(
                element_models(elements@),
                buf@.len() - current@.len(),
                data_element@,
                parsed_len as int,
                spec_parse_item_sized(
                    rest@,
                    (remaining_len - parsed_len) as nat,
                    transfer_syntax,
                    depth as nat,
                ),
            );
            lemma_element_models_push(elements@, data_element);
            lemma_skip_skip(buf@, buf@.len() - current@.len(), parsed_len as int);
        }
        remaining_len -= parsed_len;
        elements.push(data_element);
        current = rest;
    }
    proof {
        lemma_prepend_nothing(element_models(elements@), buf@.len() - current@.len(), 0);
    }
    Ok((current, elements))
}

} // verus!
