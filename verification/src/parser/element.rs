//! A data element is a tag, a value representation where the transfer syntax
//! writes one, a length and a value. This file holds the grammar of data
//! elements, sequences and items as spec functions, and the parser of data
//! elements.

use super::sq::parse_seq_bounded;
use super::{
    parse_data, parse_length, parse_tag, parse_vr, spec_parse_data, spec_parse_length,
    spec_parse_tag, spec_parse_vr, tag_at, u32_at, Expected, ParseResult,
};
use crate::error::ParseFailure;
use crate::tag::Tag;
use crate::types::{
    le_implicit, DataElement, ElementModel, Endianness, ItemModel, TransferSyntax, Value,
    ValueModel,
};
use crate::vr::{ValueRepresentation, VrModel};
use vstd::prelude::*;

verus! {

/// The length that stands for "undefined": the value is a sequence that ends
/// with a delimiter.
pub const UNDEFINED_LENGTH: u32 = 0xFFFF_FFFF;

/// How deeply sequences may be nested where no other limit is given.
pub const MAX_SEQUENCE_DEPTH: usize = 64;

/// What stands before the value of a data element.
pub struct ElementHeader {
    pub tag: Tag,
    pub vr: Option<VrModel>,
    pub length: u32,
}

/// The header of a data element: the tag, the value representation if the
/// transfer syntax is explicit, and the length.
pub open spec fn spec_element_header(s: Seq<u8>, ts: TransferSyntax) -> Expected<ElementHeader> {
    match spec_parse_tag(s, ts.endianness) {
        Err(e) => Err(e),
        Ok((tag, _)) => if ts.is_vr_explicit {
            match spec_parse_vr(s.skip(4)) {
                Err(e) => Err(e),
                Ok((vr, _)) => match spec_parse_length(s.skip(6), Some(vr), ts.endianness) {
                    Err(e) => Err(e),
                    Ok((length, n)) => Ok((ElementHeader { tag, vr: Some(vr), length }, 6 + n)),
                },
            }
        } else {
            match spec_parse_length(s.skip(4), None, ts.endianness) {
                Err(e) => Err(e),
                Ok((length, n)) => Ok((ElementHeader { tag, vr: None, length }, 4 + n)),
            }
        },
    }
}

/// A data element: its header, then its value. `depth` is how many sequences
/// may still be entered.
pub open spec fn spec_parse_element(s: Seq<u8>, ts: TransferSyntax, depth: nat) -> Expected<
    ElementModel,
>
    decreases s.len(), 0int,
{
    match spec_element_header(s, ts) {
        Err(e) => Err(e),
        Ok((header, h)) => match spec_parse_value(s.skip(h), header.length, ts, depth) {
            Err(e) => Err(e),
            Ok((data, n)) => Ok(
                (
                    ElementModel { tag: header.tag, vr: header.vr, length: header.length, data },
                    h + n,
                ),
            ),
        },
    }
}

/// The value of a data element: a sequence where the length is undefined,
/// and else that many bytes.
pub open spec fn spec_parse_value(
    s: Seq<u8>,
    length: u32,
    ts: TransferSyntax,
    depth: nat,
) -> Expected<ValueModel>
    decreases s.len() + 1, 4int,
{
    if length == UNDEFINED_LENGTH {
        if depth == 0 {
            Err(ParseFailure::DepthExceeded)
        } else {
            match spec_parse_seq(s, ts, (depth - 1) as nat) {
                Err(e) => Err(e),
                Ok((items, n)) => Ok((ValueModel::Sequence(items), n)),
            }
        }
    } else {
        match spec_parse_data(s, length) {
            Err(e) => Err(e),
            Ok((bytes, n)) => Ok((ValueModel::Buf(bytes), n)),
        }
    }
}

/// A sequence: items up to the sequence delimiter. The tag that tells an item
/// from the delimiter is read little endian whatever the transfer syntax; the
/// delimiter is a data element without value representation.
pub open spec fn spec_parse_seq(s: Seq<u8>, ts: TransferSyntax, depth: nat) -> Expected<
    Seq<ItemModel>,
>
    decreases s.len() + 1, 3int,
{
    if s.len() < 4 {
        Err(ParseFailure::Incomplete)
    } else if tag_at(s, 0, Endianness::Little) == Tag::xFFFExE000 {
        match spec_parse_item(s, ts, depth) {
            Err(e) => Err(e),
            Ok((item, n)) => if 0 < n <= s.len() {
                match spec_parse_seq(s.skip(n), ts, depth) {
                    Err(e) => Err(e),
                    Ok((items, m)) => Ok((seq![item] + items, n + m)),
                }
            } else {
                // never taken: an item spans its header at least
                Err(ParseFailure::Incomplete)
            },
        }
    } else if tag_at(s, 0, Endianness::Little) == Tag::xFFFExE0DD {
        match spec_parse_element(s, le_implicit(), depth) {
            Err(e) => Err(e),
            Ok((_, n)) => Ok((Seq::empty(), n)),
        }
    } else {
        Err(ParseFailure::UnexpectedTag(tag_at(s, 0, Endianness::Little)))
    }
}

/// An item: the item tag and a four-byte length, both little endian, then
/// the data elements of the item.
pub open spec fn spec_parse_item(s: Seq<u8>, ts: TransferSyntax, depth: nat) -> Expected<
    ItemModel,
>
    decreases s.len() + 1, 2int,
{
    if s.len() < 4 {
        Err(ParseFailure::Incomplete)
    } else if tag_at(s, 0, Endianness::Little) != Tag::xFFFExE000 {
        Err(ParseFailure::UnexpectedTag(tag_at(s, 0, Endianness::Little)))
    } else if s.len() < 8 {
        Err(ParseFailure::Incomplete)
    } else {
        let length = u32_at(s, 4, Endianness::Little);
        let body = if length == UNDEFINED_LENGTH {
            spec_parse_item_open(s.skip(8), ts, depth)
        } else {
            spec_parse_item_sized(s.skip(8), length as nat, ts, depth)
        };
        match body {
            Err(e) => Err(e),
            Ok((elements, n)) => Ok((ItemModel { elements }, 8 + n)),
        }
    }
}

/// The data elements of an item of undefined length: all up to the item
/// delimiter, which is a data element without value representation and is
/// recognised by its tag read little endian.
pub open spec fn spec_parse_item_open(s: Seq<u8>, ts: TransferSyntax, depth: nat) -> Expected<
    Seq<ElementModel>,
>
    decreases s.len() + 1, 1int,
{
    if s.len() < 4 {
        Err(ParseFailure::Incomplete)
    } else if tag_at(s, 0, Endianness::Little) == Tag::xFFFExE00D {
        match spec_parse_element(s, le_implicit(), depth) {
            Err(e) => Err(e),
            Ok((_, n)) => Ok((Seq::empty(), n)),
        }
    } else {
        match spec_parse_element(s, ts, depth) {
            Err(e) => Err(e),
            Ok((element, n)) => if 0 < n <= s.len() {
                match spec_parse_item_open(s.skip(n), ts, depth) {
                    Err(e) => Err(e),
                    Ok((elements, m)) => Ok((seq![element] + elements, n + m)),
                }
            } else {
                // never taken: a data element spans its header at least
                Err(ParseFailure::Incomplete)
            },
        }
    }
}

/// The data elements of an item that declares `remaining` bytes: data
/// elements are read until they have taken exactly that many. One that takes
/// more than is left is an error.
pub open spec fn spec_parse_item_sized(
    s: Seq<u8>,
    remaining: nat,
    ts: TransferSyntax,
    depth: nat,
) -> Expected<Seq<ElementModel>>
    decreases s.len() + 1, 1int,
{
    if remaining == 0 {
        Ok((Seq::empty(), 0))
    } else {
        match spec_parse_element(s, ts, depth) {
            Err(e) => Err(e),
            Ok((element, n)) => if n > remaining {
                Err(ParseFailure::LengthOverrun)
            } else if 0 < n <= s.len() {
                match spec_parse_item_sized(s.skip(n), (remaining - n) as nat, ts, depth) {
                    Err(e) => Err(e),
                    Ok((elements, m)) => Ok((seq![element] + elements, n + m)),
                }
            } else {
                // never taken: a data element spans its header at least
                Err(ParseFailure::Incomplete)
            },
        }
    }
}

/// What is still to come decides the whole: where the values `done` took
/// `taken` bytes and `rest` is the outcome on the bytes after them, the
/// outcome on all the bytes is that of `rest` with `done` put in front.
pub open spec fn prepend<T>(done: Seq<T>, taken: int, rest: Expected<Seq<T>>) -> Expected<Seq<T>> {
    match rest {
        Ok((more, n)) => Ok((done + more, taken + n)),
        Err(e) => Err(e),
    }
}

pub proof fn lemma_prepend_nothing<T>(done: Seq<T>, taken: int, n: int)
    ensures
        prepend(done, taken, Ok((Seq::<T>::empty(), n))) == Ok::<_, ParseFailure>(
            (done, taken + n),
        ),
{
    assert(done + Seq::<T>::empty() =~= done);
}

pub proof fn lemma_prepend_one_more<T>(
    done: Seq<T>,
    taken: int,
    next: T,
    n: int,
    rest: Expected<Seq<T>>,
)
    ensures
        prepend(done, taken, prepend(seq![next], n, rest)) == prepend(
            done + seq![next],
            taken + n,
            rest,
        ),
{
    if let Ok((more, m)) = rest {
        assert(done + (seq![next] + more) =~= (done + seq![next]) + more);
    }
}

/// Skipping twice is skipping once.
pub proof fn lemma_skip_skip(s: Seq<u8>, a: int, b: int)
    requires
        0 <= a,
        0 <= b,
        a + b <= s.len(),
    ensures
        s.skip(a).skip(b) == s.skip(a + b),
{
    assert(s.skip(a).skip(b) =~= s.skip(a + b));
}

/// A sequence that starts with an item is that item and then a sequence.
pub proof fn lemma_seq_starts_with_item(s: Seq<u8>, ts: TransferSyntax, depth: nat)
    requires
        s.len() >= 4,
        tag_at(s, 0, Endianness::Little) == Tag::xFFFExE000,
        spec_parse_item(s, ts, depth) matches Ok((_, n)) && 0 < n <= s.len(),
    ensures
        ({
            let (item, n) = spec_parse_item(s, ts, depth).unwrap();
            spec_parse_seq(s, ts, depth) == prepend(
                seq![item],
                n,
                spec_parse_seq(s.skip(n), ts, depth),
            )
        }),
{
}

/// A sequence ends with its delimiter.
pub proof fn lemma_seq_ends(s: Seq<u8>, ts: TransferSyntax, depth: nat)
    requires
        s.len() >= 4,
        tag_at(s, 0, Endianness::Little) == Tag::xFFFExE0DD,
    ensures
        spec_parse_seq(s, ts, depth) == (match spec_parse_element(s, le_implicit(), depth) {
            Err(e) => Err(e),
            Ok((_, n)) => Ok((Seq::<ItemModel>::empty(), n)),
        }),
{
}

/// An item of undefined length whose next tag is no delimiter goes on with a
/// data element.
pub proof fn lemma_item_open_goes_on(s: Seq<u8>, ts: TransferSyntax, depth: nat)
    requires
        s.len() >= 4,
        tag_at(s, 0, Endianness::Little) != Tag::xFFFExE00D,
        spec_parse_element(s, ts, depth) matches Ok((_, n)) && 0 < n <= s.len(),
    ensures
        ({
            let (element, n) = spec_parse_element(s, ts, depth).unwrap();
            spec_parse_item_open(s, ts, depth) == prepend(
                seq![element],
                n,
                spec_parse_item_open(s.skip(n), ts, depth),
            )
        }),
{
}

/// An item of undefined length ends with its delimiter.
pub proof fn lemma_item_open_ends(s: Seq<u8>, ts: TransferSyntax, depth: nat)
    requires
        s.len() >= 4,
        tag_at(s, 0, Endianness::Little) == Tag::xFFFExE00D,
    ensures
        spec_parse_item_open(s, ts, depth) == (match spec_parse_element(s, le_implicit(), depth) {
            Err(e) => Err(e),
            Ok((_, n)) => Ok((Seq::<ElementModel>::empty(), n)),
        }),
{
}

/// An item with bytes left goes on with a data element that fits in them.
pub proof fn lemma_item_sized_goes_on(s: Seq<u8>, remaining: nat, ts: TransferSyntax, depth: nat)
    requires
        remaining > 0,
        spec_parse_element(s, ts, depth) matches Ok((_, n)) && 0 < n <= s.len() && n <= remaining,
    ensures
        ({
            let (element, n) = spec_parse_element(s, ts, depth).unwrap();
            spec_parse_item_sized(s, remaining, ts, depth) == prepend(
                seq![element],
                n,
                spec_parse_item_sized(s.skip(n), (remaining - n) as nat, ts, depth),
            )
        }),
{
}

/// What is read as a data element hangs together: its tag is canonical; it
/// has a value representation exactly under an explicit transfer syntax;
/// its bytes are as many as its length says, and it is a sequence exactly
/// where its length is the undefined length.
pub proof fn lemma_parsed_element_is_consistent(s: Seq<u8>, ts: TransferSyntax, depth: nat)
    ensures
        spec_parse_element(s, ts, depth) matches Ok((element, _)) ==> {
            &&& element.tag.canonical()
            &&& element.vr is Some <==> ts.is_vr_explicit
            &&& element.data matches ValueModel::Buf(bytes) ==> bytes.len() == element.length
                && element.length != UNDEFINED_LENGTH
            &&& element.data is Sequence ==> element.length == UNDEFINED_LENGTH
        },
{
    crate::tag::lemma_from_values_keeps_numbers(
        super::u16_at(s, 0, ts.endianness),
        super::u16_at(s, 2, ts.endianness),
    );
}

/// A header spans 8 or 12 of the bytes that are there.
pub proof fn lemma_header_span(s: Seq<u8>, ts: TransferSyntax)
    ensures
        spec_element_header(s, ts) matches Ok((_, h)) ==> 8 <= h <= s.len(),
{
}

/// What is parsed spans bytes that are there: a data element and an item at
/// least the eight of a header. So the branches of the grammar that ask
/// whether a parser has moved on are never taken.
pub proof fn lemma_element_span(s: Seq<u8>, ts: TransferSyntax, depth: nat)
    ensures
        spec_parse_element(s, ts, depth) matches Ok((_, n)) ==> 8 <= n <= s.len(),
    decreases s.len(), 0int,
{
    lemma_header_span(s, ts);
    if let Ok((header, h)) = spec_element_header(s, ts) {
        lemma_value_span(s.skip(h), header.length, ts, depth);
    }
}

pub proof fn lemma_value_span(s: Seq<u8>, length: u32, ts: TransferSyntax, depth: nat)
    ensures
        spec_parse_value(s, length, ts, depth) matches Ok((_, n)) ==> 0 <= n <= s.len(),
    decreases s.len() + 1, 4int,
{
    if length == UNDEFINED_LENGTH && depth > 0 {
        lemma_seq_span(s, ts, (depth - 1) as nat);
    }
}

pub proof fn lemma_seq_span(s: Seq<u8>, ts: TransferSyntax, depth: nat)
    ensures
        spec_parse_seq(s, ts, depth) matches Ok((_, n)) ==> 8 <= n <= s.len(),
    decreases s.len() + 1, 3int,
{
    if s.len() >= 4 {
        if tag_at(s, 0, Endianness::Little) == Tag::xFFFExE000 {
            lemma_item_span(s, ts, depth);
            if let Ok((_, n)) = spec_parse_item(s, ts, depth) {
                lemma_seq_span(s.skip(n), ts, depth);
            }
        } else if tag_at(s, 0, Endianness::Little) == Tag::xFFFExE0DD {
            lemma_element_span(s, le_implicit(), depth);
        }
    }
}

pub proof fn lemma_item_span(s: Seq<u8>, ts: TransferSyntax, depth: nat)
    ensures
        spec_parse_item(s, ts, depth) matches Ok((_, n)) ==> 8 <= n <= s.len(),
    decreases s.len() + 1, 2int,
{
    if s.len() >= 8 {
        lemma_item_open_span(s.skip(8), ts, depth);
        lemma_item_sized_span(s.skip(8), u32_at(s, 4, Endianness::Little) as nat, ts, depth);
    }
}

pub proof fn lemma_item_open_span(s: Seq<u8>, ts: TransferSyntax, depth: nat)
    ensures
        spec_parse_item_open(s, ts, depth) matches Ok((_, n)) ==> 8 <= n <= s.len(),
    decreases s.len() + 1, 1int,
{
    if s.len() >= 4 {
        if tag_at(s, 0, Endianness::Little) == Tag::xFFFExE00D {
            lemma_element_span(s, le_implicit(), depth);
        } else {
            lemma_element_span(s, ts, depth);
            if let Ok((_, n)) = spec_parse_element(s, ts, depth) {
                lemma_item_open_span(s.skip(n), ts, depth);
            }
        }
    }
}

pub proof fn lemma_item_sized_span(s: Seq<u8>, remaining: nat, ts: TransferSyntax, depth: nat)
    ensures
        spec_parse_item_sized(s, remaining, ts, depth) matches Ok((_, n)) ==> n == remaining && n
            <= s.len(),
    decreases s.len() + 1, 1int,
{
    if remaining > 0 {
        lemma_element_span(s, ts, depth);
        if let Ok((_, n)) = spec_parse_element(s, ts, depth) {
            if n <= remaining {
                lemma_item_sized_span(s.skip(n), (remaining - n) as nat, ts, depth);
            }
        }
    }
}

/// The header of a data element, as the transfer syntax writes it.
pub fn parse_element_header<'a>(buf: &'a [u8], transfer_syntax: TransferSyntax) -> (r: ParseResult<
    'a,
    (Tag, Option<ValueRepresentation>, u32),
>)
    ensures
        match r {
            Ok((rest, (tag, vr, length))) => spec_element_header(buf@, transfer_syntax)
                matches Ok((header, n)) && header.tag == tag && header.vr == super::vr_model_of(
                vr,
            ) && header.length == length && 8 <= n <= buf@.len() && rest@ == buf@.skip(n),
            Err(e) => spec_element_header(buf@, transfer_syntax) == Err::<(ElementHeader, int), _>(
                e,
            ),
        },
{
    let endian = transfer_syntax.endianness();
    let (after_tag, tag) = match parse_tag(buf, endian) {
        Ok(read) => read,
        Err(e) => { return Err(e); },
    };
    let (after_vr, vr) = if transfer_syntax.is_vr_explicit() {
        match parse_vr(after_tag) {
            Ok((rest, vr)) => (rest, Some(vr)),
            Err(e) => { return Err(e); },
        }
    } else {
        (after_tag, None)
    };
    assert(transfer_syntax.is_vr_explicit ==> after_vr@ == buf@.skip(6));
    match parse_length(after_vr, &vr, endian) {
        Ok((rest, length)) => {
            assert(rest@ == buf@.skip(buf@.len() - rest@.len()));
            Ok((rest, (tag, vr, length)))
        },
        Err(e) => Err(e),
    }
}

/// Parses one data element, entering sequences up to [`MAX_SEQUENCE_DEPTH`]
/// deep.
pub fn parse_dataelement<'a>(buf: &'a [u8], transfer_syntax: TransferSyntax) -> (r: ParseResult<
    'a,
    DataElement<'a>,
>)
    ensures
        match r {
            Ok((rest, element)) => spec_parse_element(
                buf@,
                transfer_syntax,
                MAX_SEQUENCE_DEPTH as nat,
            ) matches Ok((model, n)) && model == element@ && 8 <= n <= buf@.len() && rest@
                == buf@.skip(n),
            Err(e) => spec_parse_element(buf@, transfer_syntax, MAX_SEQUENCE_DEPTH as nat)
                == Err::<(ElementModel, int), _>(e),
        },
{
    parse_dataelement_bounded(buf, transfer_syntax, MAX_SEQUENCE_DEPTH)
}

/// Parses one data element. `depth` is how many sequences may still be
/// entered: a sequence met at depth 0 fails with
/// [`ParseFailure::DepthExceeded`].
pub fn parse_dataelement_bounded<'a>(
    buf: &'a [u8],
    transfer_syntax: TransferSyntax,
    depth: usize,
) -> (r: ParseResult<'a, DataElement<'a>>)
    ensures
        match r {
            Ok((rest, element)) => spec_parse_element(buf@, transfer_syntax, depth as nat)
                matches Ok((model, n)) && model == element@ && 8 <= n <= buf@.len() && rest@
                == buf@.skip(n),
            Err(e) => spec_parse_element(buf@, transfer_syntax, depth as nat) == Err::<
                (ElementModel, int),
                _,
            >(e),
        },
    decreases buf@.len(), 0int,
{
    // If no transfer syntax, we expect group 2. For the group 2, the Little endian, explicit VR is used.
    let (after, (tag, vr, length)) = match parse_element_header(buf, transfer_syntax) {
        Ok(read) => read,
        Err(e) => { return Err(e); },
    };
    match parse_element_data_bounded(after, length, transfer_syntax, depth) {
        Ok((rest, data)) => {
            let element = DataElement { tag, vr, length, data };
            assert(rest@ == buf@.skip(buf@.len() - rest@.len()));
            Ok((rest, element))
        },
        Err(e) => Err(e),
    }
}

/// Parses the value of a data element of the given length, entering
/// sequences up to [`MAX_SEQUENCE_DEPTH`] deep.
pub fn parse_element_data<'a>(
    buf: &'a [u8],
    length: u32,
    transfer_syntax: TransferSyntax,
) -> (r: ParseResult<'a, Value<'a>>)
    ensures
        match r {
            Ok((rest, value)) => spec_parse_value(
                buf@,
                length,
                transfer_syntax,
                MAX_SEQUENCE_DEPTH as nat,
            ) matches Ok((model, n)) && model == value@ && 0 <= n <= buf@.len() && rest@
                == buf@.skip(n),
            Err(e) => spec_parse_value(buf@, length, transfer_syntax, MAX_SEQUENCE_DEPTH as nat)
                == Err::<(ValueModel, int), _>(e),
        },
{
    parse_element_data_bounded(buf, length, transfer_syntax, MAX_SEQUENCE_DEPTH)
}

/// Parses the value of a data element of the given length.
pub fn parse_element_data_bounded<'a>(
    buf: &'a [u8],
    length: u32,
    transfer_syntax: TransferSyntax,
    depth: usize,
) -> (r: ParseResult<'a, Value<'a>>)
    ensures
        match r {
            Ok((rest, value)) => spec_parse_value(buf@, length, transfer_syntax, depth as nat)
                matches Ok((model, n)) && model == value@ && 0 <= n <= buf@.len() && rest@
                == buf@.skip(n),
            Err(e) => spec_parse_value(buf@, length, transfer_syntax, depth as nat) == Err::<
                (ValueModel, int),
                _,
            >(e),
        },
    decreases buf@.len() + 1, 4int,
{
    if length == UNDEFINED_LENGTH {
        if depth == 0 {
            return Err(ParseFailure::DepthExceeded);
        }
        match parse_seq_bounded(buf, length, transfer_syntax, depth - 1) {
            Ok((rest, items)) => {
                Ok((rest, Value::Sequence(items)))
            },
            Err(e) => Err(e),
        }
    } else {
        match parse_data(buf, length) {
            Ok((rest, data)) => Ok((rest, Value::Buf(data))),
            Err(e) => Err(e),
        }
    }
}

} // verus!
