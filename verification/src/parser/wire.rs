//! How data elements are written, and that what is written is read back.
//!
//! Nothing here writes a file: the functions say, as sequences of bytes, what
//! the encoding of a value is, and the proofs show that the parsers read
//! every encoding back as the value it was made from.

use super::element::{
    lemma_item_span, spec_element_header, spec_parse_element, spec_parse_item, spec_parse_item_open,
    spec_parse_seq, spec_parse_value, ElementHeader, UNDEFINED_LENGTH,
};
use super::obj::{named_here, spec_group2_elements, spec_parse_group2};
use super::{
    lemma_u16_bytes_len, lemma_u16_read_back, lemma_u32_bytes_len, lemma_u32_read_back,
    lemma_u32_round_trip, spec_parse_length, spec_parse_tag, spec_parse_vr, tag_at, u16_at,
    u16_bytes, u32_at, u32_bytes,
};
use crate::error::{ErrorModel, ParseFailure};
use crate::tag::Tag;
use crate::types::{
    le_explicit, le_implicit, ElementModel, Endianness, ItemModel, TransferSyntax, ValueModel,
};
use crate::vr::{is_known_code, vr_of_letters, VrModel};
use vstd::prelude::*;

verus! {

/// The four bytes of a tag: the group, then the element.
pub open spec fn tag_bytes(tag: Tag, endian: Endianness) -> Seq<u8> {
    u16_bytes(tag.group(), endian) + u16_bytes(tag.element(), endian)
}

/// The two letters of a value representation.
pub open spec fn vr_bytes(vr: VrModel) -> Seq<u8> {
    seq![vr.code[0] as u8, vr.code[1] as u8]
}

/// The length field of a data element, with its reserved bytes zero.
pub open spec fn length_bytes(vr: Option<VrModel>, length: u32, endian: Endianness) -> Seq<u8> {
    match vr {
        Some(vr) => if vr.special_length() {
            seq![0u8, 0u8] + u32_bytes(length, endian)
        } else {
            u16_bytes(length as u16, endian)
        },
        None => u32_bytes(length, endian),
    }
}

/// The header of a data element.
pub open spec fn header_bytes(header: ElementHeader, ts: TransferSyntax) -> Seq<u8> {
    tag_bytes(header.tag, ts.endianness) + (match header.vr {
        Some(vr) => vr_bytes(vr),
        None => Seq::empty(),
    }) + length_bytes(header.vr, header.length, ts.endianness)
}

/// A delimiter: its tag and the length zero, little endian.
pub open spec fn delimiter_bytes(tag: Tag) -> Seq<u8> {
    tag_bytes(tag, Endianness::Little) + u32_bytes(0, Endianness::Little)
}

/// The start of an item of undefined length: the item tag and the undefined
/// length, little endian.
pub open spec fn item_start_bytes() -> Seq<u8> {
    tag_bytes(Tag::xFFFExE000, Endianness::Little) + u32_bytes(
        UNDEFINED_LENGTH,
        Endianness::Little,
    )
}

/// The header of a data element model.
pub open spec fn header_of(element: ElementModel) -> ElementHeader {
    ElementHeader { tag: element.tag, vr: element.vr, length: element.length }
}

/// A data element: its header, then its value.
pub open spec fn element_bytes(element: ElementModel, ts: TransferSyntax) -> Seq<u8>
    decreases element,
{
    header_bytes(header_of(element), ts) + value_bytes(element.data, ts)
}

/// A value: its bytes, or its items and the sequence delimiter.
pub open spec fn value_bytes(value: ValueModel, ts: TransferSyntax) -> Seq<u8>
    decreases value,
{
    match value {
        ValueModel::Buf(bytes) => bytes,
        ValueModel::Sequence(items) => items_bytes(items, ts) + delimiter_bytes(Tag::xFFFExE0DD),
    }
}

/// Items, one after the other.
pub open spec fn items_bytes(items: Seq<ItemModel>, ts: TransferSyntax) -> Seq<u8>
    decreases items,
{
    if items.len() == 0 {
        Seq::empty()
    } else {
        item_bytes(items[0], ts) + items_bytes(items.drop_first(), ts)
    }
}

/// An item, written with undefined length: its start, its data elements and
/// the item delimiter.
pub open spec fn item_bytes(item: ItemModel, ts: TransferSyntax) -> Seq<u8>
    decreases item,
{
    item_start_bytes() + elements_bytes(item.elements, ts) + delimiter_bytes(Tag::xFFFExE00D)
}

/// Data elements, one after the other.
pub open spec fn elements_bytes(elements: Seq<ElementModel>, ts: TransferSyntax) -> Seq<u8>
    decreases elements,
{
    if elements.len() == 0 {
        Seq::empty()
    } else {
        element_bytes(elements[0], ts) + elements_bytes(elements.drop_first(), ts)
    }
}

/// Whether a character is an ASCII letter.
pub open spec fn is_letter_char(c: char) -> bool {
    ('A' <= c <= 'Z') || ('a' <= c <= 'z')
}

/// A header can be written under a transfer syntax: its tag is canonical; it
/// has a value representation, of two letters, exactly where the transfer
/// syntax is explicit; and its length fits the field that is written.
pub open spec fn header_encodable(header: ElementHeader, ts: TransferSyntax) -> bool {
    &&& header.tag.canonical()
    &&& header.vr is Some <==> ts.is_vr_explicit
    &&& header.vr matches Some(vr) ==> {
        &&& vr.code.len() == 2
        &&& is_letter_char(vr.code[0])
        &&& is_letter_char(vr.code[1])
        &&& vr.listed == is_known_code(vr.code[0], vr.code[1])
        &&& !vr.special_length() ==> header.length < 0x10000
    }
}

/// A data element can be written under a transfer syntax, with sequences
/// nested at most `depth` deep: its header can; bytes are as many as the
/// length says, which is not the undefined length; a sequence has the
/// undefined length, which its value representation, if it has one, can
/// hold, and items that can be written.
pub open spec fn element_encodable(element: ElementModel, ts: TransferSyntax, depth: nat) -> bool
    decreases element,
{
    &&& header_encodable(header_of(element), ts)
    &&& match element.data {
        ValueModel::Buf(bytes) => bytes.len() == element.length && element.length
            != UNDEFINED_LENGTH,
        ValueModel::Sequence(items) => {
            &&& element.length == UNDEFINED_LENGTH
            &&& depth > 0
            &&& element.vr matches Some(vr) ==> vr.special_length()
            &&& items_encodable(items, ts, (depth - 1) as nat)
        },
    }
}

pub open spec fn items_encodable(items: Seq<ItemModel>, ts: TransferSyntax, depth: nat) -> bool
    decreases items,
{
    items.len() > 0 ==> item_encodable(items[0], ts, depth) && items_encodable(
        items.drop_first(),
        ts,
        depth,
    )
}

pub open spec fn item_encodable(item: ItemModel, ts: TransferSyntax, depth: nat) -> bool
    decreases item,
{
    body_encodable(item.elements, ts, depth)
}

/// The data elements of an item can be written: each of them can, and none
/// starts with bytes that read, little endian, as the item delimiter.
pub open spec fn body_encodable(elements: Seq<ElementModel>, ts: TransferSyntax, depth: nat) -> bool
    decreases elements,
{
    elements.len() > 0 ==> {
        &&& element_encodable(elements[0], ts, depth)
        &&& tag_at(tag_bytes(elements[0].tag, ts.endianness), 0, Endianness::Little)
            != Tag::xFFFExE00D
        &&& body_encodable(elements.drop_first(), ts, depth)
    }
}

/// A tag is written in four bytes.
pub proof fn lemma_tag_bytes_len(tag: Tag, endian: Endianness)
    ensures
        tag_bytes(tag, endian).len() == 4,
{
    lemma_u16_bytes_len(tag.group(), endian);
    lemma_u16_bytes_len(tag.element(), endian);
}

/// Where the bytes of a canonical tag stand, that tag is read.
pub proof fn lemma_tag_read_back(s: Seq<u8>, at: int, tag: Tag, endian: Endianness)
    requires
        0 <= at,
        at + 4 <= s.len(),
        s.subrange(at, at + 4) == tag_bytes(tag, endian),
        tag.canonical(),
    ensures
        tag_at(s, at, endian) == tag,
{
    lemma_u16_bytes_len(tag.group(), endian);
    lemma_u16_bytes_len(tag.element(), endian);
    let window = s.subrange(at, at + 4);
    assert(s.subrange(at, at + 2) =~= window.subrange(0, 2));
    assert(s.subrange(at + 2, at + 4) =~= window.subrange(2, 4));
    assert(window.subrange(0, 2) =~= u16_bytes(tag.group(), endian));
    assert(window.subrange(2, 4) =~= u16_bytes(tag.element(), endian));
    lemma_u16_read_back(s, at, tag.group(), endian);
    lemma_u16_read_back(s, at + 2, tag.element(), endian);
}

/// The tag that is read depends on the four bytes that it is read from only.
pub proof fn lemma_tag_at_by_bytes(s: Seq<u8>, t: Seq<u8>, endian: Endianness)
    requires
        4 <= s.len(),
        4 <= t.len(),
        s.subrange(0, 4) == t.subrange(0, 4),
    ensures
        tag_at(s, 0, endian) == tag_at(t, 0, endian),
{
    reveal(u16_at);
    let a = s.subrange(0, 4);
    let b = t.subrange(0, 4);
    assert(s[0] == a[0] && s[1] == a[1] && s[2] == a[2] && s[3] == a[3]);
    assert(t[0] == b[0] && t[1] == b[1] && t[2] == b[2] && t[3] == b[3]);
}

/// A tag is read back from its bytes.
pub proof fn lemma_tag_round_trip(tag: Tag, endian: Endianness, rest: Seq<u8>)
    requires
        tag.canonical(),
    ensures
        spec_parse_tag(tag_bytes(tag, endian) + rest, endian) == Ok::<_, ParseFailure>(
            (tag, 4int),
        ),
        tag_bytes(tag, endian).len() == 4,
        (tag_bytes(tag, endian) + rest).skip(4) == rest,
{
    let s = tag_bytes(tag, endian) + rest;
    lemma_tag_bytes_len(tag, endian);
    assert(s.subrange(0, 4) =~= tag_bytes(tag, endian));
    lemma_tag_read_back(s, 0, tag, endian);
    assert(s.skip(4) =~= rest);
}

/// The letters of a value representation are read back from their bytes.
pub proof fn lemma_vr_round_trip(vr: VrModel, rest: Seq<u8>)
    requires
        vr.code.len() == 2,
        is_letter_char(vr.code[0]),
        is_letter_char(vr.code[1]),
        vr.listed == is_known_code(vr.code[0], vr.code[1]),
    ensures
        spec_parse_vr(vr_bytes(vr) + rest) == Ok::<_, ParseFailure>((vr, 2int)),
        (vr_bytes(vr) + rest).skip(2) == rest,
{
    let s = vr_bytes(vr) + rest;
    assert(s[0] == vr.code[0] as u8);
    assert(s[1] == vr.code[1] as u8);
    assert((s[0] as char) == vr.code[0]);
    assert((s[1] as char) == vr.code[1]);
    assert(vr_of_letters(s[0] as char, s[1] as char).code =~= vr.code);
    assert(s.skip(2) =~= rest);
}

/// The length of a data element is read back from its bytes.
pub proof fn lemma_length_round_trip(
    vr: Option<VrModel>,
    length: u32,
    endian: Endianness,
    rest: Seq<u8>,
)
    requires
        vr matches Some(vr) ==> !vr.special_length() ==> length < 0x10000,
    ensures
        spec_parse_length(length_bytes(vr, length, endian) + rest, vr, endian) == Ok::<
            _,
            ParseFailure,
        >((length, length_bytes(vr, length, endian).len() as int)),
        length_bytes(vr, length, endian).len() >= 2,
        vr is None ==> length_bytes(vr, length, endian).len() == 4,
        (length_bytes(vr, length, endian) + rest).skip(
            length_bytes(vr, length, endian).len() as int,
        ) == rest,
{
    let lb = length_bytes(vr, length, endian);
    let s = lb + rest;
    lemma_u32_bytes_len(length, endian);
    lemma_u16_bytes_len(length as u16, endian);
    assert(s.skip(lb.len() as int) =~= rest);
    match vr {
        Some(vr) => {
            if vr.special_length() {
                assert(lb.len() == 6);
                assert(s.subrange(2, 6) =~= u32_bytes(length, endian));
                lemma_u32_read_back(s, 2, length, endian);
            } else {
                assert(s.subrange(0, 2) =~= u16_bytes(length as u16, endian));
                lemma_u16_read_back(s, 0, length as u16, endian);
            }
        },
        None => {
            lemma_u32_round_trip(length, endian, rest);
        },
    }
}

/// A header that can be written is read back from its bytes.
pub proof fn lemma_header_round_trip(header: ElementHeader, ts: TransferSyntax, rest: Seq<u8>)
    requires
        header_encodable(header, ts),
    ensures
        spec_element_header(header_bytes(header, ts) + rest, ts) == Ok::<_, ParseFailure>(
            (header, header_bytes(header, ts).len() as int),
        ),
        header_bytes(header, ts).len() >= 8,
        (header_bytes(header, ts) + rest).skip(header_bytes(header, ts).len() as int) == rest,
        (header_bytes(header, ts) + rest).subrange(0, 4) == tag_bytes(header.tag, ts.endianness),
{
    let endian = ts.endianness;
    let hb = header_bytes(header, ts);
    let s = hb + rest;
    let tb = tag_bytes(header.tag, endian);
    let lb = length_bytes(header.vr, header.length, endian);
    lemma_tag_bytes_len(header.tag, endian);
    match header.vr {
        Some(vr) => {
            let vb = vr_bytes(vr);
            assert(s =~= tb + (vb + (lb + rest)));
            lemma_tag_round_trip(header.tag, endian, vb + (lb + rest));
            lemma_vr_round_trip(vr, lb + rest);
            lemma_length_round_trip(header.vr, header.length, endian, rest);
            assert(s.skip(4) == vb + (lb + rest));
            assert(s.skip(6) =~= lb + rest);
            assert(hb.len() == 6 + lb.len());
        },
        None => {
            assert(s =~= tb + (lb + rest));
            lemma_tag_round_trip(header.tag, endian, lb + rest);
            lemma_length_round_trip(header.vr, header.length, endian, rest);
            assert(s.skip(4) == lb + rest);
            assert(hb.len() == 4 + lb.len());
        },
    }
    assert(s.skip(hb.len() as int) =~= rest);
    assert(s.subrange(0, 4) =~= tb);
}

/// A delimiter is read as a data element of eight bytes.
pub proof fn lemma_delimiter_is_element(tag: Tag, depth: nat, rest: Seq<u8>)
    requires
        tag == Tag::xFFFExE00D || tag == Tag::xFFFExE0DD,
    ensures
        spec_parse_element(delimiter_bytes(tag) + rest, le_implicit(), depth) matches Ok((_, n))
            && n == 8,
        delimiter_bytes(tag).len() == 8,
        tag_at(delimiter_bytes(tag) + rest, 0, Endianness::Little) == tag,
        (delimiter_bytes(tag) + rest).skip(8) == rest,
{
    let header = ElementHeader { tag, vr: None, length: 0 };
    assert(tag.canonical()) by {
        reveal(Tag::spec_from_values);
    }
    lemma_u32_bytes_len(0, Endianness::Little);
    assert(header_bytes(header, le_implicit()) =~= delimiter_bytes(tag));
    lemma_header_round_trip(header, le_implicit(), rest);
    let s = delimiter_bytes(tag) + rest;
    assert(s.skip(8).subrange(0, 0) =~= Seq::<u8>::empty());
    lemma_tag_read_back(s, 0, tag, Endianness::Little);
}

/// The bytes of an item start with the item tag and the undefined length.
pub proof fn lemma_item_start(rest: Seq<u8>)
    ensures
        item_start_bytes().len() == 8,
        tag_at(item_start_bytes() + rest, 0, Endianness::Little) == Tag::xFFFExE000,
        u32_at(item_start_bytes() + rest, 4, Endianness::Little) == UNDEFINED_LENGTH,
        (item_start_bytes() + rest).skip(8) == rest,
{
    let s = item_start_bytes() + rest;
    let tag = Tag::xFFFExE000;
    assert(tag.canonical()) by {
        reveal(Tag::spec_from_values);
    }
    lemma_tag_bytes_len(tag, Endianness::Little);
    lemma_u32_bytes_len(UNDEFINED_LENGTH, Endianness::Little);
    assert(s.subrange(0, 4) =~= tag_bytes(tag, Endianness::Little));
    lemma_tag_read_back(s, 0, tag, Endianness::Little);
    assert(s.subrange(4, 8) =~= u32_bytes(UNDEFINED_LENGTH, Endianness::Little));
    lemma_u32_read_back(s, 4, UNDEFINED_LENGTH, Endianness::Little);
    assert(s.skip(8) =~= rest);
}

/// The value of a data element that can be written is read back.
pub proof fn lemma_value_round_trip(
    element: ElementModel,
    ts: TransferSyntax,
    depth: nat,
    rest: Seq<u8>,
)
    requires
        element_encodable(element, ts, depth),
    ensures
        spec_parse_value(value_bytes(element.data, ts) + rest, element.length, ts, depth) == Ok::<
            _,
            ParseFailure,
        >((element.data, value_bytes(element.data, ts).len() as int)),
    decreases element, 0int,
{
    let vb = value_bytes(element.data, ts);
    let s = vb + rest;
    match element.data {
        ValueModel::Buf(bytes) => {
            assert(s.subrange(0, element.length as int) =~= bytes);
        },
        ValueModel::Sequence(items) => {
            lemma_delimiter_is_element(Tag::xFFFExE0DD, 0, rest);
            lemma_items_round_trip(items, ts, (depth - 1) as nat, rest);
        },
    }
}

/// A data element that can be written is read back from its bytes, whatever
/// follows them.
pub proof fn lemma_element_round_trip(
    element: ElementModel,
    ts: TransferSyntax,
    depth: nat,
    rest: Seq<u8>,
)
    requires
        element_encodable(element, ts, depth),
    ensures
        spec_parse_element(element_bytes(element, ts) + rest, ts, depth) == Ok::<
            _,
            ParseFailure,
        >((element, element_bytes(element, ts).len() as int)),
        element_bytes(element, ts).len() >= 8,
        (element_bytes(element, ts) + rest).skip(element_bytes(element, ts).len() as int) == rest,
        (element_bytes(element, ts) + rest).subrange(0, 4) == tag_bytes(
            element.tag,
            ts.endianness,
        ),
    decreases element, 1int,
{
    let header = header_of(element);
    let hb = header_bytes(header, ts);
    let vb = value_bytes(element.data, ts);
    let s = element_bytes(element, ts) + rest;
    assert(s =~= hb + (vb + rest));
    lemma_header_round_trip(header, ts, vb + rest);
    lemma_value_round_trip(element, ts, depth, rest);
    assert(s.skip(element_bytes(element, ts).len() as int) =~= rest);
}

/// Items that can be written are read back, in their order, from their bytes
/// and the sequence delimiter.
pub proof fn lemma_items_round_trip(
    items: Seq<ItemModel>,
    ts: TransferSyntax,
    depth: nat,
    rest: Seq<u8>,
)
    requires
        items_encodable(items, ts, depth),
    ensures
        spec_parse_seq(
            items_bytes(items, ts) + delimiter_bytes(Tag::xFFFExE0DD) + rest,
            ts,
            depth,
        ) == Ok::<_, ParseFailure>((items, (items_bytes(items, ts).len() + 8) as int)),
    decreases items, 0int,
{
    let delimiter = delimiter_bytes(Tag::xFFFExE0DD);
    let s = items_bytes(items, ts) + delimiter + rest;
    lemma_delimiter_is_element(Tag::xFFFExE0DD, depth, rest);
    if items.len() == 0 {
        assert(s =~= delimiter + rest);
        assert(items =~= Seq::<ItemModel>::empty());
    } else {
        let first = items[0];
        let others = items.drop_first();
        let tail = items_bytes(others, ts) + delimiter + rest;
        assert(s =~= item_bytes(first, ts) + tail);
        lemma_item_round_trip(first, ts, depth, tail);
        lemma_items_round_trip(others, ts, depth, rest);
        assert(seq![first] + others =~= items);
    }
}

/// An item that can be written is read back from its bytes.
pub proof fn lemma_item_round_trip(item: ItemModel, ts: TransferSyntax, depth: nat, rest: Seq<u8>)
    requires
        item_encodable(item, ts, depth),
    ensures
        spec_parse_item(item_bytes(item, ts) + rest, ts, depth) == Ok::<_, ParseFailure>(
            (item, item_bytes(item, ts).len() as int),
        ),
        item_bytes(item, ts).len() >= 16,
        tag_at(item_bytes(item, ts) + rest, 0, Endianness::Little) == Tag::xFFFExE000,
        (item_bytes(item, ts) + rest).skip(item_bytes(item, ts).len() as int) == rest,
    decreases item, 0int,
{
    let delimiter = delimiter_bytes(Tag::xFFFExE00D);
    let body = elements_bytes(item.elements, ts);
    let s = item_bytes(item, ts) + rest;
    lemma_delimiter_is_element(Tag::xFFFExE00D, depth, rest);
    lemma_item_start(body + delimiter + rest);
    assert(s =~= item_start_bytes() + (body + delimiter + rest));
    lemma_body_round_trip(item.elements, ts, depth, rest);
    assert(s.skip(item_bytes(item, ts).len() as int) =~= rest);
}

/// The data elements of an item are read back, in their order, from their
/// bytes and the item delimiter.
pub proof fn lemma_body_round_trip(
    elements: Seq<ElementModel>,
    ts: TransferSyntax,
    depth: nat,
    rest: Seq<u8>,
)
    requires
        body_encodable(elements, ts, depth),
    ensures
        spec_parse_item_open(
            elements_bytes(elements, ts) + delimiter_bytes(Tag::xFFFExE00D) + rest,
            ts,
            depth,
        ) == Ok::<_, ParseFailure>((elements, (elements_bytes(elements, ts).len() + 8) as int)),
    decreases elements, 0int,
{
    let delimiter = delimiter_bytes(Tag::xFFFExE00D);
    let s = elements_bytes(elements, ts) + delimiter + rest;
    lemma_delimiter_is_element(Tag::xFFFExE00D, depth, rest);
    if elements.len() == 0 {
        assert(s =~= delimiter + rest);
        assert(elements =~= Seq::<ElementModel>::empty());
    } else {
        let first = elements[0];
        let others = elements.drop_first();
        let tail = elements_bytes(others, ts) + delimiter + rest;
        assert(s =~= element_bytes(first, ts) + tail);
        lemma_element_round_trip(first, ts, depth, tail);
        lemma_tag_bytes_len(first.tag, ts.endianness);
        assert(tag_bytes(first.tag, ts.endianness).subrange(0, 4) =~= tag_bytes(
            first.tag,
            ts.endianness,
        ));
        lemma_tag_at_by_bytes(s, tag_bytes(first.tag, ts.endianness), Endianness::Little);
        lemma_body_round_trip(others, ts, depth, rest);
        assert(seq![first] + others =~= elements);
    }
}

/// A sequence of `N` items comes back as those `N` items in their order: a
/// data element of undefined length that holds the items is read back from
/// its bytes with just these items as its value.
pub proof fn lemma_sequence_round_trip(
    tag: Tag,
    vr: Option<VrModel>,
    items: Seq<ItemModel>,
    ts: TransferSyntax,
    depth: nat,
    rest: Seq<u8>,
)
    requires
        element_encodable(
            ElementModel { tag, vr, length: UNDEFINED_LENGTH, data: ValueModel::Sequence(items) },
            ts,
            depth,
        ),
    ensures
        ({
            let element = ElementModel {
                tag,
                vr,
                length: UNDEFINED_LENGTH,
                data: ValueModel::Sequence(items),
            };
            spec_parse_element(element_bytes(element, ts) + rest, ts, depth) matches Ok(
                (parsed, _),
            ) && parsed.data == ValueModel::Sequence(items)
        }),
{
    let element = ElementModel {
        tag,
        vr,
        length: UNDEFINED_LENGTH,
        data: ValueModel::Sequence(items),
    };
    lemma_element_round_trip(element, ts, depth, rest);
}

/// Chunks of bytes, one after the other.
pub open spec fn concat(chunks: Seq<Seq<u8>>) -> Seq<u8>
    decreases chunks.len(),
{
    if chunks.len() == 0 {
        Seq::empty()
    } else {
        chunks[0] + concat(chunks.drop_first())
    }
}

/// A sequence keeps its items and their order, however the items are
/// written: where each of `N` chunks of bytes is read as an item, whatever
/// follows it, the chunks and then the sequence delimiter are read as the
/// sequence of just these `N` items, in the order of the chunks.
pub proof fn lemma_sequence_keeps_items_in_order(
    chunks: Seq<Seq<u8>>,
    items: Seq<ItemModel>,
    ts: TransferSyntax,
    depth: nat,
    rest: Seq<u8>,
)
    requires
        chunks.len() == items.len(),
        forall|i: int, tail: Seq<u8>|
            0 <= i < chunks.len() ==> #[trigger] spec_parse_item(chunks[i] + tail, ts, depth)
                == Ok::<_, ParseFailure>((items[i], chunks[i].len() as int)),
    ensures
        spec_parse_seq(concat(chunks) + delimiter_bytes(Tag::xFFFExE0DD) + rest, ts, depth) == Ok::<
            _,
            ParseFailure,
        >((items, (concat(chunks).len() + 8) as int)),
    decreases chunks.len(),
{
    let delimiter = delimiter_bytes(Tag::xFFFExE0DD);
    let s = concat(chunks) + delimiter + rest;
    lemma_delimiter_is_element(Tag::xFFFExE0DD, depth, rest);
    if chunks.len() == 0 {
        assert(s =~= delimiter + rest);
        assert(items =~= Seq::<ItemModel>::empty());
    } else {
        let others = chunks.drop_first();
        let tail = concat(others) + delimiter + rest;
        assert(s =~= chunks[0] + tail);
        assert(spec_parse_item(chunks[0] + tail, ts, depth) == Ok::<_, ParseFailure>(
            (items[0], chunks[0].len() as int),
        ));
        lemma_item_span(s, ts, depth);
        assert(s.skip(chunks[0].len() as int) =~= tail);
        assert forall|i: int, after: Seq<u8>| 0 <= i < others.len() implies #[trigger] spec_parse_item(
            others[i] + after,
            ts,
            depth,
        ) == Ok::<_, ParseFailure>((items.drop_first()[i], others[i].len() as int)) by {
            assert(others[i] == chunks[i + 1]);
            assert(spec_parse_item(chunks[i + 1] + after, ts, depth) == Ok::<_, ParseFailure>(
                (items[i + 1], chunks[i + 1].len() as int),
            ));
        }
        lemma_sequence_keeps_items_in_order(others, items.drop_first(), ts, depth, rest);
        assert(seq![items[0]] + items.drop_first() =~= items);
    }
}

/// The elements of group 2 can be written: each can, little endian with its
/// value representation; each has a tag of group 2; and each that is the
/// transfer syntax element names a transfer syntax that is supported.
pub open spec fn group2_encodable(elements: Seq<ElementModel>, depth: nat) -> bool
    decreases elements,
{
    elements.len() > 0 ==> {
        &&& element_encodable(elements[0], le_explicit(), depth)
        &&& elements[0].tag.group() == 2
        &&& named_here(elements[0]) is Ok
        &&& group2_encodable(elements.drop_first(), depth)
    }
}

/// The transfer syntax that the elements name: that of the last transfer
/// syntax element among them.
pub open spec fn named_by(elements: Seq<ElementModel>) -> Option<TransferSyntax>
    decreases elements,
{
    if elements.len() == 0 {
        None
    } else {
        let later = named_by(elements.drop_first());
        if later is Some {
            later
        } else {
            match named_here(elements[0]) {
                Ok(here) => here,
                Err(_) => None,
            }
        }
    }
}

/// The elements of group 2 are read back, in their order, from their bytes,
/// where what follows starts with a tag of another group.
pub proof fn lemma_group2_round_trip(elements: Seq<ElementModel>, depth: nat, rest: Seq<u8>)
    requires
        group2_encodable(elements, depth),
        rest.len() >= 4,
        tag_at(rest, 0, Endianness::Little).group() != 2,
    ensures
        spec_group2_elements(elements_bytes(elements, le_explicit()) + rest, depth) == Ok::<
            _,
            ErrorModel,
        >((elements, named_by(elements), elements_bytes(elements, le_explicit()).len() as int)),
    decreases elements,
{
    let ts = le_explicit();
    let s = elements_bytes(elements, ts) + rest;
    if elements.len() == 0 {
        assert(s =~= rest);
        assert(elements =~= Seq::<ElementModel>::empty());
    } else {
        let first = elements[0];
        let others = elements.drop_first();
        let tail = elements_bytes(others, ts) + rest;
        assert(s =~= element_bytes(first, ts) + tail);
        lemma_element_round_trip(first, ts, depth, tail);
        lemma_tag_read_back(s, 0, first.tag, Endianness::Little);
        lemma_group2_round_trip(others, depth, rest);
        assert(seq![first] + others =~= elements);
    }
}

/// Parsing group 2 and writing what was parsed gives the bytes of group 2
/// again, byte for byte: for a file whose group 2 is the encoding of data
/// elements that name a transfer syntax, the parser takes just the bytes of
/// that encoding, and the elements it returns encode to the same bytes.
pub proof fn lemma_group2_bytes_reproduced(elements: Seq<ElementModel>, depth: nat, rest: Seq<u8>)
    requires
        group2_encodable(elements, depth),
        named_by(elements) is Some,
        rest.len() >= 4,
        tag_at(rest, 0, Endianness::Little).group() != 2,
    ensures
        ({
            let s = elements_bytes(elements, le_explicit()) + rest;
            spec_parse_group2(s, depth) matches Ok(((ts, parsed), n)) && parsed == elements && Some(
                ts,
            ) == named_by(elements) && elements_bytes(parsed, le_explicit()) == s.take(n)
        }),
{
    let s = elements_bytes(elements, le_explicit()) + rest;
    lemma_group2_round_trip(elements, depth, rest);
    assert(s.take(elements_bytes(elements, le_explicit()).len() as int) =~= elements_bytes(
        elements,
        le_explicit(),
    ));
}

} // verus!
