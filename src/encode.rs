//! Short-item encoding: one header byte, then 0, 1, 2 or 4 data bytes.
use vstd::prelude::*;
use crate::items::{ItemType, MainItemKind};

verus! {

/// The 32-bit word that an item's data carries for `v`: two's complement
/// where `v` is negative.
pub open spec fn word_of(v: int) -> nat {
    if v < 0 {
        (v + 0x1_0000_0000) as nat
    } else {
        v as nat
    }
}

/// The four bytes of the word `w`, least significant first.
pub open spec fn word_bytes(w: nat) -> Seq<u8> {
    seq![
        (w % 256) as u8,
        ((w / 0x100) % 256) as u8,
        ((w / 0x1_0000) % 256) as u8,
        ((w / 0x100_0000) % 256) as u8,
    ]
}

/// Header byte: bits 1..0 the size code, 3..2 the item type, 7..4 the tag.
pub open spec fn item_header(tag: u8, typ: u8, size_code: u8) -> u8 {
    (tag * 16 + typ * 4 + size_code) as u8
}

/// The shortest prefix of the four data bytes `b` that keeps the value: one byte
/// when the upper three are zero, two when the upper two are zero, else all four.
/// A signed value does not take a form whose last byte is 0xFF, which a reader
/// would sign-extend into another value.
pub open spec fn data_bytes(b: Seq<u8>, signed: bool) -> Seq<u8> {
    if b[1] == 0 && b[2] == 0 && b[3] == 0 && !(signed && b[0] == 255) {
        b.subrange(0, 1)
    } else if b[2] == 0 && b[3] == 0 && !(signed && b[1] == 255) {
        b.subrange(0, 2)
    } else {
        b
    }
}

/// The size code of a header for `n` data bytes.
pub open spec fn size_code(n: nat) -> u8 {
    if n == 0 {
        0
    } else if n == 1 {
        1
    } else if n == 2 {
        2
    } else {
        3
    }
}

/// Bytes of the item with header fields `tag` and `typ` and data bytes `b`.
pub open spec fn short_item(tag: u8, typ: u8, b: Seq<u8>, signed: bool) -> Seq<u8> {
    let d = data_bytes(b, signed);
    seq![item_header(tag, typ, size_code(d.len()))] + d
}

/// Whether an item may be written with no data byte: an Input main item of value
/// zero, where the item allows the short form.
pub open spec fn zero_length_form(typ: ItemType, tag: u8, value: int, allow_short_form: bool) -> bool {
    allow_short_form && typ == ItemType::Main && tag == MainItemKind::Input.spec_code() && value == 0
}

/// The encoding of one item carrying `value`.
#[verifier::opaque]
pub open spec fn item_bytes(typ: ItemType, tag: u8, value: int, signed: bool, allow_short_form: bool) -> Seq<u8> {
    if zero_length_form(typ, tag, value, allow_short_form) {
        seq![item_header(tag, typ.spec_code(), 0)]
    } else {
        short_item(tag, typ.spec_code(), word_bytes(word_of(value)), signed)
    }
}

/// Values that an item's 32-bit data can carry.
pub open spec fn item_value_ok(v: int) -> bool {
    -0x8000_0000 <= v < 0x1_0000_0000
}

/// Relies on byteorder's `LittleEndian::write_u32`: it writes the four bytes of
/// `v`, least significant first.
#[verifier::external_body]
fn le_bytes(v: u32) -> (r: [u8; 4])
    ensures
        r@ == word_bytes(v as nat),
{
    let mut buf = [0u8; 4];
    <byteorder::LittleEndian as byteorder::ByteOrder>::write_u32(&mut buf, v);
    buf
}

/// Appends the header and the shortest form of the data bytes `buf`.
pub fn emit(elems: &mut Vec<u8>, tag: u8, typ: u8, buf: [u8; 4], signed: bool)
    requires
        tag < 16,
        typ < 4,
    ensures
        final(elems)@ == old(elems)@ + short_item(tag, typ, buf@, signed),
{
    let base: u8 = tag * 16 + typ * 4;
    let ghost d = data_bytes(buf@, signed);
    if buf[1] == 0 && buf[2] == 0 && buf[3] == 0 && !(signed && buf[0] == 255) {
        elems.push(base + 1);
        elems.push(buf[0]);
        assert(d =~= seq![buf@[0]]);
    } else if buf[2] == 0 && buf[3] == 0 && !(signed && buf[1] == 255) {
        elems.push(base + 2);
        elems.push(buf[0]);
        elems.push(buf[1]);
        assert(d =~= seq![buf@[0], buf@[1]]);
    } else {
        elems.push(base + 3);
        elems.push(buf[0]);
        elems.push(buf[1]);
        elems.push(buf[2]);
        elems.push(buf[3]);
        assert(d =~= seq![buf@[0], buf@[1], buf@[2], buf@[3]]);
    }
    assert(final(elems)@ =~= old(elems)@ + short_item(tag, typ, buf@, signed));
}

/// Appends one item of type `typ` and tag `tag` carrying `num`.
pub fn emit_item(elems: &mut Vec<u8>, typ: ItemType, tag: u8, num: i64, signed: bool, allow_short_form: bool)
    requires
        tag < 16,
        item_value_ok(num as int),
    ensures
        final(elems)@ == old(elems)@ + item_bytes(typ, tag, num as int, signed, allow_short_form),
{
    reveal(item_bytes);
    let t = typ.code();
    // An Input item may carry no data byte; its data bits then read as zero
    // (HID 1.11, 6.2.2.4).
    if allow_short_form && t == 0 && tag == MainItemKind::Input.code() && num == 0 {
        elems.push(tag * 16);
        assert(final(elems)@ =~= old(elems)@ + item_bytes(typ, tag, num as int, signed, allow_short_form));
        return;
    }
    let w: u32 = if num < 0 {
        (num + 0x1_0000_0000i64) as u32
    } else {
        num as u32
    };
    let buf = le_bytes(w);
    emit(elems, tag, t, buf, signed);
}

/// Encoding zero takes one data byte; 255 takes one data byte when unsigned and
/// more than one when signed, so that it cannot be read back as -1.
pub proof fn lemma_short_encoding(typ: ItemType, tag: u8)
    requires
        tag < 16,
    ensures
        item_bytes(typ, tag, 0, false, false).len() == 2,
        item_bytes(typ, tag, 0, true, false).len() == 2,
        item_bytes(typ, tag, 255, false, false).len() == 2,
        item_bytes(typ, tag, 255, true, false).len() > 2,
{
    reveal(item_bytes);
    let z = word_bytes(word_of(0));
    assert(z =~= seq![0u8, 0u8, 0u8, 0u8]);
    let f = word_bytes(word_of(255));
    assert(f =~= seq![255u8, 0u8, 0u8, 0u8]);
}

} // verus!
