//! How a descriptor reader reads an emitted item back: the header fields, the
//! number of data bytes, and the data as an unsigned or a signed value.
use vstd::prelude::*;
use vstd::arithmetic::div_mod::{lemma_div_denominator, lemma_fundamental_div_mod};
use vstd::arithmetic::power2::{lemma2_to64, pow2};
use crate::items::ItemType;
use crate::encode::{
    data_bytes, item_bytes, item_header, item_value_ok, size_code, word_bytes, word_of,
    zero_length_form,
};
use crate::field::{analyze, DeclView, MainItem, TypeView};
use crate::group::{GroupView, ItemSpec, SpecView};
use crate::compiler::{
    cache_after, compile_child, compile_children, compile_group, field_bytes, global_if_changed,
    globals_bytes, group_header, initial_state, main_item_ok, opt_item, padding_item,
    settings_value, usages_bytes, CompileState, GlobalCache, lemma_analyze_ok, find_decl,
};
use crate::items::MainItemKind;

verus! {

/// The unsigned little-endian value of data bytes.
pub open spec fn le_value(d: Seq<u8>) -> nat
    decreases d.len(),
{
    if d.len() == 0 {
        0
    } else {
        d[0] as nat + 256 * le_value(d.drop_first())
    }
}

/// Data bytes read as a signed value: the top bit of the last byte is the sign.
pub open spec fn signed_value(d: Seq<u8>) -> int {
    if d.len() > 0 && d.last() >= 128 {
        le_value(d) - pow2(8 * d.len())
    } else {
        le_value(d) as int
    }
}

/// The number of data bytes that a header announces.
pub open spec fn announced_len(h: u8) -> nat {
    if h % 4 == 3 {
        4
    } else {
        (h % 4) as nat
    }
}

/// The data bytes of an item, as its header delimits them.
pub open spec fn item_data(b: Seq<u8>) -> Seq<u8> {
    b.subrange(1, 1 + announced_len(b[0]) as int)
}

/// Values that a signed short form reads back unchanged: a value whose form's
/// last byte would carry the top bit while the value is positive is read as
/// negative.
pub open spec fn signed_readable(v: int) -> bool {
    -0x8000_0000 <= v < 0x8000_0000 && !(128 <= v <= 254) && !(0x8000 <= v <= 0xFEFF)
}

proof fn lemma_word(w: nat)
    requires
        w < 0x1_0000_0000,
    ensures
        ({
            let b = word_bytes(w);
            &&& w == b[0] + 256 * b[1] + 0x1_0000 * b[2] + 0x100_0000 * b[3]
            &&& (b[1] == 0 && b[2] == 0 && b[3] == 0) <==> w < 256
            &&& (b[2] == 0 && b[3] == 0) <==> w < 0x1_0000
            &&& b[3] >= 128 <==> w >= 0x8000_0000
            &&& b[2] == 0 && b[3] == 0 ==> (b[1] >= 128 <==> w >= 0x8000)
        }),
{
    let q1 = w / 256;
    let q2 = w / 0x1_0000;
    let q3 = w / 0x100_0000;
    lemma_fundamental_div_mod(w as int, 256);
    lemma_fundamental_div_mod(q1 as int, 256);
    lemma_fundamental_div_mod(q2 as int, 256);
    lemma_div_denominator(w as int, 256, 256);
    lemma_div_denominator(w as int, 0x1_0000, 256);
    assert(q1 / 256 == q2);
    assert(q2 / 256 == q3);
    assert(q3 < 256);
    assert(q3 % 256 == q3);
}

proof fn lemma_le_values(b: Seq<u8>)
    requires
        b.len() == 4,
    ensures
        le_value(b.subrange(0, 1)) == b[0],
        le_value(b.subrange(0, 2)) == b[0] + 256 * b[1],
        le_value(b) == b[0] + 256 * b[1] + 0x1_0000 * b[2] + 0x100_0000 * b[3],
{
    let s1 = b.subrange(0, 1);
    let s2 = b.subrange(0, 2);
    let e = Seq::<u8>::empty();
    assert(le_value(e) == 0);
    assert(s1.drop_first() =~= e);
    assert(le_value(s1) == b[0] + 256 * le_value(e));
    assert(seq![b[1]].drop_first() =~= e);
    assert(le_value(seq![b[1]]) == b[1]);
    assert(s2.drop_first() =~= seq![b[1]]);
    assert(le_value(s2) == b[0] + 256 * le_value(seq![b[1]]));
    assert(seq![b[3]].drop_first() =~= e);
    assert(le_value(seq![b[3]]) == b[3]);
    assert(seq![b[2], b[3]].drop_first() =~= seq![b[3]]);
    assert(le_value(seq![b[2], b[3]]) == b[2] + 256 * b[3]);
    assert(seq![b[1], b[2], b[3]].drop_first() =~= seq![b[2], b[3]]);
    assert(le_value(seq![b[1], b[2], b[3]]) == b[1] + 256 * (b[2] + 256 * b[3]));
    assert(b.drop_first() =~= seq![b[1], b[2], b[3]]);
}

/// An emitted item reads back as it was written: the header gives its tag and
/// type and the number of data bytes that follow, and the data read as unsigned
/// is the 32-bit word of the value. Read as signed, it is the value itself for
/// every value that `signed_readable` admits.
pub proof fn lemma_item_round_trip(typ: ItemType, tag: u8, v: int, signed: bool, allow_short_form: bool)
    requires
        tag < 16,
        item_value_ok(v),
        !zero_length_form(typ, tag, v, allow_short_form),
    ensures
        ({
            let b = item_bytes(typ, tag, v, signed, allow_short_form);
            &&& b[0] / 16 == tag
            &&& (b[0] / 4) % 4 == typ.spec_code()
            &&& b.len() == 1 + announced_len(b[0])
            &&& le_value(item_data(b)) == word_of(v)
            &&& signed && signed_readable(v) ==> signed_value(item_data(b)) == v
        }),
{
    reveal(item_bytes);
    lemma2_to64();
    let w = word_of(v);
    let wb = word_bytes(w);
    lemma_word(w);
    lemma_le_values(wb);
    let d = data_bytes(wb, signed);
    let b = item_bytes(typ, tag, v, signed, allow_short_form);
    assert(b == seq![item_header(tag, typ.spec_code(), size_code(d.len()))] + d);
    assert(item_data(b) =~= d);
    assert(pow2(8) == 256);
    assert(pow2(16) == 0x1_0000);
    assert(pow2(32) == 0x1_0000_0000);
}

/// The logical range, report size and report count of every analysed field
/// read back as emitted, except the maximum of a 32-bit unsigned field,
/// 2^32 - 1, whose four data bytes a signed reader takes for -1.
pub proof fn lemma_field_round_trip(t: TypeView, i: ItemSpec, allow_short_form: bool)
    requires
        analyze(t, i) is Ok,
    ensures
        ({
            let m = analyze(t, i)->Ok_0.1;
            let lmin = item_bytes(ItemType::Global, 1, m.logical_minimum as int, true, allow_short_form);
            let lmax = item_bytes(ItemType::Global, 2, m.logical_maximum as int, true, allow_short_form);
            let size = item_bytes(ItemType::Global, 7, m.report_size as int, true, allow_short_form);
            let count = item_bytes(ItemType::Global, 9, m.report_count as int, true, allow_short_form);
            &&& signed_value(item_data(lmin)) == m.logical_minimum
            &&& m.logical_maximum != 0xFFFF_FFFF ==> signed_value(item_data(lmax)) == m.logical_maximum
            &&& le_value(item_data(size)) == m.report_size
            &&& le_value(item_data(count)) == m.report_count
        }),
{
    lemma2_to64();
    let m = analyze(t, i)->Ok_0.1;
    lemma_item_round_trip(ItemType::Global, 1, m.logical_minimum as int, true, allow_short_form);
    lemma_item_round_trip(ItemType::Global, 2, m.logical_maximum as int, true, allow_short_form);
    lemma_item_round_trip(ItemType::Global, 7, m.report_size as int, true, allow_short_form);
    lemma_item_round_trip(ItemType::Global, 9, m.report_count as int, true, allow_short_form);
}


/// Whether `b` is a whole number of short items: each a header followed by the
/// data bytes it announces.
pub open spec fn items_ok(b: Seq<u8>) -> bool
    decreases b.len(),
{
    if b.len() == 0 {
        true
    } else {
        let n = 1 + announced_len(b[0]);
        n <= b.len() && items_ok(b.subrange(n as int, b.len() as int))
    }
}

pub proof fn lemma_items_concat(a: Seq<u8>, b: Seq<u8>)
    requires
        items_ok(a),
        items_ok(b),
    ensures
        items_ok(a + b),
    decreases a.len(),
{
    if a.len() == 0 {
        assert(a + b =~= b);
    } else {
        let n = 1 + announced_len(a[0]);
        let rest = a.subrange(n as int, a.len() as int);
        lemma_items_concat(rest, b);
        assert((a + b)[0] == a[0]);
        assert((a + b).subrange(n as int, (a + b).len() as int) =~= rest + b);
    }
}

/// One emitted item is a whole item.
pub proof fn lemma_item_ok(typ: ItemType, tag: u8, v: int, signed: bool, allow_short_form: bool)
    requires
        tag < 16,
        item_value_ok(v),
    ensures
        items_ok(item_bytes(typ, tag, v, signed, allow_short_form)),
{
    let b = item_bytes(typ, tag, v, signed, allow_short_form);
    if zero_length_form(typ, tag, v, allow_short_form) {
        reveal(item_bytes);
        assert(b == seq![item_header(tag, typ.spec_code(), 0)]);
        assert(announced_len(b[0]) == 0);
        lemma_empty_ok();
        assert(b.subrange(1, 1) =~= Seq::<u8>::empty());
    } else {
        lemma_item_round_trip(typ, tag, v, signed, allow_short_form);
        lemma_empty_ok();
        assert(b.subrange(b.len() as int, b.len() as int) =~= Seq::<u8>::empty());
    }
}

proof fn lemma_empty_ok()
    ensures
        items_ok(Seq::<u8>::empty()),
{
}

proof fn lemma_opt_item_ok(o: Option<u32>, typ: ItemType, tag: u8)
    requires
        tag < 16,
    ensures
        items_ok(opt_item(o, typ, tag)),
{
    if let Some(v) = o {
        lemma_item_ok(typ, tag, v as int, false, false);
    }
}

proof fn lemma_usages_ok(s: Seq<u32>)
    ensures
        items_ok(usages_bytes(s)),
    decreases s.len(),
{
    if s.len() > 0 {
        lemma_usages_ok(s.drop_last());
        lemma_item_ok(ItemType::Local, 0, s.last() as int, false, false);
        lemma_items_concat(usages_bytes(s.drop_last()), item_bytes(ItemType::Local, 0, s.last() as int, false, false));
    }
}

proof fn lemma_header_ok(g: GroupView)
    ensures
        items_ok(group_header(g)),
{
    let a = opt_item(g.usage_page, ItemType::Global, 0);
    let b = usages_bytes(g.usage);
    let c = opt_item(g.usage_min, ItemType::Local, 1);
    let d = opt_item(g.usage_max, ItemType::Local, 2);
    let e = opt_item(g.report_id, ItemType::Global, 8);
    let f = opt_item(g.collection, ItemType::Main, 10);
    let h = opt_item(g.logical_min, ItemType::Global, 1);
    lemma_opt_item_ok(g.usage_page, ItemType::Global, 0);
    lemma_usages_ok(g.usage);
    lemma_opt_item_ok(g.usage_min, ItemType::Local, 1);
    lemma_opt_item_ok(g.usage_max, ItemType::Local, 2);
    lemma_opt_item_ok(g.report_id, ItemType::Global, 8);
    lemma_opt_item_ok(g.collection, ItemType::Main, 10);
    lemma_opt_item_ok(g.logical_min, ItemType::Global, 1);
    lemma_items_concat(a, b);
    lemma_items_concat(a + b, c);
    lemma_items_concat(a + b + c, d);
    lemma_items_concat(a + b + c + d, e);
    lemma_items_concat(a + b + c + d + e, f);
    lemma_items_concat(a + b + c + d + e + f, h);
}

proof fn lemma_global_ok(last: Option<i64>, v: i64, tag: u8, allow: bool)
    requires
        tag < 16,
        item_value_ok(v as int),
    ensures
        items_ok(global_if_changed(last, v, tag, allow)),
{
    if last != Some(v) {
        lemma_item_ok(ItemType::Global, tag, v as int, true, allow);
    }
}

proof fn lemma_globals_ok(c: GlobalCache, m: MainItem, allow: bool)
    requires
        main_item_ok(m),
    ensures
        items_ok(globals_bytes(c, m, allow)),
{
    reveal(globals_bytes);
    let rs = match c.report_size {
        Some(v) => Some(v as i64),
        None => None,
    };
    let rc = match c.report_count {
        Some(v) => Some(v as i64),
        None => None,
    };
    let a = global_if_changed(c.logical_minimum, m.logical_minimum, 1, allow);
    let b = global_if_changed(c.logical_maximum, m.logical_maximum, 2, allow);
    let d = global_if_changed(rs, m.report_size as i64, 7, allow);
    let e = global_if_changed(rc, m.report_count as i64, 9, allow);
    lemma_global_ok(c.logical_minimum, m.logical_minimum, 1, allow);
    lemma_global_ok(c.logical_maximum, m.logical_maximum, 2, allow);
    lemma_global_ok(rs, m.report_size as i64, 7, allow);
    lemma_global_ok(rc, m.report_count as i64, 9, allow);
    lemma_items_concat(a, b);
    lemma_items_concat(a + b, d);
    lemma_items_concat(a + b + d, e);
}

proof fn lemma_field_bytes_ok(c: GlobalCache, i: ItemSpec, m: MainItem)
    requires
        main_item_ok(m),
        0 <= settings_value(i) < 256,
    ensures
        items_ok(field_bytes(c, i, m).0),
{
    let allow = i.quirks.allow_short_form;
    let g1 = globals_bytes(c, m, allow);
    let main = item_bytes(ItemType::Main, m.kind.spec_code(), settings_value(i), true, allow);
    lemma_globals_ok(c, m, allow);
    lemma_item_ok(ItemType::Main, m.kind.spec_code(), settings_value(i), true, allow);
    lemma_items_concat(g1, main);
    if let Some(p) = m.padding_bits {
        let pm = padding_item(m, p);
        let g2 = globals_bytes(cache_after(m), pm, allow);
        let pad = item_bytes(ItemType::Main, m.kind.spec_code(), 3, true, allow);
        lemma_globals_ok(cache_after(m), pm, allow);
        lemma_item_ok(ItemType::Main, m.kind.spec_code(), 3, true, allow);
        lemma_items_concat(g1 + main, g2);
        lemma_items_concat(g1 + main + g2, pad);
    }
}

/// `b` is `a` followed by whole items.
pub open spec fn extends_by_items(a: Seq<u8>, b: Seq<u8>) -> bool {
    a.len() <= b.len() && b.subrange(0, a.len() as int) == a && items_ok(b.subrange(a.len() as int, b.len() as int))
}

proof fn lemma_extends_trans(a: Seq<u8>, b: Seq<u8>, c: Seq<u8>)
    requires
        extends_by_items(a, b),
        extends_by_items(b, c),
    ensures
        extends_by_items(a, c),
{
    let x = b.subrange(a.len() as int, b.len() as int);
    let y = c.subrange(b.len() as int, c.len() as int);
    lemma_items_concat(x, y);
    assert(c.subrange(a.len() as int, c.len() as int) =~= x + y);
    assert(c.subrange(0, a.len() as int) =~= b.subrange(0, a.len() as int));
}

proof fn lemma_extends_append(a: Seq<u8>, t: Seq<u8>)
    requires
        items_ok(t),
    ensures
        extends_by_items(a, a + t),
{
    assert((a + t).subrange(a.len() as int, (a + t).len() as int) =~= t);
    assert((a + t).subrange(0, a.len() as int) =~= a);
}

pub proof fn lemma_group_items(g: GroupView, decls: Seq<DeclView>, rid: Option<u32>, st: CompileState)
    ensures
        compile_group(g, decls, rid, st) matches Ok(st2) ==> extends_by_items(st.out, st2.out),
    decreases g,
{
    let rid2 = if g.report_id is Some {
        g.report_id
    } else {
        rid
    };
    let cache = if g.logical_min is Some {
        GlobalCache { logical_minimum: Some(0), ..st.cache }
    } else {
        st.cache
    };
    let st1 = CompileState { out: st.out + group_header(g), cache, fields: st.fields };
    lemma_header_ok(g);
    lemma_extends_append(st.out, group_header(g));
    lemma_children_items(g.fields, decls, rid2, st1);
    if let Ok(st2) = compile_children(g.fields, decls, rid2, st1) {
        lemma_extends_trans(st.out, st1.out, st2.out);
        if g.collection is Some {
            let end = seq![0xC0u8];
            assert(announced_len(0xC0u8) == 0);
            lemma_empty_ok();
            assert(end.subrange(1, 1) =~= Seq::<u8>::empty());
            assert(items_ok(end));
            lemma_extends_append(st2.out, end);
            assert(st2.out.push(0xC0) == st2.out + end);
            lemma_extends_trans(st.out, st2.out, st2.out.push(0xC0));
        }
    }
}

pub proof fn lemma_children_items(s: Seq<(Seq<u8>, SpecView)>, decls: Seq<DeclView>, rid: Option<u32>, st: CompileState)
    ensures
        compile_children(s, decls, rid, st) matches Ok(st2) ==> extends_by_items(st.out, st2.out),
    decreases s,
{
    if s.len() == 0 {
        assert(st.out.subrange(0, st.out.len() as int) =~= st.out);
        lemma_empty_ok();
        assert(st.out.subrange(st.out.len() as int, st.out.len() as int) =~= Seq::<u8>::empty());
    } else {
        lemma_children_items(s.drop_last(), decls, rid, st);
        if let Ok(st1) = compile_children(s.drop_last(), decls, rid, st) {
            lemma_child_items(s.last().0, s.last().1, decls, rid, st1);
            if let Ok(st2) = compile_child(s.last().0, s.last().1, decls, rid, st1) {
                lemma_extends_trans(st.out, st1.out, st2.out);
            }
        }
    }
}

pub proof fn lemma_child_items(name: Seq<u8>, c: SpecView, decls: Seq<DeclView>, rid: Option<u32>, st: CompileState)
    ensures
        compile_child(name, c, decls, rid, st) matches Ok(st2) ==> extends_by_items(st.out, st2.out),
    decreases c,
{
    match c {
        SpecView::MainItem(i) => {
            if let Some(k) = find_decl(decls, name) {
                if let Ok((bits, m)) = analyze(decls[k].ty, i) {
                    lemma_analyze_ok(decls[k].ty, i);
                    let s = settings_value(i);
                    assert(0 <= s < 256);
                    lemma_field_bytes_ok(st.cache, i, m);
                    lemma_extends_append(st.out, field_bytes(st.cache, i, m).0);
                }
            }
        },
        SpecView::Collection(g) => {
            lemma_group_items(g, decls, rid, st);
        },
    }
}

/// Every descriptor that compiles is a whole number of short items, each a
/// header and the data bytes it announces, so a reader can walk it item by item.
pub proof fn lemma_descriptor_items(g: GroupView, decls: Seq<DeclView>)
    ensures
        compile_group(g, decls, None, initial_state()) matches Ok(st) ==> items_ok(st.out),
{
    lemma_group_items(g, decls, None, initial_state());
    if let Ok(st) = compile_group(g, decls, None, initial_state()) {
        assert(st.out.subrange(0, st.out.len() as int) =~= st.out);
    }
}


pub open spec fn is_collection_header(h: u8) -> bool {
    h / 16 == 10 && (h / 4) % 4 == 0
}

pub open spec fn is_end_collection_header(h: u8) -> bool {
    h / 16 == 12 && (h / 4) % 4 == 0
}

/// Walks whole items from nesting depth `d`: a Collection item opens a level,
/// an End Collection item closes one. The depth at the end, or `None` where an
/// End Collection has no level to close or the bytes are not whole items.
pub open spec fn nesting(b: Seq<u8>, d: nat) -> Option<nat>
    decreases b.len(),
{
    if b.len() == 0 {
        Some(d)
    } else {
        let n = 1 + announced_len(b[0]);
        if n > b.len() {
            None
        } else {
            let rest = b.subrange(n as int, b.len() as int);
            if is_collection_header(b[0]) {
                nesting(rest, d + 1)
            } else if is_end_collection_header(b[0]) {
                if d == 0 {
                    None
                } else {
                    nesting(rest, (d - 1) as nat)
                }
            } else {
                nesting(rest, d)
            }
        }
    }
}

/// Bytes that leave every nesting depth as they found it.
pub open spec fn balanced(b: Seq<u8>) -> bool {
    forall|d: nat| #[trigger] nesting(b, d) == Some(d)
}

proof fn lemma_nesting_concat(a: Seq<u8>, b: Seq<u8>, d: nat)
    requires
        nesting(a, d) is Some,
    ensures
        nesting(a + b, d) == nesting(b, nesting(a, d)->Some_0),
    decreases a.len(),
{
    if a.len() == 0 {
        assert(a + b =~= b);
    } else {
        let n = 1 + announced_len(a[0]);
        let rest = a.subrange(n as int, a.len() as int);
        assert((a + b)[0] == a[0]);
        assert((a + b).subrange(n as int, (a + b).len() as int) =~= rest + b);
        if is_collection_header(a[0]) {
            lemma_nesting_concat(rest, b, d + 1);
        } else if is_end_collection_header(a[0]) {
            lemma_nesting_concat(rest, b, (d - 1) as nat);
        } else {
            lemma_nesting_concat(rest, b, d);
        }
    }
}

proof fn lemma_balanced_concat(a: Seq<u8>, b: Seq<u8>)
    requires
        balanced(a),
        balanced(b),
    ensures
        balanced(a + b),
{
    assert forall|d: nat| #[trigger] nesting(a + b, d) == Some(d) by {
        assert(nesting(a, d) == Some(d));
        lemma_nesting_concat(a, b, d);
        assert(nesting(b, d) == Some(d));
    }
}

proof fn lemma_balanced_empty()
    ensures
        balanced(Seq::<u8>::empty()),
{
    assert forall|d: nat| #[trigger] nesting(Seq::<u8>::empty(), d) == Some(d) by {}
}

/// An item other than Collection and End Collection leaves the depth as it is.
proof fn lemma_item_balanced(typ: ItemType, tag: u8, v: int, signed: bool, allow_short_form: bool)
    requires
        tag < 16,
        item_value_ok(v),
        !(typ == ItemType::Main && (tag == 10 || tag == 12)),
    ensures
        balanced(item_bytes(typ, tag, v, signed, allow_short_form)),
{
    let b = item_bytes(typ, tag, v, signed, allow_short_form);
    lemma_balanced_empty();
    if zero_length_form(typ, tag, v, allow_short_form) {
        reveal(item_bytes);
        assert(b == seq![item_header(tag, typ.spec_code(), 0)]);
        assert(b.subrange(1, 1) =~= Seq::<u8>::empty());
    } else {
        lemma_item_round_trip(typ, tag, v, signed, allow_short_form);
        assert(b.subrange(b.len() as int, b.len() as int) =~= Seq::<u8>::empty());
    }
    assert(!is_collection_header(b[0]) && !is_end_collection_header(b[0]));
    assert forall|d: nat| #[trigger] nesting(b, d) == Some(d) by {
        assert(nesting(Seq::<u8>::empty(), d) == Some(d));
    }
}

proof fn lemma_opt_balanced(o: Option<u32>, typ: ItemType, tag: u8)
    requires
        tag < 16,
        !(typ == ItemType::Main && (tag == 10 || tag == 12)),
    ensures
        balanced(opt_item(o, typ, tag)),
{
    lemma_balanced_empty();
    if let Some(v) = o {
        lemma_item_balanced(typ, tag, v as int, false, false);
    }
}

proof fn lemma_usages_balanced(s: Seq<u32>)
    ensures
        balanced(usages_bytes(s)),
    decreases s.len(),
{
    lemma_balanced_empty();
    if s.len() > 0 {
        lemma_usages_balanced(s.drop_last());
        lemma_item_balanced(ItemType::Local, 0, s.last() as int, false, false);
        lemma_balanced_concat(usages_bytes(s.drop_last()), item_bytes(ItemType::Local, 0, s.last() as int, false, false));
    }
}

proof fn lemma_global_balanced(last: Option<i64>, v: i64, tag: u8, allow: bool)
    requires
        tag < 16,
        item_value_ok(v as int),
    ensures
        balanced(global_if_changed(last, v, tag, allow)),
{
    lemma_balanced_empty();
    if last != Some(v) {
        lemma_item_balanced(ItemType::Global, tag, v as int, true, allow);
    }
}

proof fn lemma_globals_balanced(c: GlobalCache, m: MainItem, allow: bool)
    requires
        main_item_ok(m),
    ensures
        balanced(globals_bytes(c, m, allow)),
{
    reveal(globals_bytes);
    let rs = match c.report_size {
        Some(v) => Some(v as i64),
        None => None,
    };
    let rc = match c.report_count {
        Some(v) => Some(v as i64),
        None => None,
    };
    let a = global_if_changed(c.logical_minimum, m.logical_minimum, 1, allow);
    let b = global_if_changed(c.logical_maximum, m.logical_maximum, 2, allow);
    let d = global_if_changed(rs, m.report_size as i64, 7, allow);
    let e = global_if_changed(rc, m.report_count as i64, 9, allow);
    lemma_global_balanced(c.logical_minimum, m.logical_minimum, 1, allow);
    lemma_global_balanced(c.logical_maximum, m.logical_maximum, 2, allow);
    lemma_global_balanced(rs, m.report_size as i64, 7, allow);
    lemma_global_balanced(rc, m.report_count as i64, 9, allow);
    lemma_balanced_concat(a, b);
    lemma_balanced_concat(a + b, d);
    lemma_balanced_concat(a + b + d, e);
}

/// Data kinds: the main items that fields may carry.
pub open spec fn data_kind(k: MainItemKind) -> bool {
    k == MainItemKind::Input || k == MainItemKind::Output || k == MainItemKind::Feature
}

/// Every item of the tree is an Input, Output or Feature item.
pub open spec fn data_items_only(g: GroupView) -> bool
    decreases g,
{
    data_children_only(g.fields)
}

pub open spec fn data_children_only(s: Seq<(Seq<u8>, SpecView)>) -> bool
    decreases s,
{
    if s.len() == 0 {
        true
    } else {
        data_children_only(s.drop_last()) && data_child_only(s.last().1)
    }
}

pub open spec fn data_child_only(c: SpecView) -> bool
    decreases c,
{
    match c {
        SpecView::MainItem(i) => data_kind(i.kind),
        SpecView::Collection(g) => data_items_only(g),
    }
}

proof fn lemma_field_balanced(c: GlobalCache, i: ItemSpec, m: MainItem)
    requires
        main_item_ok(m),
        0 <= settings_value(i) < 256,
        data_kind(m.kind),
    ensures
        balanced(field_bytes(c, i, m).0),
{
    let allow = i.quirks.allow_short_form;
    let g1 = globals_bytes(c, m, allow);
    let main = item_bytes(ItemType::Main, m.kind.spec_code(), settings_value(i), true, allow);
    lemma_globals_balanced(c, m, allow);
    lemma_item_balanced(ItemType::Main, m.kind.spec_code(), settings_value(i), true, allow);
    lemma_balanced_concat(g1, main);
    if let Some(p) = m.padding_bits {
        let pm = padding_item(m, p);
        let g2 = globals_bytes(cache_after(m), pm, allow);
        let pad = item_bytes(ItemType::Main, m.kind.spec_code(), 3, true, allow);
        lemma_globals_balanced(cache_after(m), pm, allow);
        lemma_item_balanced(ItemType::Main, m.kind.spec_code(), 3, true, allow);
        lemma_balanced_concat(g1 + main, g2);
        lemma_balanced_concat(g1 + main + g2, pad);
    }
}

/// The bytes that compilation appended to `a` to reach `b`.
pub open spec fn appended(a: Seq<u8>, b: Seq<u8>) -> Seq<u8> {
    b.subrange(a.len() as int, b.len() as int)
}

proof fn lemma_appended_trans(a: Seq<u8>, b: Seq<u8>, c: Seq<u8>)
    requires
        a.len() <= b.len() <= c.len(),
        b.subrange(0, a.len() as int) == a,
        c.subrange(0, b.len() as int) == b,
    ensures
        appended(a, c) == appended(a, b) + appended(b, c),
        c.subrange(0, a.len() as int) == a,
{
    assert(appended(a, c) =~= appended(a, b) + appended(b, c));
    assert(c.subrange(0, a.len() as int) =~= b.subrange(0, a.len() as int));
}

/// The header items before the collection item: usage page, usages, usage
/// range and report ID.
pub open spec fn header_pre(g: GroupView) -> Seq<u8> {
    opt_item(g.usage_page, ItemType::Global, 0) + usages_bytes(g.usage) + opt_item(
        g.usage_min,
        ItemType::Local,
        1,
    ) + opt_item(g.usage_max, ItemType::Local, 2) + opt_item(g.report_id, ItemType::Global, 8)
}

proof fn lemma_pre_balanced(g: GroupView)
    ensures
        balanced(header_pre(g)),
        group_header(g) == header_pre(g) + opt_item(g.collection, ItemType::Main, 10) + opt_item(
            g.logical_min,
            ItemType::Global,
            1,
        ),
{
    let a = opt_item(g.usage_page, ItemType::Global, 0);
    let b = usages_bytes(g.usage);
    let c = opt_item(g.usage_min, ItemType::Local, 1);
    let d = opt_item(g.usage_max, ItemType::Local, 2);
    let e = opt_item(g.report_id, ItemType::Global, 8);
    lemma_opt_balanced(g.usage_page, ItemType::Global, 0);
    lemma_usages_balanced(g.usage);
    lemma_opt_balanced(g.usage_min, ItemType::Local, 1);
    lemma_opt_balanced(g.usage_max, ItemType::Local, 2);
    lemma_opt_balanced(g.report_id, ItemType::Global, 8);
    lemma_balanced_concat(a, b);
    lemma_balanced_concat(a + b, c);
    lemma_balanced_concat(a + b + c, d);
    lemma_balanced_concat(a + b + c + d, e);
}

/// A collection item, balanced bytes, and the End Collection byte are balanced.
proof fn lemma_wrap_balanced(cv: u32, body: Seq<u8>)
    requires
        balanced(body),
    ensures
        balanced(opt_item(Some(cv), ItemType::Main, 10) + body + seq![0xC0u8]),
{
    let coll = opt_item(Some(cv), ItemType::Main, 10);
    let end = seq![0xC0u8];
    let tail = coll + body + end;
    lemma_item_round_trip(ItemType::Main, 10, cv as int, false, false);
    lemma_balanced_empty();
    assert(coll.subrange(coll.len() as int, coll.len() as int) =~= Seq::<u8>::empty());
    assert(is_collection_header(coll[0]));
    assert(end.subrange(1, 1) =~= Seq::<u8>::empty());
    assert(announced_len(0xC0u8) == 0);
    assert(is_end_collection_header(0xC0u8));
    assert(!is_collection_header(0xC0u8));
    assert forall|d: nat| #[trigger] nesting(tail, d) == Some(d) by {
        let cb = coll + body;
        assert(nesting(Seq::<u8>::empty(), d + 1) == Some(d + 1));
        assert(nesting(coll, d) == Some(d + 1));
        lemma_nesting_concat(coll, body, d);
        assert(nesting(body, d + 1) == Some(d + 1));
        lemma_nesting_concat(cb, end, d);
        assert(nesting(Seq::<u8>::empty(), d) == Some(d));
        assert(nesting(end, d + 1) == Some(d));
    }
}

pub proof fn lemma_group_balanced(g: GroupView, decls: Seq<DeclView>, rid: Option<u32>, st: CompileState)
    requires
        data_items_only(g),
    ensures
        compile_group(g, decls, rid, st) matches Ok(st2) ==> balanced(appended(st.out, st2.out)),
    decreases g,
{
    let rid2 = if g.report_id is Some {
        g.report_id
    } else {
        rid
    };
    let cache = if g.logical_min is Some {
        GlobalCache { logical_minimum: Some(0), ..st.cache }
    } else {
        st.cache
    };
    let st1 = CompileState { out: st.out + group_header(g), cache, fields: st.fields };
    lemma_group_items(g, decls, rid, st);
    lemma_children_items(g.fields, decls, rid2, st1);
    lemma_children_balanced(g.fields, decls, rid2, st1);
    if let Ok(st2) = compile_children(g.fields, decls, rid2, st1) {
        let pre = header_pre(g);
        let coll = opt_item(g.collection, ItemType::Main, 10);
        let lmin = opt_item(g.logical_min, ItemType::Global, 1);
        lemma_pre_balanced(g);
        lemma_opt_balanced(g.logical_min, ItemType::Global, 1);
        let kids = appended(st1.out, st2.out);
        assert(st1.out.subrange(0, st.out.len() as int) =~= st.out);
        lemma_appended_trans(st.out, st1.out, st2.out);
        assert(appended(st.out, st1.out) =~= group_header(g));
        lemma_balanced_concat(lmin, kids);
        match g.collection {
            None => {
                assert(coll =~= Seq::<u8>::empty());
                assert(group_header(g) + kids =~= pre + (lmin + kids));
                lemma_balanced_concat(pre, lmin + kids);
            },
            Some(cv) => {
                let end = seq![0xC0u8];
                lemma_wrap_balanced(cv, lmin + kids);
                lemma_balanced_concat(pre, coll + (lmin + kids) + end);
                let out2 = st2.out.push(0xC0);
                let body = appended(st.out, st2.out);
                assert(body == group_header(g) + kids);
                assert(appended(st.out, out2) =~= body.push(0xC0));
                assert(body.push(0xC0) =~= pre + (coll + (lmin + kids) + end));
            },
        }
    }
}

pub proof fn lemma_children_balanced(s: Seq<(Seq<u8>, SpecView)>, decls: Seq<DeclView>, rid: Option<u32>, st: CompileState)
    requires
        data_children_only(s),
    ensures
        compile_children(s, decls, rid, st) matches Ok(st2) ==> balanced(appended(st.out, st2.out)),
    decreases s,
{
    lemma_balanced_empty();
    if s.len() == 0 {
        assert(appended(st.out, st.out) =~= Seq::<u8>::empty());
    } else {
        lemma_children_items(s.drop_last(), decls, rid, st);
        lemma_children_balanced(s.drop_last(), decls, rid, st);
        if let Ok(st1) = compile_children(s.drop_last(), decls, rid, st) {
            lemma_child_items(s.last().0, s.last().1, decls, rid, st1);
            lemma_child_balanced(s.last().0, s.last().1, decls, rid, st1);
            if let Ok(st2) = compile_child(s.last().0, s.last().1, decls, rid, st1) {
                lemma_appended_trans(st.out, st1.out, st2.out);
                lemma_balanced_concat(appended(st.out, st1.out), appended(st1.out, st2.out));
            }
        }
    }
}

pub proof fn lemma_child_balanced(name: Seq<u8>, c: SpecView, decls: Seq<DeclView>, rid: Option<u32>, st: CompileState)
    requires
        data_child_only(c),
    ensures
        compile_child(name, c, decls, rid, st) matches Ok(st2) ==> balanced(appended(st.out, st2.out)),
    decreases c,
{
    match c {
        SpecView::MainItem(i) => {
            if let Some(k) = find_decl(decls, name) {
                if let Ok((bits, m)) = analyze(decls[k].ty, i) {
                    lemma_analyze_ok(decls[k].ty, i);
                    lemma_field_balanced(st.cache, i, m);
                    let b = field_bytes(st.cache, i, m).0;
                    assert(appended(st.out, st.out + b) =~= b);
                }
            }
        },
        SpecView::Collection(g) => {
            lemma_group_balanced(g, decls, rid, st);
        },
    }
}

/// A reader that walks any compiled descriptor from depth zero ends at depth
/// zero and never closes a collection it has not opened: every Collection item
/// is matched by an End Collection item, where all items are data items.
pub proof fn lemma_descriptor_balanced(g: GroupView, decls: Seq<DeclView>)
    requires
        data_items_only(g),
    ensures
        compile_group(g, decls, None, initial_state()) matches Ok(st) ==> nesting(st.out, 0) == Some(0nat),
{
    lemma_group_balanced(g, decls, None, initial_state());
    if let Ok(st) = compile_group(g, decls, None, initial_state()) {
        assert(appended(initial_state().out, st.out) =~= st.out);
    }
}

} // verus!
