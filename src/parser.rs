//! The specification grammar.
//!
//! ```text
//! spec    := clause (',' clause)* ','?
//! clause  := group | item
//! group   := '(' key '=' value (',' key '=' value)* ','? ')' '=' '{' (clause (';' clause)* ';'?)? '}'
//! item    := attr* field '=' kind
//! attr    := '#' '[' name token* ']'
//! value   := integer literal | symbol resolved under its key
//! ```
use vstd::prelude::*;
use vstd::string::StringSliceAdditionalSpecFns;
use crate::items::{bytes_eq, with_bit, MainItemKind, MainItemSetting};
use crate::group::{
    empty_group, group_key, with_attr, with_item, with_nested, GroupSpec, GroupView, ItemQuirks,
    ParseError,
};
use crate::constants::{resolve_constant, try_resolve_constant};
use crate::lexer::{lex, tokenize, toks, Tok, Token};

verus! {

/// What the attributes in front of an item set.
#[derive(Clone, Copy, Debug, PartialEq, Eq, Structural)]
pub struct ItemAttrs {
    pub settings: u8,
    pub had_settings: bool,
    pub bits: Option<u16>,
    pub quirks: ItemQuirks,
}

pub open spec fn no_attrs() -> ItemAttrs {
    ItemAttrs { settings: 0, had_settings: false, bits: None, quirks: ItemQuirks { allow_short_form: false } }
}

/// The attributes that an item understands; others are ignored.
#[derive(Clone, Copy, Debug, PartialEq, Eq, Structural)]
pub enum AttrKind {
    PackedBits,
    ItemSettings,
    Quirks,
    Unknown,
}

pub open spec fn attr_kind(name: Seq<u8>) -> AttrKind {
    if name == "packed_bits".spec_bytes() {
        AttrKind::PackedBits
    } else if name == "item_settings".spec_bytes() {
        AttrKind::ItemSettings
    } else if name == "quirks".spec_bytes() {
        AttrKind::Quirks
    } else {
        AttrKind::Unknown
    }
}

fn parse_attr_kind(name: &[u8]) -> (r: AttrKind)
    ensures
        r == attr_kind(name@),
{
    if bytes_eq(name, "packed_bits".as_bytes()) {
        AttrKind::PackedBits
    } else if bytes_eq(name, "item_settings".as_bytes()) {
        AttrKind::ItemSettings
    } else if bytes_eq(name, "quirks".as_bytes()) {
        AttrKind::Quirks
    } else {
        AttrKind::Unknown
    }
}

/// The words of `item_settings`: each sets one bit of the data byte to a value.
pub open spec fn setting_effect(w: Seq<u8>) -> Option<(u8, bool)> {
    if w == "constant".spec_bytes() {
        Some((0, true))
    } else if w == "data".spec_bytes() {
        Some((0, false))
    } else if w == "variable".spec_bytes() {
        Some((1, true))
    } else if w == "array".spec_bytes() {
        Some((1, false))
    } else if w == "relative".spec_bytes() {
        Some((2, true))
    } else if w == "absolute".spec_bytes() {
        Some((2, false))
    } else if w == "wrap".spec_bytes() {
        Some((3, true))
    } else if w == "no_wrap".spec_bytes() {
        Some((3, false))
    } else if w == "non_linear".spec_bytes() {
        Some((4, true))
    } else if w == "linear".spec_bytes() {
        Some((4, false))
    } else if w == "no_preferred".spec_bytes() {
        Some((5, true))
    } else if w == "preferred".spec_bytes() {
        Some((5, false))
    } else if w == "null".spec_bytes() {
        Some((6, true))
    } else if w == "not_null".spec_bytes() {
        Some((6, false))
    } else if w == "volatile".spec_bytes() {
        Some((7, true))
    } else if w == "not_volatile".spec_bytes() {
        Some((7, false))
    } else {
        None
    }
}

fn lookup_setting(w: &[u8]) -> (r: Option<(u8, bool)>)
    ensures
        r == setting_effect(w@),
        r matches Some((b, _)) ==> b < 8,
{
    if bytes_eq(w, "constant".as_bytes()) {
        Some((0, true))
    } else if bytes_eq(w, "data".as_bytes()) {
        Some((0, false))
    } else if bytes_eq(w, "variable".as_bytes()) {
        Some((1, true))
    } else if bytes_eq(w, "array".as_bytes()) {
        Some((1, false))
    } else if bytes_eq(w, "relative".as_bytes()) {
        Some((2, true))
    } else if bytes_eq(w, "absolute".as_bytes()) {
        Some((2, false))
    } else if bytes_eq(w, "wrap".as_bytes()) {
        Some((3, true))
    } else if bytes_eq(w, "no_wrap".as_bytes()) {
        Some((3, false))
    } else if bytes_eq(w, "non_linear".as_bytes()) {
        Some((4, true))
    } else if bytes_eq(w, "linear".as_bytes()) {
        Some((4, false))
    } else if bytes_eq(w, "no_preferred".as_bytes()) {
        Some((5, true))
    } else if bytes_eq(w, "preferred".as_bytes()) {
        Some((5, false))
    } else if bytes_eq(w, "null".as_bytes()) {
        Some((6, true))
    } else if bytes_eq(w, "not_null".as_bytes()) {
        Some((6, false))
    } else if bytes_eq(w, "volatile".as_bytes()) {
        Some((7, true))
    } else if bytes_eq(w, "not_volatile".as_bytes()) {
        Some((7, false))
    } else {
        None
    }
}

pub open spec fn punct_is(t: Seq<Tok>, p: int, c: u8) -> bool {
    0 <= p < t.len() && t[p] == Tok::Punct(c)
}

pub open spec fn ident_is(t: Seq<Tok>, p: int) -> bool {
    0 <= p < t.len() && t[p] is Ident
}

/// One token of an attribute's body applied. `done` says that a `packed_bits`
/// attribute has already taken its count: the first literal that fits in 16 bits.
pub open spec fn apply_attr_token(kind: AttrKind, done: bool, a: ItemAttrs, tok: Tok) -> (ItemAttrs, bool) {
    match kind {
        AttrKind::PackedBits => match tok {
            Tok::Num(Some(v)) => if !done && v <= 0xFFFF {
                (ItemAttrs { bits: Some(v as u16), ..a }, true)
            } else {
                (a, done)
            },
            _ => (a, done),
        },
        AttrKind::ItemSettings => match tok {
            Tok::Ident(w) => match setting_effect(w) {
                Some((b, on)) => (ItemAttrs { settings: with_bit(a.settings, b, on), ..a }, done),
                None => (a, done),
            },
            _ => (a, done),
        },
        AttrKind::Quirks => match tok {
            Tok::Ident(w) => if w == "allow_short".spec_bytes() {
                (ItemAttrs { quirks: ItemQuirks { allow_short_form: true }, ..a }, done)
            } else {
                (a, done)
            },
            _ => (a, done),
        },
        AttrKind::Unknown => (a, done),
    }
}

/// The body of an attribute from `p` to its closing `]`.
pub open spec fn attr_body(t: Seq<Tok>, p: int, kind: AttrKind, done: bool, a: ItemAttrs) -> Result<(ItemAttrs, int), ParseError>
    decreases t.len() - p,
{
    if p < 0 || p >= t.len() {
        Err(ParseError::Malformed)
    } else if t[p] == Tok::Punct(93) {
        Ok((a, p + 1))
    } else {
        let (a2, d2) = apply_attr_token(kind, done, a, t[p]);
        attr_body(t, p + 1, kind, d2, a2)
    }
}

/// The attributes from `p` on.
pub open spec fn parse_attrs(t: Seq<Tok>, p: int, a: ItemAttrs) -> Result<(ItemAttrs, int), ParseError>
    decreases t.len() - p,
{
    if punct_is(t, p, 35) {
        if punct_is(t, p + 1, 91) && ident_is(t, p + 2) {
            let kind = attr_kind(t[p + 2]->Ident_0);
            let a1 = if kind == AttrKind::ItemSettings {
                ItemAttrs { had_settings: true, ..a }
            } else {
                a
            };
            match attr_body(t, p + 3, kind, false, a1) {
                Err(e) => Err(e),
                Ok((a2, q)) => if q <= p || q > t.len() {
                    Err(ParseError::Malformed)
                } else {
                    parse_attrs(t, q, a2)
                },
            }
        } else {
            Err(ParseError::Malformed)
        }
    } else {
        Ok((a, p))
    }
}

pub open spec fn settings_of(a: ItemAttrs) -> Option<MainItemSetting> {
    if a.had_settings {
        Some(MainItemSetting(a.settings))
    } else {
        None
    }
}

/// An item clause at `p`, bound into `g`.
pub open spec fn parse_item(t: Seq<Tok>, p: int, g: GroupView) -> Result<(GroupView, int), ParseError> {
    match parse_attrs(t, p, no_attrs()) {
        Err(e) => Err(e),
        Ok((a, q)) => if ident_is(t, q) && punct_is(t, q + 1, 61) && ident_is(t, q + 2) {
            Ok(
                (
                    with_item(
                        g,
                        t[q]->Ident_0,
                        MainItemKind::spec_from_name(t[q + 2]->Ident_0),
                        settings_of(a),
                        a.bits,
                        a.quirks,
                    ),
                    q + 3,
                ),
            )
        } else {
            Err(ParseError::Malformed)
        },
    }
}

/// The value of a group parameter `key` written as the token `tok`.
#[verifier::opaque]
pub open spec fn kv_value(key: Seq<u8>, tok: Tok) -> Result<u32, ParseError> {
    match tok {
        Tok::Num(Some(v)) => Ok(v),
        Tok::Ident(n) => match resolve_constant(key, n) {
            Some(v) => Ok(v),
            None => Err(ParseError::UnknownConstant),
        },
        _ => Err(ParseError::Malformed),
    }
}

/// The `key = value` pairs from `p` to the closing parenthesis.
pub open spec fn parse_kvs(t: Seq<Tok>, p: int, acc: Seq<(Seq<u8>, u32)>) -> Result<(Seq<(Seq<u8>, u32)>, int), ParseError>
    decreases t.len() - p,
{
    if punct_is(t, p, 41) {
        Ok((acc, p))
    } else if ident_is(t, p) && punct_is(t, p + 1, 61) && 0 <= p + 2 < t.len() {
        let key = t[p]->Ident_0;
        match kv_value(key, t[p + 2]) {
            Err(e) => Err(e),
            Ok(v) => {
                let acc2 = acc.push((key, v));
                if punct_is(t, p + 3, 44) {
                    parse_kvs(t, p + 4, acc2)
                } else {
                    Ok((acc2, p + 3))
                }
            },
        }
    } else {
        Err(ParseError::Malformed)
    }
}

/// The group parameters applied in order.
pub open spec fn apply_kvs(g: GroupView, kvs: Seq<(Seq<u8>, u32)>) -> Result<GroupView, ParseError>
    decreases kvs.len(),
{
    if kvs.len() == 0 {
        Ok(g)
    } else {
        match apply_kvs(g, kvs.drop_last()) {
            Err(e) => Err(e),
            Ok(g1) => match group_key(kvs.last().0) {
                Some(k) => Ok(with_attr(g1, k, kvs.last().1)),
                None => Err(ParseError::UnknownGroupKey),
            },
        }
    }
}

/// Clauses separated by `sep`, from `p` to a closing brace or the end.
pub open spec fn parse_clauses(t: Seq<Tok>, p: int, sep: u8, g: GroupView) -> Result<(GroupView, int), ParseError>
    decreases t.len() - p, 3nat,
{
    if p < 0 || p >= t.len() || t[p] == Tok::Punct(125) {
        Ok((g, p))
    } else {
        match parse_clause(t, p, g) {
            Err(e) => Err(e),
            Ok((g1, q)) => if punct_is(t, q, sep) {
                if q < p {
                    Err(ParseError::Malformed)
                } else {
                    parse_clauses(t, q + 1, sep, g1)
                }
            } else {
                Ok((g1, q))
            },
        }
    }
}

/// One clause at `p`: a nested group or an item, added to `g`.
pub open spec fn parse_clause(t: Seq<Tok>, p: int, g: GroupView) -> Result<(GroupView, int), ParseError>
    decreases t.len() - p, 2nat,
{
    if punct_is(t, p, 40) {
        match parse_group_clause(t, p) {
            Err(e) => Err(e),
            Ok((ng, q)) => Ok((with_nested(g, ng), q)),
        }
    } else {
        parse_item(t, p, g)
    }
}

/// A group clause at `p`.
pub open spec fn parse_group_clause(t: Seq<Tok>, p: int) -> Result<(GroupView, int), ParseError>
    decreases t.len() - p, 1nat,
{
    if !punct_is(t, p, 40) {
        Err(ParseError::Malformed)
    } else {
        match parse_kvs(t, p + 1, seq![]) {
            Err(e) => Err(e),
            Ok((kvs, q)) => if kvs.len() == 0 || q <= p || !(punct_is(t, q, 41) && punct_is(t, q + 1, 61)
                && punct_is(t, q + 2, 123)) {
                Err(ParseError::Malformed)
            } else {
                match apply_kvs(empty_group(), kvs) {
                    Err(e) => Err(e),
                    Ok(g0) => match parse_clauses(t, q + 3, 59, g0) {
                        Err(e) => Err(e),
                        Ok((g1, r)) => if punct_is(t, r, 125) {
                            Ok((g1, r + 1))
                        } else {
                            Err(ParseError::Malformed)
                        },
                    },
                }
            },
        }
    }
}

/// The specification that the tokens `t` spell: comma-separated clauses of a
/// top-level group without parameters.
pub open spec fn parse_tokens(t: Seq<Tok>) -> Result<GroupView, ParseError> {
    if t.len() == 0 {
        Err(ParseError::EmptySpec)
    } else {
        match parse_clauses(t, 0, 44, empty_group()) {
            Err(e) => Err(e),
            Ok((g, q)) => if q == t.len() {
                Ok(g)
            } else {
                Err(ParseError::Malformed)
            },
        }
    }
}

/// The specification that the text `s` spells.
pub open spec fn parse_spec(s: Seq<u8>) -> Result<GroupView, ParseError> {
    match lex(s) {
        Err(e) => Err(e),
        Ok(t) => parse_tokens(t),
    }
}


pub open spec fn kvs_view(s: Seq<(Vec<u8>, u32)>) -> Seq<(Seq<u8>, u32)> {
    s.map_values(|kv: (Vec<u8>, u32)| (kv.0@, kv.1))
}

fn punct_at(t: &Vec<Token>, p: usize, c: u8) -> (r: bool)
    ensures
        r == punct_is(toks(t@), p as int, c),
        r ==> p < t@.len(),
        toks(t@).len() == t@.len(),
        t@.len() <= usize::MAX,
{
    if p < t.len() {
        match &t[p] {
            Token::Punct(x) => *x == c,
            _ => false,
        }
    } else {
        false
    }
}

fn ident_at(t: &Vec<Token>, p: usize) -> (r: Option<&Vec<u8>>)
    ensures
        match r {
            Some(w) => ident_is(toks(t@), p as int) && toks(t@)[p as int] == Tok::Ident(w@) && p < t@.len(),
            None => !ident_is(toks(t@), p as int),
        },
        toks(t@).len() == t@.len(),
        t@.len() <= usize::MAX,
{
    if p < t.len() {
        match &t[p] {
            Token::Ident(w) => Some(w),
            _ => None,
        }
    } else {
        None
    }
}

fn apply_token(kind: AttrKind, done: bool, a: ItemAttrs, tok: &Token) -> (r: (ItemAttrs, bool))
    ensures
        r == apply_attr_token(kind, done, a, tok@),
{
    match kind {
        AttrKind::PackedBits => match tok {
            Token::Num(Some(v)) => if !done && *v <= 0xFFFF {
                (ItemAttrs { bits: Some(*v as u16), ..a }, true)
            } else {
                (a, done)
            },
            _ => (a, done),
        },
        AttrKind::ItemSettings => match tok {
            Token::Ident(w) => match lookup_setting(w.as_slice()) {
                Some((b, on)) => {
                    let mut s = MainItemSetting(a.settings);
                    s.set_bit(b, on);
                    (ItemAttrs { settings: s.0, ..a }, done)
                },
                None => (a, done),
            },
            _ => (a, done),
        },
        AttrKind::Quirks => match tok {
            Token::Ident(w) => if bytes_eq(w.as_slice(), "allow_short".as_bytes()) {
                (ItemAttrs { quirks: ItemQuirks { allow_short_form: true }, ..a }, done)
            } else {
                (a, done)
            },
            _ => (a, done),
        },
        AttrKind::Unknown => (a, done),
    }
}

/// Reads an attribute's body from `p` through its closing `]`.
fn read_attr_body(t: &Vec<Token>, p: usize, kind: AttrKind, a: ItemAttrs) -> (r: Result<(ItemAttrs, usize), ParseError>)
    ensures
        match attr_body(toks(t@), p as int, kind, false, a) {
            Ok((a2, q)) => r matches Ok((b, q2)) && b == a2 && q2 == q,
            Err(e) => r matches Err(e2) && e2 == e,
        },
{
    let ghost tv = toks(t@);
    let mut i = p;
    let mut acc = a;
    let mut done = false;
    while i < t.len()
        invariant
            tv == toks(t@),
            p <= i,
            attr_body(tv, p as int, kind, false, a) == attr_body(tv, i as int, kind, done, acc),
        decreases t@.len() - i,
    {
        if punct_at(t, i, 93) {
            return Ok((acc, i + 1));
        }
        let (a2, d2) = apply_token(kind, done, acc, &t[i]);
        acc = a2;
        done = d2;
        i = i + 1;
    }
    Err(ParseError::Malformed)
}

/// Reads the attributes in front of an item.
fn parse_item_attrs(t: &Vec<Token>, p: usize) -> (r: Result<(ItemAttrs, usize), ParseError>)
    ensures
        match parse_attrs(toks(t@), p as int, no_attrs()) {
            Ok((a2, q)) => r matches Ok((b, q2)) && b == a2 && q2 == q,
            Err(e) => r matches Err(e2) && e2 == e,
        },
{
    let ghost tv = toks(t@);
    let mut i = p;
    let mut a = ItemAttrs {
        settings: 0,
        had_settings: false,
        bits: None,
        quirks: ItemQuirks { allow_short_form: false },
    };
    while punct_at(t, i, 35)
        invariant
            tv == toks(t@),
            parse_attrs(tv, p as int, no_attrs()) == parse_attrs(tv, i as int, a),
        decreases t@.len() - i,
    {
        if !punct_at(t, i + 1, 91) {
            return Err(ParseError::Malformed);
        }
        match ident_at(t, i + 2) {
            None => {
                return Err(ParseError::Malformed);
            },
            Some(name) => {
                let kind = parse_attr_kind(name.as_slice());
                let a1 = if kind == AttrKind::ItemSettings {
                    ItemAttrs { had_settings: true, ..a }
                } else {
                    a
                };
                let (a2, q) = read_attr_body(t, i + 3, kind, a1)?;
                if q <= i || q > t.len() {
                    return Err(ParseError::Malformed);
                }
                a = a2;
                i = q;
            },
        }
    }
    Ok((a, i))
}

/// The value of the group parameter `key` written as `tok`.
fn read_value(key: &Vec<u8>, tok: &Token) -> (r: Result<u32, ParseError>)
    ensures
        r == kv_value(key@, tok@),
{
    reveal(kv_value);
    match tok {
        Token::Num(Some(v)) => Ok(*v),
        Token::Ident(n) => match try_resolve_constant(key.as_slice(), n.as_slice()) {
            Some(v) => Ok(v),
            None => Err(ParseError::UnknownConstant),
        },
        _ => Err(ParseError::Malformed),
    }
}

/// Reads the `key = value` pairs of a group, up to its closing parenthesis.
fn read_kvs(t: &Vec<Token>, p: usize) -> (r: Result<(Vec<(Vec<u8>, u32)>, usize), ParseError>)
    ensures
        match parse_kvs(toks(t@), p as int, seq![]) {
            Ok((kvs, q)) => r matches Ok((v, q2)) && kvs_view(v@) == kvs && q2 == q,
            Err(e) => r matches Err(e2) && e2 == e,
        },
{
    let ghost tv = toks(t@);
    let mut acc: Vec<(Vec<u8>, u32)> = Vec::new();
    let mut i = p;
    assert(kvs_view(acc@) =~= Seq::<(Seq<u8>, u32)>::empty());
    loop
        invariant
            tv == toks(t@),
            parse_kvs(tv, p as int, seq![]) == parse_kvs(tv, i as int, kvs_view(acc@)),
        decreases t@.len() - i,
    {
        if punct_at(t, i, 41) {
            return Ok((acc, i));
        }
        let key = match ident_at(t, i) {
            None => {
                return Err(ParseError::Malformed);
            },
            Some(key) => key,
        };
        if !punct_at(t, i + 1, 61) || i + 2 >= t.len() {
            return Err(ParseError::Malformed);
        }
        let v = read_value(key, &t[i + 2])?;
        let ghost before = kvs_view(acc@);
        acc.push((key.clone(), v));
        assert(kvs_view(acc@) =~= before.push((key@, v)));
        if punct_at(t, i + 3, 44) {
            i = i + 4;
        } else {
            return Ok((acc, i + 3));
        }
    }
}

/// An error in applying a prefix of the parameters is the error of all.
proof fn lemma_kvs_err(g: GroupView, s: Seq<(Seq<u8>, u32)>, k: int)
    requires
        0 <= k <= s.len(),
        apply_kvs(g, s.subrange(0, k)) is Err,
    ensures
        apply_kvs(g, s) == apply_kvs(g, s.subrange(0, k)),
    decreases s.len() - k,
{
    if s.len() == k {
        assert(s.subrange(0, k) =~= s);
    } else {
        let pre = s.drop_last();
        assert(pre.subrange(0, k) =~= s.subrange(0, k));
        lemma_kvs_err(g, pre, k);
    }
}

/// A group with the parameters `kvs` set in order.
fn apply_group_kvs(kvs: &Vec<(Vec<u8>, u32)>) -> (r: Result<GroupSpec, ParseError>)
    ensures
        match apply_kvs(empty_group(), kvs_view(kvs@)) {
            Ok(gv) => r matches Ok(g) && g@ == gv,
            Err(e) => r matches Err(e2) && e2 == e,
        },
{
    let ghost kv = kvs_view(kvs@);
    let mut g = GroupSpec::new();
    let mut i: usize = 0;
    assert(kv.subrange(0, 0) =~= Seq::<(Seq<u8>, u32)>::empty());
    while i < kvs.len()
        invariant
            kv == kvs_view(kvs@),
            i <= kvs@.len(),
            apply_kvs(empty_group(), kv.subrange(0, i as int)) == Ok::<GroupView, ParseError>(g@),
        decreases kvs@.len() - i,
    {
        let ghost sub = kv.subrange(0, i + 1);
        assert(sub.drop_last() =~= kv.subrange(0, i as int));
        assert(sub.last() == (kvs@[i as int].0@, kvs@[i as int].1));
        let r = g.try_set_attr(kvs[i].0.as_slice(), kvs[i].1);
        if r.is_err() {
            proof {
                lemma_kvs_err(empty_group(), kv, i + 1);
            }
            return Err(ParseError::UnknownGroupKey);
        }
        i = i + 1;
    }
    assert(kv.subrange(0, i as int) =~= kv);
    Ok(g)
}

impl GroupSpec {
    /// Reads an item clause at `p` and binds it into this group.
    fn maybe_parse_kv(&mut self, t: &Vec<Token>, p: usize) -> (r: Result<usize, ParseError>)
        ensures
            match parse_item(toks(t@), p as int, old(self)@) {
                Ok((gv, q)) => r matches Ok(q2) && q2 == q && final(self)@ == gv,
                Err(e) => r matches Err(e2) && e2 == e,
            },
    {
        let (a, q) = parse_item_attrs(t, p)?;
        let name = match ident_at(t, q) {
            Some(n) => n,
            None => {
                return Err(ParseError::Malformed);
            },
        };
        if !punct_at(t, q + 1, 61) {
            return Err(ParseError::Malformed);
        }
        let kind_word = match ident_at(t, q + 2) {
            Some(k) => k,
            None => {
                return Err(ParseError::Malformed);
            },
        };
        let settings = if a.had_settings {
            Some(MainItemSetting(a.settings))
        } else {
            None
        };
        let item_kind = MainItemKind::from_name(kind_word.as_slice());
        let n = name.clone();
        assert(n@ == name@);
        self.set_item(n, item_kind, settings, a.bits, a.quirks);
        Ok(q + 3)
    }

    /// Reads clauses separated by `sep` into this group, up to a closing brace or
    /// the end of the tokens.
    fn from_fields(&mut self, t: &Vec<Token>, p: usize, sep: u8) -> (r: Result<usize, ParseError>)
        ensures
            match parse_clauses(toks(t@), p as int, sep, old(self)@) {
                Ok((gv, q)) => r matches Ok(q2) && q2 == q && final(self)@ == gv,
                Err(e) => r matches Err(e2) && e2 == e,
            },
        decreases t@.len() - p, 3nat,
    {
        if p >= t.len() || punct_at(t, p, 125) {
            return Ok(p);
        }
        let q = self.from_field(t, p)?;
        if punct_at(t, q, sep) {
            if q < p {
                return Err(ParseError::Malformed);
            }
            self.from_fields(t, q + 1, sep)
        } else {
            Ok(q)
        }
    }

    /// Reads one clause at `p` into this group: a nested group or an item.
    fn from_field(&mut self, t: &Vec<Token>, p: usize) -> (r: Result<usize, ParseError>)
        ensures
            match parse_clause(toks(t@), p as int, old(self)@) {
                Ok((gv, q)) => r matches Ok(q2) && q2 == q && final(self)@ == gv,
                Err(e) => r matches Err(e2) && e2 == e,
            },
        decreases t@.len() - p, 2nat,
    {
        if punct_at(t, p, 40) {
            let (ng, q) = parse_group_spec(t, p)?;
            self.add_nested_group(ng);
            Ok(q)
        } else {
            self.maybe_parse_kv(t, p)
        }
    }

    /// Parses a specification text.
    pub fn parse(text: &[u8]) -> (r: Result<GroupSpec, ParseError>)
        ensures
            match parse_spec(text@) {
                Ok(gv) => r matches Ok(g) && g@ == gv,
                Err(e) => r matches Err(e2) && e2 == e,
            },
    {
        let t = tokenize(text)?;
        if t.len() == 0 {
            return Err(ParseError::EmptySpec);
        }
        let mut out = GroupSpec::new();
        let q = out.from_fields(&t, 0, 44)?;
        if q != t.len() {
            return Err(ParseError::Malformed);
        }
        Ok(out)
    }
}

/// Reads a group clause at `p`: its parameters and its block of clauses.
fn parse_group_spec(t: &Vec<Token>, p: usize) -> (r: Result<(GroupSpec, usize), ParseError>)
    ensures
        match parse_group_clause(toks(t@), p as int) {
            Ok((gv, q)) => r matches Ok((g, q2)) && q2 == q && g@ == gv,
            Err(e) => r matches Err(e2) && e2 == e,
        },
    decreases t@.len() - p, 1nat,
{
    if !punct_at(t, p, 40) {
        return Err(ParseError::Malformed);
    }
    let (kvs, q) = read_kvs(t, p + 1)?;
    if kvs.len() == 0 || q <= p {
        return Err(ParseError::Malformed);
    }
    if !(punct_at(t, q, 41) && punct_at(t, q + 1, 61) && punct_at(t, q + 2, 123)) {
        return Err(ParseError::Malformed);
    }
    let mut g0 = apply_group_kvs(&kvs)?;
    let r = g0.from_fields(t, q + 3, 59)?;
    if punct_at(t, r, 125) {
        Ok((g0, r + 1))
    } else {
        Err(ParseError::Malformed)
    }
}

} // verus!
