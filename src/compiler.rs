//! The descriptor compiler: walks the specification tree depth first and emits
//! the items of each group and field, skipping global items whose value has not
//! changed since they were last emitted.
use vstd::prelude::*;
use vstd::arithmetic::power2::lemma2_to64;
use crate::items::{bytes_eq, GlobalItemKind, ItemType, LocalItemKind, MainItemKind};
use crate::encode::{emit_item, item_bytes, item_value_ok};
use crate::parser::parse_spec;
use crate::group::{lemma_children_view, spec_view, GroupSpec, GroupView, ItemSpec, Spec, SpecView};
use crate::field::{
    analyze, analyze_field, supported_width, decls_view, DeclView, FieldDecl, FieldError, TypeView, MainItem,
    ReportUnaryField,
};

verus! {

/// The last emitted value of each global item that the compiler tracks; `None`
/// until the first emission.
#[derive(Clone, Copy, Debug, PartialEq, Eq, Structural)]
pub struct GlobalCache {
    pub logical_minimum: Option<i64>,
    pub logical_maximum: Option<i64>,
    pub report_size: Option<u32>,
    pub report_count: Option<u32>,
}

/// A field as the compiler records it.
pub struct FieldView {
    pub ident: Seq<u8>,
    pub bit_width: u32,
    pub item: MainItem,
    pub report_id: Option<u32>,
}

impl View for ReportUnaryField {
    type V = FieldView;

    open spec fn view(&self) -> FieldView {
        FieldView {
            ident: self.ident@,
            bit_width: self.bit_width,
            item: self.descriptor_item,
            report_id: self.report_id,
        }
    }
}

/// Where the compilation stands: the bytes so far, the cache of globals, and
/// the fields analysed so far.
pub struct CompileState {
    pub out: Seq<u8>,
    pub cache: GlobalCache,
    pub fields: Seq<FieldView>,
}

/// A failure of compilation, with the name of the field it concerns.
#[derive(Debug)]
pub enum CompileError {
    Parse(crate::group::ParseError),
    Field(Vec<u8>, FieldError),
}

/// Values that the globals of a main item can carry.
pub open spec fn main_item_ok(m: MainItem) -> bool {
    item_value_ok(m.logical_minimum as int) && item_value_ok(m.logical_maximum as int)
}

pub open spec fn global_if_changed(last: Option<i64>, v: i64, tag: u8, allow_short: bool) -> Seq<u8> {
    if last == Some(v) {
        seq![]
    } else {
        item_bytes(ItemType::Global, tag, v as int, true, allow_short)
    }
}

/// The global items emitted before the main item `m`: logical minimum, logical
/// maximum, report size and report count, each only where it differs from the
/// last emitted value.
#[verifier::opaque]
pub open spec fn globals_bytes(c: GlobalCache, m: MainItem, allow_short: bool) -> Seq<u8> {
    global_if_changed(c.logical_minimum, m.logical_minimum, 1, allow_short)
        + global_if_changed(c.logical_maximum, m.logical_maximum, 2, allow_short)
        + global_if_changed(
        match c.report_size {
            Some(v) => Some(v as i64),
            None => None,
        },
        m.report_size as i64,
        7,
        allow_short,
    ) + global_if_changed(
        match c.report_count {
            Some(v) => Some(v as i64),
            None => None,
        },
        m.report_count as i64,
        9,
        allow_short,
    )
}

/// The cache after the globals of `m` are emitted.
pub open spec fn cache_after(m: MainItem) -> GlobalCache {
    GlobalCache {
        logical_minimum: Some(m.logical_minimum),
        logical_maximum: Some(m.logical_maximum),
        report_size: Some(m.report_size),
        report_count: Some(m.report_count),
    }
}

/// The data byte of a field's main item: its settings, else Data, Variable,
/// Absolute.
pub open spec fn settings_value(i: ItemSpec) -> int {
    match i.settings {
        Some(s) => s.0 as int,
        None => 2,
    }
}

/// The constant item that fills a field's padding bits: one-bit values, as many
/// as there are padding bits.
pub open spec fn padding_item(m: MainItem, p: u32) -> MainItem {
    MainItem { report_size: 1, report_count: p, ..m }
}

/// The bytes of one field and the cache after it: its globals and main item,
/// then, for padding, the changed globals and a Constant, Variable main item.
pub open spec fn field_bytes(c: GlobalCache, i: ItemSpec, m: MainItem) -> (Seq<u8>, GlobalCache) {
    let allow = i.quirks.allow_short_form;
    let first = globals_bytes(c, m, allow) + item_bytes(
        ItemType::Main,
        m.kind.spec_code(),
        settings_value(i),
        true,
        allow,
    );
    match m.padding_bits {
        Some(p) => {
            let pm = padding_item(m, p);
            (
                first + globals_bytes(cache_after(m), pm, allow) + item_bytes(
                    ItemType::Main,
                    m.kind.spec_code(),
                    3,
                    true,
                    allow,
                ),
                cache_after(pm),
            )
        },
        None => (first, cache_after(m)),
    }
}

pub open spec fn opt_item(o: Option<u32>, typ: ItemType, tag: u8) -> Seq<u8> {
    match o {
        Some(v) => item_bytes(typ, tag, v as int, false, false),
        None => seq![],
    }
}

pub open spec fn usages_bytes(s: Seq<u32>) -> Seq<u8>
    decreases s.len(),
{
    if s.len() == 0 {
        seq![]
    } else {
        usages_bytes(s.drop_last()) + item_bytes(ItemType::Local, 0, s.last() as int, false, false)
    }
}

/// The items that open a group: usage page, usages, usage minimum and maximum,
/// report ID, collection, logical minimum.
pub open spec fn group_header(g: GroupView) -> Seq<u8> {
    opt_item(g.usage_page, ItemType::Global, 0) + usages_bytes(g.usage) + opt_item(
        g.usage_min,
        ItemType::Local,
        1,
    ) + opt_item(g.usage_max, ItemType::Local, 2) + opt_item(g.report_id, ItemType::Global, 8)
        + opt_item(g.collection, ItemType::Main, 10) + opt_item(g.logical_min, ItemType::Global, 1)
}

/// The first field declared with name `name`.
pub open spec fn find_decl(decls: Seq<DeclView>, name: Seq<u8>) -> Option<int>
    decreases decls.len(),
{
    if decls.len() == 0 {
        None
    } else {
        match find_decl(decls.drop_last(), name) {
            Some(i) => Some(i),
            None => if decls.last().name == name {
                Some(decls.len() - 1)
            } else {
                None
            },
        }
    }
}

/// Compiles a group. A group that sets `logical_min` emits it and records zero
/// as the last logical minimum, so that a field whose own minimum is zero does not
/// emit another; the cache stays so after the group. A collection is closed by
/// the End Collection byte 0xC0.
pub open spec fn compile_group(
    g: GroupView,
    decls: Seq<DeclView>,
    rid: Option<u32>,
    st: CompileState,
) -> Result<CompileState, (Seq<u8>, FieldError)>
    decreases g,
{
    let rid2 = if g.report_id is Some {
        g.report_id
    } else {
        rid
    };
    let cache = if g.logical_min is Some {
        GlobalCache { logical_minimum: Some(0), ..st.cache }
    } else {
        st.cache
    };
    let st1 = CompileState { out: st.out + group_header(g), cache, fields: st.fields };
    match compile_children(g.fields, decls, rid2, st1) {
        Err(e) => Err(e),
        Ok(st2) => Ok(
            if g.collection is Some {
                CompileState { out: st2.out.push(0xC0), ..st2 }
            } else {
                st2
            },
        ),
    }
}

pub open spec fn compile_children(
    s: Seq<(Seq<u8>, SpecView)>,
    decls: Seq<DeclView>,
    rid: Option<u32>,
    st: CompileState,
) -> Result<CompileState, (Seq<u8>, FieldError)>
    decreases s,
{
    if s.len() == 0 {
        Ok(st)
    } else {
        match compile_children(s.drop_last(), decls, rid, st) {
            Err(e) => Err(e),
            Ok(st1) => compile_child(s.last().0, s.last().1, decls, rid, st1),
        }
    }
}

/// Compiles one child: a field is looked up, analysed, recorded and emitted; a
/// nested group is compiled in turn.
pub open spec fn compile_child(
    name: Seq<u8>,
    c: SpecView,
    decls: Seq<DeclView>,
    rid: Option<u32>,
    st: CompileState,
) -> Result<CompileState, (Seq<u8>, FieldError)>
    decreases c,
{
    match c {
        SpecView::MainItem(i) => match find_decl(decls, name) {
            None => Err((name, FieldError::UnknownField)),
            Some(k) => match analyze(decls[k].ty, i) {
                Err(e) => Err((name, e)),
                Ok((bits, m)) => {
                    let (b, c2) = field_bytes(st.cache, i, m);
                    Ok(
                        CompileState {
                            out: st.out + b,
                            cache: c2,
                            fields: st.fields.push(
                                FieldView { ident: name, bit_width: bits, item: m, report_id: rid },
                            ),
                        },
                    )
                },
            },
        },
        SpecView::Collection(g) => compile_group(g, decls, rid, st),
    }
}


pub proof fn lemma_find_decl(decls: Seq<DeclView>, name: Seq<u8>)
    ensures
        match find_decl(decls, name) {
            Some(i) => 0 <= i < decls.len() && decls[i].name == name && forall|j: int|
                0 <= j < i ==> #[trigger] decls[j].name != name,
            None => forall|j: int| 0 <= j < decls.len() ==> #[trigger] decls[j].name != name,
        },
    decreases decls.len(),
{
    if decls.len() > 0 {
        let pre = decls.drop_last();
        lemma_find_decl(pre, name);
        match find_decl(pre, name) {
            Some(i) => {
                assert forall|j: int| 0 <= j < i implies #[trigger] decls[j].name != name by {
                    assert(pre[j] == decls[j]);
                }
            },
            None => {
                assert forall|j: int| 0 <= j < decls.len() - 1 implies #[trigger] decls[j].name
                    != name by {
                    assert(pre[j] == decls[j]);
                }
            },
        }
    }
}

/// The main item of every field that analysis accepts has globals that an
/// item's data can carry.
pub proof fn lemma_analyze_ok(t: TypeView, i: ItemSpec)
    ensures
        analyze(t, i) matches Ok((bits, m)) ==> main_item_ok(m) && supported_width(bits),
{
    lemma2_to64();
}

/// An error in a prefix of the children is the error of all of them.
pub proof fn lemma_children_err(
    s: Seq<(Seq<u8>, SpecView)>,
    k: int,
    decls: Seq<DeclView>,
    rid: Option<u32>,
    st: CompileState,
)
    requires
        0 <= k <= s.len(),
        compile_children(s.subrange(0, k), decls, rid, st) is Err,
    ensures
        compile_children(s, decls, rid, st) == compile_children(s.subrange(0, k), decls, rid, st),
    decreases s.len() - k,
{
    if s.len() == k {
        assert(s.subrange(0, k) =~= s);
    } else {
        let pre = s.drop_last();
        assert(pre.subrange(0, k) =~= s.subrange(0, k));
        lemma_children_err(pre, k, decls, rid, st);
    }
}

/// Compiler state: the last emitted globals and the fields analysed so far.
pub struct DescCompilation {
    pub cache: GlobalCache,
    pub processed_fields: Vec<ReportUnaryField>,
}

/// The compilation state that `dc` and the bytes `out` stand for.
pub open spec fn state_of(dc: DescCompilation, out: Seq<u8>) -> CompileState {
    CompileState {
        out,
        cache: dc.cache,
        fields: dc.processed_fields@.map_values(|f: ReportUnaryField| f@),
    }
}

/// The state before anything is emitted.
pub open spec fn initial_state() -> CompileState {
    CompileState {
        out: seq![],
        cache: GlobalCache {
            logical_minimum: None,
            logical_maximum: None,
            report_size: None,
            report_count: None,
        },
        fields: seq![],
    }
}

fn changed(last: Option<i64>, v: i64) -> (r: bool)
    ensures
        r == (last != Some(v)),
{
    match last {
        Some(x) => x != v,
        None => true,
    }
}

fn widen(o: Option<u32>) -> (r: Option<i64>)
    ensures
        r == (match o {
            Some(v) => Some(v as i64),
            None => None::<i64>,
        }),
{
    match o {
        Some(v) => Some(v as i64),
        None => None,
    }
}

/// The first declared field named `name`.
pub fn field_decl<'a>(fields: &'a Vec<FieldDecl>, name: &[u8]) -> (r: Option<&'a FieldDecl>)
    ensures
        match find_decl(decls_view(fields@), name@) {
            Some(k) => r == Some(&fields@[k]),
            None => r is None,
        },
{
    proof {
        lemma_find_decl(decls_view(fields@), name@);
    }
    let mut i: usize = 0;
    while i < fields.len()
        invariant
            0 <= i <= fields@.len(),
            forall|j: int| 0 <= j < i ==> #[trigger] decls_view(fields@)[j].name != name@,
        decreases fields@.len() - i,
    {
        if bytes_eq(fields[i].name.as_slice(), name) {
            proof {
                assert(decls_view(fields@)[i as int].name == name@);
                lemma_find_decl(decls_view(fields@), name@);
            }
            return Some(&fields[i]);
        }
        i = i + 1;
    }
    proof {
        lemma_find_decl(decls_view(fields@), name@);
    }
    None
}

/// Appends the unsigned item carrying `o`, if `o` holds a value.
fn emit_opt(elems: &mut Vec<u8>, o: Option<u32>, typ: ItemType, tag: u8)
    requires
        tag < 16,
    ensures
        final(elems)@ == old(elems)@ + opt_item(o, typ, tag),
{
    if let Some(v) = o {
        emit_item(elems, typ, tag, v as i64, false, false);
    } else {
        assert(elems@ =~= old(elems)@ + opt_item(o, typ, tag));
    }
}

impl DescCompilation {
    pub fn new() -> (r: DescCompilation)
        ensures
            state_of(r, seq![]) == initial_state(),
    {
        let r = DescCompilation {
            cache: GlobalCache {
                logical_minimum: None,
                logical_maximum: None,
                report_size: None,
                report_count: None,
            },
            processed_fields: Vec::new(),
        };
        assert(state_of(r, seq![]).fields =~= initial_state().fields);
        r
    }

    /// The fields analysed so far, in order.
    pub fn report_fields(self) -> (r: Vec<ReportUnaryField>)
        ensures
            r@ == self.processed_fields@,
    {
        self.processed_fields
    }

    /// Emits the globals of `item` that differ from the last emitted ones.
    fn handle_globals(&mut self, elems: &mut Vec<u8>, item: MainItem, allow_short: bool)
        requires
            main_item_ok(item),
        ensures
            final(elems)@ == old(elems)@ + globals_bytes(old(self).cache, item, allow_short),
            final(self).cache == cache_after(item),
            final(self).processed_fields == old(self).processed_fields,
    {
        reveal(globals_bytes);
        if changed(self.cache.logical_minimum, item.logical_minimum) {
            emit_item(elems, ItemType::Global, GlobalItemKind::LogicalMin.code(), item.logical_minimum, true, allow_short);
            self.cache.logical_minimum = Some(item.logical_minimum);
        }
        if changed(self.cache.logical_maximum, item.logical_maximum) {
            emit_item(elems, ItemType::Global, GlobalItemKind::LogicalMax.code(), item.logical_maximum, true, allow_short);
            self.cache.logical_maximum = Some(item.logical_maximum);
        }
        if changed(widen(self.cache.report_size), item.report_size as i64) {
            emit_item(elems, ItemType::Global, GlobalItemKind::ReportSize.code(), item.report_size as i64, true, allow_short);
        }
        self.cache.report_size = Some(item.report_size);
        if changed(widen(self.cache.report_count), item.report_count as i64) {
            emit_item(elems, ItemType::Global, GlobalItemKind::ReportCount.code(), item.report_count as i64, true, allow_short);
        }
        self.cache.report_count = Some(item.report_count);
        self.cache.logical_minimum = Some(item.logical_minimum);
        self.cache.logical_maximum = Some(item.logical_maximum);
        assert(elems@ =~= old(elems)@ + globals_bytes(old(self).cache, item, allow_short));
    }

    /// Emits a field's globals and main item, then those of its padding.
    fn emit_field(&mut self, elems: &mut Vec<u8>, i: &ItemSpec, item: MainItem)
        requires
            main_item_ok(item),
        ensures
            final(elems)@ == old(elems)@ + field_bytes(old(self).cache, *i, item).0,
            final(self).cache == field_bytes(old(self).cache, *i, item).1,
            final(self).processed_fields == old(self).processed_fields,
    {
        let allow = i.quirks.allow_short_form;
        self.handle_globals(elems, item, allow);
        let item_data: i64 = match i.settings {
            Some(s) => s.0 as i64,
            None => 0x02,
        };
        emit_item(elems, ItemType::Main, item.kind.code(), item_data, true, allow);
        if let Some(padding) = item.padding_bits {
            let pad = MainItem { report_size: 1, report_count: padding, ..item };
            self.handle_globals(elems, pad, allow);
            // Constant, Variable.
            emit_item(elems, ItemType::Main, item.kind.code(), 0x03, true, allow);
        }
        assert(elems@ =~= old(elems)@ + field_bytes(old(self).cache, *i, item).0);
    }

    /// Emits the items that open a group.
    fn emit_group_header(&mut self, elems: &mut Vec<u8>, spec: &GroupSpec)
        ensures
            final(elems)@ == old(elems)@ + group_header(spec@),
            final(self).cache == (if spec.logical_min is Some {
                GlobalCache { logical_minimum: Some(0), ..old(self).cache }
            } else {
                old(self).cache
            }),
            final(self).processed_fields == old(self).processed_fields,
    {
        let ghost e0 = elems@;
        emit_opt(elems, spec.usage_page, ItemType::Global, GlobalItemKind::UsagePage.code());
        let ghost after_page = elems@;
        let mut k: usize = 0;
        while k < spec.usage.len()
            invariant
                k <= spec.usage@.len(),
                elems@ == after_page + usages_bytes(spec.usage@.subrange(0, k as int)),
            decreases spec.usage@.len() - k,
        {
            emit_item(elems, ItemType::Local, LocalItemKind::Usage.code(), spec.usage[k] as i64, false, false);
            assert(spec.usage@.subrange(0, k + 1).drop_last() =~= spec.usage@.subrange(0, k as int));
            assert(elems@ =~= after_page + usages_bytes(spec.usage@.subrange(0, k + 1)));
            k = k + 1;
        }
        assert(spec.usage@.subrange(0, k as int) =~= spec.usage@);
        let ghost e1 = elems@;
        emit_opt(elems, spec.usage_min, ItemType::Local, LocalItemKind::UsageMin.code());
        emit_opt(elems, spec.usage_max, ItemType::Local, LocalItemKind::UsageMax.code());
        emit_opt(elems, spec.report_id, ItemType::Global, GlobalItemKind::ReportID.code());
        emit_opt(elems, spec.collection, ItemType::Main, MainItemKind::Collection.code());
        if spec.logical_min.is_some() {
            self.cache.logical_minimum = Some(0);
        }
        emit_opt(elems, spec.logical_min, ItemType::Global, GlobalItemKind::LogicalMin.code());
        assert(elems@ =~= old(elems)@ + group_header(spec@));
    }

    /// Emits one child of a group.
    fn emit_child(
        &mut self,
        elems: &mut Vec<u8>,
        name: &Vec<u8>,
        child: &Spec,
        fields: &Vec<FieldDecl>,
        report_id: Option<u32>,
    ) -> (r: Result<(), CompileError>)
        ensures
            match compile_child(name@, spec_view(*child), decls_view(fields@), report_id, state_of(*old(self), old(elems)@)) {
                Ok(st) => r is Ok && state_of(*final(self), final(elems)@) == st,
                Err(e) => r matches Err(CompileError::Field(n, fe)) && n@ == e.0 && fe == e.1,
            },
        decreases child,
    {
        match child {
            Spec::MainItem(it) => {
                match field_decl(fields, name.as_slice()) {
                    None => Err(CompileError::Field(name.clone(), FieldError::UnknownField)),
                    Some(d) => {
                        proof {
                            lemma_analyze_ok(d.ty@, *it);
                            lemma_find_decl(decls_view(fields@), name@);
                        }
                        match analyze_field(d, it) {
                            Err(e) => Err(CompileError::Field(name.clone(), e)),
                            Ok(f) => {
                                let ghost pre = state_of(*self, elems@);
                                let mut f = f;
                                f.report_id = report_id;
                                let m = f.descriptor_item;
                                let ghost fv = f@;
                                self.processed_fields.push(f);
                                assert(self.processed_fields@.map_values(|f: ReportUnaryField| f@) =~= pre.fields.push(fv));
                                self.emit_field(elems, it, m);
                                Ok(())
                            },
                        }
                    },
                }
            },
            Spec::Collection(g) => self.emit_group(elems, g, fields, report_id),
        }
    }

    /// Emits a group: its header items, its children in order, and the End
    /// Collection byte where it opens a collection. `report_id` is the report ID
    /// of the enclosing groups, recorded with each field.
    pub fn emit_group(
        &mut self,
        elems: &mut Vec<u8>,
        spec: &GroupSpec,
        fields: &Vec<FieldDecl>,
        report_id: Option<u32>,
    ) -> (r: Result<(), CompileError>)
        ensures
            match compile_group(spec@, decls_view(fields@), report_id, state_of(*old(self), old(elems)@)) {
                Ok(st) => r is Ok && state_of(*final(self), final(elems)@) == st,
                Err(e) => r matches Err(CompileError::Field(n, fe)) && n@ == e.0 && fe == e.1,
            },
        decreases spec,
    {
        let ghost st0 = state_of(*self, elems@);
        self.emit_group_header(elems, spec);
        let rid = if spec.report_id.is_some() {
            spec.report_id
        } else {
            report_id
        };
        let ghost st1 = state_of(*self, elems@);
        assert(st1 == CompileState {
            out: st0.out + group_header(spec@),
            cache: if spec.logical_min is Some {
                GlobalCache { logical_minimum: Some(0), ..st0.cache }
            } else {
                st0.cache
            },
            fields: st0.fields,
        });
        assert(spec@.fields.subrange(0, 0) =~= Seq::<(Seq<u8>, SpecView)>::empty());
        proof {
            lemma_children_view(spec.fields@);
        }
        let mut i: usize = 0;
        while i < spec.fields.len()
            invariant
                i <= spec.fields@.len(),
                st0 == state_of(*old(self), old(elems)@),
                rid == (if spec.report_id is Some {
                    spec.report_id
                } else {
                    report_id
                }),
                st1 == (CompileState {
                    out: st0.out + group_header(spec@),
                    cache: if spec.logical_min is Some {
                        GlobalCache { logical_minimum: Some(0), ..st0.cache }
                    } else {
                        st0.cache
                    },
                    fields: st0.fields,
                }),
                spec@.fields.len() == spec.fields@.len(),
                forall|j: int| 0 <= j < spec.fields@.len() ==> #[trigger] spec@.fields[j] == (spec.fields@[j].0@, spec_view(spec.fields@[j].1)),
                compile_children(spec@.fields.subrange(0, i as int), decls_view(fields@), rid, st1) == Ok::<
                    CompileState,
                    (Seq<u8>, FieldError),
                >(state_of(*self, elems@)),
            decreases spec.fields@.len() - i,
        {
            let child = &spec.fields[i];
            let ghost sub = spec@.fields.subrange(0, i + 1);
            assert(sub.drop_last() =~= spec@.fields.subrange(0, i as int));
            assert(sub.last() == (child.0@, spec_view(child.1)));
            let r = self.emit_child(elems, &child.0, &child.1, fields, rid);
            if r.is_err() {
                proof {
                    lemma_children_err(spec@.fields, i + 1, decls_view(fields@), rid, st1);
                }
                return r;
            }
            i = i + 1;
        }
        assert(spec@.fields.subrange(0, i as int) =~= spec@.fields);
        if spec.collection.is_some() {
            elems.push(0xC0);
        }
        Ok(())
    }
}

/// Compiles a specification against the record's fields: the descriptor bytes
/// and the analysed fields in emission order, or the first error met.
pub fn compile_descriptor(spec: &GroupSpec, fields: &Vec<FieldDecl>) -> (r: Result<(Vec<u8>, Vec<ReportUnaryField>), CompileError>)
    ensures
        match compile_group(spec@, decls_view(fields@), None, initial_state()) {
            Ok(st) => r matches Ok((b, fs)) && b@ == st.out && fs@.map_values(|f: ReportUnaryField| f@) == st.fields,
            Err(e) => r matches Err(CompileError::Field(n, fe)) && n@ == e.0 && fe == e.1,
        },
{
    let mut compiler = DescCompilation::new();
    let mut elems: Vec<u8> = Vec::new();
    compiler.emit_group(&mut elems, spec, fields, None)?;
    Ok((elems, compiler.report_fields()))
}


/// After the globals of one field, a next field with the same logical minimum,
/// logical maximum, report size and report count emits no global item; one that
/// differs in a single one of the four emits that global item alone.
pub proof fn lemma_globals_dedup(a: MainItem, b: MainItem, allow_short: bool)
    ensures
        a.logical_minimum == b.logical_minimum && a.logical_maximum == b.logical_maximum
            && a.report_size == b.report_size && a.report_count == b.report_count ==> globals_bytes(
            cache_after(a),
            b,
            allow_short,
        ) == Seq::<u8>::empty(),
        a.logical_minimum != b.logical_minimum && a.logical_maximum == b.logical_maximum
            && a.report_size == b.report_size && a.report_count == b.report_count ==> globals_bytes(
            cache_after(a),
            b,
            allow_short,
        ) == item_bytes(ItemType::Global, 1, b.logical_minimum as int, true, allow_short),
        a.logical_minimum == b.logical_minimum && a.logical_maximum != b.logical_maximum
            && a.report_size == b.report_size && a.report_count == b.report_count ==> globals_bytes(
            cache_after(a),
            b,
            allow_short,
        ) == item_bytes(ItemType::Global, 2, b.logical_maximum as int, true, allow_short),
        a.logical_minimum == b.logical_minimum && a.logical_maximum == b.logical_maximum
            && a.report_size != b.report_size && a.report_count == b.report_count ==> globals_bytes(
            cache_after(a),
            b,
            allow_short,
        ) == item_bytes(ItemType::Global, 7, b.report_size as int, true, allow_short),
        a.logical_minimum == b.logical_minimum && a.logical_maximum == b.logical_maximum
            && a.report_size == b.report_size && a.report_count != b.report_count ==> globals_bytes(
            cache_after(a),
            b,
            allow_short,
        ) == item_bytes(ItemType::Global, 9, b.report_count as int, true, allow_short),
{
    reveal(globals_bytes);
    let e = Seq::<u8>::empty();
    assert(e + e =~= e);
    let x1 = item_bytes(ItemType::Global, 1, b.logical_minimum as int, true, allow_short);
    let x2 = item_bytes(ItemType::Global, 2, b.logical_maximum as int, true, allow_short);
    let x7 = item_bytes(ItemType::Global, 7, b.report_size as int, true, allow_short);
    let x9 = item_bytes(ItemType::Global, 9, b.report_count as int, true, allow_short);
    assert(x1 + e + e + e =~= x1);
    assert(e + x2 + e + e =~= x2);
    assert(e + e + x7 + e =~= x7);
    assert(e + e + e + x9 =~= x9);
    assert(e + e + e + e =~= e);
}


/// Parses the specification text and compiles it against the record's fields:
/// a parse error, else the compilation of the parsed tree.
pub fn gen_hid_descriptor(text: &[u8], fields: &Vec<FieldDecl>) -> (r: Result<(Vec<u8>, Vec<ReportUnaryField>), CompileError>)
    ensures
        match parse_spec(text@) {
            Err(e) => r matches Err(CompileError::Parse(e2)) && e2 == e,
            Ok(g) => match compile_group(g, decls_view(fields@), None, initial_state()) {
                Ok(st) => r matches Ok((b, fs)) && b@ == st.out && fs@.map_values(|f: ReportUnaryField| f@) == st.fields,
                Err(e) => r matches Err(CompileError::Field(n, fe)) && n@ == e.0 && fe == e.1,
            },
        },
{
    let spec = match GroupSpec::parse(text) {
        Ok(s) => s,
        Err(e) => {
            return Err(CompileError::Parse(e));
        },
    };
    compile_descriptor(&spec, fields)
}

} // verus!
