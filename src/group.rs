//! The specification tree: groups of global and local parameters, holding
//! items bound to record fields and nested groups, in declaration order.
use vstd::prelude::*;
use vstd::string::StringSliceAdditionalSpecFns;
use crate::items::{bytes_eq, MainItemKind, MainItemSetting};

verus! {

/// Compatibility settings of one item.
#[derive(Clone, Copy, Debug, PartialEq, Eq, Structural)]
pub struct ItemQuirks {
    /// Lets an Input item of value zero be written without data bytes.
    pub allow_short_form: bool,
}

/// What the specification says of one record field.
#[derive(Clone, Copy, Debug, PartialEq, Eq, Structural)]
pub struct ItemSpec {
    pub kind: MainItemKind,
    pub quirks: ItemQuirks,
    /// The data byte of the main item; `None` gives Data, Variable, Absolute.
    pub settings: Option<MainItemSetting>,
    /// Describe the field as this many one-bit values.
    pub want_bits: Option<u16>,
}

/// A child of a group: an item, or a nested group.
#[derive(Debug)]
pub enum Spec {
    MainItem(ItemSpec),
    Collection(GroupSpec),
}

/// A group of items sharing global and local parameters.
#[derive(Debug)]
pub struct GroupSpec {
    /// Children in declaration order, each with the field name it binds to
    /// (a name of underscores for a nested group).
    pub fields: Vec<(Vec<u8>, Spec)>,
    pub report_id: Option<u32>,
    pub usage_page: Option<u32>,
    pub collection: Option<u32>,
    pub logical_min: Option<u32>,
    pub usage: Vec<u32>,
    pub usage_min: Option<u32>,
    pub usage_max: Option<u32>,
}

/// Errors of the specification grammar.
#[derive(Clone, Copy, Debug, PartialEq, Eq, Structural)]
pub enum ParseError {
    /// A group parameter other than the seven known keys.
    UnknownGroupKey,
    /// A symbolic value that has no meaning for its key.
    UnknownConstant,
    /// A specification without clauses.
    EmptySpec,
    /// Text that is not a clause of the grammar.
    Malformed,
}

/// The parameter keys of a group.
#[derive(Clone, Copy, Debug, PartialEq, Eq, Structural)]
pub enum GroupKey {
    ReportId,
    UsagePage,
    Collection,
    Usage,
    UsageMin,
    UsageMax,
    LogicalMin,
}

pub open spec fn group_key(s: Seq<u8>) -> Option<GroupKey> {
    if s == "report_id".spec_bytes() {
        Some(GroupKey::ReportId)
    } else if s == "usage_page".spec_bytes() {
        Some(GroupKey::UsagePage)
    } else if s == "collection".spec_bytes() {
        Some(GroupKey::Collection)
    } else if s == "usage".spec_bytes() {
        Some(GroupKey::Usage)
    } else if s == "usage_min".spec_bytes() {
        Some(GroupKey::UsageMin)
    } else if s == "usage_max".spec_bytes() {
        Some(GroupKey::UsageMax)
    } else if s == "logical_min".spec_bytes() {
        Some(GroupKey::LogicalMin)
    } else {
        None
    }
}

pub fn parse_group_key(s: &[u8]) -> (r: Option<GroupKey>)
    ensures
        r == group_key(s@),
{
    if bytes_eq(s, "report_id".as_bytes()) {
        Some(GroupKey::ReportId)
    } else if bytes_eq(s, "usage_page".as_bytes()) {
        Some(GroupKey::UsagePage)
    } else if bytes_eq(s, "collection".as_bytes()) {
        Some(GroupKey::Collection)
    } else if bytes_eq(s, "usage".as_bytes()) {
        Some(GroupKey::Usage)
    } else if bytes_eq(s, "usage_min".as_bytes()) {
        Some(GroupKey::UsageMin)
    } else if bytes_eq(s, "usage_max".as_bytes()) {
        Some(GroupKey::UsageMax)
    } else if bytes_eq(s, "logical_min".as_bytes()) {
        Some(GroupKey::LogicalMin)
    } else {
        None
    }
}

/// A group as a mathematical value.
pub struct GroupView {
    pub fields: Seq<(Seq<u8>, SpecView)>,
    pub report_id: Option<u32>,
    pub usage_page: Option<u32>,
    pub collection: Option<u32>,
    pub logical_min: Option<u32>,
    pub usage: Seq<u32>,
    pub usage_min: Option<u32>,
    pub usage_max: Option<u32>,
}

/// A child of a group as a mathematical value.
pub enum SpecView {
    MainItem(ItemSpec),
    Collection(GroupView),
}

pub open spec fn group_view(g: GroupSpec) -> GroupView
    decreases g,
{
    GroupView {
        fields: children_view(g.fields@),
        report_id: g.report_id,
        usage_page: g.usage_page,
        collection: g.collection,
        logical_min: g.logical_min,
        usage: g.usage@,
        usage_min: g.usage_min,
        usage_max: g.usage_max,
    }
}

pub open spec fn children_view(s: Seq<(Vec<u8>, Spec)>) -> Seq<(Seq<u8>, SpecView)>
    decreases s,
{
    if s.len() == 0 {
        seq![]
    } else {
        children_view(s.drop_last()).push((s.last().0@, spec_view(s.last().1)))
    }
}

pub open spec fn spec_view(c: Spec) -> SpecView
    decreases c,
{
    match c {
        Spec::MainItem(i) => SpecView::MainItem(i),
        Spec::Collection(g) => SpecView::Collection(group_view(g)),
    }
}

impl View for GroupSpec {
    type V = GroupView;

    open spec fn view(&self) -> GroupView {
        group_view(*self)
    }
}

pub proof fn lemma_children_view(s: Seq<(Vec<u8>, Spec)>)
    ensures
        children_view(s).len() == s.len(),
        forall|i: int| 0 <= i < s.len() ==> #[trigger] children_view(s)[i] == (s[i].0@, spec_view(s[i].1)),
    decreases s.len(),
{
    if s.len() > 0 {
        let pre = s.drop_last();
        lemma_children_view(pre);
        assert forall|i: int| 0 <= i < s.len() implies #[trigger] children_view(s)[i] == (s[i].0@, spec_view(s[i].1)) by {
            if i < s.len() - 1 {
                assert(pre[i] == s[i]);
            }
        }
    }
}

/// The group with no parameters and no children.
pub open spec fn empty_group() -> GroupView {
    GroupView {
        fields: seq![],
        report_id: None,
        usage_page: None,
        collection: None,
        logical_min: None,
        usage: seq![],
        usage_min: None,
        usage_max: None,
    }
}

/// The index of the first child named `name`.
pub open spec fn find_child(fields: Seq<(Seq<u8>, SpecView)>, name: Seq<u8>) -> Option<int>
    decreases fields.len(),
{
    if fields.len() == 0 {
        None
    } else {
        match find_child(fields.drop_last(), name) {
            Some(i) => Some(i),
            None => if fields.last().0 == name {
                Some(fields.len() - 1)
            } else {
                None
            },
        }
    }
}

pub proof fn lemma_find_child(fields: Seq<(Seq<u8>, SpecView)>, name: Seq<u8>)
    ensures
        match find_child(fields, name) {
            Some(i) => 0 <= i < fields.len() && fields[i].0 == name && forall|j: int|
                0 <= j < i ==> #[trigger] fields[j].0 != name,
            None => forall|j: int| 0 <= j < fields.len() ==> #[trigger] fields[j].0 != name,
        },
    decreases fields.len(),
{
    if fields.len() > 0 {
        let pre = fields.drop_last();
        lemma_find_child(pre, name);
        match find_child(pre, name) {
            Some(i) => {
                assert forall|j: int| 0 <= j < i implies #[trigger] fields[j].0 != name by {
                    assert(pre[j] == fields[j]);
                }
            },
            None => {
                assert forall|j: int| 0 <= j < fields.len() - 1 implies #[trigger] fields[j].0 != name by {
                    assert(pre[j] == fields[j]);
                }
            },
        }
    }
}

/// A name of `n` underscores, the key of a nested group.
pub open spec fn underscores(n: nat) -> Seq<u8> {
    Seq::new(n, |i: int| 95u8)
}

/// `g` with the parameter `k` set to `val`; `usage` values accumulate.
pub open spec fn with_attr(g: GroupView, k: GroupKey, val: u32) -> GroupView {
    match k {
        GroupKey::ReportId => GroupView { report_id: Some(val), ..g },
        GroupKey::UsagePage => GroupView { usage_page: Some(val), ..g },
        GroupKey::Collection => GroupView { collection: Some(val), ..g },
        GroupKey::Usage => GroupView { usage: g.usage.push(val), ..g },
        GroupKey::UsageMin => GroupView { usage_min: Some(val), ..g },
        GroupKey::UsageMax => GroupView { usage_max: Some(val), ..g },
        GroupKey::LogicalMin => GroupView { logical_min: Some(val), ..g },
    }
}

/// The child that `set_item` leaves at an existing name: an item takes the new
/// kind, settings and bit count and keeps its quirks; a group stays as it is.
pub open spec fn updated_child(
    s: SpecView,
    kind: MainItemKind,
    settings: Option<MainItemSetting>,
    bits: Option<u16>,
) -> SpecView {
    match s {
        SpecView::MainItem(i) => SpecView::MainItem(ItemSpec { kind, settings, want_bits: bits, ..i }),
        SpecView::Collection(g) => SpecView::Collection(g),
    }
}

/// `g` with an item bound to `name`: a name already bound keeps its place and
/// is updated; a new name is appended.
pub open spec fn with_item(
    g: GroupView,
    name: Seq<u8>,
    kind: MainItemKind,
    settings: Option<MainItemSetting>,
    bits: Option<u16>,
    quirks: ItemQuirks,
) -> GroupView {
    match find_child(g.fields, name) {
        Some(i) => GroupView {
            fields: g.fields.update(i, (name, updated_child(g.fields[i].1, kind, settings, bits))),
            ..g
        },
        None => GroupView {
            fields: g.fields.push(
                (name, SpecView::MainItem(ItemSpec { kind, quirks, settings, want_bits: bits })),
            ),
            ..g
        },
    }
}

/// `g` with the nested group `ng` appended under a name of underscores one
/// longer than the number of children before it.
pub open spec fn with_nested(g: GroupView, ng: GroupView) -> GroupView {
    GroupView {
        fields: g.fields.push((underscores(g.fields.len() + 1), SpecView::Collection(ng))),
        ..g
    }
}

impl GroupSpec {
    /// A group with no parameters and no children.
    pub fn new() -> (r: GroupSpec)
        ensures
            r@ == empty_group(),
    {
        let r = GroupSpec {
            fields: Vec::new(),
            report_id: None,
            usage_page: None,
            collection: None,
            logical_min: None,
            usage: Vec::new(),
            usage_min: None,
            usage_max: None,
        };
        assert(r@.fields =~= empty_group().fields);
        assert(r@.usage =~= empty_group().usage);
        r
    }

    /// The index of the child named `name`, if any.
    fn position(&self, name: &[u8]) -> (r: Option<usize>)
        ensures
            match r {
                Some(i) => find_child(self@.fields, name@) == Some(i as int) && i < self.fields@.len(),
                None => find_child(self@.fields, name@) is None,
            },
    {
        proof {
            lemma_find_child(self@.fields, name@);
            lemma_children_view(self.fields@);
        }
        let mut i: usize = 0;
        while i < self.fields.len()
            invariant
                0 <= i <= self.fields@.len(),
                self@.fields.len() == self.fields@.len(),
                forall|j: int| 0 <= j < i ==> #[trigger] self@.fields[j].0 != name@,
                forall|j: int| 0 <= j < self.fields@.len() ==> #[trigger] self@.fields[j] == (self.fields@[j].0@, spec_view(self.fields@[j].1)),
            decreases self.fields@.len() - i,
        {
            if bytes_eq(self.fields[i].0.as_slice(), name) {
                proof {
                    lemma_find_child(self@.fields, name@);
                    assert(self@.fields[i as int].0 == name@);
                }
                return Some(i);
            }
            assert(self@.fields[i as int].0 != name@);
            i = i + 1;
        }
        proof {
            lemma_find_child(self@.fields, name@);
        }
        None
    }

    /// Binds an item to the field `name`. A name already bound to an item keeps
    /// its place and its quirks and takes the new kind, settings and bit count;
    /// a new name is appended.
    pub fn set_item(
        &mut self,
        name: Vec<u8>,
        item_kind: MainItemKind,
        settings: Option<MainItemSetting>,
        bits: Option<u16>,
        quirks: ItemQuirks,
    )
        ensures
            final(self)@ == with_item(old(self)@, name@, item_kind, settings, bits, quirks),
    {
        proof {
            lemma_children_view(self.fields@);
            lemma_find_child(self@.fields, name@);
        }
        match self.position(name.as_slice()) {
            Some(i) => {
                let (n, s) = self.fields.remove(i);
                let s2 = match s {
                    Spec::MainItem(it) => Spec::MainItem(ItemSpec { kind: item_kind, settings, want_bits: bits, ..it }),
                    Spec::Collection(g) => Spec::Collection(g),
                };
                assert(spec_view(s2) == updated_child(spec_view(s), item_kind, settings, bits));
                self.fields.insert(i, (n, s2));
                proof {
                    lemma_children_view(self.fields@);
                    let w = with_item(old(self)@, name@, item_kind, settings, bits, quirks);
                    assert(self.fields@ =~= old(self).fields@.update(i as int, (n, s2)));
                    assert(self@.fields =~= w.fields);
                    assert(self@.usage =~= w.usage);
                }
            },
            None => {
                self.fields.push(
                    (name, Spec::MainItem(ItemSpec { kind: item_kind, quirks, settings, want_bits: bits })),
                );
                proof {
                    let w = with_item(old(self)@, name@, item_kind, settings, bits, quirks);
                    assert(self.fields@.drop_last() =~= old(self).fields@);
                    assert(self@.fields =~= w.fields);
                }
            },
        }
    }

    /// Appends a nested group, keyed by a name of underscores one longer than
    /// the number of children before it.
    pub fn add_nested_group(&mut self, ng: GroupSpec)
        ensures
            final(self)@ == with_nested(old(self)@, ng@),
    {
        proof {
            lemma_children_view(self.fields@);
        }
        let n = self.fields.len();
        let mut name: Vec<u8> = Vec::new();
        while name.len() <= n
            invariant
                name@ == underscores(name@.len()),
                name@.len() <= n + 1,
            decreases n + 1 - name@.len(),
        {
            name.push(95u8);
            assert(name@ =~= underscores(name@.len()));
        }
        self.fields.push((name, Spec::Collection(ng)));
        assert(self.fields@.drop_last() =~= old(self).fields@);
        assert(self@.fields =~= with_nested(old(self)@, ng@).fields);
    }

    /// The child bound to `name`.
    pub fn get(&self, name: &[u8]) -> (r: Option<&Spec>)
        ensures
            match find_child(self@.fields, name@) {
                Some(i) => r matches Some(c) && spec_view(*c) == self@.fields[i].1,
                None => r is None,
            },
    {
        proof {
            lemma_children_view(self.fields@);
        }
        match self.position(name) {
            Some(i) => Some(&self.fields[i].1),
            None => None,
        }
    }

    /// Sets the parameter named `name` to `val`. Each `usage` is kept, in order.
    pub fn try_set_attr(&mut self, name: &[u8], val: u32) -> (r: Result<(), ParseError>)
        ensures
            match group_key(name@) {
                Some(k) => r is Ok && final(self)@ == with_attr(old(self)@, k, val),
                None => r == Err::<(), ParseError>(ParseError::UnknownGroupKey) && final(self)@ == old(self)@,
            },
    {
        match parse_group_key(name) {
            Some(GroupKey::ReportId) => self.report_id = Some(val),
            Some(GroupKey::UsagePage) => self.usage_page = Some(val),
            Some(GroupKey::Collection) => self.collection = Some(val),
            Some(GroupKey::Usage) => self.usage.push(val),
            Some(GroupKey::UsageMin) => self.usage_min = Some(val),
            Some(GroupKey::UsageMax) => self.usage_max = Some(val),
            Some(GroupKey::LogicalMin) => self.logical_min = Some(val),
            None => return Err(ParseError::UnknownGroupKey),
        }
        Ok(())
    }
}

} // verus!
