//! Type splitting: the fields of each direction, grouped by report ID, in
//! declaration order.
use vstd::prelude::*;
use crate::items::{bytes_eq, MainItemKind};
use crate::field::{decls_view, DeclView, FieldDecl, ReportUnaryField};
use crate::compiler::FieldView;
use crate::packer::fields_view;

verus! {

/// The index of the group with key `k`.
pub open spec fn find_key<V>(gs: Seq<(Option<u32>, Seq<V>)>, k: Option<u32>) -> Option<int>
    decreases gs.len(),
{
    if gs.len() == 0 {
        None
    } else {
        match find_key(gs.drop_last(), k) {
            Some(j) => Some(j),
            None => if gs.last().0 == k {
                Some(gs.len() - 1)
            } else {
                None
            },
        }
    }
}

pub proof fn lemma_find_key<V>(gs: Seq<(Option<u32>, Seq<V>)>, k: Option<u32>)
    ensures
        match find_key(gs, k) {
            Some(j) => 0 <= j < gs.len() && gs[j].0 == k && forall|m: int| 0 <= m < j ==> #[trigger] gs[m].0 != k,
            None => forall|j: int| 0 <= j < gs.len() ==> #[trigger] gs[j].0 != k,
        },
    decreases gs.len(),
{
    if gs.len() > 0 {
        let pre = gs.drop_last();
        lemma_find_key(pre, k);
        match find_key(pre, k) {
            None => {
                assert forall|j: int| 0 <= j < gs.len() - 1 implies #[trigger] gs[j].0 != k by {
                    assert(pre[j] == gs[j]);
                }
            },
            Some(f) => {
                assert forall|m: int| 0 <= m < f implies #[trigger] gs[m].0 != k by {
                    assert(pre[m] == gs[m]);
                }
            },
        }
    }
}

/// `v` added to the group of key `k`, or to a new group at the end.
pub open spec fn add_to_groups<V>(gs: Seq<(Option<u32>, Seq<V>)>, k: Option<u32>, v: V) -> Seq<(Option<u32>, Seq<V>)> {
    match find_key(gs, k) {
        Some(j) => gs.update(j, (k, gs[j].1.push(v))),
        None => gs.push((k, seq![v])),
    }
}

/// The values grouped by key: keys in the order they first appear, values in
/// their order within each group.
pub open spec fn grouped<V>(s: Seq<(Option<u32>, V)>) -> Seq<(Option<u32>, Seq<V>)>
    decreases s.len(),
{
    if s.len() == 0 {
        seq![]
    } else {
        add_to_groups(grouped(s.drop_last()), s.last().0, s.last().1)
    }
}

pub open spec fn groups_view<V>(r: Seq<(Option<u32>, Vec<V>)>) -> Seq<(Option<u32>, Seq<V>)> {
    r.map_values(|g: (Option<u32>, Vec<V>)| (g.0, g.1@))
}

fn same_key(a: Option<u32>, b: Option<u32>) -> (r: bool)
    ensures
        r == (a == b),
{
    match (a, b) {
        (Some(x), Some(y)) => x == y,
        (None, None) => true,
        _ => false,
    }
}

/// Groups keyed values by key.
pub fn group_by<V>(vec: Vec<(Option<u32>, V)>) -> (r: Vec<(Option<u32>, Vec<V>)>)
    ensures
        groups_view(r@) == grouped(vec@),
{
    let ghost all = vec@;
    let n = vec.len();
    let mut rest = vec;
    let mut out: Vec<(Option<u32>, Vec<V>)> = Vec::new();
    let mut i: usize = 0;
    assert(groups_view(out@) =~= grouped(all.subrange(0, 0)));
    while rest.len() > 0
        invariant
            i + rest@.len() == all.len(),
            all.len() == n,
            rest@ == all.subrange(i as int, all.len() as int),
            groups_view(out@) == grouped(all.subrange(0, i as int)),
        decreases rest@.len(),
    {
        let (k, v) = rest.remove(0);
        let ghost gs = groups_view(out@);
        let ghost sub = all.subrange(0, i + 1);
        assert(sub.drop_last() =~= all.subrange(0, i as int));
        assert(sub.last() == (k, v));
        proof {
            lemma_find_key(gs, k);
        }
        let mut j: usize = 0;
        while j < out.len() && !same_key(out[j].0, k)
            invariant
                j <= out@.len(),
                gs == groups_view(out@),
                forall|m: int| 0 <= m < j ==> #[trigger] gs[m].0 != k,
            decreases out@.len() - j,
        {
            j = j + 1;
        }
        if j < out.len() {
            proof {
                lemma_find_key(gs, k);
                assert(gs[j as int].0 == k);
                match find_key(gs, k) {
                    Some(f) => {
                        assert(!(f < j));
                        assert(!(j < f));
                    },
                    None => {},
                }
            }
            let (kk, mut g) = out.remove(j);
            g.push(v);
            out.insert(j, (kk, g));
            assert(groups_view(out@) =~= gs.update(j as int, (k, gs[j as int].1.push(v))));
        } else {
            proof {
                lemma_find_key(gs, k);
                if let Some(f) = find_key(gs, k) {
                    assert(gs[f].0 == k);
                }
            }
            let mut g: Vec<V> = Vec::new();
            g.push(v);
            out.push((k, g));
            assert(groups_view(out@) =~= gs.push((k, seq![v])));
        }
        assert(rest@ =~= all.subrange(i + 1, all.len() as int));
        i = i + 1;
    }
    assert(all.subrange(0, i as int) =~= all);
    out
}

/// The index of the compiled field named `name`.
pub open spec fn find_field(fs: Seq<FieldView>, name: Seq<u8>) -> Option<int>
    decreases fs.len(),
{
    if fs.len() == 0 {
        None
    } else {
        match find_field(fs.drop_last(), name) {
            Some(j) => Some(j),
            None => if fs.last().ident == name {
                Some(fs.len() - 1)
            } else {
                None
            },
        }
    }
}

/// The declared fields whose compiled item has kind `typ`, by index in
/// declaration order, each with the report ID it was compiled under.
pub open spec fn direction_fields(decls: Seq<DeclView>, fs: Seq<FieldView>, typ: MainItemKind) -> Seq<(Option<u32>, usize)>
    decreases decls.len(),
{
    if decls.len() == 0 {
        seq![]
    } else {
        let pre = direction_fields(decls.drop_last(), fs, typ);
        match find_field(fs, decls.last().name) {
            Some(j) => if fs[j].item.kind == typ {
                pre.push((fs[j].report_id, (decls.len() - 1) as usize))
            } else {
                pre
            },
            None => pre,
        }
    }
}

fn find_compiled(fields: &Vec<ReportUnaryField>, name: &[u8]) -> (r: Option<usize>)
    ensures
        match find_field(fields_view(fields@), name@) {
            Some(j) => r matches Some(k) && k == j && 0 <= j < fields@.len(),
            None => r is None,
        },
        r matches Some(j) ==> j < fields@.len(),
{
    let ghost fv = fields_view(fields@);
    let mut i: usize = 0;
    let mut found: Option<usize> = None;
    assert(fv.subrange(0, 0) =~= Seq::<FieldView>::empty());
    while i < fields.len()
        invariant
            i <= fields@.len(),
            fv == fields_view(fields@),
            match find_field(fv.subrange(0, i as int), name@) {
                Some(j) => found matches Some(k) && k == j && 0 <= j < i,
                None => found is None,
            },
        decreases fields@.len() - i,
    {
        let ghost sub = fv.subrange(0, i + 1);
        assert(sub.drop_last() =~= fv.subrange(0, i as int));
        if found.is_none() && bytes_eq(fields[i].ident.as_slice(), name) {
            found = Some(i);
        }
        i = i + 1;
    }
    assert(fv.subrange(0, i as int) =~= fv);
    found
}

fn direction_pairs(decls: &Vec<FieldDecl>, fields: &Vec<ReportUnaryField>, typ: MainItemKind) -> (r: Vec<(Option<u32>, usize)>)
    ensures
        r@ == direction_fields(decls_view(decls@), fields_view(fields@), typ),
{
    let ghost dv = decls_view(decls@);
    let mut pairs: Vec<(Option<u32>, usize)> = Vec::new();
    let mut i: usize = 0;
    assert(dv.subrange(0, 0) =~= Seq::<DeclView>::empty());
    while i < decls.len()
        invariant
            i <= decls@.len(),
            dv == decls_view(decls@),
            pairs@ == direction_fields(dv.subrange(0, i as int), fields_view(fields@), typ),
        decreases decls@.len() - i,
    {
        let ghost sub = dv.subrange(0, i + 1);
        assert(sub.drop_last() =~= dv.subrange(0, i as int));
        let ghost old_pairs = pairs@;
        let ghost fv = fields_view(fields@);
        assert(direction_fields(sub, fv, typ) == match find_field(fv, sub.last().name) {
            Some(j) => if fv[j].item.kind == typ {
                old_pairs.push((fv[j].report_id, i))
            } else {
                old_pairs
            },
            None => old_pairs,
        });
        let found = find_compiled(fields, decls[i].name.as_slice());
        assert(decls[i as int].name@ == sub.last().name);
        if let Some(j) = found {
            assert(find_field(fv, sub.last().name) == Some(j as int));
            assert(fv[j as int] == fields@[j as int]@);
            if fields[j].descriptor_item.kind == typ {
                pairs.push((fields[j].report_id, i));
            }
        }
        i = i + 1;
    }
    assert(dv.subrange(0, i as int) =~= dv);
    pairs
}

/// The declared fields of direction `typ`, by index, grouped by report ID:
/// report IDs in the order they first appear, fields in declaration order.
pub fn map_group_by(decls: &Vec<FieldDecl>, fields: &Vec<ReportUnaryField>, typ: MainItemKind) -> (r: Vec<(Option<u32>, Vec<usize>)>)
    ensures
        groups_view(r@) == grouped(direction_fields(decls_view(decls@), fields_view(fields@), typ)),
{
    group_by(direction_pairs(decls, fields, typ))
}

/// The record of direction `typ`: the declared fields that direction carries,
/// grouped by report ID; `None` where it carries no field.
pub fn split(decls: &Vec<FieldDecl>, fields: &Vec<ReportUnaryField>, typ: MainItemKind) -> (r: Option<Vec<(Option<u32>, Vec<usize>)>>)
    ensures
        direction_fields(decls_view(decls@), fields_view(fields@), typ).len() == 0 <==> r is None,
        r matches Some(g) ==> groups_view(g@) == grouped(direction_fields(decls_view(decls@), fields_view(fields@), typ)),
{
    let pairs = direction_pairs(decls, fields, typ);
    if pairs.len() == 0 {
        None
    } else {
        Some(group_by(pairs))
    }
}

} // verus!
