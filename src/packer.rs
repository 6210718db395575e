//! Serialisation plans: which fields an input report carries, in which order and
//! in which shape.
use vstd::prelude::*;
use crate::items::MainItemKind;
use crate::group::{children_view, lemma_children_view, spec_view, GroupSpec, Spec, SpecView};
use crate::field::ReportUnaryField;
use crate::compiler::FieldView;

verus! {

/// Whether a group or any group inside it sets a report ID.
pub open spec fn spec_uses_report_ids(c: SpecView) -> bool
    decreases c,
{
    match c {
        SpecView::MainItem(_) => false,
        SpecView::Collection(g) => children_use_report_ids(g.fields) || g.report_id is Some,
    }
}

pub open spec fn children_use_report_ids(s: Seq<(Seq<u8>, SpecView)>) -> bool
    decreases s,
{
    if s.len() == 0 {
        false
    } else {
        children_use_report_ids(s.drop_last()) || spec_uses_report_ids(s.last().1)
    }
}

/// Whether the specification uses report IDs anywhere.
pub fn uses_report_ids(spec: &Spec) -> (r: bool)
    ensures
        r == spec_uses_report_ids(spec_view(*spec)),
    decreases spec,
{
    match spec {
        Spec::MainItem(_) => false,
        Spec::Collection(c) => group_uses_report_ids(c),
    }
}

fn group_uses_report_ids(c: &GroupSpec) -> (r: bool)
    ensures
        r == spec_uses_report_ids(SpecView::Collection(c@)),
    decreases c,
{
    proof {
        lemma_children_view(c.fields@);
    }
    let ghost s = children_view(c.fields@);
    let mut i: usize = 0;
    assert(s.subrange(0, 0) =~= Seq::<(Seq<u8>, SpecView)>::empty());
    while i < c.fields.len()
        invariant
            i <= c.fields@.len(),
            s == children_view(c.fields@),
            s == c@.fields,
            s.len() == c.fields@.len(),
            forall|j: int| 0 <= j < c.fields@.len() ==> #[trigger] s[j] == (c.fields@[j].0@, spec_view(c.fields@[j].1)),
            !children_use_report_ids(s.subrange(0, i as int)),
        decreases c.fields@.len() - i,
    {
        let ghost sub = s.subrange(0, i + 1);
        assert(sub.drop_last() =~= s.subrange(0, i as int));
        assert(sub.last() == s[i as int]);
        if uses_report_ids(&c.fields[i].1) {
            proof {
                lemma_any_prefix(s, i + 1);
            }
            return true;
        }
        i = i + 1;
    }
    assert(s.subrange(0, i as int) =~= s);
    c.report_id.is_some()
}

/// A prefix that uses report IDs makes the whole sequence use them.
pub proof fn lemma_any_prefix(s: Seq<(Seq<u8>, SpecView)>, k: int)
    requires
        0 <= k <= s.len(),
        children_use_report_ids(s.subrange(0, k)),
    ensures
        children_use_report_ids(s),
    decreases s.len() - k,
{
    if s.len() == k {
        assert(s.subrange(0, k) =~= s);
    } else {
        let pre = s.drop_last();
        assert(pre.subrange(0, k) =~= s.subrange(0, k));
        lemma_any_prefix(pre, k);
    }
}

/// How one field is written into the report.
#[derive(Clone, Copy, Debug, PartialEq, Eq, Structural)]
pub enum StepShape {
    /// The field cast to an integer of `bits` bits, signed or not.
    Scalar(u32, bool),
    /// The field as declared: an array, or a container of packed bits.
    Whole,
}

/// One element of the serialised tuple.
#[derive(Debug)]
pub struct SerializeStep {
    pub field: Vec<u8>,
    pub shape: StepShape,
}

/// Shapes that serialisation refuses.
#[derive(Debug)]
pub enum SerializeError {
    /// An array of 16- or 32-bit values.
    UnsupportedArrayWidth(Vec<u8>),
    /// A report size other than 1, 8, 16 or 32.
    UnsupportedReportSize(Vec<u8>),
}

/// The step of a field: `Ok(None)` where it is left out of the report.
/// Byte arrays longer than 32 are left out, as the tuple serialiser cannot
/// write them.
pub open spec fn field_step(f: FieldView) -> Result<Option<StepShape>, bool> {
    let signed = f.item.logical_minimum < 0;
    let count = f.item.report_count;
    let size = f.item.report_size;
    if size == 1 {
        if count == 1 {
            Ok(Some(StepShape::Scalar(f.bit_width, signed)))
        } else {
            Ok(Some(StepShape::Whole))
        }
    } else if size == 8 {
        if count == 1 {
            Ok(Some(StepShape::Scalar(8, signed)))
        } else if count <= 32 {
            Ok(Some(StepShape::Whole))
        } else {
            Ok(None)
        }
    } else if size == 16 || size == 32 {
        if count == 1 {
            Ok(Some(StepShape::Scalar(size, signed)))
        } else {
            // an array of wide values
            Err(true)
        }
    } else {
        // another report size
        Err(false)
    }
}

/// The plan for the fields of kind `typ`, in order: the steps as (field name,
/// shape), or the first refused field with `true` for an array of wide values
/// and `false` for another report size.
pub open spec fn serializer_steps(fs: Seq<FieldView>, typ: MainItemKind) -> Result<Seq<(Seq<u8>, StepShape)>, (Seq<u8>, bool)>
    decreases fs.len(),
{
    if fs.len() == 0 {
        Ok(seq![])
    } else {
        match serializer_steps(fs.drop_last(), typ) {
            Err(e) => Err(e),
            Ok(steps) => {
                let f = fs.last();
                if f.item.kind != typ {
                    Ok(steps)
                } else {
                    match field_step(f) {
                        Err(wide) => Err((f.ident, wide)),
                        Ok(None) => Ok(steps),
                        Ok(Some(shape)) => Ok(steps.push((f.ident, shape))),
                    }
                }
            },
        }
    }
}

pub open spec fn steps_view(s: Seq<SerializeStep>) -> Seq<(Seq<u8>, StepShape)> {
    s.map_values(|st: SerializeStep| (st.field@, st.shape))
}

pub open spec fn fields_view(s: Seq<ReportUnaryField>) -> Seq<FieldView> {
    s.map_values(|f: ReportUnaryField| f@)
}

proof fn lemma_steps_err(fs: Seq<FieldView>, k: int, typ: MainItemKind)
    requires
        0 <= k <= fs.len(),
        serializer_steps(fs.subrange(0, k), typ) is Err,
    ensures
        serializer_steps(fs, typ) == serializer_steps(fs.subrange(0, k), typ),
    decreases fs.len() - k,
{
    if fs.len() == k {
        assert(fs.subrange(0, k) =~= fs);
    } else {
        let pre = fs.drop_last();
        assert(pre.subrange(0, k) =~= fs.subrange(0, k));
        lemma_steps_err(pre, k, typ);
    }
}

/// Plans the serialisation of the fields of kind `typ`: one step per field in
/// order, or the first field whose shape cannot be serialised.
pub fn gen_serializer(fields: &Vec<ReportUnaryField>, typ: MainItemKind) -> (r: Result<Vec<SerializeStep>, SerializeError>)
    ensures
        match serializer_steps(fields_view(fields@), typ) {
            Ok(steps) => r matches Ok(v) && steps_view(v@) == steps,
            Err((name, wide)) => match r {
                Err(SerializeError::UnsupportedArrayWidth(n)) => wide && n@ == name,
                Err(SerializeError::UnsupportedReportSize(n)) => !wide && n@ == name,
                Ok(_) => false,
            },
        },
{
    let ghost fv = fields_view(fields@);
    let mut elems: Vec<SerializeStep> = Vec::new();
    let mut i: usize = 0;
    assert(fv.subrange(0, 0) =~= Seq::<FieldView>::empty());
    assert(steps_view(elems@) =~= Seq::<(Seq<u8>, StepShape)>::empty());
    while i < fields.len()
        invariant
            i <= fields@.len(),
            fv == fields_view(fields@),
            serializer_steps(fv.subrange(0, i as int), typ) == Ok::<Seq<(Seq<u8>, StepShape)>, (Seq<u8>, bool)>(steps_view(elems@)),
        decreases fields@.len() - i,
    {
        let f = &fields[i];
        let ghost sub = fv.subrange(0, i + 1);
        assert(sub.drop_last() =~= fv.subrange(0, i as int));
        assert(sub.last() == f@);
        let ghost before = steps_view(elems@);
        if f.descriptor_item.kind == typ {
            let signed = f.descriptor_item.logical_minimum < 0;
            let count = f.descriptor_item.report_count;
            let size = f.descriptor_item.report_size;
            let step: Option<StepShape> = if size == 1 {
                if count == 1 {
                    Some(StepShape::Scalar(f.bit_width, signed))
                } else {
                    Some(StepShape::Whole)
                }
            } else if size == 8 {
                if count == 1 {
                    Some(StepShape::Scalar(8, signed))
                } else if count <= 32 {
                    Some(StepShape::Whole)
                } else {
                    None
                }
            } else if size == 16 || size == 32 {
                if count == 1 {
                    Some(StepShape::Scalar(size, signed))
                } else {
                    proof {
                        lemma_steps_err(fv, i + 1, typ);
                    }
                    return Err(SerializeError::UnsupportedArrayWidth(f.ident.clone()));
                }
            } else {
                proof {
                    lemma_steps_err(fv, i + 1, typ);
                }
                return Err(SerializeError::UnsupportedReportSize(f.ident.clone()));
            };
            if let Some(shape) = step {
                let name = f.ident.clone();
                assert(name@ == f.ident@);
                elems.push(SerializeStep { field: name, shape });
                assert(steps_view(elems@) =~= before.push((f.ident@, shape)));
            }
        }
        i = i + 1;
    }
    assert(fv.subrange(0, i as int) =~= fv);
    Ok(elems)
}

} // verus!
