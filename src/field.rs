//! Field analysis: from a record field's type and its item specification to the
//! shape of its main item.
use vstd::prelude::*;
use vstd::arithmetic::power2::{pow2, lemma2_to64};
use vstd::string::StringSliceAdditionalSpecFns;
use crate::items::{bytes_eq, MainItemKind};
use crate::group::ItemSpec;

verus! {

/// The type of a record field, as far as the analysis reads it.
#[derive(Debug)]
pub enum FieldType {
    /// A type named by one identifier, such as `u8`.
    Path(Vec<u8>),
    /// A fixed-size array `[T; n]`.
    Array(Box<FieldType>, usize),
    /// Any other form of type.
    Other,
}

/// A named field of the record.
#[derive(Debug)]
pub struct FieldDecl {
    pub name: Vec<u8>,
    pub ty: FieldType,
}

/// A field type as a mathematical value.
pub enum TypeView {
    Path(Seq<u8>),
    Array(Box<TypeView>, nat),
    Other,
}

/// A field declaration as a mathematical value.
pub struct DeclView {
    pub name: Seq<u8>,
    pub ty: TypeView,
}

pub open spec fn type_view(t: FieldType) -> TypeView
    decreases t,
{
    match t {
        FieldType::Path(n) => TypeView::Path(n@),
        FieldType::Array(e, n) => TypeView::Array(Box::new(type_view(*e)), n as nat),
        FieldType::Other => TypeView::Other,
    }
}

impl View for FieldType {
    type V = TypeView;

    open spec fn view(&self) -> TypeView {
        type_view(*self)
    }
}

impl View for FieldDecl {
    type V = DeclView;

    open spec fn view(&self) -> DeclView {
        DeclView { name: self.name@, ty: self.ty@ }
    }
}

pub open spec fn decls_view(s: Seq<FieldDecl>) -> Seq<DeclView> {
    s.map_values(|d: FieldDecl| d@)
}

/// The values that a main item needs.
#[derive(Clone, Copy, Debug, PartialEq, Eq, Structural)]
pub struct MainItem {
    pub kind: MainItemKind,
    pub logical_minimum: i64,
    pub logical_maximum: i64,
    pub report_count: u32,
    pub report_size: u32,
    /// Unused bits that a constant item of the same kind fills.
    pub padding_bits: Option<u32>,
}

/// A field after analysis.
#[derive(Debug)]
pub struct ReportUnaryField {
    /// Width in bits of the field's integer type.
    pub bit_width: u32,
    pub descriptor_item: MainItem,
    pub ident: Vec<u8>,
    /// The report ID of the nearest enclosing group that sets one.
    pub report_id: Option<u32>,
}

/// Errors in a field's type or its item specification.
#[derive(Clone, Copy, Debug, PartialEq, Eq, Structural)]
pub enum FieldError {
    /// Not a signed or unsigned integer of 8, 16 or 32 bits, or an array of one.
    UnsupportedType,
    /// An array of length zero, or a field of more than 2^32 - 1 bits.
    InvalidArrayLength,
    /// Fewer bits in the field than its `packed_bits` asks for.
    InsufficientBits,
    /// An integer type of 64 bits or more.
    WidthTooLarge,
    /// An item names no field of the record.
    UnknownField,
}

/// Signedness and width of an integer type name.
pub open spec fn scalar_type(name: Seq<u8>) -> Result<(bool, u32), FieldError> {
    if name == "u8".spec_bytes() {
        Ok((false, 8))
    } else if name == "u16".spec_bytes() {
        Ok((false, 16))
    } else if name == "u32".spec_bytes() {
        Ok((false, 32))
    } else if name == "i8".spec_bytes() {
        Ok((true, 8))
    } else if name == "i16".spec_bytes() {
        Ok((true, 16))
    } else if name == "i32".spec_bytes() {
        Ok((true, 32))
    } else if name == "u64".spec_bytes() || name == "i64".spec_bytes() || name == "u128".spec_bytes()
        || name == "i128".spec_bytes() {
        Err(FieldError::WidthTooLarge)
    } else {
        Err(FieldError::UnsupportedType)
    }
}

fn parse_scalar(name: &[u8]) -> (r: Result<(bool, u32), FieldError>)
    ensures
        r == scalar_type(name@),
{
    if bytes_eq(name, "u8".as_bytes()) {
        Ok((false, 8))
    } else if bytes_eq(name, "u16".as_bytes()) {
        Ok((false, 16))
    } else if bytes_eq(name, "u32".as_bytes()) {
        Ok((false, 32))
    } else if bytes_eq(name, "i8".as_bytes()) {
        Ok((true, 8))
    } else if bytes_eq(name, "i16".as_bytes()) {
        Ok((true, 16))
    } else if bytes_eq(name, "i32".as_bytes()) {
        Ok((true, 32))
    } else if bytes_eq(name, "u64".as_bytes()) || bytes_eq(name, "i64".as_bytes()) || bytes_eq(
        name,
        "u128".as_bytes(),
    ) || bytes_eq(name, "i128".as_bytes()) {
        Err(FieldError::WidthTooLarge)
    } else {
        Err(FieldError::UnsupportedType)
    }
}

/// The element type's name and the number of elements: arrays multiply,
/// nested ones too.
pub open spec fn type_shape(t: TypeView) -> Result<(Seq<u8>, nat), FieldError>
    decreases t,
{
    match t {
        TypeView::Path(n) => Ok((n, 1)),
        TypeView::Array(e, n) => if n == 0 {
            Err(FieldError::InvalidArrayLength)
        } else {
            match type_shape(*e) {
                Ok((s, m)) => if m * n > 0xFFFF_FFFF {
                    Err(FieldError::InvalidArrayLength)
                } else {
                    Ok((s, (m * n) as nat))
                },
                Err(x) => Err(x),
            }
        },
        TypeView::Other => Err(FieldError::UnsupportedType),
    }
}

/// Reduces a type to its element type name and element count.
pub fn parse_type(t: &FieldType) -> (r: Result<(&[u8], u32), FieldError>)
    ensures
        match type_shape(t@) {
            Ok((s, m)) => r matches Ok((s2, m2)) && s2@ == s && m2 == m,
            Err(e) => r == Err::<(&[u8], u32), FieldError>(e),
        },
        r matches Ok((_, m)) ==> m >= 1,
    decreases t,
{
    match t {
        FieldType::Path(n) => Ok((n.as_slice(), 1)),
        FieldType::Array(e, n) => {
            if *n == 0 {
                return Err(FieldError::InvalidArrayLength);
            }
            let (s, m) = parse_type(e)?;
            if *n as u64 > 0xFFFF_FFFFu64 {
                assert((m as nat) * (*n as nat) >= (*n as nat)) by (nonlinear_arith)
                    requires m >= 1;
                return Err(FieldError::InvalidArrayLength);
            }
            assert((m as nat) * (*n as nat) <= 0xFFFF_FFFF * 0xFFFF_FFFF) by (nonlinear_arith)
                requires m <= 0xFFFF_FFFF, *n <= 0xFFFF_FFFF;
            assert((m as nat) * (*n as nat) >= 1) by (nonlinear_arith)
                requires m >= 1, *n >= 1;
            let total: u64 = (m as u64) * (*n as u64);
            if total > 0xFFFF_FFFFu64 {
                return Err(FieldError::InvalidArrayLength);
            }
            Ok((s, total as u32))
        },
        FieldType::Other => Err(FieldError::UnsupportedType),
    }
}

/// The symmetric bound of a signed field of `bits` bits: 2^(bits-1) - 1.
pub open spec fn signed_bound(bits: nat) -> int {
    pow2((bits - 1) as nat) - 1
}

/// The main item of a field whose type has shape `shape` (element name, count).
pub open spec fn item_for_shape(shape: (Seq<u8>, nat), item: ItemSpec) -> Result<(u32, MainItem), FieldError> {
    match scalar_type(shape.0) {
        Err(e) => Err(e),
        Ok((signed, bits)) => {
            let width = bits * shape.1;
            if width > 0xFFFF_FFFF {
                Err(FieldError::InvalidArrayLength)
            } else {
                match item.want_bits {
                    Some(n) => if width < n {
                        Err(FieldError::InsufficientBits)
                    } else {
                        Ok((bits, MainItem {
                            kind: item.kind,
                            logical_minimum: 0,
                            logical_maximum: 1,
                            report_count: n as u32,
                            report_size: 1,
                            padding_bits: if width > n { Some((width - n) as u32) } else { None },
                        }))
                    },
                    None => Ok((bits, MainItem {
                        kind: item.kind,
                        logical_minimum: if signed { (-signed_bound(bits as nat)) as i64 } else { 0 },
                        logical_maximum: if signed {
                            signed_bound(bits as nat) as i64
                        } else {
                            (pow2(bits as nat) - 1) as i64
                        },
                        report_count: shape.1 as u32,
                        report_size: bits,
                        padding_bits: None,
                    })),
                }
            }
        },
    }
}

/// The analysis of a field of type `t` under `item`: the type's bit width and
/// its main item.
pub open spec fn analyze(t: TypeView, item: ItemSpec) -> Result<(u32, MainItem), FieldError> {
    match type_shape(t) {
        Err(e) => Err(e),
        Ok(shape) => item_for_shape(shape, item),
    }
}

/// Analyzes one field under its item specification.
pub fn analyze_field(field: &FieldDecl, item: &ItemSpec) -> (r: Result<ReportUnaryField, FieldError>)
    ensures
        match analyze(field.ty@, *item) {
            Ok((bits, m)) => r matches Ok(f) && f.bit_width == bits && f.descriptor_item == m
                && f.ident@ == field.name@ && f.report_id is None,
            Err(e) => r matches Err(e2) && e2 == e,
        },
{
    let (name, count) = parse_type(&field.ty)?;
    let (signed, bits) = parse_scalar(name)?;
    proof {
        lemma2_to64();
    }
    assert((bits as nat) * (count as nat) <= 32 * 0xFFFF_FFFF) by (nonlinear_arith)
        requires bits <= 32, count <= 0xFFFF_FFFF;
    let width: u64 = (bits as u64) * (count as u64);
    if width > 0xFFFF_FFFFu64 {
        return Err(FieldError::InvalidArrayLength);
    }
    let width = width as u32;
    let mut output = unary_item(field.name.clone(), item.kind, bits);
    assert(output.ident@ == field.name@);
    match item.want_bits {
        Some(want) => {
            output.descriptor_item.logical_minimum = 0;
            output.descriptor_item.logical_maximum = 1;
            output.descriptor_item.report_count = want as u32;
            output.descriptor_item.report_size = 1;
            if width < want as u32 {
                return Err(FieldError::InsufficientBits);
            }
            let remaining = width - want as u32;
            if remaining > 0 {
                output.descriptor_item.padding_bits = Some(remaining);
            }
        },
        None => {
            if signed {
                set_signed_unary_item(&mut output, bits);
            } else {
                set_unsigned_unary_item(&mut output, bits);
            }
            output.descriptor_item.report_count = count;
        },
    }
    Ok(output)
}

/// Widths that a field's integer type can have.
pub open spec fn supported_width(bits: u32) -> bool {
    bits == 8 || bits == 16 || bits == 32
}

/// Gives a signed field the range [-(2^(bits-1) - 1), 2^(bits-1) - 1].
fn set_signed_unary_item(out: &mut ReportUnaryField, bits: u32)
    requires
        supported_width(bits),
    ensures
        final(out).descriptor_item == (MainItem {
            logical_minimum: (-signed_bound(bits as nat)) as i64,
            logical_maximum: signed_bound(bits as nat) as i64,
            ..old(out).descriptor_item
        }),
        final(out).bit_width == old(out).bit_width,
        final(out).ident == old(out).ident,
        final(out).report_id == old(out).report_id,
{
    proof {
        lemma2_to64();
    }
    let bound: i64 = if bits == 8 {
        127
    } else if bits == 16 {
        32767
    } else {
        2147483647
    };
    out.descriptor_item.logical_minimum = -bound;
    out.descriptor_item.logical_maximum = bound;
}

/// Gives an unsigned field the range [0, 2^bits - 1].
fn set_unsigned_unary_item(out: &mut ReportUnaryField, bits: u32)
    requires
        supported_width(bits),
    ensures
        final(out).descriptor_item == (MainItem {
            logical_minimum: 0,
            logical_maximum: (pow2(bits as nat) - 1) as i64,
            ..old(out).descriptor_item
        }),
        final(out).bit_width == old(out).bit_width,
        final(out).ident == old(out).ident,
        final(out).report_id == old(out).report_id,
{
    proof {
        lemma2_to64();
    }
    let max: i64 = if bits == 8 {
        255
    } else if bits == 16 {
        65535
    } else {
        4294967295
    };
    out.descriptor_item.logical_minimum = 0;
    out.descriptor_item.logical_maximum = max;
}

/// A field of one element of `bits` bits, with an empty range.
fn unary_item(ident: Vec<u8>, kind: MainItemKind, bits: u32) -> (r: ReportUnaryField)
    ensures
        r.ident == ident,
        r.bit_width == bits,
        r.report_id is None,
        r.descriptor_item == (MainItem {
            kind,
            logical_minimum: 0,
            logical_maximum: 0,
            report_count: 1,
            report_size: bits,
            padding_bits: None,
        }),
{
    ReportUnaryField {
        ident,
        bit_width: bits,
        descriptor_item: MainItem {
            kind,
            logical_minimum: 0,
            logical_maximum: 0,
            report_count: 1,
            report_size: bits,
            padding_bits: None,
        },
        report_id: None,
    }
}


/// An unsigned field that is not bit-packed ranges over [0, 2^N - 1], where N
/// is the width of its integer type.
pub proof fn lemma_unsigned_range(t: TypeView, i: ItemSpec)
    requires
        i.want_bits is None,
        type_shape(t) matches Ok((name, _)) && scalar_type(name) matches Ok((signed, _)) && !signed,
    ensures
        analyze(t, i) matches Ok((n, m)) ==> m.logical_minimum == 0 && m.logical_maximum == pow2(
            n as nat,
        ) - 1,
{
    lemma2_to64();
}

/// A signed field that is not bit-packed ranges over the symmetric
/// [-(2^(N-1) - 1), 2^(N-1) - 1], where N is the width of its integer type.
pub proof fn lemma_signed_range(t: TypeView, i: ItemSpec)
    requires
        i.want_bits is None,
        type_shape(t) matches Ok((name, _)) && scalar_type(name) matches Ok((signed, _)) && signed,
    ensures
        analyze(t, i) matches Ok((n, m)) ==> m.logical_minimum == -(pow2((n - 1) as nat) - 1)
            && m.logical_maximum == pow2((n - 1) as nat) - 1,
{
    lemma2_to64();
}

/// A field bit-packed to `k` bits has no padding where its storage width is `k`,
/// and exactly the remaining bits as padding where the width is larger; the
/// field itself becomes `k` one-bit values in [0, 1].
pub proof fn lemma_packed_padding(t: TypeView, i: ItemSpec, k: u16)
    requires
        i.want_bits == Some(k),
    ensures
        type_shape(t) matches Ok((name, count)) ==> scalar_type(name) matches Ok((_, bits)) ==> (
        analyze(t, i) matches Ok((_, m)) ==> {
            &&& m.report_size == 1 && m.report_count == k
            &&& m.logical_minimum == 0 && m.logical_maximum == 1
            &&& bits * count == k ==> m.padding_bits is None
            &&& bits * count > k ==> m.padding_bits == Some((bits * count - k) as u32)
        }),
{
}

} // verus!
