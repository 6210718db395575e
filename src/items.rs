//! Item tags and types of the HID report descriptor format (HID 1.11, 6.2.2).
use vstd::prelude::*;
use vstd::string::StringSliceAdditionalSpecFns;

verus! {

/// Tags of global items (HID 1.11, 6.2.2.7).
#[derive(Clone, Copy, Debug, PartialEq, Eq, Structural)]
pub enum GlobalItemKind {
    UsagePage,
    LogicalMin,
    LogicalMax,
    PhysicalMin,
    PhysicalMax,
    UnitExponent,
    Unit,
    ReportSize,
    ReportID,
    ReportCount,
}

impl GlobalItemKind {
    pub open spec fn spec_code(self) -> u8 {
        match self {
            GlobalItemKind::UsagePage => 0,
            GlobalItemKind::LogicalMin => 1,
            GlobalItemKind::LogicalMax => 2,
            GlobalItemKind::PhysicalMin => 3,
            GlobalItemKind::PhysicalMax => 4,
            GlobalItemKind::UnitExponent => 5,
            GlobalItemKind::Unit => 6,
            GlobalItemKind::ReportSize => 7,
            GlobalItemKind::ReportID => 8,
            GlobalItemKind::ReportCount => 9,
        }
    }

    /// The 4-bit tag of this item.
    #[verifier::when_used_as_spec(spec_code)]
    pub fn code(self) -> (r: u8)
        ensures
            r == self.spec_code(),
            r < 16,
    {
        match self {
            GlobalItemKind::UsagePage => 0,
            GlobalItemKind::LogicalMin => 1,
            GlobalItemKind::LogicalMax => 2,
            GlobalItemKind::PhysicalMin => 3,
            GlobalItemKind::PhysicalMax => 4,
            GlobalItemKind::UnitExponent => 5,
            GlobalItemKind::Unit => 6,
            GlobalItemKind::ReportSize => 7,
            GlobalItemKind::ReportID => 8,
            GlobalItemKind::ReportCount => 9,
        }
    }
}

/// Tags of local items (HID 1.11, 6.2.2.8).
#[derive(Clone, Copy, Debug, PartialEq, Eq, Structural)]
pub enum LocalItemKind {
    Usage,
    UsageMin,
    UsageMax,
    DesignatorIdx,
    DesignatorMin,
    DesignatorMax,
    StringIdx,
    StringMin,
    StringMax,
    Delimiter,
}

impl LocalItemKind {
    pub open spec fn spec_code(self) -> u8 {
        match self {
            LocalItemKind::Usage => 0,
            LocalItemKind::UsageMin => 1,
            LocalItemKind::UsageMax => 2,
            LocalItemKind::DesignatorIdx => 3,
            LocalItemKind::DesignatorMin => 4,
            LocalItemKind::DesignatorMax => 5,
            LocalItemKind::StringIdx => 7,
            LocalItemKind::StringMin => 8,
            LocalItemKind::StringMax => 9,
            LocalItemKind::Delimiter => 10,
        }
    }

    /// The 4-bit tag of this item.
    #[verifier::when_used_as_spec(spec_code)]
    pub fn code(self) -> (r: u8)
        ensures
            r == self.spec_code(),
            r < 16,
    {
        match self {
            LocalItemKind::Usage => 0,
            LocalItemKind::UsageMin => 1,
            LocalItemKind::UsageMax => 2,
            LocalItemKind::DesignatorIdx => 3,
            LocalItemKind::DesignatorMin => 4,
            LocalItemKind::DesignatorMax => 5,
            LocalItemKind::StringIdx => 7,
            LocalItemKind::StringMin => 8,
            LocalItemKind::StringMax => 9,
            LocalItemKind::Delimiter => 10,
        }
    }
}

/// Tags of main items (HID 1.11, 6.2.2.4).
#[derive(Clone, Copy, Debug, PartialEq, Eq, Structural)]
pub enum MainItemKind {
    Input,
    Output,
    Feature,
    Collection,
    EndCollection,
}

impl MainItemKind {
    pub open spec fn spec_code(self) -> u8 {
        match self {
            MainItemKind::Input => 8,
            MainItemKind::Output => 9,
            MainItemKind::Feature => 11,
            MainItemKind::Collection => 10,
            MainItemKind::EndCollection => 12,
        }
    }

    /// The 4-bit tag of this item.
    #[verifier::when_used_as_spec(spec_code)]
    pub fn code(self) -> (r: u8)
        ensures
            r == self.spec_code(),
            r < 16,
    {
        match self {
            MainItemKind::Input => 8,
            MainItemKind::Output => 9,
            MainItemKind::Feature => 11,
            MainItemKind::Collection => 10,
            MainItemKind::EndCollection => 12,
        }
    }

    /// The kind named by a word of the grammar; any word not listed is `Input`.
    pub open spec fn spec_from_name(s: Seq<u8>) -> MainItemKind {
        if s == "feature".spec_bytes() {
            MainItemKind::Feature
        } else if s == "output".spec_bytes() {
            MainItemKind::Output
        } else if s == "collection".spec_bytes() {
            MainItemKind::Collection
        } else if s == "ecollection".spec_bytes() {
            MainItemKind::EndCollection
        } else {
            MainItemKind::Input
        }
    }

    pub fn from_name(s: &[u8]) -> (r: MainItemKind)
        ensures
            r == Self::spec_from_name(s@),
    {
        if bytes_eq(s, "feature".as_bytes()) {
            MainItemKind::Feature
        } else if bytes_eq(s, "output".as_bytes()) {
            MainItemKind::Output
        } else if bytes_eq(s, "collection".as_bytes()) {
            MainItemKind::Collection
        } else if bytes_eq(s, "ecollection".as_bytes()) {
            MainItemKind::EndCollection
        } else {
            MainItemKind::Input
        }
    }
}

/// The two-bit type field of an item header (HID 1.11, 6.2.2.2).
#[derive(Clone, Copy, Debug, PartialEq, Eq, Structural)]
pub enum ItemType {
    Main,
    Global,
    Local,
}

impl ItemType {
    pub open spec fn spec_code(self) -> u8 {
        match self {
            ItemType::Main => 0,
            ItemType::Global => 1,
            ItemType::Local => 2,
        }
    }

    #[verifier::when_used_as_spec(spec_code)]
    pub fn code(self) -> (r: u8)
        ensures
            r == self.spec_code(),
            r < 4,
    {
        match self {
            ItemType::Main => 0,
            ItemType::Global => 1,
            ItemType::Local => 2,
        }
    }
}

/// The data byte of an Input, Output or Feature item (HID 1.11, 6.2.2.5):
/// bit 0 constant, 1 variable, 2 relative, 3 wrap, 4 non-linear,
/// 5 no preferred state, 6 null state, 7 volatile.
#[derive(Clone, Copy, Debug, PartialEq, Eq, Structural)]
pub struct MainItemSetting(pub u8);

pub open spec fn with_bit(v: u8, bit: u8, on: bool) -> u8
    recommends
        bit < 8,
{
    if on {
        v | (1u8 << bit)
    } else {
        v & !(1u8 << bit)
    }
}

impl MainItemSetting {
    /// Sets or clears one bit and leaves the others.
    pub fn set_bit(&mut self, bit: u8, on: bool)
        requires
            bit < 8,
        ensures
            final(self).0 == with_bit(old(self).0, bit, on),
    {
        if on {
            self.0 = self.0 | (1u8 << bit);
        } else {
            self.0 = self.0 & !(1u8 << bit);
        }
    }
}

/// Compares two byte strings.
pub fn bytes_eq(a: &[u8], b: &[u8]) -> (r: bool)
    ensures
        r == (a@ == b@),
{
    if a.len() != b.len() {
        return false;
    }
    let mut i: usize = 0;
    while i < a.len()
        invariant
            a@.len() == b@.len(),
            0 <= i <= a@.len(),
            a@.subrange(0, i as int) == b@.subrange(0, i as int),
        decreases a@.len() - i,
    {
        if a[i] != b[i] {
            assert(a@[i as int] != b@[i as int]);
            return false;
        }
        assert(a@.subrange(0, i + 1) =~= a@.subrange(0, i as int).push(a@[i as int]));
        assert(b@.subrange(0, i + 1) =~= b@.subrange(0, i as int).push(b@[i as int]));
        i = i + 1;
    }
    assert(a@ =~= a@.subrange(0, i as int));
    assert(b@ =~= b@.subrange(0, i as int));
    true
}

} // verus!
