//! CPU feature extensions and sets of them.
use vstd::prelude::*;

verus! {

/// An optional CPU capability.
#[derive(Clone, Copy, Debug, PartialEq, Eq, Structural, Hash)]
pub enum Extension {
    /// Paired-single floating point (Gekko / Broadway).
    PairedSingles,
    /// 64-bit mode.
    Ppc64,
    /// The AltiVec vector unit.
    AltiVec,
    /// The 128-register vector extension; requires AltiVec.
    Vmx128,
}

/// The bit that stands for `e` alone.
pub open spec fn own_bit(e: Extension) -> u32 {
    match e {
        Extension::PairedSingles => 1,
        Extension::Ppc64 => 2,
        Extension::AltiVec => 4,
        Extension::Vmx128 => 8,
    }
}

/// Whether `p` must be enabled for `e` to be.
pub open spec fn is_prerequisite(p: Extension, e: Extension) -> bool {
    e == Extension::Vmx128 && p == Extension::AltiVec
}

/// The bit of `e` together with the bits of its prerequisites.
pub open spec fn spec_bitmask(e: Extension) -> u32 {
    match e {
        Extension::Vmx128 => own_bit(e) | own_bit(Extension::AltiVec),
        _ => own_bit(e),
    }
}

impl Extension {
    /// The bit of this extension and those of every extension it requires.
    pub fn bitmask(self) -> (r: u32)
        ensures
            r == spec_bitmask(self),
    {
        match self {
            Extension::PairedSingles => 1,
            Extension::Ppc64 => 2,
            Extension::AltiVec => 4,
            Extension::Vmx128 => 8 | 4,
        }
    }

    /// The bit of this extension alone.
    pub fn bit(self) -> (r: u32)
        ensures
            r == own_bit(self),
    {
        match self {
            Extension::PairedSingles => 1,
            Extension::Ppc64 => 2,
            Extension::AltiVec => 4,
            Extension::Vmx128 => 8,
        }
    }

    /// The extension's name.
    pub fn name(self) -> (r: &'static str)
        ensures
            r@ == match self {
                Extension::PairedSingles => "Paired Singles"@,
                Extension::Ppc64 => "PowerPC 64-bit"@,
                Extension::AltiVec => "AltiVec"@,
                Extension::Vmx128 => "VMX128"@,
            },
    {
        match self {
            Extension::PairedSingles => "Paired Singles",
            Extension::Ppc64 => "PowerPC 64-bit",
            Extension::AltiVec => "AltiVec",
            Extension::Vmx128 => "VMX128",
        }
    }
}

/// A set of enabled extensions, as a bit mask.
#[derive(Clone, Copy, Debug, PartialEq, Eq, Structural, Hash)]
pub struct Extensions(pub u32);

/// Whether every bit of `m` is set in `bits`.
pub open spec fn has_all(bits: u32, m: u32) -> bool {
    bits & m == m
}

impl Extensions {
    /// The empty set.
    pub fn none() -> (r: Self)
        ensures
            r.0 == 0,
    {
        Extensions(0)
    }

    /// The profile of the PowerPC 750CXe (Gekko) and 750CL (Broadway).
    pub fn gekko_broadway() -> (r: Self)
        ensures
            r.0 == spec_bitmask(Extension::PairedSingles),
    {
        Self::from_bitmask(Extension::PairedSingles.bitmask())
    }

    /// The profile of the Xenon CPU.
    pub fn xenon() -> (r: Self)
        ensures
            r.0 == spec_bitmask(Extension::Ppc64) | spec_bitmask(Extension::AltiVec) | spec_bitmask(
                Extension::Vmx128,
            ),
    {
        Self::from_bitmask(
            Extension::Ppc64.bitmask() | Extension::AltiVec.bitmask() | Extension::Vmx128.bitmask(),
        )
    }

    /// Whether `ext` and all extensions it requires are enabled.
    pub fn contains(&self, ext: Extension) -> (r: bool)
        ensures
            r == has_all(self.0, spec_bitmask(ext)),
    {
        let m = ext.bitmask();
        (self.0 & m) == m
    }

    /// Whether every extension of `other` is enabled.
    pub fn contains_all(&self, other: Extensions) -> (r: bool)
        ensures
            r == has_all(self.0, other.0),
    {
        (self.0 & other.0) == other.0
    }

    /// Enables `ext` together with every extension it requires.
    pub fn insert(&mut self, ext: Extension)
        ensures
            final(self).0 == old(self).0 | spec_bitmask(ext),
    {
        self.0 = self.0 | ext.bitmask();
    }

    /// Disables `ext` alone; the extensions it requires stay as they are.
    pub fn remove(&mut self, ext: Extension)
        ensures
            final(self).0 == old(self).0 & !own_bit(ext),
    {
        self.0 = self.0 & !ext.bit();
    }

    /// Enables or disables `ext`.
    pub fn set(&mut self, ext: Extension, value: bool)
        ensures
            value ==> final(self).0 == old(self).0 | spec_bitmask(ext),
            !value ==> final(self).0 == old(self).0 & !own_bit(ext),
    {
        if value {
            self.insert(ext);
        } else {
            self.remove(ext);
        }
    }

    /// Whether no extension is enabled.
    pub fn is_empty(&self) -> (r: bool)
        ensures
            r == (self.0 == 0),
    {
        self.0 == 0
    }

    /// The raw bit mask.
    pub fn bitmask(&self) -> (r: u32)
        ensures
            r == self.0,
    {
        self.0
    }

    /// The set with the given raw bit mask.
    pub fn from_bitmask(bitmask: u32) -> (r: Self)
        ensures
            r.0 == bitmask,
    {
        Extensions(bitmask)
    }

    /// The set of `ext` and the extensions it requires.
    pub fn from_extension(ext: Extension) -> (r: Self)
        ensures
            r.0 == spec_bitmask(ext),
    {
        Extensions(ext.bitmask())
    }

    /// The extensions enabled in either set.
    pub fn union(self, other: Extensions) -> (r: Self)
        ensures
            r.0 == self.0 | other.0,
    {
        Extensions(self.0 | other.0)
    }

    /// The extensions enabled in both sets.
    pub fn intersection(self, other: Extensions) -> (r: Self)
        ensures
            r.0 == self.0 & other.0,
    {
        Extensions(self.0 & other.0)
    }

    /// Every bit that is not set here.
    pub fn complement(self) -> (r: Self)
        ensures
            r.0 == !self.0,
    {
        Extensions(!self.0)
    }
}

impl Default for Extensions {
    fn default() -> (r: Self)
        ensures
            r.0 == 0,
    {
        Self::none()
    }
}

impl From<Extension> for Extensions {
    fn from(ext: Extension) -> (r: Self)
        ensures
            r.0 == spec_bitmask(ext),
    {
        Self::from_extension(ext)
    }
}

impl core::ops::BitOr<Extensions> for Extensions {
    type Output = Extensions;

    fn bitor(self, rhs: Extensions) -> (r: Extensions)
        ensures
            r.0 == self.0 | rhs.0,
    {
        Extensions(self.0 | rhs.0)
    }
}

impl core::ops::BitOr<Extension> for Extensions {
    type Output = Extensions;

    fn bitor(self, rhs: Extension) -> (r: Extensions)
        ensures
            r.0 == self.0 | spec_bitmask(rhs),
    {
        Extensions(self.0 | rhs.bitmask())
    }
}

impl core::ops::BitOrAssign<Extension> for Extensions {
    fn bitor_assign(&mut self, rhs: Extension)
        ensures
            final(self).0 == old(self).0 | spec_bitmask(rhs),
    {
        self.0 = self.0 | rhs.bitmask();
    }
}

impl core::ops::BitAnd<Extensions> for Extensions {
    type Output = Extensions;

    fn bitand(self, rhs: Extensions) -> (r: Extensions)
        ensures
            r.0 == self.0 & rhs.0,
    {
        Extensions(self.0 & rhs.0)
    }
}

impl core::ops::BitAnd<Extension> for Extensions {
    type Output = Extensions;

    fn bitand(self, rhs: Extension) -> (r: Extensions)
        ensures
            r.0 == self.0 & spec_bitmask(rhs),
    {
        Extensions(self.0 & rhs.bitmask())
    }
}

impl core::ops::BitAndAssign<Extension> for Extensions {
    fn bitand_assign(&mut self, rhs: Extension)
        ensures
            final(self).0 == old(self).0 & spec_bitmask(rhs),
    {
        self.0 = self.0 & rhs.bitmask();
    }
}

impl core::ops::Not for Extensions {
    type Output = Extensions;

    fn not(self) -> (r: Extensions)
        ensures
            r.0 == !self.0,
    {
        Extensions(!self.0)
    }
}

impl core::ops::BitOr<Extension> for Extension {
    type Output = Extensions;

    fn bitor(self, rhs: Extension) -> (r: Extensions)
        ensures
            r.0 == spec_bitmask(self) | spec_bitmask(rhs),
    {
        Extensions(self.bitmask() | rhs.bitmask())
    }
}

impl vstd::std_specs::ops::BitOrSpecImpl<Extensions> for Extensions {
    open spec fn obeys_bitor_spec() -> bool {
        true
    }

    open spec fn bitor_req(self, rhs: Extensions) -> bool {
        true
    }

    open spec fn bitor_spec(self, rhs: Extensions) -> Extensions {
        Extensions(self.0 | rhs.0)
    }
}

impl vstd::std_specs::ops::BitOrSpecImpl<Extension> for Extensions {
    open spec fn obeys_bitor_spec() -> bool {
        true
    }

    open spec fn bitor_req(self, rhs: Extension) -> bool {
        true
    }

    open spec fn bitor_spec(self, rhs: Extension) -> Extensions {
        Extensions(self.0 | spec_bitmask(rhs))
    }
}

impl vstd::std_specs::ops::BitAndSpecImpl<Extensions> for Extensions {
    open spec fn obeys_bitand_spec() -> bool {
        true
    }

    open spec fn bitand_req(self, rhs: Extensions) -> bool {
        true
    }

    open spec fn bitand_spec(self, rhs: Extensions) -> Extensions {
        Extensions(self.0 & rhs.0)
    }
}

impl vstd::std_specs::ops::BitAndSpecImpl<Extension> for Extensions {
    open spec fn obeys_bitand_spec() -> bool {
        true
    }

    open spec fn bitand_req(self, rhs: Extension) -> bool {
        true
    }

    open spec fn bitand_spec(self, rhs: Extension) -> Extensions {
        Extensions(self.0 & spec_bitmask(rhs))
    }
}

impl vstd::std_specs::ops::BitOrSpecImpl<Extension> for Extension {
    open spec fn obeys_bitor_spec() -> bool {
        true
    }

    open spec fn bitor_req(self, rhs: Extension) -> bool {
        true
    }

    open spec fn bitor_spec(self, rhs: Extension) -> Extensions {
        Extensions(spec_bitmask(self) | spec_bitmask(rhs))
    }
}

impl vstd::std_specs::ops::NotSpecImpl for Extensions {
    open spec fn obeys_not_spec() -> bool {
        true
    }

    open spec fn not_req(self) -> bool {
        true
    }

    open spec fn not_spec(self) -> Extensions {
        Extensions(!self.0)
    }
}

impl vstd::std_specs::convert::FromSpecImpl<Extension> for Extensions {
    open spec fn obeys_from_spec() -> bool {
        true
    }

    open spec fn from_spec(ext: Extension) -> Self {
        Extensions(spec_bitmask(ext))
    }
}

/// After inserting `e`, `e` and each of its prerequisites are enabled; removing
/// `e` afterwards clears the bit of `e` alone and keeps every other bit that
/// was set.
pub proof fn lemma_insert_remove(s: Extensions, e: Extension, p: Extension)
    requires
        is_prerequisite(p, e),
    ensures
        has_all(s.0 | spec_bitmask(e), spec_bitmask(e)),
        has_all(s.0 | spec_bitmask(e), spec_bitmask(p)),
        has_all(s.0 | spec_bitmask(e), own_bit(p)),
        ((s.0 | spec_bitmask(e)) & !own_bit(e)) & own_bit(e) == 0,
        has_all((s.0 | spec_bitmask(e)) & !own_bit(e), spec_bitmask(p)),
{
    let x = s.0;
    assert((8u32 | 4u32) == 12u32) by (bit_vector);
    assert((x | 12) & 12 == 12u32) by (bit_vector);
    assert((x | 12) & 4 == 4u32) by (bit_vector);
    assert(((x | 12) & !8u32) & 8 == 0u32) by (bit_vector);
    assert(((x | 12) & !8u32) & 4 == 4u32) by (bit_vector);
}

/// Removing `e` clears exactly its own bit: every other bit keeps its value.
pub proof fn lemma_remove_exact(s: Extensions, e: Extension, other: Extension)
    requires
        other != e,
    ensures
        (s.0 & !own_bit(e)) & own_bit(e) == 0,
        (s.0 & !own_bit(e)) & own_bit(other) == s.0 & own_bit(other),
{
    let x = s.0;
    let a = own_bit(e);
    let b = own_bit(other);
    assert(a & b == 0u32) by (bit_vector)
        requires
            a == 1 || a == 2 || a == 4 || a == 8,
            b == 1 || b == 2 || b == 4 || b == 8,
            a != b,
    ;
    assert((x & !a) & a == 0u32) by (bit_vector);
    assert((x & !a) & b == x & b) by (bit_vector)
        requires
            a & b == 0u32,
    ;
}

} // verus!
