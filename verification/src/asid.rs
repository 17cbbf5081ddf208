use vstd::prelude::*;

verus! {

/// The CR3 value that marks an address space identifier without a CR3
/// (`pt_asid_no_cr3`).
pub const NO_CR3: u64 = 0xffff_ffff_ffff_ffff;

/// The VMCS base that marks an address space identifier without a VMCS
/// (`pt_asid_no_vmcs`).
pub const NO_VMCS: u64 = 0xffff_ffff_ffff_ffff;

/// The optional value that a raw field holds: `None` for the marker value.
pub open spec fn optional_field(raw: u64, marker: u64) -> Option<u64> {
    if raw == marker {
        None
    } else {
        Some(raw)
    }
}

/// An Intel PT address space identifier.
///
/// This identifies a particular address space when adding file sections or
/// when reading memory.
#[derive(Clone, Copy, Debug)]
pub struct Asid {
    cr3: u64,
    vmcs: u64,
}

/// The raw fields of an address space identifier, as libipt's `pt_asid`
/// holds them.
pub struct AsidView {
    pub cr3: u64,
    pub vmcs: u64,
}

impl View for Asid {
    type V = AsidView;

    closed spec fn view(&self) -> AsidView {
        AsidView { cr3: self.cr3, vmcs: self.vmcs }
    }
}

impl Asid {
    /// Creates an address space identifier; a missing value is stored as its
    /// marker.
    pub fn new(cr3: Option<u64>, vmcs: Option<u64>) -> (a: Asid)
        ensures
            a@.cr3 == (match cr3 { Some(c) => c, None => NO_CR3 }),
            a@.vmcs == (match vmcs { Some(v) => v, None => NO_VMCS }),
    {
        Asid {
            cr3: match cr3 {
                Some(c) => c,
                None => NO_CR3,
            },
            vmcs: match vmcs {
                Some(v) => v,
                None => NO_VMCS,
            },
        }
    }

    /// Wraps the raw fields of a libipt `pt_asid`.
    pub fn from_raw(cr3: u64, vmcs: u64) -> (a: Asid)
        ensures
            a@.cr3 == cr3,
            a@.vmcs == vmcs,
    {
        Asid { cr3, vmcs }
    }

    /// The raw CR3 field.
    pub fn raw_cr3(&self) -> (c: u64)
        ensures
            c == self@.cr3,
    {
        self.cr3
    }

    /// The raw VMCS field.
    pub fn raw_vmcs(&self) -> (v: u64)
        ensures
            v == self@.vmcs,
    {
        self.vmcs
    }

    /// The CR3 value.
    pub fn cr3(self) -> (r: Option<u64>)
        ensures
            r == optional_field(self@.cr3, NO_CR3),
    {
        if self.cr3 == NO_CR3 {
            None
        } else {
            Some(self.cr3)
        }
    }

    /// The CR3 value.
    pub fn set_cr3(&mut self, cr3: u64)
        ensures
            final(self)@.cr3 == cr3,
            final(self)@.vmcs == old(self)@.vmcs,
    {
        self.cr3 = cr3;
    }

    /// The VMCS Base address.
    pub fn vmcs(self) -> (r: Option<u64>)
        ensures
            r == optional_field(self@.vmcs, NO_VMCS),
    {
        if self.vmcs == NO_VMCS {
            None
        } else {
            Some(self.vmcs)
        }
    }

    /// The VMCS Base address.
    pub fn set_vmcs(&mut self, vmcs: u64)
        ensures
            final(self)@.vmcs == vmcs,
            final(self)@.cr3 == old(self)@.cr3,
    {
        self.vmcs = vmcs;
    }

}

/// The equality of identifiers: the same CR3 and the same VMCS, a missing
/// value being equal only to a missing value.
pub open spec fn asid_eq(a: AsidView, b: AsidView) -> bool {
    optional_field(a.cr3, NO_CR3) == optional_field(b.cr3, NO_CR3)
        && optional_field(a.vmcs, NO_VMCS) == optional_field(b.vmcs, NO_VMCS)
}

impl PartialEq for Asid {
    fn eq(&self, other: &Asid) -> (b: bool) {
        let c1 = self.cr3();
        let c2 = other.cr3();
        let v1 = self.vmcs();
        let v2 = other.vmcs();
        let same_cr3 = match (c1, c2) {
            (Some(x), Some(y)) => x == y,
            (None, None) => true,
            _ => false,
        };
        let same_vmcs = match (v1, v2) {
            (Some(x), Some(y)) => x == y,
            (None, None) => true,
            _ => false,
        };
        same_cr3 && same_vmcs
    }
}

impl vstd::std_specs::cmp::PartialEqSpecImpl for Asid {
    open spec fn obeys_eq_spec() -> bool {
        true
    }

    open spec fn eq_spec(&self, other: &Asid) -> bool {
        asid_eq(self@, other@)
    }
}

impl Default for Asid {
    /// The identifier without CR3 and without VMCS.
    fn default() -> (a: Asid)
        ensures
            a@.cr3 == NO_CR3,
            a@.vmcs == NO_VMCS,
    {
        Asid::new(None, None)
    }
}

/// A value given to `Asid::new` is read back by `cr3` and `vmcs`, unless it
/// is the marker value, which reads back as missing; a missing value reads
/// back as missing.
pub proof fn lemma_asid_new_roundtrip(cr3: Option<u64>, vmcs: Option<u64>)
    ensures
        cr3 != Some(NO_CR3) ==> optional_field(
            match cr3 { Some(c) => c, None => NO_CR3 },
            NO_CR3,
        ) == cr3,
        vmcs != Some(NO_VMCS) ==> optional_field(
            match vmcs { Some(v) => v, None => NO_VMCS },
            NO_VMCS,
        ) == vmcs,
{
}

/// Equality of identifiers is an equivalence, and it is equality of the raw
/// fields.
pub proof fn lemma_asid_eq_is_field_equality(a: Asid, b: Asid)
    ensures
        asid_eq(a@, b@) <==> (a@.cr3 == b@.cr3 && a@.vmcs == b@.vmcs),
        asid_eq(a@, a@),
        asid_eq(a@, b@) ==> asid_eq(b@, a@),
{
}

} // verus!
