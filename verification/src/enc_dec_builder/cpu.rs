use crate::raw_config::{flag_bit, read_flag_bit, RawCpu};
use vstd::prelude::*;

verus! {

/// A cpu vendor, as libipt's `pt_cpu_vendor` numbers them.
#[allow(non_camel_case_types)]
#[derive(Debug, Clone, Copy, PartialEq, Eq, Structural)]
pub enum CpuVendor {
    INTEL,
    UNKNOWN,
}

impl CpuVendor {
    /// The number of this vendor: `pcv_intel` is 1, `pcv_unknown` is 0.
    pub open spec fn value(self) -> u32 {
        match self {
            CpuVendor::INTEL => 1,
            CpuVendor::UNKNOWN => 0,
        }
    }

    /// The number of this vendor.
    pub fn to_primitive(self) -> (v: u32)
        ensures
            v == self.value(),
    {
        match self {
            CpuVendor::INTEL => 1,
            CpuVendor::UNKNOWN => 0,
        }
    }
}

/// A Cpu identifier
#[derive(Clone, Copy, Debug)]
pub struct Cpu {
    pub(crate) vendor: u32,
    pub(crate) family: u16,
    pub(crate) model: u8,
    pub(crate) stepping: u8,
}

impl View for Cpu {
    type V = RawCpu;

    closed spec fn view(&self) -> RawCpu {
        RawCpu {
            vendor: self.vendor,
            family: self.family,
            model: self.model,
            stepping: self.stepping,
        }
    }
}

impl Cpu {
    /// Creates a cpu identifier.
    pub fn new(vendor: CpuVendor, family: u16, model: u8, stepping: u8) -> (c: Cpu)
        ensures
            c@ == (RawCpu { vendor: vendor.value(), family, model, stepping }),
    {
        Cpu { vendor: vendor.to_primitive(), family, model, stepping }
    }

    /// A shortcut for creating an intel Cpu instance
    pub fn intel(family: u16, model: u8, stepping: u8) -> (c: Cpu)
        ensures
            c@ == (RawCpu { vendor: CpuVendor::INTEL.value(), family, model, stepping }),
    {
        Cpu::new(CpuVendor::INTEL, family, model, stepping)
    }

    /// The fields of the identifier.
    pub fn raw(&self) -> (r: RawCpu)
        ensures
            r == self@,
    {
        RawCpu { vendor: self.vendor, family: self.family, model: self.model, stepping: self.stepping }
    }

    /// The vendor number.
    pub fn vendor(&self) -> (v: u32)
        ensures
            v == self@.vendor,
    {
        self.vendor
    }

    /// The cpu family.
    pub fn family(&self) -> (f: u16)
        ensures
            f == self@.family,
    {
        self.family
    }

    /// The cpu model.
    pub fn model(&self) -> (m: u8)
        ensures
            m == self@.model,
    {
        self.model
    }

    /// The stepping.
    pub fn stepping(&self) -> (s: u8)
        ensures
            s == self@.stepping,
    {
        self.stepping
    }
}

/// The bit of erratum BDM70 in the errata word.
pub const ERRATUM_BDM70: u32 = 0;

/// The bit of erratum BDM64 in the errata word.
pub const ERRATUM_BDM64: u32 = 1;

/// The bit of erratum SKD007 in the errata word.
pub const ERRATUM_SKD007: u32 = 2;

/// The bit of erratum SKD022 in the errata word.
pub const ERRATUM_SKD022: u32 = 3;

/// The bit of erratum SKD010 in the errata word.
pub const ERRATUM_SKD010: u32 = 4;

/// The bit of erratum SKL014 in the errata word.
pub const ERRATUM_SKL014: u32 = 5;

/// The bit of erratum APL12 in the errata word.
pub const ERRATUM_APL12: u32 = 6;

/// The bit of erratum APL11 in the errata word.
pub const ERRATUM_APL11: u32 = 7;

/// The bit of erratum SKL168 in the errata word.
pub const ERRATUM_SKL168: u32 = 8;

/// The bit of erratum SKZ84 in the errata word.
pub const ERRATUM_SKZ84: u32 = 9;

/// The processor errata that libipt works around, as the word of one-bit
/// fields of its `pt_errata` (bit `ERRATUM_BDM70` first).
#[derive(Clone, Copy, Debug, PartialEq, Eq, Structural)]
pub struct Errata {
    bits: u32,
}

impl View for Errata {
    type V = u32;

    closed spec fn view(&self) -> u32 {
        self.bits
    }
}

impl Errata {
    /// The errata whose bit word is `bits`.
    pub fn from_bits(bits: u32) -> (e: Errata)
        ensures
            e@ == bits,
    {
        Errata { bits }
    }

    /// No erratum.
    pub fn none() -> (e: Errata)
        ensures
            e@ == 0,
    {
        Errata { bits: 0 }
    }

    /// The bit word.
    pub fn bits(&self) -> (b: u32)
        ensures
            b == self@,
    {
        self.bits
    }

    /// Whether the erratum of bit `bit` applies.
    pub fn has(&self, bit: u32) -> (b: bool)
        requires
            bit < 32,
        ensures
            b == flag_bit(self@, bit),
    {
        read_flag_bit(self.bits, bit)
    }
}

} // verus!
