//! Intel PT packet payloads.

use crate::error::PtError;
use vstd::prelude::*;

verus! {

/// A TNT-8 or TNT-64 packet
/// Packet: tnt-8, tnt-64
#[allow(non_snake_case)]
#[derive(Clone, Copy, Debug)]
pub struct Tnt {
    /// TNT payload bit size
    bitSize: u8,
    /// TNT payload excluding stop bit
    payload: u64,
}

impl View for Tnt {
    type V = (u8, u64);

    closed spec fn view(&self) -> (u8, u64) {
        (self.bitSize, self.payload)
    }
}

impl Tnt {
    /// A TNT packet with this payload bit size and payload.
    pub fn new(bit_size: u8, payload: u64) -> (t: Tnt)
        ensures
            t@ == (bit_size, payload),
    {
        Tnt { bitSize: bit_size, payload }
    }
}

/// libipt's `pt_ipc_suppressed`.
pub const PT_IPC_SUPPRESSED: i32 = 0;

/// libipt's `pt_ipc_update_16`.
pub const PT_IPC_UPDATE_16: i32 = 1;

/// libipt's `pt_ipc_update_32`.
pub const PT_IPC_UPDATE_32: i32 = 2;

/// libipt's `pt_ipc_sext_48`.
pub const PT_IPC_SEXT_48: i32 = 3;

/// libipt's `pt_ipc_update_48`.
pub const PT_IPC_UPDATE_48: i32 = 4;

/// libipt's `pt_ipc_full`.
pub const PT_IPC_FULL: i32 = 6;

/// The IP compression
#[derive(Clone, Copy, Debug, PartialEq, Eq, Structural)]
pub enum IpCompression {
    /// No payload. The IP has been suppressed
    Suppressed,
    /// Payload: 16 bits. Update last IP
    Update16,
    /// Payload: 32 bits. Update last IP
    Update32,
    /// Payload: 48 bits. Sign extend to full address
    Sext48,
    /// Payload: 48 bits. Update last IP
    Update48,
    /// Payload: 64 bits. Full address
    Full,
}

impl IpCompression {
    /// The number of this compression in libipt's `pt_ip_compression`.
    pub open spec fn value(self) -> i32 {
        match self {
            IpCompression::Suppressed => 0,
            IpCompression::Update16 => 1,
            IpCompression::Update32 => 2,
            IpCompression::Sext48 => 3,
            IpCompression::Update48 => 4,
            IpCompression::Full => 6,
        }
    }

    /// The compression whose number is `v`, if there is one.
    pub open spec fn from_value(v: i32) -> Option<IpCompression> {
        if v == 0 {
            Some(IpCompression::Suppressed)
        } else if v == 1 {
            Some(IpCompression::Update16)
        } else if v == 2 {
            Some(IpCompression::Update32)
        } else if v == 3 {
            Some(IpCompression::Sext48)
        } else if v == 4 {
            Some(IpCompression::Update48)
        } else if v == 6 {
            Some(IpCompression::Full)
        } else {
            None
        }
    }

    /// Converts a raw compression number; a number that names no
    /// compression gives the conversion error.
    pub fn try_from_primitive(v: i32) -> (r: Result<IpCompression, PtError>)
        ensures
            match IpCompression::from_value(v) {
                Some(c) => r == Ok::<IpCompression, PtError>(c),
                None => r is Err && r->Err_0@ == PtError::conversion_failure_view(),
            },
    {
        if v == 0 {
            Ok(IpCompression::Suppressed)
        } else if v == 1 {
            Ok(IpCompression::Update16)
        } else if v == 2 {
            Ok(IpCompression::Update32)
        } else if v == 3 {
            Ok(IpCompression::Sext48)
        } else if v == 4 {
            Ok(IpCompression::Update48)
        } else if v == 6 {
            Ok(IpCompression::Full)
        } else {
            Err(PtError::conversion_failure())
        }
    }
}

/// Each IP compression has the number that libipt's `pt_ip_compression`
/// gives the compression of the same name.
pub proof fn lemma_ip_compressions_are_libipt_compressions()
    ensures
        IpCompression::from_value(PT_IPC_SUPPRESSED) == Some(IpCompression::Suppressed),
        IpCompression::from_value(PT_IPC_UPDATE_16) == Some(IpCompression::Update16),
        IpCompression::from_value(PT_IPC_UPDATE_32) == Some(IpCompression::Update32),
        IpCompression::from_value(PT_IPC_SEXT_48) == Some(IpCompression::Sext48),
        IpCompression::from_value(PT_IPC_UPDATE_48) == Some(IpCompression::Update48),
        IpCompression::from_value(PT_IPC_FULL) == Some(IpCompression::Full),
{
}

/// Converting a compression to its number and back gives it again.
pub proof fn lemma_ip_compression_roundtrip(c: IpCompression, v: i32)
    ensures
        IpCompression::from_value(c.value()) == Some(c),
        IpCompression::from_value(v) == Some(c) ==> c.value() == v,
{
}

/// A packet with IP payload
/// Packet: tip, fup, tip.pge, tip.pgd
#[derive(Clone, Copy, Debug)]
pub struct Ip {
    /// IP compression
    compression: IpCompression,
    /// Zero-extended payload ip
    ip: u64,
}

impl View for Ip {
    type V = (IpCompression, u64);

    closed spec fn view(&self) -> (IpCompression, u64) {
        (self.compression, self.ip)
    }
}

impl Ip {
    /// An IP packet payload.
    pub fn new(compression: IpCompression, ip: u64) -> (p: Ip)
        ensures
            p@ == (compression, ip),
    {
        Ip { compression, ip }
    }
}

/// Mode packet leaves
#[derive(Clone, Copy, Debug, PartialEq, Eq, Structural)]
pub enum ModeLeaf {
    Exec,
    Tsx,
}

impl ModeLeaf {
    /// The number of this leaf in libipt's `pt_mode_leaf`: 0 for exec and
    /// 0x20 for tsx.
    pub open spec fn value(self) -> i32 {
        match self {
            ModeLeaf::Exec => 0,
            ModeLeaf::Tsx => 0x20,
        }
    }

    /// Converts a raw leaf number; a number that names no leaf gives the
    /// conversion error.
    pub fn try_from_primitive(v: i32) -> (r: Result<ModeLeaf, PtError>)
        ensures
            v == 0 ==> r == Ok::<ModeLeaf, PtError>(ModeLeaf::Exec),
            v == 0x20 ==> r == Ok::<ModeLeaf, PtError>(ModeLeaf::Tsx),
            v != 0 && v != 0x20 ==> r is Err && r->Err_0@ == PtError::conversion_failure_view(),
    {
        if v == 0 {
            Ok(ModeLeaf::Exec)
        } else if v == 0x20 {
            Ok(ModeLeaf::Tsx)
        } else {
            Err(PtError::conversion_failure())
        }
    }
}

/// A mode.exec packet
#[derive(Clone, Copy, Debug, PartialEq, Eq, Structural)]
pub struct ModeExec {
    bits: u32,
}

impl View for ModeExec {
    type V = u32;

    closed spec fn view(&self) -> u32 {
        self.bits
    }
}

impl ModeExec {
    /// The mode.exec csl bit
    pub const CSL: u32 = 0b00000001;
    /// The mode.exec csd bit
    pub const CSD: u32 = 0b00000010;

    /// The flags whose bits are `bits`, if every bit is a defined flag.
    pub fn from_bits(bits: u32) -> (r: Option<ModeExec>)
        ensures
            r is Some <==> bits & !3u32 == 0,
            r matches Some(m) ==> m@ == bits,
    {
        if bits & !3u32 == 0 {
            Some(ModeExec { bits })
        } else {
            None
        }
    }

    /// The raw bits.
    pub fn bits(&self) -> (b: u32)
        ensures
            b == self@,
    {
        self.bits
    }
}

/// A mode.tsx packet
#[derive(Clone, Copy, Debug, PartialEq, Eq, Structural)]
pub struct ModeTsx {
    bits: u32,
}

impl View for ModeTsx {
    type V = u32;

    closed spec fn view(&self) -> u32 {
        self.bits
    }
}

impl ModeTsx {
    /// The mode.tsx intx bit
    pub const INTX: u32 = 0b00000001;
    /// The mode.tsx abrt bit
    pub const ABRT: u32 = 0b00000010;

    /// The flags whose bits are `bits`, if every bit is a defined flag.
    pub fn from_bits(bits: u32) -> (r: Option<ModeTsx>)
        ensures
            r is Some <==> bits & !3u32 == 0,
            r matches Some(m) ==> m@ == bits,
    {
        if bits & !3u32 == 0 {
            Some(ModeTsx { bits })
        } else {
            None
        }
    }

    /// The raw bits.
    pub fn bits(&self) -> (b: u32)
        ensures
            b == self@,
    {
        self.bits
    }
}

/// The bits of a mode packet, by leaf.
#[derive(Clone, Copy, Debug)]
pub enum ModeBits {
    Exec(ModeExec),
    Tsx(ModeTsx),
}

/// A mode packet
/// Packet: mode
#[derive(Clone, Copy, Debug)]
pub struct Mode {
    /// Mode leaf
    leaf: ModeLeaf,
    /// Mode bits
    bits: ModeBits,
}

impl View for Mode {
    type V = (ModeLeaf, ModeBits);

    closed spec fn view(&self) -> (ModeLeaf, ModeBits) {
        (self.leaf, self.bits)
    }
}

impl Mode {
    /// A mode packet.
    pub fn new(leaf: ModeLeaf, bits: ModeBits) -> (m: Mode)
        ensures
            m@ == (leaf, bits),
    {
        Mode { leaf, bits }
    }
}

} // verus!
