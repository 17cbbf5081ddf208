//! Plain models of the libipt configuration structures that the bindings
//! fill in before handing them to libipt.

use vstd::prelude::*;

verus! {

/// libipt's `pt_addr_cfg_disabled`: the address range is not used.
pub const PT_ADDR_CFG_DISABLED: u64 = 0;

/// libipt's `pt_addr_cfg_filter`: the address range is a filter range.
pub const PT_ADDR_CFG_FILTER: u64 = 1;

/// libipt's `pt_addr_cfg_stop`: the address range is a stop range.
pub const PT_ADDR_CFG_STOP: u64 = 2;

/// The address filter part of a libipt configuration (`pt_conf_addr_filter`):
/// the configuration word, whose nibbles `0..4` hold the filter type of
/// address ranges `0..4`, and the bounds of the four ranges.
#[derive(Clone, Copy, Debug, PartialEq, Eq, Structural)]
pub struct RawAddrFilter {
    pub addr_cfg: u64,
    pub addr0_a: u64,
    pub addr0_b: u64,
    pub addr1_a: u64,
    pub addr1_b: u64,
    pub addr2_a: u64,
    pub addr2_b: u64,
    pub addr3_a: u64,
    pub addr3_b: u64,
}

/// The nibble of `word` that holds the configuration of range `n`.
pub open spec fn cfg_nibble(word: u64, n: int) -> u64 {
    if n == 0 {
        word & 0xf
    } else if n == 1 {
        (word >> 4u64) & 0xf
    } else if n == 2 {
        (word >> 8u64) & 0xf
    } else {
        (word >> 12u64) & 0xf
    }
}

/// `v` moved into the nibble of range `n`.
pub open spec fn cfg_shifted(v: u64, n: int) -> u64 {
    if n == 0 {
        v
    } else if n == 1 {
        v << 4u64
    } else if n == 2 {
        v << 8u64
    } else {
        v << 12u64
    }
}

impl RawAddrFilter {
    /// The all-zero address filter: no range configured.
    pub open spec fn zero_spec() -> RawAddrFilter {
        RawAddrFilter {
            addr_cfg: 0,
            addr0_a: 0,
            addr0_b: 0,
            addr1_a: 0,
            addr1_b: 0,
            addr2_a: 0,
            addr2_b: 0,
            addr3_a: 0,
            addr3_b: 0,
        }
    }

    /// The lower bound (`a`) of range `n`.
    pub open spec fn range_a(self, n: int) -> u64 {
        if n == 0 {
            self.addr0_a
        } else if n == 1 {
            self.addr1_a
        } else if n == 2 {
            self.addr2_a
        } else {
            self.addr3_a
        }
    }

    /// The upper bound (`b`) of range `n`.
    pub open spec fn range_b(self, n: int) -> u64 {
        if n == 0 {
            self.addr0_b
        } else if n == 1 {
            self.addr1_b
        } else if n == 2 {
            self.addr2_b
        } else {
            self.addr3_b
        }
    }

    /// The configuration nibble of range `n`.
    pub open spec fn range_cfg(self, n: int) -> u64 {
        cfg_nibble(self.addr_cfg, n)
    }

    /// This filter with the bounds of range `n` replaced.
    pub open spec fn with_range(self, n: int, a: u64, b: u64) -> RawAddrFilter {
        if n == 0 {
            RawAddrFilter { addr0_a: a, addr0_b: b, ..self }
        } else if n == 1 {
            RawAddrFilter { addr1_a: a, addr1_b: b, ..self }
        } else if n == 2 {
            RawAddrFilter { addr2_a: a, addr2_b: b, ..self }
        } else {
            RawAddrFilter { addr3_a: a, addr3_b: b, ..self }
        }
    }

    /// The all-zero address filter: no range configured.
    pub fn zero() -> (r: RawAddrFilter)
        ensures
            r == RawAddrFilter::zero_spec(),
    {
        RawAddrFilter {
            addr_cfg: 0,
            addr0_a: 0,
            addr0_b: 0,
            addr1_a: 0,
            addr1_b: 0,
            addr2_a: 0,
            addr2_b: 0,
            addr3_a: 0,
            addr3_b: 0,
        }
    }

    /// Replaces the bounds of range `n`.
    pub fn set_range(&mut self, n: u32, a: u64, b: u64)
        requires
            n < 4,
        ensures
            *final(self) == old(self).with_range(n as int, a, b),
    {
        if n == 0 {
            self.addr0_a = a;
            self.addr0_b = b;
        } else if n == 1 {
            self.addr1_a = a;
            self.addr1_b = b;
        } else if n == 2 {
            self.addr2_a = a;
            self.addr2_b = b;
        } else {
            self.addr3_a = a;
            self.addr3_b = b;
        }
    }
}

/// Setting a nibble with OR on a word whose nibble is zero yields the value
/// there and leaves the other nibbles as they were.
pub proof fn lemma_or_into_empty_nibble(word: u64, v: u64, n: int)
    requires
        0 <= n < 4,
        v <= 0xf,
        cfg_nibble(word, n) == 0,
    ensures
        cfg_nibble(word | cfg_shifted(v, n), n) == v,
        forall|m: int| 0 <= m < 4 && m != n ==> cfg_nibble(word | cfg_shifted(v, n), m)
            == cfg_nibble(word, m),
{
    if n == 0 {
        assert(word & 0xf == 0 && v <= 0xf ==> (word | v) & 0xf == v
            && ((word | v) >> 4u64) & 0xf == (word >> 4u64) & 0xf
            && ((word | v) >> 8u64) & 0xf == (word >> 8u64) & 0xf
            && ((word | v) >> 12u64) & 0xf == (word >> 12u64) & 0xf) by (bit_vector);
    } else if n == 1 {
        assert((word >> 4u64) & 0xf == 0 && v <= 0xf ==>
            ((word | (v << 4u64)) >> 4u64) & 0xf == v
            && (word | (v << 4u64)) & 0xf == word & 0xf
            && ((word | (v << 4u64)) >> 8u64) & 0xf == (word >> 8u64) & 0xf
            && ((word | (v << 4u64)) >> 12u64) & 0xf == (word >> 12u64) & 0xf) by (bit_vector);
    } else if n == 2 {
        assert((word >> 8u64) & 0xf == 0 && v <= 0xf ==>
            ((word | (v << 8u64)) >> 8u64) & 0xf == v
            && (word | (v << 8u64)) & 0xf == word & 0xf
            && ((word | (v << 8u64)) >> 4u64) & 0xf == (word >> 4u64) & 0xf
            && ((word | (v << 8u64)) >> 12u64) & 0xf == (word >> 12u64) & 0xf) by (bit_vector);
    } else {
        assert((word >> 12u64) & 0xf == 0 && v <= 0xf ==>
            ((word | (v << 12u64)) >> 12u64) & 0xf == v
            && (word | (v << 12u64)) & 0xf == word & 0xf
            && ((word | (v << 12u64)) >> 4u64) & 0xf == (word >> 4u64) & 0xf
            && ((word | (v << 12u64)) >> 8u64) & 0xf == (word >> 8u64) & 0xf) by (bit_vector);
    }
}

/// `word` with the nibble of range `n` replaced by the low four bits of `v`.
pub open spec fn cfg_replaced(word: u64, v: u64, n: int) -> u64 {
    if n == 0 {
        (word & !0xfu64) | (v & 0xf)
    } else if n == 1 {
        (word & !0xf0u64) | ((v & 0xf) << 4u64)
    } else if n == 2 {
        (word & !0xf00u64) | ((v & 0xf) << 8u64)
    } else {
        (word & !0xf000u64) | ((v & 0xf) << 12u64)
    }
}

/// Replacing the nibble of range `n` with `v` reads back `v`, and leaves the
/// other nibbles as they were.
pub proof fn lemma_replace_nibble(word: u64, v: u64, n: int)
    requires
        0 <= n < 4,
        v <= 0xf,
    ensures
        cfg_nibble(cfg_replaced(word, v, n), n) == v,
        forall|m: int| 0 <= m < 4 && m != n ==> cfg_nibble(cfg_replaced(word, v, n), m)
            == cfg_nibble(word, m),
{
    if n == 0 {
        assert(v <= 0xf ==> ((word & !0xfu64) | (v & 0xf)) & 0xf == v
            && (((word & !0xfu64) | (v & 0xf)) >> 4u64) & 0xf == (word >> 4u64) & 0xf
            && (((word & !0xfu64) | (v & 0xf)) >> 8u64) & 0xf == (word >> 8u64) & 0xf
            && (((word & !0xfu64) | (v & 0xf)) >> 12u64) & 0xf == (word >> 12u64) & 0xf)
            by (bit_vector);
    } else if n == 1 {
        assert(v <= 0xf ==> (((word & !0xf0u64) | ((v & 0xf) << 4u64)) >> 4u64) & 0xf == v
            && ((word & !0xf0u64) | ((v & 0xf) << 4u64)) & 0xf == word & 0xf
            && (((word & !0xf0u64) | ((v & 0xf) << 4u64)) >> 8u64) & 0xf == (word >> 8u64) & 0xf
            && (((word & !0xf0u64) | ((v & 0xf) << 4u64)) >> 12u64) & 0xf == (word >> 12u64)
            & 0xf) by (bit_vector);
    } else if n == 2 {
        assert(v <= 0xf ==> (((word & !0xf00u64) | ((v & 0xf) << 8u64)) >> 8u64) & 0xf == v
            && ((word & !0xf00u64) | ((v & 0xf) << 8u64)) & 0xf == word & 0xf
            && (((word & !0xf00u64) | ((v & 0xf) << 8u64)) >> 4u64) & 0xf == (word >> 4u64) & 0xf
            && (((word & !0xf00u64) | ((v & 0xf) << 8u64)) >> 12u64) & 0xf == (word >> 12u64)
            & 0xf) by (bit_vector);
    } else {
        assert(v <= 0xf ==> (((word & !0xf000u64) | ((v & 0xf) << 12u64)) >> 12u64) & 0xf == v
            && ((word & !0xf000u64) | ((v & 0xf) << 12u64)) & 0xf == word & 0xf
            && (((word & !0xf000u64) | ((v & 0xf) << 12u64)) >> 4u64) & 0xf == (word >> 4u64)
            & 0xf
            && (((word & !0xf000u64) | ((v & 0xf) << 12u64)) >> 8u64) & 0xf == (word >> 8u64)
            & 0xf) by (bit_vector);
    }
}

/// Replaces the nibble of range `n` in `word` with the low four bits of `v`,
/// as libipt's bit-field setters for `addrN_cfg` do.
pub fn replace_cfg_nibble(word: u64, v: u32, n: u32) -> (r: u64)
    requires
        n < 4,
    ensures
        r == cfg_replaced(word, v as u64, n as int),
{
    let v64 = v as u64;
    if n == 0 {
        (word & !0xfu64) | (v64 & 0xf)
    } else if n == 1 {
        (word & !0xf0u64) | ((v64 & 0xf) << 4u64)
    } else if n == 2 {
        (word & !0xf00u64) | ((v64 & 0xf) << 8u64)
    } else {
        (word & !0xf000u64) | ((v64 & 0xf) << 12u64)
    }
}

/// Reads the nibble of range `n`.
pub fn read_cfg_nibble(word: u64, n: u32) -> (r: u32)
    requires
        n < 4,
    ensures
        r == cfg_nibble(word, n as int),
{
    let v = if n == 0 {
        word & 0xf
    } else if n == 1 {
        (word >> 4u64) & 0xf
    } else if n == 2 {
        (word >> 8u64) & 0xf
    } else {
        (word >> 12u64) & 0xf
    };
    proof {
        assert(word & 0xf <= 0xf) by (bit_vector);
        assert((word >> 4u64) & 0xf <= 0xf) by (bit_vector);
        assert((word >> 8u64) & 0xf <= 0xf) by (bit_vector);
        assert((word >> 12u64) & 0xf <= 0xf) by (bit_vector);
    }
    v as u32
}

/// The fields of a libipt cpu identifier (`pt_cpu`).
#[derive(Clone, Copy, Debug, PartialEq, Eq, Structural)]
pub struct RawCpu {
    pub vendor: u32,
    pub family: u16,
    pub model: u8,
    pub stepping: u8,
}

/// The fields of a libipt configuration (`pt_config`) that the bindings set:
/// the trace buffer's bounds (as addresses, zero while no buffer is set),
/// the cpu and its errata word, the timing values, the decoder flag word and
/// the address filter.
#[derive(Clone, Copy, Debug)]
pub struct RawConfig {
    pub begin: usize,
    pub end: usize,
    pub cpu: RawCpu,
    pub errata: u32,
    pub cpuid_0x15_eax: u32,
    pub cpuid_0x15_ebx: u32,
    pub mtc_freq: u8,
    pub nom_freq: u8,
    pub flags: u32,
    pub addr_filter: RawAddrFilter,
}

impl RawConfig {
    /// The zeroed configuration.
    pub open spec fn zero_spec() -> RawConfig {
        RawConfig {
            begin: 0,
            end: 0,
            cpu: RawCpu { vendor: 0, family: 0, model: 0, stepping: 0 },
            errata: 0,
            cpuid_0x15_eax: 0,
            cpuid_0x15_ebx: 0,
            mtc_freq: 0,
            nom_freq: 0,
            flags: 0,
            addr_filter: RawAddrFilter::zero_spec(),
        }
    }

    /// The zeroed configuration.
    pub fn zero() -> (c: RawConfig)
        ensures
            c == RawConfig::zero_spec(),
    {
        RawConfig {
            begin: 0,
            end: 0,
            cpu: RawCpu { vendor: 0, family: 0, model: 0, stepping: 0 },
            errata: 0,
            cpuid_0x15_eax: 0,
            cpuid_0x15_ebx: 0,
            mtc_freq: 0,
            nom_freq: 0,
            flags: 0,
            addr_filter: RawAddrFilter::zero(),
        }
    }

    /// Whether bit `bit` of the decoder flag word is set.
    pub fn flag(&self, bit: u32) -> (b: bool)
        requires
            bit < 32,
        ensures
            b == flag_bit(self.flags, bit),
    {
        read_flag_bit(self.flags, bit)
    }
}

/// Whether bit `bit` of `word` is set.
pub open spec fn flag_bit(word: u32, bit: u32) -> bool {
    (word >> bit) & 1 == 1
}

/// `word` with bit `bit` set to `value`.
pub open spec fn flag_updated(word: u32, bit: u32, value: bool) -> u32 {
    if value {
        word | (1u32 << bit)
    } else {
        word & !(1u32 << bit)
    }
}

/// Whether bit `bit` of `word` is set.
pub fn read_flag_bit(word: u32, bit: u32) -> (b: bool)
    requires
        bit < 32,
    ensures
        b == flag_bit(word, bit),
{
    (word >> bit) & 1 == 1
}

/// Sets bit `bit` of `word` to `value`, as libipt's one-bit bit-field
/// setters do.
pub fn update_flag_bit(word: u32, bit: u32, value: bool) -> (r: u32)
    requires
        bit < 32,
    ensures
        r == flag_updated(word, bit, value),
{
    if value {
        word | (1u32 << bit)
    } else {
        word & !(1u32 << bit)
    }
}

/// A bit set to a value reads back as that value, and the other bits keep
/// theirs.
pub proof fn lemma_flag_update(word: u32, bit: u32, value: bool, other: u32)
    requires
        bit < 32,
        other < 32,
    ensures
        flag_bit(flag_updated(word, bit, value), bit) == value,
        other != bit ==> flag_bit(flag_updated(word, bit, value), other) == flag_bit(word, other),
{
    assert(bit < 32 ==> ((word | (1u32 << bit)) >> bit) & 1 == 1) by (bit_vector);
    assert(bit < 32 ==> ((word & !(1u32 << bit)) >> bit) & 1 == 0) by (bit_vector);
    assert(bit < 32 && other < 32 && other != bit ==> ((word | (1u32 << bit)) >> other) & 1
        == (word >> other) & 1) by (bit_vector);
    assert(bit < 32 && other < 32 && other != bit ==> ((word & !(1u32 << bit)) >> other) & 1
        == (word >> other) & 1) by (bit_vector);
}

} // verus!
