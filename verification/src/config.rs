//! Encoder and decoder configuration: decoder flags, cpu identifiers,
//! timing values and address filters.

pub mod config;
pub mod enc_dec_builder;
pub mod filter;
pub mod flags;
pub mod freqency;

pub use flags::{BlockFlags, InsnFlags, QueryFlags};

use crate::enc_dec_builder::cpu::Errata;
use crate::config::flags::{
    BLOCK_ENABLE_TICK_EVENTS_BIT, BLOCK_END_ON_CALL_BIT, BLOCK_END_ON_JUMP_BIT,
    BLOCK_KEEP_TCAL_ON_OVF_BIT, INSN_ENABLE_TICK_EVENTS_BIT, INSN_KEEP_TCAL_ON_OVF_BIT,
    QUERY_KEEP_TCAL_ON_OVF_BIT,
};
use crate::raw_config::{cfg_nibble, flag_bit, RawAddrFilter, RawConfig, RawCpu};
use vstd::prelude::*;

verus! {

/// a collection of decoder-specific configuration flags
#[derive(Clone, Copy, Debug)]
pub enum DecoderFlags {
    /// flags for the block decoder
    Block(BlockFlags),
    /// flags for the instruction flow decoder
    Insn(InsnFlags),
    /// flags for the query decoder
    Query(QueryFlags),
}

impl DecoderFlags {
    /// The decoder flag word of a libipt configuration that these flags give:
    /// the flag bits of the decoder in its lowest byte.
    pub open spec fn conf_flags_spec(self) -> u32 {
        match self {
            DecoderFlags::Block(f) => f@ as u32,
            DecoderFlags::Insn(f) => f@ as u32,
            DecoderFlags::Query(f) => f@ as u32,
        }
    }

    /// The decoder flag word of a libipt configuration that these flags give.
    pub fn to_conf_flags(self) -> (w: u32)
        ensures
            w == self.conf_flags_spec(),
    {
        match self {
            DecoderFlags::Block(f) => f.to_conf_flags(),
            DecoderFlags::Insn(f) => f.to_conf_flags(),
            DecoderFlags::Query(f) => f.to_conf_flags(),
        }
    }
}

/// A cpu vendor as a set of flags over libipt's `pt_cpu_vendor` numbers.
#[derive(Clone, Copy, Debug, PartialEq, Eq, Structural)]
pub struct CPUVendor {
    bits: i32,
}

impl View for CPUVendor {
    type V = i32;

    closed spec fn view(&self) -> i32 {
        self.bits
    }
}

impl CPUVendor {
    /// `pcv_intel`
    pub const INTEL: i32 = 1;
    /// `pcv_unknown`
    pub const UNKNOWN: i32 = 0;

    /// The vendor whose number is `bits`, if it is one of the two.
    pub fn from_bits(bits: i32) -> (r: Option<CPUVendor>)
        ensures
            r is Some <==> (bits == 0 || bits == 1),
            r matches Some(v) ==> v@ == bits,
    {
        if bits == 0 || bits == 1 {
            Some(CPUVendor { bits })
        } else {
            None
        }
    }

    /// The vendor number.
    pub fn bits(&self) -> (b: i32)
        ensures
            b == self@,
    {
        self.bits
    }
}

/// a cpu identifier
#[derive(Clone, Copy, Debug)]
pub struct CPU(RawCpu);

impl View for CPU {
    type V = RawCpu;

    closed spec fn view(&self) -> RawCpu {
        self.0
    }
}

impl CPU {
    /// Creates a cpu identifier.
    pub fn new(vendor: CPUVendor, family: u16, model: u8, stepping: u8) -> (c: CPU)
        ensures
            c@ == (RawCpu { vendor: vendor@ as u32, family, model, stepping }),
    {
        CPU(RawCpu { vendor: vendor.bits() as u32, family, model, stepping })
    }

    /// The fields of the identifier.
    pub fn raw(&self) -> (r: RawCpu)
        ensures
            r == self@,
    {
        self.0
    }
}

/// The values of eax and ebx on a cpuid call for leaf 0x15.
///
/// The value *ebx/eax* gives the ratio of the Core Crystal Clock (CTC) to
/// Timestamp Counter (TSC) frequency.
#[derive(Clone, Copy, Debug)]
pub struct CTCTSCRatio {
    /// the value of eax on a cpuid call for leaf 0x15
    cpuid_0x15_eax: u32,
    /// the value of ebx on a cpuid call for leaf 0x15
    cpuid_0x15_ebx: u32,
}

impl View for CTCTSCRatio {
    type V = (u32, u32);

    closed spec fn view(&self) -> (u32, u32) {
        (self.cpuid_0x15_eax, self.cpuid_0x15_ebx)
    }
}

impl CTCTSCRatio {
    /// Creates the ratio from the values of eax and ebx.
    pub fn new(cpuid_0x15_eax: u32, cpuid_0x15_ebx: u32) -> (r: CTCTSCRatio)
        ensures
            r@ == (cpuid_0x15_eax, cpuid_0x15_ebx),
    {
        CTCTSCRatio { cpuid_0x15_eax, cpuid_0x15_ebx }
    }

    /// The value of eax.
    pub fn cpuid_0x15_eax(&self) -> (v: u32)
        ensures
            v == self@.0,
    {
        self.cpuid_0x15_eax
    }

    /// The value of ebx.
    pub fn cpuid_0x15_ebx(&self) -> (v: u32)
        ensures
            v == self@.1,
    {
        self.cpuid_0x15_ebx
    }
}

impl Default for CTCTSCRatio {
    /// Both values zero.
    fn default() -> (r: CTCTSCRatio)
        ensures
            r@ == (0u32, 0u32),
    {
        CTCTSCRatio { cpuid_0x15_eax: 0, cpuid_0x15_ebx: 0 }
    }
}

/// an address range inside the address filter
#[derive(Clone, Copy, Debug)]
pub struct AddrRange {
    /// This corresponds to the IA32_RTIT_ADDRn_A MSRs
    a: u64,
    /// This corresponds to the IA32_RTIT_ADDRn_B MSRs
    b: u64,
    /// this corresponds to the respective fields in IA32_RTIT_CTL MSR
    cfg: u64,
}

impl View for AddrRange {
    type V = (u64, u64, u64);

    closed spec fn view(&self) -> (u64, u64, u64) {
        (self.a, self.b, self.cfg)
    }
}

impl AddrRange {
    /// Creates an address range from its bounds and raw configuration.
    pub fn new(a: u64, b: u64, cfg: u64) -> (r: AddrRange)
        ensures
            r@ == (a, b, cfg),
    {
        AddrRange { a, b, cfg }
    }
}

impl Default for AddrRange {
    /// The range from zero to zero, disabled.
    fn default() -> (r: AddrRange)
        ensures
            r@ == (0u64, 0u64, 0u64),
    {
        AddrRange { a: 0, b: 0, cfg: 0 }
    }
}

/// the address filter configuration
#[derive(Clone, Copy, Debug)]
pub struct AddrFilter(AddrRange, AddrRange, AddrRange, AddrRange);

impl View for AddrFilter {
    type V = ((u64, u64, u64), (u64, u64, u64), (u64, u64, u64), (u64, u64, u64));

    closed spec fn view(&self) -> ((u64, u64, u64), (u64, u64, u64), (u64, u64, u64), (u64, u64, u64)) {
        (self.0@, self.1@, self.2@, self.3@)
    }
}

impl AddrFilter {
    /// The address filter of four ranges.
    pub fn new(r0: AddrRange, r1: AddrRange, r2: AddrRange, r3: AddrRange) -> (f: AddrFilter)
        ensures
            f@ == (r0@, r1@, r2@, r3@),
    {
        AddrFilter(r0, r1, r2, r3)
    }

    /// Range `n` (0 to 3) of the filter: its bounds and raw configuration.
    pub open spec fn range_view(self, n: int) -> (u64, u64, u64) {
        if n == 0 {
            self@.0
        } else if n == 1 {
            self@.1
        } else if n == 2 {
            self@.2
        } else {
            self@.3
        }
    }

    /// Whether the raw configuration of each range fits in four bits.
    pub open spec fn cfgs_fit_nibbles(self) -> bool {
        forall|n: int| 0 <= n < 4 ==> #[trigger] self.range_view(n).2 < 16
    }

    /// The libipt address filter of these ranges: their bounds, and the
    /// configuration word `cfg3 << 12 | cfg2 << 8 | cfg1 << 4 | cfg0`.
    pub open spec fn conf_spec(self) -> RawAddrFilter {
        RawAddrFilter {
            addr_cfg: (self@.3.2 << 12u64) | (self@.2.2 << 8u64) | (self@.1.2 << 4u64) | self@.0.2,
            addr0_a: self@.0.0,
            addr0_b: self@.0.1,
            addr1_a: self@.1.0,
            addr1_b: self@.1.1,
            addr2_a: self@.2.0,
            addr2_b: self@.2.1,
            addr3_a: self@.3.0,
            addr3_b: self@.3.1,
        }
    }

    /// The libipt address filter of these ranges.
    pub fn to_conf_addr_filter(self) -> (r: RawAddrFilter)
        ensures
            r == self.conf_spec(),
    {
        RawAddrFilter {
            addr_cfg: (self.3.cfg << 12u64) | (self.2.cfg << 8u64) | (self.1.cfg << 4u64)
                | self.0.cfg,
            addr0_a: self.0.a,
            addr0_b: self.0.b,
            addr1_a: self.1.a,
            addr1_b: self.1.b,
            addr2_a: self.2.a,
            addr2_b: self.2.b,
            addr3_a: self.3.a,
            addr3_b: self.3.b,
        }
    }
}

impl Default for AddrFilter {
    /// Four disabled ranges.
    fn default() -> (f: AddrFilter)
        ensures
            f@ == ((0u64, 0u64, 0u64), (0u64, 0u64, 0u64), (0u64, 0u64, 0u64), (0u64, 0u64, 0u64)),
    {
        AddrFilter(AddrRange::default(), AddrRange::default(), AddrRange::default(), AddrRange::default())
    }
}

/// The address filter that a configuration gets from an optional filter:
/// the filter's, or the default (all zero) one.
pub open spec fn optional_filter_conf(filter: Option<AddrFilter>) -> RawAddrFilter {
    match filter {
        Some(f) => f.conf_spec(),
        None => RawAddrFilter::zero_spec(),
    }
}

/// A libipt configuration for decoding a trace buffer.
#[derive(Clone, Copy, Debug)]
pub struct Config {
    raw: RawConfig,
}

impl View for Config {
    type V = RawConfig;

    closed spec fn view(&self) -> RawConfig {
        self.raw
    }
}

impl Config {
    /// The configuration that `new_timing` builds.
    pub open spec fn timing_spec(
        buffer_addr: usize,
        buffer_len: usize,
        cpu: Option<CPU>,
        cpu_errata: Errata,
        ratio: (u32, u32),
        mtc_freq: u8,
        nom_freq: u8,
        flags: Option<DecoderFlags>,
        filter: Option<AddrFilter>,
    ) -> RawConfig {
        RawConfig {
            begin: buffer_addr,
            end: (buffer_addr + buffer_len) as usize,
            cpu: match cpu {
                Some(c) => c@,
                None => RawCpu { vendor: 0, family: 0, model: 0, stepping: 0 },
            },
            errata: match cpu {
                Some(_) => cpu_errata@,
                None => 0,
            },
            cpuid_0x15_eax: ratio.0,
            cpuid_0x15_ebx: ratio.1,
            mtc_freq,
            nom_freq,
            flags: match flags {
                Some(f) => f.conf_flags_spec(),
                None => 0,
            },
            addr_filter: optional_filter_conf(filter),
        }
    }

    /// initializes a new Config instance for a trace without timing packets
    ///
    /// * `buffer_addr`, `buffer_len` - the data captured by intelpt
    /// * `cpu` - the cpu used for capturing. It's highly recommended to supply this info
    /// * `cpu_errata` - the errata that libipt determined for `cpu` (zero if it could not)
    /// * `flags` - a collection of decoder-specific flags
    /// * `filter` - the address filter configuration
    pub fn new_notiming(
        buffer_addr: usize,
        buffer_len: usize,
        cpu: Option<CPU>,
        cpu_errata: Errata,
        flags: Option<DecoderFlags>,
        filter: Option<AddrFilter>,
    ) -> (c: Config)
        requires
            buffer_addr + buffer_len <= usize::MAX,
        ensures
            c@ == Config::timing_spec(
                buffer_addr,
                buffer_len,
                cpu,
                cpu_errata,
                (0u32, 0u32),
                0,
                0,
                flags,
                filter,
            ),
    {
        Config::new_timing(
            buffer_addr,
            buffer_len,
            cpu,
            cpu_errata,
            CTCTSCRatio::default(),
            0,
            0,
            flags,
            filter,
        )
    }

    /// initializes a new Config instance for a trace with MTC timing packets enabled
    ///
    /// * `buffer_addr`, `buffer_len` - the data captured by intelpt
    /// * `cpu` - the cpu used for capturing. It's highly recommended to supply this info
    /// * `cpu_errata` - the errata that libipt determined for `cpu` (zero if it could not)
    /// * `ratio` - the CTC frequency
    /// * `mtc_freq` - the MTC frequency as defined in IA32_RTIT_CTL.MTCFreq
    /// * `nom_freq` - the nominal frequency as defined in MSR_PLATFORM_INFO[15:8]
    /// if zero, timing calibration will only be able to use MTC and CYC packets
    /// if not zero, timing calibration will also be able to use CBR packets
    /// * `flags` - a collection of decoder-specific flags
    /// * `filter` - the address filter configuration
    pub fn new_timing(
        buffer_addr: usize,
        buffer_len: usize,
        cpu: Option<CPU>,
        cpu_errata: Errata,
        ratio: CTCTSCRatio,
        mtc_freq: u8,
        nom_freq: u8,
        flags: Option<DecoderFlags>,
        filter: Option<AddrFilter>,
    ) -> (c: Config)
        requires
            buffer_addr + buffer_len <= usize::MAX,
        ensures
            c@ == Config::timing_spec(
                buffer_addr,
                buffer_len,
                cpu,
                cpu_errata,
                ratio@,
                mtc_freq,
                nom_freq,
                flags,
                filter,
            ),
    {
        let mut errata: u32 = 0;
        let cpu = match cpu {
            None => RawCpu { vendor: 0, family: 0, model: 0, stepping: 0 },
            Some(cpu) => {
                errata = cpu_errata.bits();
                cpu.raw()
            },
        };
        let flags = match flags {
            Some(f) => f.to_conf_flags(),
            None => 0,
        };
        let addr_filter = match filter {
            Some(f) => f.to_conf_addr_filter(),
            None => AddrFilter::default().to_conf_addr_filter(),
        };
        proof {
            assert((0u64 << 12u64) | (0u64 << 8u64) | (0u64 << 4u64) | 0u64 == 0u64) by (bit_vector);
        }
        Config {
            raw: RawConfig {
                begin: buffer_addr,
                end: buffer_addr + buffer_len,
                cpu,
                errata,
                cpuid_0x15_eax: ratio.cpuid_0x15_eax(),
                cpuid_0x15_ebx: ratio.cpuid_0x15_ebx(),
                mtc_freq,
                nom_freq,
                flags,
                addr_filter,
            },
        }
    }

    /// The configuration's fields.
    pub fn raw(&self) -> (r: RawConfig)
        ensures
            r == self@,
    {
        self.raw
    }
}

/// The decoder flag word of a configuration holds exactly the flags that
/// were chosen: each flag of the block, instruction flow or query decoder is
/// set in the word at libipt's bit for that flag exactly when the flag set
/// holds it, and no bit above the flag set's byte is set.
pub proof fn lemma_conf_flags_follow_flags(f: DecoderFlags)
    ensures
        forall|bit: u32| 8 <= bit < 32 ==> !#[trigger] flag_bit(f.conf_flags_spec(), bit),
        f matches DecoderFlags::Block(b) ==> {
            &&& flag_bit(f.conf_flags_spec(), BLOCK_END_ON_CALL_BIT)
                == (b@ & BlockFlags::END_ON_CALL != 0)
            &&& flag_bit(f.conf_flags_spec(), BLOCK_ENABLE_TICK_EVENTS_BIT)
                == (b@ & BlockFlags::ENABLE_TICK_EVENTS != 0)
            &&& flag_bit(f.conf_flags_spec(), BLOCK_END_ON_JUMP_BIT)
                == (b@ & BlockFlags::END_ON_JUMP != 0)
            &&& flag_bit(f.conf_flags_spec(), BLOCK_KEEP_TCAL_ON_OVF_BIT)
                == (b@ & BlockFlags::KEEP_TCAL_ON_OVF != 0)
        },
        f matches DecoderFlags::Insn(i) ==> {
            &&& flag_bit(f.conf_flags_spec(), INSN_ENABLE_TICK_EVENTS_BIT)
                == (i@ & InsnFlags::ENABLE_TICK_EVENTS != 0)
            &&& flag_bit(f.conf_flags_spec(), INSN_KEEP_TCAL_ON_OVF_BIT)
                == (i@ & InsnFlags::KEEP_TCAL_ON_OVF != 0)
        },
        f matches DecoderFlags::Query(q) ==> flag_bit(f.conf_flags_spec(), QUERY_KEEP_TCAL_ON_OVF_BIT)
            == (q@ & QueryFlags::KEEP_TCAL_ON_OVF != 0),
{
    let x: u8 = match f {
        DecoderFlags::Block(b) => b@,
        DecoderFlags::Insn(i) => i@,
        DecoderFlags::Query(q) => q@,
    };
    let w: u32 = x as u32;
    assert(w == f.conf_flags_spec());
    assert(w < 256);
    assert forall|bit: u32| 8 <= bit < 32 implies !#[trigger] flag_bit(w, bit) by {
        assert(w < 256u32 && 8u32 <= bit && bit < 32u32 ==> (w >> bit) & 1u32 == 0u32) by (bit_vector);
    }
    assert(((w >> 0u32) & 1u32 == 1u32) == (x & 1u8 != 0u8)) by (bit_vector)
        requires w == x as u32;
    assert(((w >> 1u32) & 1u32 == 1u32) == (x & 2u8 != 0u8)) by (bit_vector)
        requires w == x as u32;
    assert(((w >> 2u32) & 1u32 == 1u32) == (x & 4u8 != 0u8)) by (bit_vector)
        requires w == x as u32;
    assert(((w >> 3u32) & 1u32 == 1u32) == (x & 8u8 != 0u8)) by (bit_vector)
        requires w == x as u32;
}

/// Packing an address filter into libipt's configuration keeps each range
/// in its place: range `n` has the bounds of the filter's range `n`, and,
/// where each range's configuration fits in four bits, its configuration is
/// the four bits of the word at position `n`.
pub proof fn lemma_conf_addr_filter_ranges(f: AddrFilter)
    ensures
        forall|n: int| 0 <= n < 4 ==> {
            &&& #[trigger] f.conf_spec().range_a(n) == f.range_view(n).0
            &&& f.conf_spec().range_b(n) == f.range_view(n).1
        },
        f.cfgs_fit_nibbles() ==> forall|n: int| 0 <= n < 4 ==>
            #[trigger] f.conf_spec().range_cfg(n) == f.range_view(n).2,
{
    if f.cfgs_fit_nibbles() {
        let c0: u64 = f.range_view(0).2;
        let c1: u64 = f.range_view(1).2;
        let c2: u64 = f.range_view(2).2;
        let c3: u64 = f.range_view(3).2;
        let w: u64 = f.conf_spec().addr_cfg;
        assert(w == (c3 << 12u64) | (c2 << 8u64) | (c1 << 4u64) | c0);
        assert(c0 < 16 && c1 < 16 && c2 < 16 && c3 < 16);
        assert({
            &&& w & 0xf == c0
            &&& (w >> 4u64) & 0xf == c1
            &&& (w >> 8u64) & 0xf == c2
            &&& (w >> 12u64) & 0xf == c3
        }) by (bit_vector)
            requires
                w == (c3 << 12u64) | (c2 << 8u64) | (c1 << 4u64) | c0,
                c0 < 16 && c1 < 16 && c2 < 16 && c3 < 16;
        assert(cfg_nibble(w, 0) == c0);
        assert(cfg_nibble(w, 1) == c1);
        assert(cfg_nibble(w, 2) == c2);
        assert(cfg_nibble(w, 3) == c3);
    }
}

/// A configuration made in one call holds what it was given: the bounds of
/// the buffer, the cpu's identifier exactly as given together with its
/// errata (both zero without a cpu), the timing values, the flag word of
/// the decoder flags (zero without flags), and the filter's four ranges in
/// their places (all zero without a filter).
pub proof fn lemma_timing_config_keeps_inputs(
    buffer_addr: usize,
    buffer_len: usize,
    cpu: Option<CPU>,
    cpu_errata: Errata,
    ratio: (u32, u32),
    mtc_freq: u8,
    nom_freq: u8,
    flags: Option<DecoderFlags>,
    filter: Option<AddrFilter>,
)
    requires
        buffer_addr + buffer_len <= usize::MAX,
    ensures
        ({
            let c = Config::timing_spec(
                buffer_addr,
                buffer_len,
                cpu,
                cpu_errata,
                ratio,
                mtc_freq,
                nom_freq,
                flags,
                filter,
            );
            &&& c.begin == buffer_addr
            &&& c.end == buffer_addr + buffer_len
            &&& (cpu matches Some(x) ==> c.cpu == x@ && c.errata == cpu_errata@)
            &&& (cpu is None ==> c.cpu == (RawCpu { vendor: 0, family: 0, model: 0, stepping: 0 })
                && c.errata == 0)
            &&& c.cpuid_0x15_eax == ratio.0
            &&& c.cpuid_0x15_ebx == ratio.1
            &&& c.mtc_freq == mtc_freq
            &&& c.nom_freq == nom_freq
            &&& (flags matches Some(DecoderFlags::Block(b)) ==> c.flags == b@ as u32)
            &&& (flags matches Some(DecoderFlags::Insn(i)) ==> c.flags == i@ as u32)
            &&& (flags matches Some(DecoderFlags::Query(q)) ==> c.flags == q@ as u32)
            &&& (flags is None ==> c.flags == 0)
            &&& (filter matches Some(f) ==> forall|n: int| 0 <= n < 4 ==> {
                &&& #[trigger] c.addr_filter.range_a(n) == f.range_view(n).0
                &&& c.addr_filter.range_b(n) == f.range_view(n).1
                &&& (f.cfgs_fit_nibbles() ==> c.addr_filter.range_cfg(n) == f.range_view(n).2)
            })
            &&& (filter is None ==> forall|n: int| 0 <= n < 4 ==> {
                &&& #[trigger] c.addr_filter.range_a(n) == 0
                &&& c.addr_filter.range_b(n) == 0
                &&& c.addr_filter.range_cfg(n) == 0
            })
        }),
{
    if let Some(f) = filter {
        lemma_conf_addr_filter_ranges(f);
    } else {
        assert(0u64 & 0xf == 0 && (0u64 >> 4u64) & 0xf == 0 && (0u64 >> 8u64) & 0xf == 0
            && (0u64 >> 12u64) & 0xf == 0) by (bit_vector);
    }
}

} // verus!
