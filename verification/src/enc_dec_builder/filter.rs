use crate::error::{PtError, PtErrorCode};
use crate::raw_config::{
    cfg_nibble, cfg_shifted, lemma_or_into_empty_nibble, RawAddrFilter, PT_ADDR_CFG_DISABLED,
    PT_ADDR_CFG_FILTER, PT_ADDR_CFG_STOP,
};
use vstd::prelude::*;

verus! {

/// This corresponds to the IA32_RTIT_ADDRn_CFG MSRs
#[allow(non_camel_case_types)]
#[derive(Clone, Copy, Debug, PartialEq, Eq, Structural)]
pub enum AddrFilterType {
    DISABLED,
    FILTER,
    STOP,
}

impl AddrFilterType {
    /// The raw value of this filter type: 0, 1 or 2.
    pub open spec fn value(self) -> u64 {
        match self {
            AddrFilterType::DISABLED => 0,
            AddrFilterType::FILTER => 1,
            AddrFilterType::STOP => 2,
        }
    }

    /// The filter type whose raw value is `v`, if there is one.
    pub open spec fn from_value(v: u64) -> Option<AddrFilterType> {
        if v == 0 {
            Some(AddrFilterType::DISABLED)
        } else if v == 1 {
            Some(AddrFilterType::FILTER)
        } else if v == 2 {
            Some(AddrFilterType::STOP)
        } else {
            None
        }
    }

    /// The raw value of this filter type.
    pub fn to_primitive(self) -> (v: u32)
        ensures
            v == self.value(),
    {
        match self {
            AddrFilterType::DISABLED => 0,
            AddrFilterType::FILTER => 1,
            AddrFilterType::STOP => 2,
        }
    }

    /// Converts a raw value; a value that names no filter type gives the
    /// conversion error.
    pub fn try_from_primitive(v: u32) -> (r: Result<AddrFilterType, PtError>)
        ensures
            match AddrFilterType::from_value(v as u64) {
                Some(t) => r == Ok::<AddrFilterType, PtError>(t),
                None => r is Err && r->Err_0@ == PtError::conversion_failure_view(),
            },
    {
        if v == 0 {
            Ok(AddrFilterType::DISABLED)
        } else if v == 1 {
            Ok(AddrFilterType::FILTER)
        } else if v == 2 {
            Ok(AddrFilterType::STOP)
        } else {
            Err(PtError::conversion_failure())
        }
    }

    /// This filter type moved into the configuration nibble of range `n`.
    pub fn to_addr_cfg_raw(self, n: u32) -> (r: u64)
        requires
            n < 16,
        ensures
            r == self.value() << ((4 * n) as u64),
            n < 4 ==> r == cfg_shifted(self.value(), n as int),
    {
        let v = self.to_primitive() as u64;
        let s = (4 * n) as u64;
        let r = v << s;
        proof {
            assert(v << 0u64 == v) by (bit_vector);
        }
        r
    }
}

impl Default for AddrFilterType {
    fn default() -> (t: AddrFilterType)
        ensures
            t == AddrFilterType::DISABLED,
    {
        AddrFilterType::DISABLED
    }
}

/// Each filter type has the number that libipt's `pt_addr_cfg` gives the
/// range configuration of the same name, so a range's four configuration
/// bits are read as the filter type libipt would apply.
pub proof fn lemma_filter_types_are_libipt_configs()
    ensures
        AddrFilterType::from_value(PT_ADDR_CFG_DISABLED) == Some(AddrFilterType::DISABLED),
        AddrFilterType::from_value(PT_ADDR_CFG_FILTER) == Some(AddrFilterType::FILTER),
        AddrFilterType::from_value(PT_ADDR_CFG_STOP) == Some(AddrFilterType::STOP),
{
}

/// Converting a filter type to its value and back gives it again.
pub proof fn lemma_addr_filter_type_roundtrip(t: AddrFilterType, v: u64)
    ensures
        AddrFilterType::from_value(t.value()) == Some(t),
        AddrFilterType::from_value(v) == Some(t) ==> t.value() == v,
{
}

/// an address range inside the address filter
#[derive(Debug, Clone, Copy)]
pub struct AddrFilter {
    /// This corresponds to the IA32_RTIT_ADDRn_A MSRs
    pub from: u64,
    /// This corresponds to the IA32_RTIT_ADDRn_B MSRs
    pub to: u64,
    /// this corresponds to the respective fields in IA32_RTIT_CTL MSR
    pub filter_type: AddrFilterType,
}

impl AddrFilter {
    /// The address range with these fields.
    pub open spec fn new_spec(from: u64, to: u64, filter_type: AddrFilterType) -> AddrFilter {
        AddrFilter { from, to, filter_type }
    }

    /// Creates an address range.
    pub fn new(from: u64, to: u64, filter_type: AddrFilterType) -> (f: AddrFilter)
        ensures
            f == AddrFilter::new_spec(from, to, filter_type),
    {
        AddrFilter { from, to, filter_type }
    }
}

/// The configuration word that packs the filter types of `s`: the type of
/// `s[i]` in nibble `i`, for each of the first four ranges.
pub open spec fn packed_cfg(s: Seq<AddrFilter>) -> u64 {
    (if s.len() > 0 { cfg_shifted(s[0].filter_type.value(), 0) } else { 0 })
        | (if s.len() > 1 { cfg_shifted(s[1].filter_type.value(), 1) } else { 0 })
        | (if s.len() > 2 { cfg_shifted(s[2].filter_type.value(), 2) } else { 0 })
        | (if s.len() > 3 { cfg_shifted(s[3].filter_type.value(), 3) } else { 0 })
}

/// The raw address filter that holds the ranges of `s`, in order; the
/// ranges that `s` does not give are zero.
pub open spec fn filters_raw(s: Seq<AddrFilter>) -> RawAddrFilter {
    RawAddrFilter {
        addr_cfg: packed_cfg(s),
        addr0_a: if s.len() > 0 { s[0].from } else { 0 },
        addr0_b: if s.len() > 0 { s[0].to } else { 0 },
        addr1_a: if s.len() > 1 { s[1].from } else { 0 },
        addr1_b: if s.len() > 1 { s[1].to } else { 0 },
        addr2_a: if s.len() > 2 { s[2].from } else { 0 },
        addr2_b: if s.len() > 2 { s[2].to } else { 0 },
        addr3_a: if s.len() > 3 { s[3].from } else { 0 },
        addr3_b: if s.len() > 3 { s[3].to } else { 0 },
    }
}

/// The range `n` of a raw address filter, read back as an `AddrFilter`.
pub open spec fn filter_at(raw: RawAddrFilter, n: int) -> AddrFilter {
    AddrFilter {
        from: raw.range_a(n),
        to: raw.range_b(n),
        filter_type: AddrFilterType::from_value(raw.range_cfg(n)).unwrap(),
    }
}

/// Whether the configuration nibbles of all four ranges name a filter type.
pub open spec fn types_valid(raw: RawAddrFilter) -> bool {
    forall|n: int| 0 <= n < 4 ==> #[trigger] raw.range_cfg(n) <= 2
}

/// the address filter configuration
#[derive(Debug, Clone, Copy)]
pub struct AddrFilters(pub(crate) RawAddrFilter);

impl View for AddrFilters {
    type V = RawAddrFilter;

    closed spec fn view(&self) -> RawAddrFilter {
        self.0
    }
}

/// The nibbles of the word that `packed_cfg` builds are the filter types
/// that it packs, and zero for the ranges not given.
proof fn lemma_packed_cfg_nibbles(s: Seq<AddrFilter>)
    requires
        s.len() <= 4,
    ensures
        forall|n: int| 0 <= n < 4 ==> #[trigger] cfg_nibble(packed_cfg(s), n)
            == if n < s.len() { s[n].filter_type.value() } else { 0 },
{
    let v0: u64 = if s.len() > 0 { s[0].filter_type.value() } else { 0 };
    let v1: u64 = if s.len() > 1 { s[1].filter_type.value() } else { 0 };
    let v2: u64 = if s.len() > 2 { s[2].filter_type.value() } else { 0 };
    let v3: u64 = if s.len() > 3 { s[3].filter_type.value() } else { 0 };
    assert(v0 << 0u64 == v0) by (bit_vector);
    assert(0u64 << 4u64 == 0 && 0u64 << 8u64 == 0 && 0u64 << 12u64 == 0) by (bit_vector);
    let w = v0 | (v1 << 4u64) | (v2 << 8u64) | (v3 << 12u64);
    assert(packed_cfg(s) == w);
    assert(v0 <= 2 && v1 <= 2 && v2 <= 2 && v3 <= 2 ==> {
        &&& (v0 | (v1 << 4u64) | (v2 << 8u64) | (v3 << 12u64)) & 0xf == v0
        &&& ((v0 | (v1 << 4u64) | (v2 << 8u64) | (v3 << 12u64)) >> 4u64) & 0xf == v1
        &&& ((v0 | (v1 << 4u64) | (v2 << 8u64) | (v3 << 12u64)) >> 8u64) & 0xf == v2
        &&& ((v0 | (v1 << 4u64) | (v2 << 8u64) | (v3 << 12u64)) >> 12u64) & 0xf == v3
    }) by (bit_vector);
}

impl AddrFilters {
    /// Packs up to four address ranges into an address filter configuration;
    /// more than four ranges give a `BadConfig` error.
    pub fn new(filters: &[AddrFilter]) -> (r: Result<AddrFilters, PtError>)
        ensures
            r is Err <==> filters@.len() > 4,
            r matches Ok(f) ==> f@ == filters_raw(filters@),
            r matches Err(e) ==> e@ == (
                PtErrorCode::BadConfig,
                "The maximum number of address filters is 4"@,
            ),
    {
        if filters.len() > 4 {
            return Err(
                PtError::new(PtErrorCode::BadConfig, "The maximum number of address filters is 4"),
            );
        }
        let mut inner = RawAddrFilter::zero();
        if !filters.is_empty() {
            inner.addr0_a = filters[0].from;
            inner.addr0_b = filters[0].to;
            inner.addr_cfg = inner.addr_cfg | filters[0].filter_type.to_addr_cfg_raw(0);
        }
        if filters.len() >= 2 {
            inner.addr1_a = filters[1].from;
            inner.addr1_b = filters[1].to;
            inner.addr_cfg = inner.addr_cfg | filters[1].filter_type.to_addr_cfg_raw(1);
        }
        if filters.len() >= 3 {
            inner.addr2_a = filters[2].from;
            inner.addr2_b = filters[2].to;
            inner.addr_cfg = inner.addr_cfg | filters[2].filter_type.to_addr_cfg_raw(2);
        }
        if filters.len() == 4 {
            inner.addr3_a = filters[3].from;
            inner.addr3_b = filters[3].to;
            inner.addr_cfg = inner.addr_cfg | filters[3].filter_type.to_addr_cfg_raw(3);
        }
        proof {
            let s = filters@;
            let c0: u64 = if s.len() > 0 { cfg_shifted(s[0].filter_type.value(), 0) } else { 0 };
            let c1: u64 = if s.len() > 1 { cfg_shifted(s[1].filter_type.value(), 1) } else { 0 };
            let c2: u64 = if s.len() > 2 { cfg_shifted(s[2].filter_type.value(), 2) } else { 0 };
            let c3: u64 = if s.len() > 3 { cfg_shifted(s[3].filter_type.value(), 3) } else { 0 };
            assert(0u64 | c0 == c0) by (bit_vector);
            assert(c0 | 0u64 == c0) by (bit_vector);
            assert((c0 | c1) | 0u64 == c0 | c1) by (bit_vector);
            assert((c0 | c1 | c2) | 0u64 == c0 | c1 | c2) by (bit_vector);
            assert(inner.addr_cfg == c0 | c1 | c2 | c3);
        }
        Ok(AddrFilters(inner))
    }

    /// The filter type in the configuration nibble of range `n`.
    fn addrn_filter_type(&self, n: u32) -> (t: AddrFilterType)
        requires
            n < 4,
            self@.range_cfg(n as int) <= 2,
        ensures
            t.value() == self@.range_cfg(n as int),
    {
        let word = self.0.addr_cfg;
        let low = word as u32;
        let v = (low >> (4 * n)) & 0xf;
        proof {
            assert((word as u32) & 0xf == word & 0xf) by (bit_vector);
            assert(((word as u32) >> 4u32) & 0xf == (word >> 4u64) & 0xf) by (bit_vector);
            assert(((word as u32) >> 8u32) & 0xf == (word >> 8u64) & 0xf) by (bit_vector);
            assert(((word as u32) >> 12u32) & 0xf == (word >> 12u64) & 0xf) by (bit_vector);
            assert(low >> 0u32 == low) by (bit_vector);
        }
        if v == 0 {
            AddrFilterType::DISABLED
        } else if v == 1 {
            AddrFilterType::FILTER
        } else {
            AddrFilterType::STOP
        }
    }

    /// Address range 0.
    pub fn addr0(&self) -> (f: AddrFilter)
        requires
            self@.range_cfg(0) <= 2,
        ensures
            f == filter_at(self@, 0),
    {
        AddrFilter { from: self.0.addr0_a, to: self.0.addr0_b, filter_type: self.addrn_filter_type(0) }
    }

    /// Address range 1.
    pub fn addr1(&self) -> (f: AddrFilter)
        requires
            self@.range_cfg(1) <= 2,
        ensures
            f == filter_at(self@, 1),
    {
        AddrFilter { from: self.0.addr1_a, to: self.0.addr1_b, filter_type: self.addrn_filter_type(1) }
    }

    /// Address range 2.
    pub fn addr2(&self) -> (f: AddrFilter)
        requires
            self@.range_cfg(2) <= 2,
        ensures
            f == filter_at(self@, 2),
    {
        AddrFilter { from: self.0.addr2_a, to: self.0.addr2_b, filter_type: self.addrn_filter_type(2) }
    }

    /// Address range 3.
    pub fn addr3(&self) -> (f: AddrFilter)
        requires
            self@.range_cfg(3) <= 2,
        ensures
            f == filter_at(self@, 3),
    {
        AddrFilter { from: self.0.addr3_a, to: self.0.addr3_b, filter_type: self.addrn_filter_type(3) }
    }

    /// Sets the bounds of range 0 and ORs its filter type into the
    /// configuration word.
    pub fn set_addr0(&mut self, range: AddrFilter)
        ensures
            final(self)@ == (RawAddrFilter {
                addr_cfg: old(self)@.addr_cfg | cfg_shifted(range.filter_type.value(), 0),
                ..old(self)@.with_range(0, range.from, range.to)
            }),
    {
        self.0.addr0_a = range.from;
        self.0.addr0_b = range.to;
        self.0.addr_cfg = self.0.addr_cfg | range.filter_type.to_addr_cfg_raw(0);
    }

    /// Sets the bounds of range 1 and ORs its filter type into the
    /// configuration word.
    pub fn set_addr1(&mut self, range: AddrFilter)
        ensures
            final(self)@ == (RawAddrFilter {
                addr_cfg: old(self)@.addr_cfg | cfg_shifted(range.filter_type.value(), 1),
                ..old(self)@.with_range(1, range.from, range.to)
            }),
    {
        self.0.addr1_a = range.from;
        self.0.addr1_b = range.to;
        self.0.addr_cfg = self.0.addr_cfg | range.filter_type.to_addr_cfg_raw(1);
    }

    /// Sets the bounds of range 2 and ORs its filter type into the
    /// configuration word.
    pub fn set_addr2(&mut self, range: AddrFilter)
        ensures
            final(self)@ == (RawAddrFilter {
                addr_cfg: old(self)@.addr_cfg | cfg_shifted(range.filter_type.value(), 2),
                ..old(self)@.with_range(2, range.from, range.to)
            }),
    {
        self.0.addr2_a = range.from;
        self.0.addr2_b = range.to;
        self.0.addr_cfg = self.0.addr_cfg | range.filter_type.to_addr_cfg_raw(2);
    }

    /// Sets the bounds of range 3 and ORs its filter type into the
    /// configuration word.
    pub fn set_addr3(&mut self, range: AddrFilter)
        ensures
            final(self)@ == (RawAddrFilter {
                addr_cfg: old(self)@.addr_cfg | cfg_shifted(range.filter_type.value(), 3),
                ..old(self)@.with_range(3, range.from, range.to)
            }),
    {
        self.0.addr3_a = range.from;
        self.0.addr3_b = range.to;
        self.0.addr_cfg = self.0.addr_cfg | range.filter_type.to_addr_cfg_raw(3);
    }

    /// The raw address filter.
    pub fn raw(&self) -> (r: RawAddrFilter)
        ensures
            r == self@,
    {
        self.0
    }

    /// Walks the four address ranges in order.
    pub fn iter(&self) -> (it: Iter<'_>)
        ensures
            it@ == (self@, 0usize),
    {
        Iter { filters: self, i: 0 }
    }
}

impl Default for AddrFilters {
    /// No range configured.
    fn default() -> (f: AddrFilters)
        ensures
            f@ == RawAddrFilter::zero_spec(),
    {
        AddrFilters(RawAddrFilter::zero())
    }
}

impl PartialEq for AddrFilters {
    fn eq(&self, other: &AddrFilters) -> (b: bool) {
        self.0.addr0_a == other.0.addr0_a && self.0.addr0_b == other.0.addr0_b
            && self.0.addr1_a == other.0.addr1_a && self.0.addr1_b == other.0.addr1_b
            && self.0.addr2_a == other.0.addr2_a && self.0.addr2_b == other.0.addr2_b
            && self.0.addr3_a == other.0.addr3_a && self.0.addr3_b == other.0.addr3_b
            && self.0.addr_cfg == other.0.addr_cfg
    }
}

impl vstd::std_specs::cmp::PartialEqSpecImpl for AddrFilters {
    open spec fn obeys_eq_spec() -> bool {
        true
    }

    open spec fn eq_spec(&self, other: &AddrFilters) -> bool {
        self@ == other@
    }
}

/// Walks the four address ranges of an address filter configuration.
pub struct Iter<'a> {
    filters: &'a AddrFilters,
    i: usize,
}

impl<'a> View for Iter<'a> {
    type V = (RawAddrFilter, usize);

    closed spec fn view(&self) -> (RawAddrFilter, usize) {
        (self.filters@, self.i)
    }
}

impl<'a> Iter<'a> {
    /// The next address range, or `None` after the fourth.
    pub fn next(&mut self) -> (r: Option<AddrFilter>)
        requires
            old(self)@.1 < 4 ==> old(self)@.0.range_cfg(old(self)@.1 as int) <= 2,
        ensures
            final(self)@.0 == old(self)@.0,
            old(self)@.1 < 4 ==> r == Some(filter_at(old(self)@.0, old(self)@.1 as int))
                && final(self)@.1 == old(self)@.1 + 1,
            old(self)@.1 >= 4 ==> r is None && final(self)@.1 == old(self)@.1,
    {
        let filter = if self.i == 0 {
            self.filters.addr0()
        } else if self.i == 1 {
            self.filters.addr1()
        } else if self.i == 2 {
            self.filters.addr2()
        } else if self.i == 3 {
            self.filters.addr3()
        } else {
            return None;
        };
        self.i = self.i + 1;
        Some(filter)
    }
}

/// Packing ranges with `AddrFilters::new` and reading range `n` back gives
/// the `n`-th range given; the ranges not given read back as a disabled
/// range from zero to zero.
pub proof fn lemma_new_then_read(s: Seq<AddrFilter>, n: int)
    requires
        s.len() <= 4,
        0 <= n < 4,
    ensures
        filters_raw(s).range_cfg(n) <= 2,
        types_valid(filters_raw(s)),
        n < s.len() ==> filter_at(filters_raw(s), n) == s[n],
        n >= s.len() ==> filter_at(filters_raw(s), n) == AddrFilter::new_spec(
            0,
            0,
            AddrFilterType::DISABLED,
        ),
{
    lemma_packed_cfg_nibbles(s);
    assert(filters_raw(s).range_cfg(0) == cfg_nibble(packed_cfg(s), 0));
    assert(filters_raw(s).range_cfg(1) == cfg_nibble(packed_cfg(s), 1));
    assert(filters_raw(s).range_cfg(2) == cfg_nibble(packed_cfg(s), 2));
    assert(filters_raw(s).range_cfg(3) == cfg_nibble(packed_cfg(s), 3));
    if n < s.len() {
        lemma_addr_filter_type_roundtrip(s[n].filter_type, 0);
    }
}

/// Setting range `n` of a configuration whose range `n` is disabled and
/// reading it back gives the range set; the other ranges are unchanged.
pub proof fn lemma_set_then_read(raw: RawAddrFilter, range: AddrFilter, n: int)
    requires
        0 <= n < 4,
        raw.range_cfg(n) == 0,
    ensures
        ({
            let updated = RawAddrFilter {
                addr_cfg: raw.addr_cfg | cfg_shifted(range.filter_type.value(), n),
                ..raw.with_range(n, range.from, range.to)
            };
            &&& filter_at(updated, n) == range
            &&& forall|m: int| 0 <= m < 4 && m != n ==> filter_at(updated, m) == filter_at(raw, m)
        }),
{
    lemma_or_into_empty_nibble(raw.addr_cfg, range.filter_type.value(), n);
    lemma_addr_filter_type_roundtrip(range.filter_type, 0);
}

} // verus!
