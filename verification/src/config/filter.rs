use crate::error::PtError;
use crate::raw_config::{
    cfg_replaced, lemma_replace_nibble, read_cfg_nibble, replace_cfg_nibble, RawAddrFilter,
    PT_ADDR_CFG_DISABLED, PT_ADDR_CFG_FILTER, PT_ADDR_CFG_STOP,
};
use vstd::prelude::*;

verus! {

/// The configuration of an address range: disabled, a filter range or a stop range.
#[allow(non_camel_case_types)]
#[derive(Clone, Copy, PartialEq, Eq, Structural, Debug)]
pub enum AddrConfig {
    DISABLED,
    FILTER,
    STOP,
}

impl AddrConfig {
    /// The raw value of this configuration: 0, 1 or 2.
    pub open spec fn value(self) -> u64 {
        match self {
            AddrConfig::DISABLED => 0,
            AddrConfig::FILTER => 1,
            AddrConfig::STOP => 2,
        }
    }

    /// The configuration whose raw value is `v`, if there is one.
    pub open spec fn from_value(v: u64) -> Option<AddrConfig> {
        if v == 0 {
            Some(AddrConfig::DISABLED)
        } else if v == 1 {
            Some(AddrConfig::FILTER)
        } else if v == 2 {
            Some(AddrConfig::STOP)
        } else {
            None
        }
    }

    /// The raw value of this configuration.
    pub fn to_primitive(self) -> (v: u32)
        ensures
            v == self.value(),
    {
        match self {
            AddrConfig::DISABLED => 0,
            AddrConfig::FILTER => 1,
            AddrConfig::STOP => 2,
        }
    }

    /// Converts a raw value; a value that names no configuration gives the
    /// conversion error.
    pub fn try_from_primitive(v: u32) -> (r: Result<AddrConfig, PtError>)
        ensures
            match AddrConfig::from_value(v as u64) {
                Some(c) => r == Ok::<AddrConfig, PtError>(c),
                None => r is Err && r->Err_0@ == PtError::conversion_failure_view(),
            },
    {
        if v == 0 {
            Ok(AddrConfig::DISABLED)
        } else if v == 1 {
            Ok(AddrConfig::FILTER)
        } else if v == 2 {
            Ok(AddrConfig::STOP)
        } else {
            Err(PtError::conversion_failure())
        }
    }
}

/// Each configuration has the number that libipt's `pt_addr_cfg` gives the
/// range configuration of the same name, so a range's four configuration
/// bits are read as the configuration libipt would apply.
pub proof fn lemma_addr_configs_are_libipt_configs()
    ensures
        AddrConfig::from_value(PT_ADDR_CFG_DISABLED) == Some(AddrConfig::DISABLED),
        AddrConfig::from_value(PT_ADDR_CFG_FILTER) == Some(AddrConfig::FILTER),
        AddrConfig::from_value(PT_ADDR_CFG_STOP) == Some(AddrConfig::STOP),
{
}

/// Converting a configuration to its value and back gives it again.
pub proof fn lemma_addr_config_roundtrip(c: AddrConfig, v: u64)
    ensures
        AddrConfig::from_value(c.value()) == Some(c),
        AddrConfig::from_value(v) == Some(c) ==> c.value() == v,
{
}

/// The fields of an address range.
pub struct AddrRangeView {
    pub a: u64,
    pub b: u64,
    pub cfg: AddrConfig,
}

/// an address range inside the address filter
#[derive(Clone, Copy, Debug)]
pub struct AddrRange {
    /// This corresponds to the IA32_RTIT_ADDRn_A MSRs
    a: u64,
    /// This corresponds to the IA32_RTIT_ADDRn_B MSRs
    b: u64,
    /// this corresponds to the respective fields in IA32_RTIT_CTL MSR
    cfg: AddrConfig,
}

impl View for AddrRange {
    type V = AddrRangeView;

    closed spec fn view(&self) -> AddrRangeView {
        AddrRangeView { a: self.a, b: self.b, cfg: self.cfg }
    }
}

impl AddrRange {
    /// Creates an address range.
    pub fn new(a: u64, b: u64, cfg: AddrConfig) -> (r: AddrRange)
        ensures
            r@ == (AddrRangeView { a, b, cfg }),
    {
        AddrRange { a, b, cfg }
    }

    /// This corresponds to the IA32_RTIT_ADDRn_A MSRs
    pub fn a(&self) -> (r: u64)
        ensures
            r == self@.a,
    {
        self.a
    }

    /// This corresponds to the IA32_RTIT_ADDRn_B MSRs
    pub fn b(&self) -> (r: u64)
        ensures
            r == self@.b,
    {
        self.b
    }

    /// this corresponds to the respective fields in IA32_RTIT_CTL MSR
    pub fn cfg(&self) -> (r: AddrConfig)
        ensures
            r == self@.cfg,
    {
        self.cfg
    }

    /// This corresponds to the IA32_RTIT_ADDRn_A MSRs
    pub fn set_a(&mut self, a: u64)
        ensures
            final(self)@ == (AddrRangeView { a, ..old(self)@ }),
    {
        self.a = a;
    }

    /// This corresponds to the IA32_RTIT_ADDRn_B MSRs
    pub fn set_b(&mut self, b: u64)
        ensures
            final(self)@ == (AddrRangeView { b, ..old(self)@ }),
    {
        self.b = b;
    }

    /// this corresponds to the respective fields in IA32_RTIT_CTL MSR
    pub fn set_cfg(&mut self, cfg: AddrConfig)
        ensures
            final(self)@ == (AddrRangeView { cfg, ..old(self)@ }),
    {
        self.cfg = cfg
    }
}

/// Range `n` of a raw address filter, read back as an `AddrRange` view.
pub open spec fn range_at(raw: RawAddrFilter, n: int) -> AddrRangeView {
    AddrRangeView {
        a: raw.range_a(n),
        b: raw.range_b(n),
        cfg: AddrConfig::from_value(raw.range_cfg(n)).unwrap(),
    }
}

/// A raw address filter with range `n` set to `r`: its bounds, and its
/// configuration in nibble `n` of the configuration word.
pub open spec fn with_addr_range(raw: RawAddrFilter, n: int, r: AddrRangeView) -> RawAddrFilter {
    RawAddrFilter {
        addr_cfg: cfg_replaced(raw.addr_cfg, r.cfg.value(), n),
        ..raw.with_range(n, r.a, r.b)
    }
}

/// the address filter configuration
#[derive(Clone, Copy, Debug)]
pub struct AddrFilter(pub(super) RawAddrFilter);

impl View for AddrFilter {
    type V = RawAddrFilter;

    closed spec fn view(&self) -> RawAddrFilter {
        self.0
    }
}

impl AddrFilter {
    /// Range `n`, whose configuration nibble must name a configuration.
    fn range(&self, n: u32) -> (r: AddrRange)
        requires
            n < 4,
            self@.range_cfg(n as int) <= 2,
        ensures
            r@ == range_at(self@, n as int),
    {
        let cfg = match AddrConfig::try_from_primitive(read_cfg_nibble(self.0.addr_cfg, n)) {
            Ok(c) => c,
            Err(_) => AddrConfig::DISABLED,
        };
        if n == 0 {
            AddrRange::new(self.0.addr0_a, self.0.addr0_b, cfg)
        } else if n == 1 {
            AddrRange::new(self.0.addr1_a, self.0.addr1_b, cfg)
        } else if n == 2 {
            AddrRange::new(self.0.addr2_a, self.0.addr2_b, cfg)
        } else {
            AddrRange::new(self.0.addr3_a, self.0.addr3_b, cfg)
        }
    }

    /// Address range 0.
    pub fn addr0(&self) -> (r: AddrRange)
        requires
            self@.range_cfg(0) <= 2,
        ensures
            r@ == range_at(self@, 0),
    {
        self.range(0)
    }

    /// Address range 1.
    pub fn addr1(&self) -> (r: AddrRange)
        requires
            self@.range_cfg(1) <= 2,
        ensures
            r@ == range_at(self@, 1),
    {
        self.range(1)
    }

    /// Address range 2.
    pub fn addr2(&self) -> (r: AddrRange)
        requires
            self@.range_cfg(2) <= 2,
        ensures
            r@ == range_at(self@, 2),
    {
        self.range(2)
    }

    /// Address range 3.
    pub fn addr3(&self) -> (r: AddrRange)
        requires
            self@.range_cfg(3) <= 2,
        ensures
            r@ == range_at(self@, 3),
    {
        self.range(3)
    }

    /// The raw address filter.
    pub fn raw(&self) -> (r: RawAddrFilter)
        ensures
            r == self@,
    {
        self.0
    }
}

/// Builds an address filter configuration range by range.
pub struct AddrFilterBuilder(pub(super) RawAddrFilter);

impl View for AddrFilterBuilder {
    type V = RawAddrFilter;

    closed spec fn view(&self) -> RawAddrFilter {
        self.0
    }
}

impl AddrFilterBuilder {
    /// A builder with no range configured.
    pub fn new() -> (b: AddrFilterBuilder)
        ensures
            b@ == RawAddrFilter::zero_spec(),
    {
        AddrFilterBuilder(RawAddrFilter::zero())
    }

    /// Sets range `n`.
    fn set_range(&mut self, n: u32, range: AddrRange)
        requires
            n < 4,
        ensures
            final(self)@ == with_addr_range(old(self)@, n as int, range@),
    {
        self.0.set_range(n, range.a, range.b);
        self.0.addr_cfg = replace_cfg_nibble(self.0.addr_cfg, range.cfg.to_primitive(), n);
    }

    /// Sets address range 0.
    pub fn addr0(&mut self, range: AddrRange) -> (r: &mut AddrFilterBuilder)
        ensures
            r@ == with_addr_range(old(self)@, 0, range@),
            final(self)@ == final(r)@,
    {
        self.set_range(0, range);
        self
    }

    /// Sets address range 1.
    pub fn addr1(&mut self, range: AddrRange) -> (r: &mut AddrFilterBuilder)
        ensures
            r@ == with_addr_range(old(self)@, 1, range@),
            final(self)@ == final(r)@,
    {
        self.set_range(1, range);
        self
    }

    /// Sets address range 2.
    pub fn addr2(&mut self, range: AddrRange) -> (r: &mut AddrFilterBuilder)
        ensures
            r@ == with_addr_range(old(self)@, 2, range@),
            final(self)@ == final(r)@,
    {
        self.set_range(2, range);
        self
    }

    /// Sets address range 3.
    pub fn addr3(&mut self, range: AddrRange) -> (r: &mut AddrFilterBuilder)
        ensures
            r@ == with_addr_range(old(self)@, 3, range@),
            final(self)@ == final(r)@,
    {
        self.set_range(3, range);
        self
    }

    /// The address filter built so far.
    pub fn finish(&self) -> (f: AddrFilter)
        ensures
            f@ == self@,
    {
        AddrFilter(self.0)
    }
}

/// Setting range `n` of a raw address filter and reading it back gives the
/// range set; the other ranges are unchanged.
pub proof fn lemma_builder_set_then_read(raw: RawAddrFilter, n: int, r: AddrRangeView)
    requires
        0 <= n < 4,
    ensures
        with_addr_range(raw, n, r).range_cfg(n) <= 2,
        range_at(with_addr_range(raw, n, r), n) == r,
        forall|m: int| 0 <= m < 4 && m != n ==> #[trigger] range_at(with_addr_range(raw, n, r), m)
            == range_at(raw, m),
{
    lemma_replace_nibble(raw.addr_cfg, r.cfg.value(), n);
    lemma_addr_config_roundtrip(r.cfg, 0);
}

} // verus!
