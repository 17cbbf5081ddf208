use super::filter::AddrFilter;
use super::freqency::Frequency;
use super::DecoderFlags;
use crate::enc_dec_builder::cpu::{Cpu, Errata};
use crate::error::{PtError, PtErrorCode};
use crate::raw_config::RawConfig;
use std::marker::PhantomData;
use vstd::prelude::*;

verus! {

/// A helper type to create the libipt Configuration instance
pub struct ConfigBuilder<T> {
    config: RawConfig,
    target: PhantomData<T>,
}

impl<T> View for ConfigBuilder<T> {
    type V = RawConfig;

    closed spec fn view(&self) -> RawConfig {
        self.config
    }
}

impl<T> ConfigBuilder<T> {
    /// Initializes a Config instance with only a buffer, given by its address
    /// and length. Returns `Invalid` when the buffer is empty.
    pub fn new(buf_addr: usize, buf_len: usize) -> (r: Result<ConfigBuilder<T>, PtError>)
        requires
            buf_addr + buf_len <= usize::MAX,
        ensures
            r is Err <==> buf_len == 0,
            r matches Err(e) ==> e@ == (PtErrorCode::Invalid, "buffer cant be empty!"@),
            r matches Ok(b) ==> b@ == (RawConfig {
                begin: buf_addr,
                end: (buf_addr + buf_len) as usize,
                ..RawConfig::zero_spec()
            }),
    {
        if buf_len == 0 {
            return Err(PtError::new(PtErrorCode::Invalid, "buffer cant be empty!"));
        }
        let mut config = RawConfig::zero();
        config.begin = buf_addr;
        config.end = buf_addr + buf_len;
        Ok(ConfigBuilder { config, target: PhantomData })
    }

    /// The cpu used for capturing the data, with the errata that libipt
    /// determined for it (zero when it could not).
    /// It's highly recommended to provide this information.
    /// Processor specific workarounds will be identified this way.
    pub fn cpu(&mut self, cpu: Cpu, errata: Errata) -> (r: &mut ConfigBuilder<T>)
        ensures
            r@ == (RawConfig { cpu: cpu@, errata: errata@, ..old(self)@ }),
            final(self)@ == final(r)@,
    {
        self.config.cpu = cpu.raw();
        self.config.errata = errata.bits();
        self
    }

    /// Frequency values used for timing packets (mtc)
    pub fn freq(&mut self, freq: Frequency) -> (r: &mut ConfigBuilder<T>)
        ensures
            r@ == (RawConfig {
                mtc_freq: freq@.mtc,
                nom_freq: freq@.nom,
                cpuid_0x15_eax: freq@.tsc,
                cpuid_0x15_ebx: freq@.ctc,
                ..old(self)@
            }),
            final(self)@ == final(r)@,
    {
        self.config.mtc_freq = freq.mtc();
        self.config.nom_freq = freq.nom();
        self.config.cpuid_0x15_eax = freq.tsc();
        self.config.cpuid_0x15_ebx = freq.ctc();
        self
    }

    /// Decoder specific flags
    pub fn flags(&mut self, flags: DecoderFlags) -> (r: &mut ConfigBuilder<T>)
        ensures
            r@ == (RawConfig { flags: flags.conf_flags_spec(), ..old(self)@ }),
            final(self)@ == final(r)@,
    {
        self.config.flags = flags.to_conf_flags();
        self
    }

    /// Address filter configuration
    pub fn filter(&mut self, filter: AddrFilter) -> (r: &mut ConfigBuilder<T>)
        ensures
            r@ == (RawConfig { addr_filter: filter@, ..old(self)@ }),
            final(self)@ == final(r)@,
    {
        self.config.addr_filter = filter.raw();
        self
    }

    /// turn itself into a new `Config`
    pub fn finish(&self) -> (c: Config<T>)
        ensures
            c@ == self@,
    {
        Config { config: self.config, target: PhantomData }
    }
}

/// A libipt configuration
pub struct Config<C> {
    config: RawConfig,
    target: PhantomData<C>,
}

impl<C> View for Config<C> {
    type V = RawConfig;

    closed spec fn view(&self) -> RawConfig {
        self.config
    }
}

impl<C> Config<C> {
    /// The configuration's fields.
    pub fn raw(&self) -> (r: RawConfig)
        ensures
            r == self@,
    {
        self.config
    }

    /// The length of this configuration's buffer.
    pub fn buffer_len(&self) -> (n: usize)
        requires
            self@.begin <= self@.end,
        ensures
            n == self@.end - self@.begin,
    {
        self.config.end - self.config.begin
    }
}

} // verus!
