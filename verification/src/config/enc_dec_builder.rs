use super::flags::{
    BLOCK_ENABLE_IFLAGS_EVENTS_BIT, BLOCK_ENABLE_TICK_EVENTS_BIT, BLOCK_END_ON_CALL_BIT,
    BLOCK_END_ON_JUMP_BIT, BLOCK_KEEP_TCAL_ON_OVF_BIT, INSN_ENABLE_IFLAGS_EVENTS_BIT,
    INSN_ENABLE_TICK_EVENTS_BIT, INSN_KEEP_TCAL_ON_OVF_BIT, QUERY_ENABLE_IFLAGS_EVENTS_BIT,
    QUERY_KEEP_TCAL_ON_OVF_BIT,
};
use super::filter::AddrFilter;
use super::freqency::Frequency;
use crate::enc_dec_builder::cpu::{Cpu, Errata};
use crate::enc_dec_builder::filter::AddrFilters;
use crate::error::{PtError, PtErrorCode};
use crate::raw_config::{flag_updated, update_flag_bit, RawConfig};
use std::marker::PhantomData;
use vstd::prelude::*;

verus! {

/// An encoder or decoder that can be built from a configuration.
pub trait PtEncoderDecoder: Sized {
    /// A builder with the zeroed configuration.
    fn builder() -> (b: EncoderDecoderBuilder<Self>)
        ensures
            b@ == RawConfig::zero_spec(),
    {
        EncoderDecoderBuilder::new()
    }

    /// Creates the encoder or decoder from the builder's configuration.
    fn new_from_builder(builder: &EncoderDecoderBuilder<Self>) -> Result<Self, PtError>;
}

/// Marks a block decoder: its builder takes the block decoder flags.
pub trait BlockDecoderKind {}

/// Marks an instruction flow decoder: its builder takes the instruction
/// flow decoder flags.
pub trait InsnDecoderKind {}

/// Marks a query decoder: its builder takes the query decoder flags.
pub trait QueryDecoderKind {}

/// Builds the libipt configuration of an encoder or decoder of type `T`.
#[derive(Debug)]
pub struct EncoderDecoderBuilder<T> {
    pub(crate) config: RawConfig,
    target: PhantomData<T>,
}

impl<T> View for EncoderDecoderBuilder<T> {
    type V = RawConfig;

    closed spec fn view(&self) -> RawConfig {
        self.config
    }
}

impl<T> EncoderDecoderBuilder<T> {
    /// Initializes an EncoderDecoderBuilder instance with the zeroed
    /// configuration.
    pub fn new() -> (b: EncoderDecoderBuilder<T>)
        ensures
            b@ == RawConfig::zero_spec(),
    {
        EncoderDecoderBuilder { config: RawConfig::zero(), target: PhantomData }
    }

    /// The configuration built so far.
    pub fn config(&self) -> (c: RawConfig)
        ensures
            c == self@,
    {
        self.config
    }

    /// Sets the encoder/decoder buffer from its address and length.
    /// The buffer is not copied.
    ///
    /// The buffer must stay valid for the entire encoder/decoder lifetime;
    /// in case this builder is cloned or reused, it must outlive all the
    /// generated encoder/decoders.
    pub fn buffer_from_raw(self, buf_addr: usize, buf_len: usize) -> (b: EncoderDecoderBuilder<T>)
        requires
            buf_addr + buf_len <= usize::MAX,
        ensures
            b@ == (RawConfig { begin: buf_addr, end: (buf_addr + buf_len) as usize, ..self@ }),
    {
        let mut b = self;
        b.config.begin = buf_addr;
        b.config.end = buf_addr + buf_len;
        b
    }

    /// The cpu used for capturing the data, with the errata that libipt
    /// determined for it. It's highly recommended to provide this information:
    /// processor specific workarounds are identified this way. The errata word
    /// is taken only when libipt determined it.
    pub fn cpu(self, cpu: Cpu, errata: Result<Errata, PtError>) -> (b: EncoderDecoderBuilder<T>)
        ensures
            b@ == (RawConfig {
                cpu: cpu@,
                errata: match errata {
                    Ok(e) => e@,
                    Err(_) => self@.errata,
                },
                ..self@
            }),
    {
        let mut b = self;
        b.config.cpu = cpu.raw();
        if let Ok(e) = errata {
            b.config.errata = e.bits();
        }
        b
    }

    /// Frequency values used for timing packets (mtc)
    pub fn freq(self, freq: Frequency) -> (b: EncoderDecoderBuilder<T>)
        ensures
            b@ == (RawConfig {
                mtc_freq: freq@.mtc,
                nom_freq: freq@.nom,
                cpuid_0x15_eax: freq@.tsc,
                cpuid_0x15_ebx: freq@.ctc,
                ..self@
            }),
    {
        let mut b = self;
        b.config.mtc_freq = freq.mtc();
        b.config.nom_freq = freq.nom();
        b.config.cpuid_0x15_eax = freq.tsc();
        b.config.cpuid_0x15_ebx = freq.ctc();
        b
    }

    /// Address filter configuration
    pub fn filter(self, filter: AddrFilter) -> (b: EncoderDecoderBuilder<T>)
        ensures
            b@ == (RawConfig { addr_filter: filter@, ..self@ }),
    {
        let mut b = self;
        b.config.addr_filter = filter.raw();
        b
    }

    /// Address filter configuration, from packed address ranges.
    pub fn addr_filters(self, filters: AddrFilters) -> (b: EncoderDecoderBuilder<T>)
        ensures
            b@ == (RawConfig { addr_filter: filters@, ..self@ }),
    {
        let mut b = self;
        b.config.addr_filter = filters.raw();
        b
    }

    /// Sets bit `bit` of the decoder flag word.
    fn set_flag(self, bit: u32, value: bool) -> (b: EncoderDecoderBuilder<T>)
        requires
            bit < 32,
        ensures
            b@ == (RawConfig { flags: flag_updated(self@.flags, bit, value), ..self@ }),
    {
        let mut b = self;
        b.config.flags = update_flag_bit(b.config.flags, bit, value);
        b
    }
}

impl<T: PtEncoderDecoder> EncoderDecoderBuilder<T> {
    /// Turn itself into a PT encoder/decoder.
    ///
    /// Returns a `BadConfig` error if the buffer is not set; otherwise what
    /// creating the encoder/decoder returns.
    pub fn build(&self) -> (r: Result<T, PtError>)
        ensures
            self@.begin == 0 && self@.end == 0 ==> r is Err && r->Err_0@ == (
                PtErrorCode::BadConfig,
                "To build an encoder/decoder, a buffer must be set"@,
            ),
            !(self@.begin == 0 && self@.end == 0) ==> call_ensures(
                T::new_from_builder,
                (self,),
                r,
            ),
    {
        if self.config.begin == 0 && self.config.end == 0 {
            Err(
                PtError::new(
                    PtErrorCode::BadConfig,
                    "To build an encoder/decoder, a buffer must be set",
                ),
            )
        } else {
            T::new_from_builder(self)
        }
    }
}

impl<T> Clone for EncoderDecoderBuilder<T> {
    /// A builder with the same configuration.
    fn clone(&self) -> (b: EncoderDecoderBuilder<T>)
        ensures
            b@ == self@,
    {
        EncoderDecoderBuilder { config: self.config, target: PhantomData }
    }
}

impl<T: PtEncoderDecoder> Default for EncoderDecoderBuilder<T> {
    fn default() -> (b: EncoderDecoderBuilder<T>)
        ensures
            b@ == RawConfig::zero_spec(),
    {
        EncoderDecoderBuilder::new()
    }
}

/// The flags of a block decoder's configuration.
pub trait BlockDecoderFlags: Sized {
    /// End a block after a call instruction.
    fn set_end_on_call(self, value: bool) -> Self;

    /// Enable tick events for timing updates.
    fn set_enable_tick_events(self, value: bool) -> Self;

    /// End a block after a jump instruction.
    fn set_end_on_jump(self, value: bool) -> Self;

    /// Preserve timing calibration on overflow.
    fn set_keep_tcal_on_ovf(self, value: bool) -> Self;

    /// Enable iflags events.
    fn set_enable_iflags_events(self, value: bool) -> Self;
}

impl<T: BlockDecoderKind> BlockDecoderFlags for EncoderDecoderBuilder<T> {
    fn set_end_on_call(self, value: bool) -> (b: EncoderDecoderBuilder<T>)
        ensures
            b@ == (RawConfig {
                flags: flag_updated(self@.flags, BLOCK_END_ON_CALL_BIT, value),
                ..self@
            }),
    {
        self.set_flag(BLOCK_END_ON_CALL_BIT, value)
    }

    fn set_enable_tick_events(self, value: bool) -> (b: EncoderDecoderBuilder<T>)
        ensures
            b@ == (RawConfig {
                flags: flag_updated(self@.flags, BLOCK_ENABLE_TICK_EVENTS_BIT, value),
                ..self@
            }),
    {
        self.set_flag(BLOCK_ENABLE_TICK_EVENTS_BIT, value)
    }

    fn set_end_on_jump(self, value: bool) -> (b: EncoderDecoderBuilder<T>)
        ensures
            b@ == (RawConfig {
                flags: flag_updated(self@.flags, BLOCK_END_ON_JUMP_BIT, value),
                ..self@
            }),
    {
        self.set_flag(BLOCK_END_ON_JUMP_BIT, value)
    }

    fn set_keep_tcal_on_ovf(self, value: bool) -> (b: EncoderDecoderBuilder<T>)
        ensures
            b@ == (RawConfig {
                flags: flag_updated(self@.flags, BLOCK_KEEP_TCAL_ON_OVF_BIT, value),
                ..self@
            }),
    {
        self.set_flag(BLOCK_KEEP_TCAL_ON_OVF_BIT, value)
    }

    fn set_enable_iflags_events(self, value: bool) -> (b: EncoderDecoderBuilder<T>)
        ensures
            b@ == (RawConfig {
                flags: flag_updated(self@.flags, BLOCK_ENABLE_IFLAGS_EVENTS_BIT, value),
                ..self@
            }),
    {
        self.set_flag(BLOCK_ENABLE_IFLAGS_EVENTS_BIT, value)
    }
}

/// The flags of an instruction flow decoder's configuration.
pub trait InsnDecoderFlags: Sized {
    /// Enable tick events for timing updates.
    fn set_enable_tick_events(self, value: bool) -> Self;

    /// Preserve timing calibration on overflow.
    fn set_keep_tcal_on_ovf(self, value: bool) -> Self;

    /// Enable iflags events.
    fn set_enable_iflags_events(self, value: bool) -> Self;
}

impl<T: InsnDecoderKind> InsnDecoderFlags for EncoderDecoderBuilder<T> {
    fn set_enable_tick_events(self, value: bool) -> (b: EncoderDecoderBuilder<T>)
        ensures
            b@ == (RawConfig {
                flags: flag_updated(self@.flags, INSN_ENABLE_TICK_EVENTS_BIT, value),
                ..self@
            }),
    {
        self.set_flag(INSN_ENABLE_TICK_EVENTS_BIT, value)
    }

    fn set_keep_tcal_on_ovf(self, value: bool) -> (b: EncoderDecoderBuilder<T>)
        ensures
            b@ == (RawConfig {
                flags: flag_updated(self@.flags, INSN_KEEP_TCAL_ON_OVF_BIT, value),
                ..self@
            }),
    {
        self.set_flag(INSN_KEEP_TCAL_ON_OVF_BIT, value)
    }

    fn set_enable_iflags_events(self, value: bool) -> (b: EncoderDecoderBuilder<T>)
        ensures
            b@ == (RawConfig {
                flags: flag_updated(self@.flags, INSN_ENABLE_IFLAGS_EVENTS_BIT, value),
                ..self@
            }),
    {
        self.set_flag(INSN_ENABLE_IFLAGS_EVENTS_BIT, value)
    }
}

/// The flags of a query decoder's configuration.
pub trait QueryDecoderFlags: Sized {
    /// Preserve timing calibration on overflow.
    fn set_keep_tcal_on_ovf(self, value: bool) -> Self;

    /// Enable iflags events.
    fn set_enable_iflags_events(self, value: bool) -> Self;
}

impl<T: QueryDecoderKind> QueryDecoderFlags for EncoderDecoderBuilder<T> {
    fn set_keep_tcal_on_ovf(self, value: bool) -> (b: EncoderDecoderBuilder<T>)
        ensures
            b@ == (RawConfig {
                flags: flag_updated(self@.flags, QUERY_KEEP_TCAL_ON_OVF_BIT, value),
                ..self@
            }),
    {
        self.set_flag(QUERY_KEEP_TCAL_ON_OVF_BIT, value)
    }

    fn set_enable_iflags_events(self, value: bool) -> (b: EncoderDecoderBuilder<T>)
        ensures
            b@ == (RawConfig {
                flags: flag_updated(self@.flags, QUERY_ENABLE_IFLAGS_EVENTS_BIT, value),
                ..self@
            }),
    {
        self.set_flag(QUERY_ENABLE_IFLAGS_EVENTS_BIT, value)
    }
}

} // verus!
