use libipt::config::config::ConfigBuilder;
use libipt::config::enc_dec_builder::{
    BlockDecoderFlags, BlockDecoderKind, EncoderDecoderBuilder, InsnDecoderFlags, InsnDecoderKind,
    PtEncoderDecoder, QueryDecoderFlags, QueryDecoderKind,
};
use libipt::config::filter::{AddrConfig, AddrFilterBuilder, AddrRange};
use libipt::config::flags::{
    BLOCK_ENABLE_TICK_EVENTS_BIT, BLOCK_END_ON_CALL_BIT, BLOCK_END_ON_JUMP_BIT,
    BLOCK_KEEP_TCAL_ON_OVF_BIT, INSN_ENABLE_TICK_EVENTS_BIT, INSN_KEEP_TCAL_ON_OVF_BIT,
    QUERY_KEEP_TCAL_ON_OVF_BIT,
};
use libipt::config::freqency::Frequency;
use libipt::config::{
    AddrFilter as OldAddrFilter, AddrRange as OldAddrRange, BlockFlags, CPUVendor, Config,
    CTCTSCRatio, DecoderFlags, InsnFlags, CPU,
};
use libipt::enc_dec_builder::cpu::{Cpu, CpuVendor, Errata, ERRATUM_BDM64, ERRATUM_BDM70};
use libipt::{PtError, PtErrorCode};

struct FooDecoder {}

impl PtEncoderDecoder for FooDecoder {
    fn new_from_builder(_: &EncoderDecoderBuilder<Self>) -> Result<Self, PtError> {
        Ok(Self {})
    }
}

struct BlockDecoder {}
impl PtEncoderDecoder for BlockDecoder {
    fn new_from_builder(_: &EncoderDecoderBuilder<Self>) -> Result<Self, PtError> {
        Ok(Self {})
    }
}
impl BlockDecoderKind for BlockDecoder {}

struct InsnDecoder {}
impl PtEncoderDecoder for InsnDecoder {
    fn new_from_builder(_: &EncoderDecoderBuilder<Self>) -> Result<Self, PtError> {
        Ok(Self {})
    }
}
impl InsnDecoderKind for InsnDecoder {}

struct QueryDecoder {}
impl PtEncoderDecoder for QueryDecoder {
    fn new_from_builder(_: &EncoderDecoderBuilder<Self>) -> Result<Self, PtError> {
        Ok(Self {})
    }
}
impl QueryDecoderKind for QueryDecoder {}

#[test]
fn test_freq_props() {
    let mut freq = Frequency::new(1, 2, 3, 4);
    assert_eq!(freq.mtc(), 1);
    assert_eq!(freq.nom(), 2);
    assert_eq!(freq.ctc(), 3);
    assert_eq!(freq.tsc(), 4);

    freq.set_mtc(5);
    freq.set_nom(6);
    freq.set_ctc(7);
    freq.set_tsc(8);

    assert_eq!(freq.mtc(), 5);
    assert_eq!(freq.nom(), 6);
    assert_eq!(freq.ctc(), 7);
    assert_eq!(freq.tsc(), 8);
}

#[test]
fn can_allocate_encoder() {}

#[test]
#[should_panic]
fn enc_dec_builder_test_config_empty() {
    let c = EncoderDecoderBuilder::<FooDecoder>::new();
    assert_eq!(c.config().begin, c.config().end);
    c.build().unwrap();
}

#[test]
fn enc_dec_builder_test_config_buf() {
    let data = [0u8; 16];
    let len = data.len();
    let mut c = EncoderDecoderBuilder::<FooDecoder>::new();
    c = c.buffer_from_raw(data.as_ptr() as usize, data.len());
    assert_eq!(c.config().end - c.config().begin, len);
    assert!(c.build().is_ok());
}

#[test]
fn build_without_buffer_is_a_bad_config() {
    let e = match FooDecoder::builder().build() {
        Ok(_) => panic!("built without a buffer"),
        Err(e) => e,
    };
    assert_eq!(e.code(), PtErrorCode::BadConfig);
    assert_eq!(e.msg(), "To build an encoder/decoder, a buffer must be set");
}

#[test]
fn enc_dec_builder_test_config_all() {
    let data = [18u8; 3];
    let cpu = Cpu::intel(1, 2, 3);
    let mut filter = AddrFilterBuilder::new();
    filter
        .addr0(AddrRange::new(1, 2, AddrConfig::STOP))
        .addr1(AddrRange::new(3, 4, AddrConfig::FILTER))
        .addr2(AddrRange::new(5, 6, AddrConfig::DISABLED))
        .addr3(AddrRange::new(7, 8, AddrConfig::STOP));
    let mut c = EncoderDecoderBuilder::<BlockDecoder>::new()
        .filter(filter.finish())
        .cpu(cpu, Ok(Errata::none()))
        .freq(Frequency::new(1, 2, 3, 4))
        .set_end_on_call(true)
        .set_end_on_jump(true);
    c = c.buffer_from_raw(data.as_ptr() as usize, data.len());
    let config = c.config();

    assert_eq!(config.cpu.family, 1);
    assert_eq!(config.cpu.model, 2);
    assert_eq!(config.cpu.stepping, 3);

    assert_eq!(config.mtc_freq, 1);
    assert_eq!(config.nom_freq, 2);
    assert_eq!(config.cpuid_0x15_ebx, 3);
    assert_eq!(config.cpuid_0x15_eax, 4);

    assert!(config.flag(BLOCK_END_ON_CALL_BIT));
    assert!(config.flag(BLOCK_END_ON_JUMP_BIT));
    assert!(!config.flag(BLOCK_ENABLE_TICK_EVENTS_BIT));
    assert!(!config.flag(BLOCK_KEEP_TCAL_ON_OVF_BIT));

    let cfg = config.addr_filter.addr_cfg;
    assert_eq!(config.addr_filter.addr0_a, 1);
    assert_eq!(config.addr_filter.addr0_b, 2);
    assert_eq!((cfg & 0xf) as u32, AddrConfig::STOP.to_primitive());

    assert_eq!(config.addr_filter.addr1_a, 3);
    assert_eq!(config.addr_filter.addr1_b, 4);
    assert_eq!(((cfg >> 4) & 0xf) as u32, AddrConfig::FILTER.to_primitive());

    assert_eq!(config.addr_filter.addr2_a, 5);
    assert_eq!(config.addr_filter.addr2_b, 6);
    assert_eq!(((cfg >> 8) & 0xf) as u32, AddrConfig::DISABLED.to_primitive());

    assert_eq!(config.addr_filter.addr3_a, 7);
    assert_eq!(config.addr_filter.addr3_b, 8);
    assert_eq!(((cfg >> 12) & 0xf) as u32, AddrConfig::STOP.to_primitive());
}

#[test]
fn test_block_flags() {
    let builder = EncoderDecoderBuilder::<BlockDecoder>::new()
        .set_end_on_call(true)
        .set_end_on_jump(true);
    let raw = builder.config();

    assert!(raw.flag(BLOCK_END_ON_CALL_BIT));
    assert!(!raw.flag(BLOCK_ENABLE_TICK_EVENTS_BIT));
    assert!(raw.flag(BLOCK_END_ON_JUMP_BIT));
    assert!(!raw.flag(BLOCK_KEEP_TCAL_ON_OVF_BIT));

    let builder = EncoderDecoderBuilder::<BlockDecoder>::new()
        .set_end_on_call(true)
        .set_end_on_jump(true)
        .set_enable_tick_events(true)
        .set_keep_tcal_on_ovf(true);
    let raw = builder.config();

    assert!(raw.flag(BLOCK_END_ON_CALL_BIT));
    assert!(raw.flag(BLOCK_ENABLE_TICK_EVENTS_BIT));
    assert!(raw.flag(BLOCK_END_ON_JUMP_BIT));
    assert!(raw.flag(BLOCK_KEEP_TCAL_ON_OVF_BIT));
}

#[test]
fn test_insn_flags() {
    let builder = EncoderDecoderBuilder::<InsnDecoder>::new().set_enable_tick_events(true);
    let raw = builder.config();

    assert!(raw.flag(INSN_ENABLE_TICK_EVENTS_BIT));
    assert!(!raw.flag(INSN_KEEP_TCAL_ON_OVF_BIT));

    let builder = EncoderDecoderBuilder::<InsnDecoder>::new()
        .set_enable_tick_events(true)
        .set_keep_tcal_on_ovf(true);
    let raw = builder.config();

    assert!(raw.flag(INSN_ENABLE_TICK_EVENTS_BIT));
    assert!(raw.flag(INSN_KEEP_TCAL_ON_OVF_BIT));
}

#[test]
fn test_query_flags() {
    let builder = EncoderDecoderBuilder::<QueryDecoder>::new();
    let raw = builder.config();

    assert!(!raw.flag(QUERY_KEEP_TCAL_ON_OVF_BIT));

    let builder = EncoderDecoderBuilder::<QueryDecoder>::new().set_keep_tcal_on_ovf(true);
    let raw = builder.config();

    assert!(raw.flag(QUERY_KEEP_TCAL_ON_OVF_BIT));
}

#[test]
fn clearing_a_flag_keeps_the_others() {
    let builder = EncoderDecoderBuilder::<BlockDecoder>::new()
        .set_end_on_call(true)
        .set_end_on_jump(true)
        .set_end_on_call(false);
    let raw = builder.config();
    assert!(!raw.flag(BLOCK_END_ON_CALL_BIT));
    assert!(raw.flag(BLOCK_END_ON_JUMP_BIT));
    assert_eq!(raw.flags, 0b100);
}

#[test]
fn cpu_errata_are_kept_when_libipt_could_not_determine_them() {
    let b = EncoderDecoderBuilder::<FooDecoder>::new()
        .cpu(Cpu::intel(6, 0x56, 11), Ok(Errata::from_bits(0b11)));
    assert!(Errata::from_bits(b.config().errata).has(ERRATUM_BDM70));
    assert!(Errata::from_bits(b.config().errata).has(ERRATUM_BDM64));
    let e = PtError::new(PtErrorCode::BadCpu, "unknown cpu");
    let b = b.cpu(Cpu::new(CpuVendor::UNKNOWN, 6, 0x56, 11), Err(e));
    assert_eq!(b.config().errata, 0b11);
    assert_eq!(b.config().cpu.vendor, 0);
}

#[test]
fn cpu_test_cpu_intel_shortcut() {
    let cpu1 = Cpu::intel(66, 12, 255);
    let cpu2 = Cpu::new(CpuVendor::INTEL, 66, 12, 255);
    assert_eq!(cpu1.vendor(), cpu2.vendor());
    assert_eq!(cpu1.family(), cpu2.family());
    assert_eq!(cpu1.model(), cpu2.model());
    assert_eq!(cpu1.stepping(), cpu2.stepping());
    assert_eq!(cpu1.vendor(), 1);
}

#[test]
#[should_panic]
fn config_test_config_empty() {
    let data = [0u8; 0];
    let c = ConfigBuilder::<()>::new(data.as_ptr() as usize, data.len()).unwrap().finish();
    assert_eq!(c.raw().begin, c.raw().end);
}

#[test]
fn config_test_config_buf() {
    let data = [0u8; 16];
    let len = data.len();
    let c = ConfigBuilder::<()>::new(data.as_ptr() as usize, data.len()).unwrap().finish();
    assert_eq!(c.raw().end - c.raw().begin, len);
    assert_eq!(c.buffer_len(), len);
}

#[test]
fn config_builder_sets_all_values() {
    let data = [18u8; 3];
    let mut b = ConfigBuilder::<()>::new(data.as_ptr() as usize, data.len()).unwrap();
    let mut filter = AddrFilterBuilder::new();
    filter.addr0(AddrRange::new(1, 2, AddrConfig::STOP));
    b.filter(filter.finish())
        .cpu(Cpu::intel(1, 2, 3), Errata::none())
        .freq(Frequency::new(1, 2, 3, 4))
        .flags(DecoderFlags::Block(BlockFlags::from_bits_truncate(
            BlockFlags::END_ON_CALL | BlockFlags::END_ON_JUMP,
        )));
    let c = b.finish().raw();
    assert_eq!(c.cpu.family, 1);
    assert_eq!(c.mtc_freq, 1);
    assert_eq!(c.cpuid_0x15_ebx, 3);
    assert_eq!(c.cpuid_0x15_eax, 4);
    assert!(c.flag(BLOCK_END_ON_CALL_BIT));
    assert!(c.flag(BLOCK_END_ON_JUMP_BIT));
    assert!(!c.flag(BLOCK_ENABLE_TICK_EVENTS_BIT));
    assert_eq!(c.addr_filter.addr0_a, 1);
    assert_eq!(c.addr_filter.addr_cfg, 2);
}

#[test]
fn config_with_timing_values() {
    let ratio = CTCTSCRatio::new(7, 9);
    let range = OldAddrRange::new(0x1000, 0x2000, 1);
    let filter = OldAddrFilter::new(range, OldAddrRange::default(), range, OldAddrRange::default());
    let cpu = CPU::new(CPUVendor::from_bits(CPUVendor::INTEL).unwrap(), 6, 0x9e, 11);
    let flags = DecoderFlags::Insn(InsnFlags::from_bits(InsnFlags::KEEP_TCAL_ON_OVF).unwrap());
    let c = Config::new_timing(0x100, 64, Some(cpu), Errata::from_bits(0b1101), ratio, 3, 4, Some(flags), Some(filter));
    let raw = c.raw();
    assert_eq!(raw.begin, 0x100);
    assert_eq!(raw.end, 0x140);
    assert_eq!(raw.cpu.vendor, 1);
    assert_eq!(raw.cpu.model, 0x9e);
    assert_eq!(raw.errata, 0b1101);
    assert_eq!(raw.cpuid_0x15_eax, 7);
    assert_eq!(raw.cpuid_0x15_ebx, 9);
    assert_eq!(raw.mtc_freq, 3);
    assert_eq!(raw.nom_freq, 4);
    assert_eq!(raw.flags, 2);
    assert_eq!(raw.addr_filter.addr_cfg, 0x101);
    assert_eq!(raw.addr_filter.addr2_a, 0x1000);
    assert_eq!(raw.addr_filter.addr1_b, 0);

    let c = Config::new_notiming(0x100, 64, None, Errata::from_bits(0b1101), None, None);
    let raw = c.raw();
    assert_eq!(raw.errata, 0);
    assert_eq!(raw.cpu.vendor, 0);
    assert_eq!(raw.mtc_freq, 0);
    assert_eq!(raw.cpuid_0x15_eax, 0);
    assert_eq!(raw.flags, 0);
    assert_eq!(raw.addr_filter.addr_cfg, 0);
}
