use libipt::event::{
    AsyncBranch, Cbr, Event, ExecModeType, Payload, PTEV_ASYNC_BRANCH, PTEV_ASYNC_DISABLED,
    PTEV_ASYNC_PAGING, PTEV_ASYNC_VMCS, PTEV_CBR, PTEV_DISABLED, PTEV_ENABLED, PTEV_EXEC_MODE,
    PTEV_EXSTOP, PTEV_MNT, PTEV_MWAIT, PTEV_OVERFLOW, PTEV_PAGING, PTEV_PTWRITE, PTEV_PWRE,
    PTEV_PWRX, PTEV_STOP, PTEV_TICK, PTEV_TSX, PTEV_VMCS,
};
use libipt::PtErrorCode;

fn event(type_: u32, variant: (u64, u64, u64)) -> Event {
    Event::from_raw(type_, false, false, false, 0, 0, 0, variant)
}

#[test]
fn test_branch_async_payload() {
    let payload = event(PTEV_ASYNC_BRANCH, (1, 2, 0)).payload();
    match payload {
        Payload::AsyncBranch(e) => {
            assert_eq!(e.from(), 1);
            assert_eq!(e.to(), 2);
        }
        _ => unreachable!("oof"),
    }
}

#[test]
fn test_cbr_payload() {
    let payload = event(PTEV_CBR, (18, 0, 0)).payload();
    match payload {
        Payload::Cbr(e) => {
            assert_eq!(e.ratio(), 18);
        }
        _ => unreachable!("oof"),
    }
}

#[test]
fn test_disabled_payload() {
    let payload = event(PTEV_DISABLED, (11, 0, 0)).payload();
    match payload {
        Payload::Disabled(e) => {
            assert_eq!(e.ip(), 11);
        }
        _ => unreachable!("oof"),
    }
}

#[test]
fn test_async_disabled_payload() {
    let payload = event(PTEV_ASYNC_DISABLED, (1, 11, 0)).payload();
    match payload {
        Payload::AsnycDisabled(e) => {
            assert_eq!(e.ip(), 11);
            assert_eq!(e.at(), 1);
        }
        _ => unreachable!("oof"),
    }
}

#[test]
fn test_enabled_payload() {
    // the resumed bit is the first bit of the word after the ip
    let payload = event(PTEV_ENABLED, (11, 1, 0)).payload();
    match payload {
        Payload::Enabled(e) => {
            assert_eq!(e.ip(), 11);
            assert!(e.resumed())
        }
        _ => unreachable!("oof"),
    }
}

#[test]
fn test_exec_mode_payload() {
    // the mode comes first in libipt's exec_mode payload, the ip second
    let payload = event(PTEV_EXEC_MODE, (ExecModeType::Bit32.to_primitive() as u64, 11, 0)).payload();
    match payload {
        Payload::ExecMode(e) => {
            assert_eq!(e.ip(), 11);
            assert_eq!(e.mode(), ExecModeType::Bit32);
        }
        _ => unreachable!("oof"),
    }
}

#[test]
fn test_exstop_payload() {
    let payload = event(PTEV_EXSTOP, (11, 0, 0)).payload();
    match payload {
        Payload::Exstop(e) => {
            assert_eq!(e.ip(), 11);
        }
        _ => unreachable!("oof"),
    }
}

#[test]
fn test_mnt_payload() {
    let payload = event(PTEV_MNT, (17, 0, 0)).payload();
    match payload {
        Payload::Mnt(e) => {
            assert_eq!(e.payload(), 17);
        }
        _ => unreachable!("oof"),
    }
}

#[test]
fn test_create_event() {
    let evt = Event::from_raw(PTEV_STOP, true, false, true, 1, 2, 3, (0, 0, 0));
    assert!(evt.ip_suppressed());
    assert!(!evt.status_update());
    assert!(evt.has_tsc());

    assert_eq!(evt.tsc(), 1);
    assert_eq!(evt.lost_mtc(), 2);
    assert_eq!(evt.lost_cyc(), 3);

    match evt.payload() {
        Payload::Stop => (),
        _ => unreachable!(),
    }
}

#[test]
fn test_mwait_payload() {
    // hints and ext are the two halves of the word after the ip
    let payload = event(PTEV_MWAIT, (11, 22 | (33 << 32), 0)).payload();
    match payload {
        Payload::Mwait(e) => {
            assert_eq!(e.ip(), 11);
            assert_eq!(e.hints(), 22);
            assert_eq!(e.ext(), 33);
        }
        _ => unreachable!("oof"),
    }
}

#[test]
fn test_overflow_payload() {
    let payload = event(PTEV_OVERFLOW, (11, 0, 0)).payload();
    match payload {
        Payload::Overflow(e) => {
            assert_eq!(e.ip(), 11);
        }
        _ => unreachable!("oof"),
    }
}

#[test]
fn test_paging_payload() {
    // the non_root bit of the asynchronous variant is the synchronous one's
    let payload = event(PTEV_PAGING, (11, 1, 0)).payload();
    match payload {
        Payload::Paging(e) => {
            assert_eq!(e.cr3(), 11);
            assert!(e.non_root());
        }
        _ => unreachable!("oof"),
    }
}

#[test]
fn test_async_paging_payload() {
    let payload = event(PTEV_ASYNC_PAGING, (11, 1, 12)).payload();
    match payload {
        Payload::AsyncPaging(e) => {
            assert_eq!(e.cr3(), 11);
            assert_eq!(e.ip(), 12);
            assert!(e.non_root());
        }
        _ => unreachable!("oof"),
    }
}

#[test]
fn test_ptwrite_payload() {
    let payload = event(PTEV_PTWRITE, (11, 22, 33)).payload();
    match payload {
        Payload::Ptwrite(e) => {
            assert_eq!(e.ip(), 11);
            assert_eq!(e.size(), 22);
            assert_eq!(e.payload(), 33);
        }
        _ => unreachable!("oof"),
    }
}

#[test]
fn test_pwre_payload() {
    // state and sub_state are the first two bytes, hw is bit 16
    let payload = event(PTEV_PWRE, (11 | (22 << 8) | (1 << 16), 0, 0)).payload();
    match payload {
        Payload::Pwre(e) => {
            assert_eq!(e.state(), 11);
            assert_eq!(e.sub_state(), 22);
            assert!(e.hw())
        }
        _ => unreachable!("oof"),
    }
}

#[test]
fn test_pwrx_payload() {
    // last and deepest are the first two bytes; interrupt, store and
    // autonomous are bits 16, 17 and 18
    let payload = event(PTEV_PWRX, (11 | (22 << 8) | (1 << 16) | (1 << 18), 0, 0)).payload();
    match payload {
        Payload::Pwrx(e) => {
            assert_eq!(e.last(), 11);
            assert_eq!(e.deepest(), 22);
            assert!(e.interrupt());
            assert!(!e.store());
            assert!(e.autonomous());
        }
        _ => unreachable!("oof"),
    }
}

#[test]
fn test_tick_payload() {
    let payload = event(PTEV_TICK, (11, 0, 0)).payload();
    match payload {
        Payload::Tick(e) => {
            assert_eq!(e.ip(), 11);
        }
        _ => unreachable!("oof"),
    }
}

#[test]
fn test_tsx_payload() {
    let payload = event(PTEV_TSX, (11, 1, 0)).payload();
    match payload {
        Payload::Tsx(e) => {
            assert_eq!(e.ip(), 11);
            assert!(e.speculative());
            assert!(!e.aborted());
        }
        _ => unreachable!("oof"),
    }
}

#[test]
fn test_vmcs_payload() {
    let payload = event(PTEV_VMCS, (11, 0, 0)).payload();
    match payload {
        Payload::Vmcs(e) => {
            assert_eq!(e.base(), 11);
        }
        _ => unreachable!("oof"),
    }
}

#[test]
fn test_async_vmcs_payload() {
    let payload = event(PTEV_ASYNC_VMCS, (11, 12, 0)).payload();
    match payload {
        Payload::AsyncVmcs(e) => {
            assert_eq!(e.base(), 11);
            assert_eq!(e.ip(), 12);
        }
        _ => unreachable!("oof"),
    }
}

#[test]
fn payload_try_from_checks_the_event_type() {
    let evt = event(PTEV_CBR, (18, 0, 0));
    let cbr = Cbr::try_from_event(evt).unwrap();
    assert_eq!(cbr.ratio(), 18);
    assert_eq!(cbr.event().event_type(), PTEV_CBR);
    let err = AsyncBranch::try_from_event(evt).unwrap_err();
    assert_eq!(err.code(), PtErrorCode::Invalid);
}

#[test]
fn exec_mode_numbers_round_trip() {
    for v in 0..4u32 {
        let m = ExecModeType::try_from_primitive(v).unwrap();
        assert_eq!(m.to_primitive(), v);
    }
    assert_eq!(ExecModeType::try_from_primitive(2).unwrap(), ExecModeType::Bit32);
    let err = ExecModeType::try_from_primitive(4).unwrap_err();
    assert_eq!(err.code(), PtErrorCode::Internal);
}

#[test]
fn payload_words_are_decoded_little_endian() {
    // cbr keeps only the low 16 bits of the first word
    let payload = event(PTEV_CBR, (0x1_0012, 0, 0)).payload();
    match payload {
        Payload::Cbr(e) => assert_eq!(e.ratio(), 0x12),
        _ => unreachable!(),
    }
    // a set bit 1 of the tsx flags word is the aborted flag
    match event(PTEV_TSX, (5, 2, 0)).payload() {
        Payload::Tsx(e) => {
            assert!(!e.speculative());
            assert!(e.aborted());
        }
        _ => unreachable!(),
    }
}
