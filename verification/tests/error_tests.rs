use libipt::error::{ensure_ptok, extract_pterr, extract_status_or_pterr, until_eos};
use libipt::event::{cond_branch_result, CondBranch};
use libipt::flags::Status;
use libipt::{PtError, PtErrorCode};

#[test]
fn extract_pterr_passes_non_negative_values() {
    assert_eq!(extract_pterr(0, "unused").unwrap(), 0);
    assert_eq!(extract_pterr(42, "unused").unwrap(), 42);
    assert!(ensure_ptok(5, "unused").is_ok());
}

#[test]
fn extract_pterr_turns_negative_values_into_errors() {
    let e = extract_pterr(-7, "reached end of trace stream").unwrap_err();
    assert_eq!(e.code(), PtErrorCode::Eos);
    assert_eq!(e.msg(), "reached end of trace stream");
    let e = ensure_ptok(-27, "unknown cpu").unwrap_err();
    assert_eq!(e.code(), PtErrorCode::BadCpu);
    let e = extract_pterr(-1, "internal error").unwrap_err();
    assert_eq!(e.code(), PtErrorCode::Internal);
}

#[test]
fn error_code_numbers_follow_libipt() {
    assert_eq!(PtErrorCode::Okay.to_primitive(), 0);
    assert_eq!(PtErrorCode::Nosync.to_primitive(), 3);
    assert_eq!(PtErrorCode::BadConfig.to_primitive(), 10);
    assert_eq!(PtErrorCode::BadCpu.to_primitive(), 27);
    assert_eq!(PtErrorCode::NoInfo.to_primitive(), -1);
    for v in -1..28 {
        assert_eq!(PtErrorCode::try_from_primitive(v).unwrap().to_primitive(), v);
    }
    let e = PtErrorCode::try_from_primitive(28).unwrap_err();
    assert_eq!(e.code(), PtErrorCode::Internal);
    assert_eq!(e.msg(), "Internal conversion from libipt raw value to enum failed.");
}

#[test]
fn status_flags_from_return_values() {
    let s = extract_status_or_pterr(4, "unused").unwrap();
    assert!(s.eos());
    assert!(!s.event_pending());
    assert!(!s.ip_supressed());
    let s = extract_status_or_pterr(3, "unused").unwrap();
    assert!(s.event_pending());
    assert!(s.ip_supressed());
    assert!(!s.eos());
    let e = extract_status_or_pterr(8, "unused").unwrap_err();
    assert_eq!(e.code(), PtErrorCode::Internal);
    let e = extract_status_or_pterr(-3, "decoder out of sync").unwrap_err();
    assert_eq!(e.code(), PtErrorCode::Nosync);
}

#[test]
fn status_bits_round_trip() {
    for bits in 0..8u32 {
        let s = Status::from_bits_or_pterror(bits).unwrap();
        assert_eq!(s.bits(), bits);
        assert_eq!(s.contains(Status::from_bits(4).unwrap()), s.eos());
    }
    assert!(Status::from_bits(9).is_none());
    assert_eq!(Status::from_bits_truncate(0xff).bits(), 7);
    assert_eq!(Status::all().bits(), 7);
    assert_eq!(Status::empty().bits(), 0);
}

#[test]
fn iteration_stops_at_end_of_stream() {
    let eos: Result<u32, PtError> = Err(PtError::new(PtErrorCode::Eos, "reached end of trace stream"));
    assert!(until_eos(eos).is_none());
    let other: Result<u32, PtError> = Err(PtError::new(PtErrorCode::Nosync, "decoder out of sync"));
    assert_eq!(until_eos(other).unwrap().unwrap_err().code(), PtErrorCode::Nosync);
    let ok: Result<u32, PtError> = Ok(3);
    assert_eq!(until_eos(ok).unwrap().unwrap(), 3);
}

#[test]
fn conditional_branch_results() {
    let (c, s) = cond_branch_result(0, "unused", 1).unwrap();
    assert_eq!(c, CondBranch::Taken);
    assert_eq!(s.bits(), 0);
    let (c, s) = cond_branch_result(4, "unused", 0).unwrap();
    assert_eq!(c, CondBranch::NotTaken);
    assert!(s.eos());
    let e = cond_branch_result(0, "unused", 2).unwrap_err();
    assert_eq!(e.code(), PtErrorCode::Internal);
    let e = cond_branch_result(-8, "trace stream does not match query", 1).unwrap_err();
    assert_eq!(e.code(), PtErrorCode::BadQuery);
}

#[test]
fn errors_as_text() {
    let e = PtError::new(PtErrorCode::Eos, "reached end of trace stream");
    assert_eq!(e.to_string(), "error from libipt: reached end of trace stream");
    assert_eq!(PtError::from_code(-2, "invalid argument").code(), PtErrorCode::Invalid);
}
