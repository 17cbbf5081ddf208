use libipt::asid::{Asid, NO_CR3, NO_VMCS};

#[test]
fn test_asid_basic_values() {
    let mut asid = Asid::new(Some(0), Some(2));
    assert_eq!(asid.cr3(), Some(0));
    assert_eq!(asid.vmcs(), Some(2));

    // -1 because max would be NO_CR3
    asid.set_cr3(std::u64::MAX - 1);
    asid.set_vmcs(std::i64::MAX as u64);
    assert_eq!(asid.cr3(), Some(std::u64::MAX - 1));
    assert_eq!(asid.vmcs(), Some(std::i64::MAX as u64));
}

#[test]
fn test_asid_default() {
    let asid: Asid = Default::default();
    assert_eq!(asid.cr3(), None);
    assert_eq!(asid.vmcs(), None);

    let asid: Asid = Asid::new(None, Some(1));
    assert_eq!(asid.cr3(), None);
    assert_eq!(asid.vmcs(), Some(1));

    let asid: Asid = Asid::new(Some(2), None);
    assert_eq!(asid.cr3(), Some(2));
    assert_eq!(asid.vmcs(), None);
}

#[test]
fn test_asid_equal() {
    let asid: Asid = Default::default();
    let asid2: Asid = Default::default();
    assert_eq!(asid, asid2);

    let asid = Asid::new(Some(0), Some(666));
    let asid2 = Asid::new(Some(0), Some(666));
    assert_eq!(asid, asid2);

    let asid = Asid::new(Some(0), Some(1));
    let asid2 = Asid::new(Some(0), Some(2));
    assert_ne!(asid, asid2);

    let asid = Asid::new(None, Some(1));
    let asid2 = Asid::new(Some(0), Some(2));
    assert_ne!(asid, asid2);
}

#[test]
fn test_asid_from() {
    let asid: Asid = Default::default();
    let (raw_cr3, raw_vmcs) = (asid.raw_cr3(), asid.raw_vmcs());
    assert_eq!(raw_cr3, NO_CR3);
    assert_eq!(raw_vmcs, NO_VMCS);

    let mut asid2 = Asid::from_raw(raw_cr3, raw_vmcs);
    asid2.set_cr3(666);

    assert_eq!(asid.cr3(), None);
    assert_eq!(asid2.cr3(), Some(666));
    assert_eq!(raw_cr3, NO_CR3);
}

#[test]
fn asid_marker_value_reads_back_as_missing() {
    let asid = Asid::new(Some(NO_CR3), Some(NO_VMCS));
    assert_eq!(asid.cr3(), None);
    assert_eq!(asid.vmcs(), None);
    assert_eq!(asid, Asid::default());
}
