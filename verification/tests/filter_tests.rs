use libipt::config::filter::{AddrConfig, AddrFilterBuilder, AddrRange};
use libipt::enc_dec_builder::filter::{AddrFilter, AddrFilterType, AddrFilters};
use libipt::PtErrorCode;

#[test]
fn filter_test_addrfilter() {
    let filter = AddrFilters::new(&[
        AddrFilter::new(1, 2, AddrFilterType::DISABLED),
        AddrFilter::new(3, 4, AddrFilterType::FILTER),
        AddrFilter::new(5, 6, AddrFilterType::STOP),
        AddrFilter::new(7, 8, AddrFilterType::DISABLED),
    ])
    .unwrap();

    assert_eq!(filter.addr0().from, 1);
    assert_eq!(filter.addr0().to, 2);
    assert_eq!(filter.addr0().filter_type, AddrFilterType::DISABLED);

    assert_eq!(filter.addr1().from, 3);
    assert_eq!(filter.addr1().to, 4);
    assert_eq!(filter.addr1().filter_type, AddrFilterType::FILTER);

    assert_eq!(filter.addr2().from, 5);
    assert_eq!(filter.addr2().to, 6);
    assert_eq!(filter.addr2().filter_type, AddrFilterType::STOP);

    assert_eq!(filter.addr3().from, 7);
    assert_eq!(filter.addr3().to, 8);
    assert_eq!(filter.addr3().filter_type, AddrFilterType::DISABLED);
}

#[test]
fn config_filter_test_addrfilter() {
    let mut builder = AddrFilterBuilder::new();
    builder
        .addr0(AddrRange::new(1, 2, AddrConfig::DISABLED))
        .addr1(AddrRange::new(3, 4, AddrConfig::FILTER))
        .addr2(AddrRange::new(5, 6, AddrConfig::STOP))
        .addr3(AddrRange::new(7, 8, AddrConfig::DISABLED));
    let filter = builder.finish();

    assert_eq!(filter.addr0().a(), 1);
    assert_eq!(filter.addr0().b(), 2);
    assert_eq!(filter.addr0().cfg(), AddrConfig::DISABLED);

    assert_eq!(filter.addr1().a(), 3);
    assert_eq!(filter.addr1().b(), 4);
    assert_eq!(filter.addr1().cfg(), AddrConfig::FILTER);

    assert_eq!(filter.addr2().a(), 5);
    assert_eq!(filter.addr2().b(), 6);
    assert_eq!(filter.addr2().cfg(), AddrConfig::STOP);

    assert_eq!(filter.addr3().a(), 7);
    assert_eq!(filter.addr3().b(), 8);
    assert_eq!(filter.addr3().cfg(), AddrConfig::DISABLED);
}

#[test]
fn more_than_four_filters_are_a_bad_config() {
    let f = AddrFilter::new(1, 2, AddrFilterType::FILTER);
    let e = AddrFilters::new(&[f, f, f, f, f]).unwrap_err();
    assert_eq!(e.code(), PtErrorCode::BadConfig);
    assert_eq!(e.msg(), "The maximum number of address filters is 4");
}

#[test]
fn missing_filters_are_disabled_and_zero() {
    let filters = AddrFilters::new(&[AddrFilter::new(9, 10, AddrFilterType::STOP)]).unwrap();
    assert_eq!(filters.raw().addr_cfg, 2);
    let r = filters.addr1();
    assert_eq!((r.from, r.to, r.filter_type), (0, 0, AddrFilterType::DISABLED));
    assert_eq!(filters.addr3().filter_type, AddrFilterType::DISABLED);
    let empty = AddrFilters::new(&[]).unwrap();
    assert_eq!(empty, AddrFilters::default());
}

#[test]
fn packed_configuration_word() {
    let filters = AddrFilters::new(&[
        AddrFilter::new(0, 0, AddrFilterType::FILTER),
        AddrFilter::new(0, 0, AddrFilterType::STOP),
        AddrFilter::new(0, 0, AddrFilterType::DISABLED),
        AddrFilter::new(0, 0, AddrFilterType::STOP),
    ])
    .unwrap();
    assert_eq!(filters.raw().addr_cfg, 0x2021);
    assert_eq!(AddrFilterType::STOP.to_addr_cfg_raw(3), 0x2000);
}

#[test]
fn setters_fill_empty_slots() {
    let mut filters = AddrFilters::default();
    filters.set_addr2(AddrFilter::new(5, 6, AddrFilterType::FILTER));
    filters.set_addr0(AddrFilter::new(1, 2, AddrFilterType::STOP));
    assert_eq!(filters.addr2().from, 5);
    assert_eq!(filters.addr2().filter_type, AddrFilterType::FILTER);
    assert_eq!(filters.addr0().filter_type, AddrFilterType::STOP);
    assert_eq!(filters.addr1().filter_type, AddrFilterType::DISABLED);
    // the type is ORed into the configuration word
    filters.set_addr0(AddrFilter::new(1, 2, AddrFilterType::DISABLED));
    assert_eq!(filters.addr0().filter_type, AddrFilterType::STOP);
}

#[test]
fn iter_walks_the_four_ranges() {
    let filters = AddrFilters::new(&[
        AddrFilter::new(1, 2, AddrFilterType::FILTER),
        AddrFilter::new(3, 4, AddrFilterType::STOP),
    ])
    .unwrap();
    let mut it = filters.iter();
    let mut seen = Vec::new();
    while let Some(f) = it.next() {
        seen.push((f.from, f.to, f.filter_type));
    }
    assert_eq!(
        seen,
        vec![
            (1, 2, AddrFilterType::FILTER),
            (3, 4, AddrFilterType::STOP),
            (0, 0, AddrFilterType::DISABLED),
            (0, 0, AddrFilterType::DISABLED),
        ]
    );
    assert!(it.next().is_none());
}

#[test]
fn builder_replaces_a_range() {
    let mut b = AddrFilterBuilder::new();
    b.addr1(AddrRange::new(1, 2, AddrConfig::STOP));
    b.addr1(AddrRange::new(3, 4, AddrConfig::FILTER));
    let f = b.finish();
    assert_eq!(f.addr1().a(), 3);
    assert_eq!(f.addr1().cfg(), AddrConfig::FILTER);
    assert_eq!(f.raw().addr_cfg, 0x10);
}

#[test]
fn addr_range_setters() {
    let mut r = AddrRange::new(1, 2, AddrConfig::DISABLED);
    r.set_a(10);
    r.set_b(20);
    r.set_cfg(AddrConfig::STOP);
    assert_eq!((r.a(), r.b(), r.cfg()), (10, 20, AddrConfig::STOP));
}
