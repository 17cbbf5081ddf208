use libipt::block::Block;
use libipt::event::ExecModeType;
use libipt::insn::{Class, Insn};

#[test]
fn mod_test_block_props() {
    let data: [u8; 15] = [17; 15];
    let blk = Block::from_raw(
        1,
        2,
        3,
        ExecModeType::Bit32.to_primitive(),
        Class::Unknown.to_primitive(),
        4,
        data,
        8,
        false,
        true,
    );

    assert_eq!(blk.ip(), 1);
    assert_eq!(blk.end_ip(), 2);
    assert_eq!(blk.isid(), 3);
    assert_eq!(blk.mode(), ExecModeType::Bit32);
    assert_eq!(blk.class(), Class::Unknown);
    assert_eq!(blk.ninsn(), 4);
    assert_eq!(blk.raw(), Some(&data[..8]));
    assert!(blk.truncated());
    assert!(!blk.speculative());
}

#[test]
fn mod_test_block_notruncate() {
    let data: [u8; 15] = [17; 15];
    let blk = Block::from_raw(
        1,
        2,
        3,
        ExecModeType::Bit32.to_primitive(),
        Class::Unknown.to_primitive(),
        4,
        data,
        8,
        false,
        false,
    );

    assert_eq!(blk.ip(), 1);
    assert_eq!(blk.end_ip(), 2);
    assert_eq!(blk.isid(), 3);
    assert_eq!(blk.mode(), ExecModeType::Bit32);
    assert_eq!(blk.class(), Class::Unknown);
    assert_eq!(blk.ninsn(), 4);
    assert!(blk.raw().is_none());
    assert!(!blk.truncated());
    assert!(!blk.speculative());
}

#[test]
fn test_insn_props() {
    let data: [u8; 15] = [17; 15];
    let blk = Insn::from_raw(
        1,
        2,
        ExecModeType::Bit32.to_primitive(),
        Class::Call.to_primitive(),
        data,
        8,
        false,
        true,
    );

    assert_eq!(blk.ip(), 1);
    assert_eq!(blk.isid(), 2);
    assert_eq!(blk.mode(), ExecModeType::Bit32);
    assert_eq!(blk.class(), Class::Call);
    assert_eq!(blk.raw(), &data[..8]);
    assert!(blk.truncated());
    assert!(!blk.speculative());
}

#[test]
fn class_numbers_follow_libipt() {
    assert_eq!(Class::Unknown.to_primitive(), 0);
    assert_eq!(Class::Other.to_primitive(), 1);
    assert_eq!(Class::Call.to_primitive(), 2);
    assert_eq!(Class::Return.to_primitive(), 3);
    assert_eq!(Class::Ptwrite.to_primitive(), 9);
    for v in 0..10u32 {
        assert_eq!(Class::try_from_primitive(v).unwrap().to_primitive(), v);
    }
    // the indirect class of newer libipt versions has no Class
    assert!(Class::try_from_primitive(10).is_err());
}

#[test]
fn block_raw_bytes_are_the_first_size_bytes() {
    let mut data = [0u8; 15];
    for (i, b) in data.iter_mut().enumerate() {
        *b = i as u8;
    }
    let blk = Block::from_raw(0, 0, 0, 3, 0, 1, data, 3, true, true);
    assert_eq!(blk.raw(), Some(&[0u8, 1, 2][..]));
    assert!(blk.speculative());
    assert_eq!(blk.mode(), ExecModeType::Bit64);
}
