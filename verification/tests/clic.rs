use riscv_clic::peripheral::clic::{
    is_software_pendable, number_round_trip, CoreInterrupt, InterruptNumber, RegisterBlock,
    EXTENDED_SOFT_CODE, MACHINE_SOFT_CODE, MAX_SOURCES,
};
use riscv_clic::peripheral::clint;
use riscv_clic::peripheral::{CLIC, PLIC, CLIC_CFG_LEVEL_BITS};

type TestClic = CLIC<0x0200_0000, 0x0280_0000>;

#[test]
fn fresh_block_is_zeroed() {
    let regs = RegisterBlock::new();
    assert_eq!(regs.clic_int_ip.len(), MAX_SOURCES);
    assert_eq!(regs.clic_int_ie.len(), MAX_SOURCES);
    assert_eq!(regs.clic_int_cfg.len(), MAX_SOURCES);
    assert!(regs.clic_int_ip.iter().all(|&b| b == 0));
    assert!(regs.clic_int_ie.iter().all(|&b| b == 0));
    assert!(regs.clic_int_cfg.iter().all(|&b| b == 0));
    assert_eq!(regs.clic_cfg, 0);
}

#[test]
fn construction_overwrites_global_config() {
    let mut regs = RegisterBlock::new();
    regs.clic_cfg = 0xab;
    let _handle = TestClic::new(&mut regs);
    assert_eq!(regs.clic_cfg, CLIC_CFG_LEVEL_BITS);
    assert_eq!(regs.clic_cfg, 8);
    assert!(regs.clic_int_ie.iter().all(|&b| b == 0));
}

#[test]
fn mask_disables_and_unmask_enables() {
    let mut regs = RegisterBlock::new();
    let _handle = TestClic::new(&mut regs);
    for line in [
        CoreInterrupt::MachineSoft,
        CoreInterrupt::MachineTimer,
        CoreInterrupt::MachineExternal,
        CoreInterrupt::ExtendedSoft,
    ] {
        TestClic::unmask(line, &mut regs);
        assert!(TestClic::is_enabled(line, &regs));
        TestClic::mask(line, &mut regs);
        assert!(!TestClic::is_enabled(line, &regs));
        TestClic::mask(line, &mut regs);
        assert!(!TestClic::is_enabled(line, &regs));
    }
}

#[test]
fn pend_touches_only_software_pendable_lines() {
    let mut regs = RegisterBlock::new();
    let _handle = TestClic::new(&mut regs);

    TestClic::pend(CoreInterrupt::MachineSoft, &mut regs);
    assert!(TestClic::is_pending(CoreInterrupt::MachineSoft, &regs));
    TestClic::unpend(CoreInterrupt::MachineSoft, &mut regs);
    assert!(!TestClic::is_pending(CoreInterrupt::MachineSoft, &regs));

    TestClic::pend(CoreInterrupt::ExtendedSoft, &mut regs);
    assert!(TestClic::is_pending(CoreInterrupt::ExtendedSoft, &regs));

    TestClic::pend(CoreInterrupt::MachineTimer, &mut regs);
    assert!(!TestClic::is_pending(CoreInterrupt::MachineTimer, &regs));
    TestClic::pend(CoreInterrupt::MachineExternal, &mut regs);
    assert!(!TestClic::is_pending(CoreInterrupt::MachineExternal, &regs));
}

#[test]
fn software_pendable_lines_are_exactly_two() {
    for code in 0..300u16 {
        assert_eq!(
            is_software_pendable(code),
            code == MACHINE_SOFT_CODE || code == EXTENDED_SOFT_CODE
        );
    }
    assert!(is_software_pendable(3));
    assert!(is_software_pendable(12));
    assert!(!is_software_pendable(7));
    assert!(!is_software_pendable(11));
}

#[test]
fn level_write_masks_to_four_bits() {
    let mut regs = RegisterBlock::new();
    let _handle = TestClic::new(&mut regs);
    TestClic::set_level(CoreInterrupt::MachineExternal, 20, &mut regs);
    assert_eq!(TestClic::get_level(CoreInterrupt::MachineExternal, &regs), 4);
    TestClic::set_level(CoreInterrupt::MachineExternal, 15, &mut regs);
    assert_eq!(TestClic::get_level(CoreInterrupt::MachineExternal, &regs), 15);
    TestClic::set_level(CoreInterrupt::MachineExternal, 0, &mut regs);
    assert_eq!(TestClic::get_level(CoreInterrupt::MachineExternal, &regs), 0);
    assert_eq!(regs.clic_int_cfg[11], 0);
    TestClic::set_level(CoreInterrupt::MachineSoft, 0xff, &mut regs);
    assert_eq!(TestClic::get_level(CoreInterrupt::MachineSoft, &regs), 15);
    assert_eq!(regs.clic_int_cfg[3], 0xf0);
}

#[test]
fn identifier_codes_round_trip() {
    for line in [
        CoreInterrupt::MachineSoft,
        CoreInterrupt::MachineTimer,
        CoreInterrupt::MachineExternal,
        CoreInterrupt::ExtendedSoft,
    ] {
        assert_eq!(number_round_trip(line), Ok(line));
        assert_eq!(CoreInterrupt::try_from_number(line.number()), Ok(line));
    }
    assert_eq!(CoreInterrupt::MachineSoft.number(), 3);
    assert_eq!(CoreInterrupt::MachineTimer.number(), 7);
    assert_eq!(CoreInterrupt::MachineExternal.number(), 11);
    assert_eq!(CoreInterrupt::ExtendedSoft.number(), 12);
}

#[test]
fn unmapped_codes_are_rejected_unchanged() {
    assert_eq!(CoreInterrupt::try_from_number(0), Err(0));
    assert_eq!(CoreInterrupt::try_from_number(5), Err(5));
    assert_eq!(CoreInterrupt::try_from_number(255), Err(255));
    assert_eq!(CoreInterrupt::try_from_number(256), Err(256));
    assert_eq!(CoreInterrupt::try_from_number(u16::MAX), Err(u16::MAX));
}

#[test]
fn operations_target_the_cell_of_the_code() {
    let mut regs = RegisterBlock::new();
    let _handle = TestClic::new(&mut regs);
    TestClic::unmask(CoreInterrupt::MachineTimer, &mut regs);
    assert_eq!(regs.clic_int_ie[7], 1);
    assert!(regs
        .clic_int_ie
        .iter()
        .enumerate()
        .all(|(i, &b)| (b != 0) == (i == 7)));
    TestClic::pend(CoreInterrupt::ExtendedSoft, &mut regs);
    assert_eq!(regs.clic_int_ip[12], 1);
    assert!(regs
        .clic_int_ip
        .iter()
        .enumerate()
        .all(|(i, &b)| (b != 0) == (i == 12)));
}

#[test]
fn shared_block_holds_plain_registers() {
    let mut shared = clint::RegisterBlock {
        msip: 0,
        mtimecmp: u64::MAX,
        mtime: 0,
    };
    shared.msip = 1;
    shared.mtime = 0x1234_5678;
    assert_eq!(shared.msip, 1);
    assert_eq!(shared.mtimecmp, u64::MAX);
    assert_eq!(shared.mtime, 0x1234_5678);
}

#[test]
fn plic_handle_is_zero_sized() {
    let _ctx: PLIC<0x0c00_0000, 1> = PLIC::new();
    assert_eq!(core::mem::size_of::<PLIC<0x0c00_0000, 1>>(), 0);
    assert_eq!(core::mem::size_of::<TestClic>(), 0);
}
