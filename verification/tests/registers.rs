use riscv_clic::register::mcause::{Exception, Interrupt, Mcause, Trap, MPP};
use riscv_clic::register::mtvec;
use riscv_clic::register::mtvec::{Mtvec, TrapMode};
use riscv_clic::register::mtvt;
use riscv_clic::register::mtvt::Mtvt;

#[test]
fn baseline_interrupt_table_is_total() {
    let known: [usize; 9] = [0, 1, 3, 4, 5, 7, 8, 9, 11];
    for code in 0..256usize {
        let tag = Interrupt::from(code);
        assert_eq!(tag == Interrupt::Unknown, !known.contains(&code));
    }
}

#[test]
fn extended_interrupt_table_is_total() {
    let known: [usize; 3] = [3, 7, 11];
    for code in 0..256usize {
        let tag = Interrupt::from_extended(code);
        assert_eq!(tag == Interrupt::Unknown, !known.contains(&code));
    }
}

#[test]
fn exception_table_is_total() {
    let known: [usize; 14] = [0, 1, 2, 3, 4, 5, 6, 7, 8, 9, 11, 12, 13, 15];
    for code in 0..256usize {
        let tag = Exception::from(code);
        assert_eq!(tag == Exception::Unknown, !known.contains(&code));
    }
}

#[test]
fn unmapped_baseline_code_is_unknown_interrupt() {
    assert_eq!(Interrupt::from(2), Interrupt::Unknown);
    assert_eq!(Interrupt::from_extended(1), Interrupt::Unknown);
    assert_eq!(Exception::from(10), Exception::Unknown);
    assert_eq!(Exception::from(14), Exception::Unknown);
}

#[test]
fn interrupt_tags_know_their_codes() {
    assert_eq!(Interrupt::from(3), Interrupt::MachineSoft);
    assert_eq!(Interrupt::from(0), Interrupt::UserSoft);
    assert_eq!(Interrupt::from(11), Interrupt::MachineExternal);
    assert_eq!(Interrupt::MachineTimer.number(), Ok(7));
    assert_eq!(Interrupt::Unknown.number(), Err(Interrupt::Unknown));
    assert_eq!(Exception::from(15), Exception::StorePageFault);
    assert_eq!(Exception::StorePageFault.number(), Ok(15));
    assert_eq!(Exception::Unknown.number(), Err(Exception::Unknown));
    for code in 0..256usize {
        let tag = Interrupt::from(code);
        if tag != Interrupt::Unknown {
            assert_eq!(tag.number(), Ok(code));
        }
        let tag = Exception::from(code);
        if tag != Exception::Unknown {
            assert_eq!(tag.number(), Ok(code));
        }
    }
}

#[test]
fn timer_interrupt_word_decodes() {
    let word: usize = 0x8000_0000_0000_0007;
    let mc = Mcause::from_bits(word);
    assert!(mc.is_interrupt());
    assert!(!mc.is_exception());
    assert_eq!(mc.bits(), word);
    assert_eq!(mc.code(), 7);
    assert_eq!(mc.cause(), Trap::Interrupt(Interrupt::MachineTimer));
    assert_eq!(mc.cause_extended(), Trap::Interrupt(Interrupt::MachineTimer));
}

#[test]
fn exception_word_decodes() {
    let mc = Mcause::from_bits(2);
    assert!(mc.is_exception());
    assert!(!mc.is_interrupt());
    assert_eq!(mc.code(), 2);
    assert_eq!(mc.cause(), Trap::Exception(Exception::IllegalInstruction));
    assert_eq!(mc.cause_extended(), Trap::Exception(Exception::IllegalInstruction));
}

#[test]
fn extended_cause_word_differs_from_baseline() {
    let word: usize = 0x8000_0000_0000_0001;
    let mc = Mcause::from_bits(word);
    assert_eq!(mc.cause(), Trap::Interrupt(Interrupt::SupervisorSoft));
    assert_eq!(mc.cause_extended(), Trap::Interrupt(Interrupt::Unknown));
}

#[test]
fn status_fields_sit_at_their_bit_positions() {
    let mc = Mcause::from_bits(1 << 27);
    assert!(mc.mpie());
    assert!(!mc.minhv());
    assert_eq!(mc.mpp(), MPP::User);

    let mc = Mcause::from_bits(1 << 30);
    assert!(mc.minhv());
    assert!(!mc.mpie());

    assert_eq!(Mcause::from_bits(0b00 << 28).mpp(), MPP::User);
    assert_eq!(Mcause::from_bits(0b01 << 28).mpp(), MPP::Supervisor);
    assert_eq!(Mcause::from_bits(0b11 << 28).mpp(), MPP::Machine);
    assert_eq!(Mcause::from_bits(usize::MAX & !(0b10 << 28)).mpp(), MPP::Supervisor);
}

#[test]
fn vector_register_round_trips_aligned_writes() {
    let v = mtvec::write(0x2000, TrapMode::Vectored);
    assert_eq!(v.bits(), 0x2001);
    assert_eq!(v.address(), 0x2000);
    assert_eq!(v.trap_mode(), Some(TrapMode::Vectored));
    assert_eq!(v.trap_mode_extended(), TrapMode::Vectored);

    let v = mtvec::write(0x2000, TrapMode::Direct);
    assert_eq!(v.bits(), 0x2000);
    assert_eq!(v.trap_mode(), Some(TrapMode::Direct));
    assert_eq!(v.trap_mode_extended(), TrapMode::Direct);
}

#[test]
fn extended_vector_modes_collapse() {
    let v = mtvec::write(0x4000, TrapMode::ClicDirect);
    assert_eq!(v.bits(), 0x4002);
    assert_eq!(v.address(), 0x4000);
    assert_eq!(v.trap_mode(), None);
    assert_eq!(v.trap_mode_extended(), TrapMode::Direct);

    let v = mtvec::write(0x4000, TrapMode::ClicVectored);
    assert_eq!(v.bits(), 0x4003);
    assert_eq!(v.trap_mode(), None);
    assert_eq!(v.trap_mode_extended(), TrapMode::Vectored);
}

#[test]
fn trap_modes_encode_their_selectors() {
    assert_eq!(TrapMode::Direct.number(), 0);
    assert_eq!(TrapMode::Vectored.number(), 1);
    assert_eq!(TrapMode::ClicDirect.number(), 2);
    assert_eq!(TrapMode::ClicVectored.number(), 3);
}

#[test]
fn vector_register_decodes_raw_words() {
    let v = Mtvec::from_bits(0x1003);
    assert_eq!(v.bits(), 0x1003);
    assert_eq!(v.address(), 0x1000);
    assert_eq!(v.trap_mode(), None);
    assert_eq!(v.trap_mode_extended(), TrapMode::Vectored);
}

#[test]
fn table_base_write_truncates_to_alignment() {
    let t = mtvt::write(0x1007);
    assert_eq!(t.bits(), 0x1000);
    assert_eq!(t.address(), 0x1000);

    let t = mtvt::write(0x1040);
    assert_eq!(t.bits(), 0x1040);
    assert_eq!(t.address(), 0x1040);
}

#[test]
fn csr_numbers_match_the_addressing_contract() {
    assert_eq!(riscv_clic::register::mcause::CSR_NUMBER, 0x342);
    assert_eq!(mtvec::CSR_NUMBER, 0x305);
    assert_eq!(mtvt::CSR_NUMBER, 0x307);
}

#[test]
fn table_base_decodes_raw_words() {
    let t = Mtvt::from_bits(0x103f);
    assert_eq!(t.bits(), 0x103f);
    assert_eq!(t.address(), 0x1000);
}
