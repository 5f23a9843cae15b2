//! The trap-cause register (`mcause`, CSR 0x342).
//!
//! The most significant bit of the native-width cause word tells an
//! interrupt from an exception; the remaining bits are the cause code.  The code
//! dispatches through one of two total mapping tables, depending on the
//! configured trap-controller mode: the baseline table knows the
//! privilege-scoped software/timer/external interrupt lines, the
//! extended-controller table only the flat machine-level lines.  Codes
//! that no table entry claims decode to an explicit unknown tag rather
//! than failing.  Reading the CSR itself is the platform's generic CSR
//! primitive; this module decodes words read from it.

use vstd::prelude::*;

verus! {

/// The number under which the platform's CSR read/write primitive
/// reaches this register.
pub const CSR_NUMBER: u16 = 0x342;

/// Set in the raw cause word exactly when the trap is an interrupt:
/// the most significant bit of the native machine word.
pub open spec fn spec_is_interrupt(bits: usize) -> bool {
    bits & !(usize::MAX >> 1) != 0
}

/// The cause code: the raw word with its most significant bit cleared.
pub open spec fn spec_code(bits: usize) -> usize {
    bits & (usize::MAX >> 1)
}

/// Trap Cause
#[derive(Copy, Clone, Debug, PartialEq, Eq, Structural)]
pub enum Trap {
    Interrupt(Interrupt),
    Exception(Exception),
}

/// Interrupt
#[derive(Copy, Clone, Debug, PartialEq, Eq, Structural)]
pub enum Interrupt {
    UserSoft,
    SupervisorSoft,
    MachineSoft,
    UserTimer,
    SupervisorTimer,
    MachineTimer,
    UserExternal,
    SupervisorExternal,
    MachineExternal,
    Unknown,
}

/// Exception
#[derive(Copy, Clone, Debug, PartialEq, Eq, Structural)]
pub enum Exception {
    InstructionMisaligned,
    InstructionFault,
    IllegalInstruction,
    Breakpoint,
    LoadMisaligned,
    LoadFault,
    StoreMisaligned,
    StoreFault,
    UserEnvCall,
    SupervisorEnvCall,
    MachineEnvCall,
    InstructionPageFault,
    LoadPageFault,
    StorePageFault,
    Unknown,
}

/// The baseline interrupt table: privilege-scoped software, timer and
/// external lines at codes 0, 1, 3, 4, 5, 7, 8, 9 and 11.
pub open spec fn spec_interrupt_from(nr: usize) -> Interrupt {
    if nr == 0 {
        Interrupt::UserSoft
    } else if nr == 1 {
        Interrupt::SupervisorSoft
    } else if nr == 3 {
        Interrupt::MachineSoft
    } else if nr == 4 {
        Interrupt::UserTimer
    } else if nr == 5 {
        Interrupt::SupervisorTimer
    } else if nr == 7 {
        Interrupt::MachineTimer
    } else if nr == 8 {
        Interrupt::UserExternal
    } else if nr == 9 {
        Interrupt::SupervisorExternal
    } else if nr == 11 {
        Interrupt::MachineExternal
    } else {
        Interrupt::Unknown
    }
}

/// The extended-controller interrupt table: only the flat machine-level
/// software, timer and external lines at codes 3, 7 and 11.
pub open spec fn spec_interrupt_from_extended(nr: usize) -> Interrupt {
    if nr == 3 {
        Interrupt::MachineSoft
    } else if nr == 7 {
        Interrupt::MachineTimer
    } else if nr == 11 {
        Interrupt::MachineExternal
    } else {
        Interrupt::Unknown
    }
}

/// The exception table, shared by both configurations: codes 0 through
/// 9, 11 through 13 and 15.
pub open spec fn spec_exception_from(nr: usize) -> Exception {
    if nr == 0 {
        Exception::InstructionMisaligned
    } else if nr == 1 {
        Exception::InstructionFault
    } else if nr == 2 {
        Exception::IllegalInstruction
    } else if nr == 3 {
        Exception::Breakpoint
    } else if nr == 4 {
        Exception::LoadMisaligned
    } else if nr == 5 {
        Exception::LoadFault
    } else if nr == 6 {
        Exception::StoreMisaligned
    } else if nr == 7 {
        Exception::StoreFault
    } else if nr == 8 {
        Exception::UserEnvCall
    } else if nr == 9 {
        Exception::SupervisorEnvCall
    } else if nr == 11 {
        Exception::MachineEnvCall
    } else if nr == 12 {
        Exception::InstructionPageFault
    } else if nr == 13 {
        Exception::LoadPageFault
    } else if nr == 15 {
        Exception::StorePageFault
    } else {
        Exception::Unknown
    }
}

/// The code that a known interrupt tag stands for.
pub open spec fn spec_interrupt_code(i: Interrupt) -> usize
    recommends
        i != Interrupt::Unknown,
{
    match i {
        Interrupt::UserSoft => 0,
        Interrupt::SupervisorSoft => 1,
        Interrupt::MachineSoft => 3,
        Interrupt::UserTimer => 4,
        Interrupt::SupervisorTimer => 5,
        Interrupt::MachineTimer => 7,
        Interrupt::UserExternal => 8,
        Interrupt::SupervisorExternal => 9,
        Interrupt::MachineExternal => 11,
        Interrupt::Unknown => 0,
    }
}

/// The code that a known exception tag stands for.
pub open spec fn spec_exception_code(e: Exception) -> usize
    recommends
        e != Exception::Unknown,
{
    match e {
        Exception::InstructionMisaligned => 0,
        Exception::InstructionFault => 1,
        Exception::IllegalInstruction => 2,
        Exception::Breakpoint => 3,
        Exception::LoadMisaligned => 4,
        Exception::LoadFault => 5,
        Exception::StoreMisaligned => 6,
        Exception::StoreFault => 7,
        Exception::UserEnvCall => 8,
        Exception::SupervisorEnvCall => 9,
        Exception::MachineEnvCall => 11,
        Exception::InstructionPageFault => 12,
        Exception::LoadPageFault => 13,
        Exception::StorePageFault => 15,
        Exception::Unknown => 0,
    }
}

impl Interrupt {
    /// Decodes a cause code through the baseline table.
    pub fn from(nr: usize) -> (r: Interrupt)
        ensures
            r == spec_interrupt_from(nr),
    {
        match nr {
            0 => Interrupt::UserSoft,
            1 => Interrupt::SupervisorSoft,
            3 => Interrupt::MachineSoft,
            4 => Interrupt::UserTimer,
            5 => Interrupt::SupervisorTimer,
            7 => Interrupt::MachineTimer,
            8 => Interrupt::UserExternal,
            9 => Interrupt::SupervisorExternal,
            11 => Interrupt::MachineExternal,
            _ => Interrupt::Unknown,
        }
    }

    /// Decodes a cause code through the extended-controller table.
    pub fn from_extended(nr: usize) -> (r: Interrupt)
        ensures
            r == spec_interrupt_from_extended(nr),
    {
        match nr {
            3 => Interrupt::MachineSoft,
            7 => Interrupt::MachineTimer,
            11 => Interrupt::MachineExternal,
            _ => Interrupt::Unknown,
        }
    }

    /// The numeric code of a known tag; the unknown tag is handed back
    /// unchanged, since no single code stands for it.
    pub fn number(self) -> (r: Result<usize, Interrupt>)
        ensures
            self == Interrupt::Unknown ==> r == Err::<usize, Interrupt>(Interrupt::Unknown),
            self != Interrupt::Unknown ==> r == Ok::<usize, Interrupt>(spec_interrupt_code(self)),
    {
        match self {
            Interrupt::UserSoft => Ok(0),
            Interrupt::SupervisorSoft => Ok(1),
            Interrupt::MachineSoft => Ok(3),
            Interrupt::UserTimer => Ok(4),
            Interrupt::SupervisorTimer => Ok(5),
            Interrupt::MachineTimer => Ok(7),
            Interrupt::UserExternal => Ok(8),
            Interrupt::SupervisorExternal => Ok(9),
            Interrupt::MachineExternal => Ok(11),
            Interrupt::Unknown => Err(Interrupt::Unknown),
        }
    }
}

impl Exception {
    /// Decodes a cause code through the exception table.
    pub fn from(nr: usize) -> (r: Exception)
        ensures
            r == spec_exception_from(nr),
    {
        match nr {
            0 => Exception::InstructionMisaligned,
            1 => Exception::InstructionFault,
            2 => Exception::IllegalInstruction,
            3 => Exception::Breakpoint,
            4 => Exception::LoadMisaligned,
            5 => Exception::LoadFault,
            6 => Exception::StoreMisaligned,
            7 => Exception::StoreFault,
            8 => Exception::UserEnvCall,
            9 => Exception::SupervisorEnvCall,
            11 => Exception::MachineEnvCall,
            12 => Exception::InstructionPageFault,
            13 => Exception::LoadPageFault,
            15 => Exception::StorePageFault,
            _ => Exception::Unknown,
        }
    }

    /// The numeric code of a known tag; the unknown tag is handed back
    /// unchanged, since no single code stands for it.
    pub fn number(self) -> (r: Result<usize, Exception>)
        ensures
            self == Exception::Unknown ==> r == Err::<usize, Exception>(Exception::Unknown),
            self != Exception::Unknown ==> r == Ok::<usize, Exception>(spec_exception_code(self)),
    {
        match self {
            Exception::InstructionMisaligned => Ok(0),
            Exception::InstructionFault => Ok(1),
            Exception::IllegalInstruction => Ok(2),
            Exception::Breakpoint => Ok(3),
            Exception::LoadMisaligned => Ok(4),
            Exception::LoadFault => Ok(5),
            Exception::StoreMisaligned => Ok(6),
            Exception::StoreFault => Ok(7),
            Exception::UserEnvCall => Ok(8),
            Exception::SupervisorEnvCall => Ok(9),
            Exception::MachineEnvCall => Ok(11),
            Exception::InstructionPageFault => Ok(12),
            Exception::LoadPageFault => Ok(13),
            Exception::StorePageFault => Ok(15),
            Exception::Unknown => Err(Exception::Unknown),
        }
    }
}

/// Decoding is total, and the unknown tag comes exactly on the codes
/// that no table entry claims: in the baseline interrupt table those
/// outside 0, 1, 3, 4, 5, 7, 8, 9 and 11; in the extended-controller
/// interrupt table those outside 3, 7 and 11; in the exception table
/// those outside 0 through 9, 11 through 13 and 15.
pub proof fn lemma_cause_decoding_total(nr: usize)
    ensures
        spec_interrupt_from(nr) == Interrupt::Unknown <==> !(nr == 0 || nr == 1 || nr == 3
            || nr == 4 || nr == 5 || nr == 7 || nr == 8 || nr == 9 || nr == 11),
        spec_interrupt_from_extended(nr) == Interrupt::Unknown <==> !(nr == 3 || nr == 7
            || nr == 11),
        spec_exception_from(nr) == Exception::Unknown <==> !(nr <= 9 || nr == 11 || nr == 12
            || nr == 13 || nr == 15),
{
}

/// Decoding the code that a known tag stands for yields that tag back:
/// the tables and the tags' own codes agree.  The baseline interrupt
/// table carries every known interrupt tag; the extended-controller
/// table carries the three machine-level ones.
pub proof fn lemma_tag_code_agreement(i: Interrupt, e: Exception)
    requires
        i != Interrupt::Unknown,
        e != Exception::Unknown,
    ensures
        spec_interrupt_from(spec_interrupt_code(i)) == i,
        spec_exception_from(spec_exception_code(e)) == e,
        i == Interrupt::MachineSoft || i == Interrupt::MachineTimer
            || i == Interrupt::MachineExternal ==> spec_interrupt_from_extended(
            spec_interrupt_code(i),
        ) == i,
{
}

/// Previous privilege mode, as the extended controller relocates it
/// into the cause register.
#[derive(Copy, Clone, Debug, PartialEq, Eq, Structural)]
pub enum MPP {
    User,
    Supervisor,
    Machine,
}

/// The two-bit previous-privilege field of a raw cause word, at bit
/// positions 28 and 29.
pub open spec fn spec_mpp_bits(bits: usize) -> usize {
    (bits >> 28) & 3
}

/// The previous-privilege tag that a raw cause word holds; selector 2
/// is reserved and decodes to no tag.
pub open spec fn spec_mpp(bits: usize) -> MPP
    recommends
        spec_mpp_bits(bits) != 2,
{
    if spec_mpp_bits(bits) == 0 {
        MPP::User
    } else if spec_mpp_bits(bits) == 1 {
        MPP::Supervisor
    } else {
        MPP::Machine
    }
}

/// The previous-interrupt-enable bit of a raw cause word, at bit
/// position 27.
pub open spec fn spec_mpie(bits: usize) -> bool {
    bits & (1usize << 27) != 0
}

/// The hardware-vectoring-in-progress bit of a raw cause word, at bit
/// position 30.
pub open spec fn spec_minhv(bits: usize) -> bool {
    bits & (1usize << 30) != 0
}

/// The trap tag of a raw cause word under the baseline table.
pub open spec fn spec_cause(bits: usize) -> Trap {
    if spec_is_interrupt(bits) {
        Trap::Interrupt(spec_interrupt_from(spec_code(bits)))
    } else {
        Trap::Exception(spec_exception_from(spec_code(bits)))
    }
}

/// The trap tag of a raw cause word under the extended-controller table.
pub open spec fn spec_cause_extended(bits: usize) -> Trap {
    if spec_is_interrupt(bits) {
        Trap::Interrupt(spec_interrupt_from_extended(spec_code(bits)))
    } else {
        Trap::Exception(spec_exception_from(spec_code(bits)))
    }
}

/// Relies on bit_field's `BitField::get_bit` for `usize`: returns bit
/// `bit` of `bits`, counting from the least significant bit.
#[verifier::external_body]
fn get_bit_usize(bits: usize, bit: usize) -> (r: bool)
    requires
        bit < 32,
    ensures
        r == (bits & (1usize << bit) != 0),
{
    bit_field::BitField::get_bit(&bits, bit)
}

/// Relies on bit_field's `BitField::get_bits` for `usize`: returns the
/// two bits of `bits` at positions `start` and `start + 1`, shifted
/// down to the low bits of the result.
#[verifier::external_body]
fn get_two_bits_usize(bits: usize, start: usize) -> (r: usize)
    requires
        start + 2 <= 32,
    ensures
        r == (bits >> start) & 3,
{
    bit_field::BitField::get_bits(&bits, start..start + 2)
}

/// mcause register
#[derive(Clone, Copy, Debug)]
pub struct Mcause {
    bits: usize,
}

impl View for Mcause {
    type V = usize;

    closed spec fn view(&self) -> usize {
        self.bits
    }
}

impl Mcause {
    /// Wraps a raw word read from the register.
    pub fn from_bits(bits: usize) -> (r: Mcause)
        ensures
            r@ == bits,
    {
        Mcause { bits }
    }

    /// Returns the contents of the register as raw bits
    pub fn bits(&self) -> (r: usize)
        ensures
            r == self@,
    {
        self.bits
    }

    /// Returns the code field
    pub fn code(&self) -> (r: usize)
        ensures
            r == spec_code(self@),
    {
        self.bits & (usize::MAX >> 1)
    }

    /// Is trap cause an interrupt.
    pub fn is_interrupt(&self) -> (r: bool)
        ensures
            r == spec_is_interrupt(self@),
    {
        self.bits & !(usize::MAX >> 1) != 0
    }

    /// Is trap cause an exception.
    pub fn is_exception(&self) -> (r: bool)
        ensures
            r == !spec_is_interrupt(self@),
    {
        !self.is_interrupt()
    }

    /// Trap Cause, under the baseline table.
    pub fn cause(&self) -> (r: Trap)
        ensures
            r == spec_cause(self@),
    {
        if self.is_interrupt() {
            Trap::Interrupt(Interrupt::from(self.code()))
        } else {
            Trap::Exception(Exception::from(self.code()))
        }
    }

    /// Trap Cause, under the extended-controller table.
    pub fn cause_extended(&self) -> (r: Trap)
        ensures
            r == spec_cause_extended(self@),
    {
        if self.is_interrupt() {
            Trap::Interrupt(Interrupt::from_extended(self.code()))
        } else {
            Trap::Exception(Exception::from(self.code()))
        }
    }

    /// Machine previous interrupt enable, relocated into this register
    /// from the general machine-status register.
    ///
    /// This field is only meaningful in the extended-controller
    /// configuration.
    pub fn mpie(&self) -> (r: bool)
        ensures
            r == spec_mpie(self@),
    {
        get_bit_usize(self.bits, 27)
    }

    /// Machine previous privilege mode, relocated into this register
    /// from the general machine-status register.
    ///
    /// This field is only meaningful in the extended-controller
    /// configuration.  The caller must know the reserved selector 2 is
    /// not stored, as the hardware never writes it.
    pub fn mpp(&self) -> (r: MPP)
        requires
            spec_mpp_bits(self@) != 2,
        ensures
            r == spec_mpp(self@),
    {
        let v = get_two_bits_usize(self.bits, 28);
        proof {
            let b = self.bits;
            assert((b >> 28) & 3usize <= 3) by (bit_vector);
        }
        match v {
            0 => MPP::User,
            1 => MPP::Supervisor,
            3 => MPP::Machine,
            _ => vstd::pervasive::unreached(),
        }
    }

    /// Hardware vectoring is in progress when set
    ///
    /// This field is only meaningful in the extended-controller
    /// configuration.
    pub fn minhv(&self) -> (r: bool)
        ensures
            r == spec_minhv(self@),
    {
        get_bit_usize(self.bits, 30)
    }
}

} // verus!
