//! The hart-local interrupt controller (CLIC) register block and its
//! per-source operations.
//!
//! The block holds four fixed-stride regions: a pending array, an
//! enable array and a per-source configuration array of one byte per
//! source, and a single global configuration register.  Every operation
//! takes an interrupt identifier and addresses the cell whose offset
//! equals the identifier's numeric code.  The volatile overlay of this
//! layout on the controller's hardware address is the platform's; a
//! test harness can substitute a simulated block.

use vstd::prelude::*;

use crate::peripheral::CLIC;

verus! {

/// Number of per-source cells in each region of the block.
pub const MAX_SOURCES: usize = 0x400;

/// The highest numeric code an identifier set may assign to a source.
pub const MAX_INTERRUPT_CODE: u16 = 255;

/// The machine-software-interrupt line, one of the two codes that
/// software may pend.
pub const MACHINE_SOFT_CODE: u16 = 3;

/// The extended software-interrupt line, the other code that software
/// may pend.
pub const EXTENDED_SOFT_CODE: u16 = 12;

/// The two software-pendable lines.
pub open spec fn spec_software_pendable(code: u16) -> bool {
    code == MACHINE_SOFT_CODE || code == EXTENDED_SOFT_CODE
}

/// Decides whether `code` is one of the two software-pendable lines.
pub fn is_software_pendable(code: u16) -> (r: bool)
    ensures
        r == spec_software_pendable(code),
{
    code == MACHINE_SOFT_CODE || code == EXTENDED_SOFT_CODE
}

/// A platform-supplied set of interrupt sources: a total, stable and
/// injective mapping between typed sources and numeric codes in
/// `0..=MAX_INTERRUPT_CODE`.  The obligations that the original
/// hardware interface documents as unchecked preconditions — no two
/// sources share a code, a source always yields the same code, and all
/// codes stay in range — are proof obligations of each implementation
/// here.
pub trait InterruptNumber: Sized + Copy {
    /// The numeric code of this source.
    spec fn spec_number(self) -> u16;

    /// Every code stays in `0..=MAX_INTERRUPT_CODE`.
    proof fn lemma_number_in_range(self)
        ensures
            self.spec_number() <= MAX_INTERRUPT_CODE,
    ;

    /// No two sources share a code.
    proof fn lemma_number_injective(self, other: Self)
        requires
            self.spec_number() == other.spec_number(),
        ensures
            self == other,
    ;

    /// Returns the code of this source; total and call-stable.
    fn number(self) -> (r: u16)
        ensures
            r == self.spec_number(),
    ;

    /// Returns the source that `code` maps to, or the rejected code
    /// unchanged when no source maps to it.
    fn try_from_number(code: u16) -> (r: Result<Self, u16>)
        ensures
            r matches Ok(x) ==> x.spec_number() == code,
            r matches Err(c) ==> c == code && forall|x: Self| #[trigger] x.spec_number() != code,
    ;
}

/// Converting a source's own code back through its identifier set
/// yields exactly that source: the result of `try_from_number` on
/// `number(x)` is `Ok(x)`, for every source `x`.
pub fn number_round_trip<I: InterruptNumber>(x: I) -> (r: Result<I, u16>)
    ensures
        r == Ok::<I, u16>(x),
{
    let code = x.number();
    let r = I::try_from_number(code);
    proof {
        match r {
            Ok(y) => y.lemma_number_injective(x),
            Err(_) => {
                assert(x.spec_number() != code);
                assert(false);
            },
        }
    }
    r
}

/// No source of an identifier set carries a code above
/// `MAX_INTERRUPT_CODE`, so conversion from any larger code finds no
/// source and fails.
pub proof fn lemma_beyond_max_rejected<I: InterruptNumber>(code: u16)
    requires
        code > MAX_INTERRUPT_CODE,
    ensures
        forall|x: I| #[trigger] x.spec_number() != code,
{
    assert forall|x: I| #[trigger] x.spec_number() != code by {
        x.lemma_number_in_range();
    }
}

/// The interrupt lines of the standard core-local layout: the flat
/// machine-level software, timer and external lines together with the
/// extended software-interrupt line.
#[derive(Copy, Clone, Debug, PartialEq, Eq, Structural)]
pub enum CoreInterrupt {
    MachineSoft,
    MachineTimer,
    MachineExternal,
    ExtendedSoft,
}

impl InterruptNumber for CoreInterrupt {
    open spec fn spec_number(self) -> u16 {
        match self {
            CoreInterrupt::MachineSoft => MACHINE_SOFT_CODE,
            CoreInterrupt::MachineTimer => 7,
            CoreInterrupt::MachineExternal => 11,
            CoreInterrupt::ExtendedSoft => EXTENDED_SOFT_CODE,
        }
    }

    proof fn lemma_number_in_range(self) {
    }

    proof fn lemma_number_injective(self, other: Self) {
    }

    fn number(self) -> u16 {
        match self {
            CoreInterrupt::MachineSoft => MACHINE_SOFT_CODE,
            CoreInterrupt::MachineTimer => 7,
            CoreInterrupt::MachineExternal => 11,
            CoreInterrupt::ExtendedSoft => EXTENDED_SOFT_CODE,
        }
    }

    fn try_from_number(code: u16) -> Result<Self, u16> {
        if code == MACHINE_SOFT_CODE {
            Ok(CoreInterrupt::MachineSoft)
        } else if code == 7 {
            Ok(CoreInterrupt::MachineTimer)
        } else if code == 11 {
            Ok(CoreInterrupt::MachineExternal)
        } else if code == EXTENDED_SOFT_CODE {
            Ok(CoreInterrupt::ExtendedSoft)
        } else {
            Err(code)
        }
    }
}

/// Register block.
///
/// The four regions of the hart-local controller, each cell a plain
/// byte: the pending array at offset `0x000`, the enable array at
/// `0x400`, the per-source configuration array at `0x800` and the
/// global configuration register at `0xC00`.
pub struct RegisterBlock {
    /// `0x0000..=0x03FF` - Interrupt Pending Register.
    pub clic_int_ip: Vec<u8>,
    /// `0x0400..=0x07FF` - Interrupt Enable Register.
    pub clic_int_ie: Vec<u8>,
    /// `0x0800..=0x0BFF` - Interrupt Configuration Register.
    pub clic_int_cfg: Vec<u8>,
    /// `0x0C00` - Configuration Register.
    pub clic_cfg: u8,
}

impl RegisterBlock {
    /// The fixed layout: each per-source region holds `MAX_SOURCES`
    /// one-byte cells.
    pub open spec fn wf(&self) -> bool {
        &&& self.clic_int_ip@.len() == MAX_SOURCES
        &&& self.clic_int_ie@.len() == MAX_SOURCES
        &&& self.clic_int_cfg@.len() == MAX_SOURCES
    }

    /// A block in reset state: every cell zero.  A test harness can use
    /// it in place of the hardware region.
    pub fn new() -> (r: RegisterBlock)
        ensures
            r.wf(),
            forall|i: int| 0 <= i < MAX_SOURCES ==> r.clic_int_ip@[i] == 0,
            forall|i: int| 0 <= i < MAX_SOURCES ==> r.clic_int_ie@[i] == 0,
            forall|i: int| 0 <= i < MAX_SOURCES ==> r.clic_int_cfg@[i] == 0,
            r.clic_cfg == 0,
    {
        RegisterBlock {
            clic_int_ip: zeroed_region(),
            clic_int_ie: zeroed_region(),
            clic_int_cfg: zeroed_region(),
            clic_cfg: 0,
        }
    }
}

/// One zeroed per-source region.
fn zeroed_region() -> (r: Vec<u8>)
    ensures
        r@.len() == MAX_SOURCES,
        forall|i: int| 0 <= i < MAX_SOURCES ==> r@[i] == 0,
{
    let mut v: Vec<u8> = Vec::new();
    let mut i: usize = 0;
    while i < MAX_SOURCES
        invariant
            i == v@.len(),
            i <= MAX_SOURCES,
            forall|k: int| 0 <= k < i ==> v@[k] == 0,
        decreases MAX_SOURCES - i,
    {
        v.push(0);
        i = i + 1;
    }
    v
}

/// A source is enabled when its enable cell holds a nonzero value.
pub open spec fn spec_is_enabled(ie: Seq<u8>, code: int) -> bool {
    ie[code] != 0
}

/// A source is pending when its pending cell holds a nonzero value.
pub open spec fn spec_is_pending(ip: Seq<u8>, code: int) -> bool {
    ip[code] != 0
}

/// The enable region after a mask of `code`: its cell written disabled.
pub open spec fn spec_mask(ie: Seq<u8>, code: int) -> Seq<u8> {
    ie.update(code, 0u8)
}

/// The enable region after an unmask of `code`: its cell written enabled.
pub open spec fn spec_unmask(ie: Seq<u8>, code: int) -> Seq<u8> {
    ie.update(code, 1u8)
}

/// The pending region after a pend of `code`: its cell written pending
/// for a software-pendable line, the region untouched otherwise.
pub open spec fn spec_pend(ip: Seq<u8>, code: u16) -> Seq<u8> {
    if spec_software_pendable(code) {
        ip.update(code as int, 1u8)
    } else {
        ip
    }
}

/// The pending region after an unpend of `code`: its cell written not
/// pending for a software-pendable line, the region untouched otherwise.
pub open spec fn spec_unpend(ip: Seq<u8>, code: u16) -> Seq<u8> {
    if spec_software_pendable(code) {
        ip.update(code as int, 0u8)
    } else {
        ip
    }
}

/// The preemption level stored in a per-source config byte: its top 4
/// bits.
pub open spec fn spec_level_of(cfg: Seq<u8>, code: int) -> u8 {
    cfg[code] >> 4
}

/// The config byte that a level write stores: the level masked to 4
/// bits (values above 15 are masked, not rejected), placed in the top 4
/// bits — the entire configurable width, with no bits left for
/// sub-priority.
pub open spec fn spec_level_byte(level: u8) -> u8 {
    (level & 0xf) << 4
}

/// The config region after a level write for `code`.
pub open spec fn spec_set_level(cfg: Seq<u8>, code: int, level: u8) -> Seq<u8> {
    cfg.update(code, spec_level_byte(level))
}

impl<const SHARED: usize, const HART: usize> CLIC<SHARED, HART> {
    /// Disables `line`: writes the disabled value to its enable cell.
    /// Always safe; idempotent.
    pub fn mask<I: InterruptNumber>(line: I, regs: &mut RegisterBlock)
        requires
            old(regs).wf(),
        ensures
            final(regs).wf(),
            final(regs).clic_int_ie@ == spec_mask(old(regs).clic_int_ie@, line.spec_number() as int),
            final(regs).clic_int_ip@ == old(regs).clic_int_ip@,
            final(regs).clic_int_cfg@ == old(regs).clic_int_cfg@,
            final(regs).clic_cfg == old(regs).clic_cfg,
    {
        proof {
            line.lemma_number_in_range();
        }
        let idx = line.number() as usize;
        regs.clic_int_ie[idx] = 0;
    }

    /// Enables `line`: writes the enabled value to its enable cell.
    ///
    /// Calling this while another context relies on `line` staying
    /// masked can break a mask-based critical section; the caller must
    /// establish exclusivity, which nothing here checks.
    pub fn unmask<I: InterruptNumber>(line: I, regs: &mut RegisterBlock)
        requires
            old(regs).wf(),
        ensures
            final(regs).wf(),
            final(regs).clic_int_ie@ == spec_unmask(old(regs).clic_int_ie@, line.spec_number() as int),
            final(regs).clic_int_ip@ == old(regs).clic_int_ip@,
            final(regs).clic_int_cfg@ == old(regs).clic_int_cfg@,
            final(regs).clic_cfg == old(regs).clic_cfg,
    {
        proof {
            line.lemma_number_in_range();
        }
        let idx = line.number() as usize;
        regs.clic_int_ie[idx] = 1;
    }

    /// Checks if `line` is enabled: its enable cell holds a nonzero
    /// value.
    pub fn is_enabled<I: InterruptNumber>(line: I, regs: &RegisterBlock) -> (r: bool)
        requires
            regs.wf(),
        ensures
            r == spec_is_enabled(regs.clic_int_ie@, line.spec_number() as int),
    {
        proof {
            line.lemma_number_in_range();
        }
        let idx = line.number() as usize;
        regs.clic_int_ie[idx] != 0
    }

    /// Sets `line` as pending — but only for the two software-pendable
    /// lines; for every other source the call is a documented no-op
    /// that leaves the block untouched.
    pub fn pend<I: InterruptNumber>(line: I, regs: &mut RegisterBlock)
        requires
            old(regs).wf(),
        ensures
            final(regs).wf(),
            final(regs).clic_int_ip@ == spec_pend(old(regs).clic_int_ip@, line.spec_number()),
            final(regs).clic_int_ie@ == old(regs).clic_int_ie@,
            final(regs).clic_int_cfg@ == old(regs).clic_int_cfg@,
            final(regs).clic_cfg == old(regs).clic_cfg,
    {
        proof {
            line.lemma_number_in_range();
        }
        let code = line.number();
        if is_software_pendable(code) {
            regs.clic_int_ip[code as usize] = 1;
        }
    }

    /// Clears `line`'s pending state — but only for the two
    /// software-pendable lines; for every other source the call is a
    /// documented no-op that leaves the block untouched.
    pub fn unpend<I: InterruptNumber>(line: I, regs: &mut RegisterBlock)
        requires
            old(regs).wf(),
        ensures
            final(regs).wf(),
            final(regs).clic_int_ip@ == spec_unpend(old(regs).clic_int_ip@, line.spec_number()),
            final(regs).clic_int_ie@ == old(regs).clic_int_ie@,
            final(regs).clic_int_cfg@ == old(regs).clic_int_cfg@,
            final(regs).clic_cfg == old(regs).clic_cfg,
    {
        proof {
            line.lemma_number_in_range();
        }
        let code = line.number();
        if is_software_pendable(code) {
            regs.clic_int_ip[code as usize] = 0;
        }
    }

    /// Checks if `line` is pending: its pending cell holds a nonzero
    /// value.
    pub fn is_pending<I: InterruptNumber>(line: I, regs: &RegisterBlock) -> (r: bool)
        requires
            regs.wf(),
        ensures
            r == spec_is_pending(regs.clic_int_ip@, line.spec_number() as int),
    {
        proof {
            line.lemma_number_in_range();
        }
        let idx = line.number() as usize;
        regs.clic_int_ip[idx] != 0
    }

    /// Sets `line`'s preemption level: writes the level, masked to 4
    /// bits, into the top 4 bits of its config byte.
    ///
    /// Changing preemption levels while another context relies on the
    /// previous level can compromise its critical section; the caller
    /// must establish exclusivity, which nothing here checks.
    pub fn set_level<I: InterruptNumber>(line: I, level: u8, regs: &mut RegisterBlock)
        requires
            old(regs).wf(),
        ensures
            final(regs).wf(),
            final(regs).clic_int_cfg@ == spec_set_level(
                old(regs).clic_int_cfg@,
                line.spec_number() as int,
                level,
            ),
            final(regs).clic_int_ip@ == old(regs).clic_int_ip@,
            final(regs).clic_int_ie@ == old(regs).clic_int_ie@,
            final(regs).clic_cfg == old(regs).clic_cfg,
    {
        proof {
            line.lemma_number_in_range();
        }
        let idx = line.number() as usize;
        regs.clic_int_cfg[idx] = (level & 0xf) << 4;
    }

    /// Returns `line`'s preemption level: the top 4 bits of its config
    /// byte.
    pub fn get_level<I: InterruptNumber>(line: I, regs: &RegisterBlock) -> (r: u8)
        requires
            regs.wf(),
        ensures
            r == spec_level_of(regs.clic_int_cfg@, line.spec_number() as int),
    {
        proof {
            line.lemma_number_in_range();
        }
        let idx = line.number() as usize;
        regs.clic_int_cfg[idx] >> 4
    }
}

/// Masking a source leaves it disabled and unmasking leaves it
/// enabled, for every source and every prior state of the enable
/// region.
pub proof fn lemma_mask_unmask_enabled(ie: Seq<u8>, code: int)
    requires
        0 <= code < ie.len(),
    ensures
        !spec_is_enabled(spec_mask(ie, code), code),
        spec_is_enabled(spec_unmask(ie, code), code),
{
}

/// Pending a software-pendable line leaves it pending; pending any
/// other line changes nothing, so a line that was not pending stays
/// not pending.
pub proof fn lemma_pend_effect(ip: Seq<u8>, code: u16)
    requires
        (code as int) < ip.len(),
    ensures
        spec_software_pendable(code) ==> spec_is_pending(spec_pend(ip, code), code as int),
        !spec_software_pendable(code) ==> spec_pend(ip, code) == ip,
{
}

/// Unpending a software-pendable line leaves it not pending; unpending
/// any other line changes nothing.
pub proof fn lemma_unpend_effect(ip: Seq<u8>, code: u16)
    requires
        (code as int) < ip.len(),
    ensures
        spec_software_pendable(code) ==> !spec_is_pending(spec_unpend(ip, code), code as int),
        !spec_software_pendable(code) ==> spec_unpend(ip, code) == ip,
{
}

/// Reading a level back after writing it yields the level masked to 4
/// bits: a write of 20 reads back as 4.
pub proof fn lemma_set_then_get_level(cfg: Seq<u8>, code: int, level: u8)
    requires
        0 <= code < cfg.len(),
    ensures
        spec_level_of(spec_set_level(cfg, code, level), code) == level & 0xf,
{
    assert(((level & 0xf) << 4) >> 4 == level & 0xf) by (bit_vector);
}

} // verus!
