//! The slot interrupt status register: one interrupt line per slot.
use vstd::prelude::*;
use crate::mmio::Mmio;
use crate::mmio::fetch8;
use crate::sdhci_reg::Reg;

verus! {

/// Offset of the register from the base of the window.
pub const EMMC_SLOT_INT_STATUS_OFFSET: u64 = 0xfc;

/// Interrupt line of each slot: position of the lowest bit.
pub const EMMC_INTR_SLOT_POS: u8 = 0;

/// Interrupt line of each slot: width in bits.
pub const EMMC_INTR_SLOT_WIDTH: u8 = 8;

/// Interrupt line of each slot: mask.
pub const EMMC_INTR_SLOT_MASK: u8 = 0xff << EMMC_INTR_SLOT_POS;

/// Interrupt line of each slot.
pub const EMMC_INTR_SLOT: u8 = EMMC_INTR_SLOT_MASK;

impl<M: Mmio> Reg<M> {
    /// Loads the slot interrupt status register.
    ///
    /// One load of the register.
    pub fn emmc_get_slot_int_status(&mut self) -> (value: u8)
        requires
            old(self).wf(),
        ensures
            final(self).wf(),
            final(self).follows(old(self)),
            final(self).accesses() == old(self).accesses() + fetch8(
                old(self).at(EMMC_SLOT_INT_STATUS_OFFSET),
                value,
            ),
    {
        self.load8(EMMC_SLOT_INT_STATUS_OFFSET)
    }
}

} // verus!
