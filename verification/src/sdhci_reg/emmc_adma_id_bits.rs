//! The ADMA integrated descriptor address register.
use vstd::prelude::*;
use crate::mmio::Mmio;
use crate::mmio::fetch32;
use crate::mmio::store32;
use crate::sdhci_reg::Reg;

verus! {

/// Offset of the register from the base of the window.
pub const EMMC_ADMA_ID_OFFSET: u64 = 0x78;

/// Address of the integrated descriptor: position of the lowest bit.
pub const EMMC_ADMA_ID_POS: u32 = 0;

/// Address of the integrated descriptor: width in bits.
pub const EMMC_ADMA_ID_WIDTH: u32 = 32;

/// Address of the integrated descriptor: mask.
pub const EMMC_ADMA_ID_MASK: u32 = 0xffffffff << EMMC_ADMA_ID_POS;

/// Address of the integrated descriptor.
pub const EMMC_ADMA_ID: u32 = EMMC_ADMA_ID_MASK;

impl<M: Mmio> Reg<M> {
    /// Loads the descriptor address.
    ///
    /// One load of the register.
    pub fn emmc_get_adma_id(&mut self) -> (value: u32)
        requires
            old(self).wf(),
        ensures
            final(self).wf(),
            final(self).follows(old(self)),
            final(self).accesses() == old(self).accesses() + fetch32(
                old(self).at(EMMC_ADMA_ID_OFFSET),
                value,
            ),
    {
        self.load32(EMMC_ADMA_ID_OFFSET)
    }

    /// Stores `adma_id` as the descriptor address.
    ///
    /// One store to the register.
    pub fn emmc_set_adma_id(&mut self, adma_id: u32)
        requires
            old(self).wf(),
        ensures
            final(self).wf(),
            final(self).follows(old(self)),
            final(self).accesses() == old(self).accesses() + store32(
                old(self).at(EMMC_ADMA_ID_OFFSET),
                adma_id,
            ),
    {
        self.store32(EMMC_ADMA_ID_OFFSET, adma_id);
    }
}

} // verus!
