//! Response register 01: a word of the response to the last command.
use vstd::prelude::*;
use crate::mmio::Mmio;
use crate::mmio::fetch32;
use crate::sdhci_reg::Reg;

verus! {

/// Offset of the register from the base of the window.
pub const EMMC_RESP01_OFFSET: u64 = 0x10;

/// Response word: position of the lowest bit.
pub const EMMC_RESP01_POS: u32 = 0;

/// Response word: width in bits.
pub const EMMC_RESP01_WIDTH: u32 = 32;

/// Response word: mask.
pub const EMMC_RESP01_MASK: u32 = 0xffffffff << EMMC_RESP01_POS;

/// Response word.
pub const EMMC_RESP01: u32 = EMMC_RESP01_MASK;

impl<M: Mmio> Reg<M> {
    /// Loads response register 01.
    ///
    /// One load of the register.
    pub fn emmc_get_resp01(&mut self) -> (value: u32)
        requires
            old(self).wf(),
        ensures
            final(self).wf(),
            final(self).follows(old(self)),
            final(self).accesses() == old(self).accesses() + fetch32(
                old(self).at(EMMC_RESP01_OFFSET),
                value,
            ),
    {
        self.load32(EMMC_RESP01_OFFSET)
    }
}

} // verus!
