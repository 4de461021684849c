//! Response register 23: a word of the response to the last command.
use vstd::prelude::*;
use crate::mmio::Mmio;
use crate::mmio::fetch32;
use crate::sdhci_reg::Reg;

verus! {

/// Offset of the register from the base of the window.
pub const EMMC_RESP23_OFFSET: u64 = 0x14;

/// Response word: position of the lowest bit.
pub const EMMC_RESP23_POS: u32 = 0;

/// Response word: width in bits.
pub const EMMC_RESP23_WIDTH: u32 = 32;

/// Response word: mask.
pub const EMMC_RESP23_MASK: u32 = 0xffffffff << EMMC_RESP23_POS;

/// Response word.
pub const EMMC_RESP23: u32 = EMMC_RESP23_MASK;

impl<M: Mmio> Reg<M> {
    /// Loads response register 23.
    ///
    /// One load of the register.
    pub fn emmc_get_resp23(&mut self) -> (value: u32)
        requires
            old(self).wf(),
        ensures
            final(self).wf(),
            final(self).follows(old(self)),
            final(self).accesses() == old(self).accesses() + fetch32(
                old(self).at(EMMC_RESP23_OFFSET),
                value,
            ),
    {
        self.load32(EMMC_RESP23_OFFSET)
    }
}

} // verus!
