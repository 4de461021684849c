//! Response register 67: a word of the response to the last command. It
//! shares its offset with the two registers before it.
use vstd::prelude::*;
use crate::mmio::Mmio;
use crate::mmio::fetch32;
use crate::sdhci_reg::Reg;

verus! {

/// Offset of the register from the base of the window.
pub const EMMC_RESP67_OFFSET: u64 = 0x14;

/// Response word: position of the lowest bit.
pub const EMMC_RESP67_POS: u32 = 0;

/// Response word: width in bits.
pub const EMMC_RESP67_WIDTH: u32 = 32;

/// Response word: mask.
pub const EMMC_RESP67_MASK: u32 = 0xffffffff << EMMC_RESP67_POS;

/// Response word.
pub const EMMC_RESP67: u32 = EMMC_RESP67_MASK;

impl<M: Mmio> Reg<M> {
    /// Loads response register 67.
    ///
    /// One load of the register.
    pub fn emmc_get_resp67(&mut self) -> (value: u32)
        requires
            old(self).wf(),
        ensures
            final(self).wf(),
            final(self).follows(old(self)),
            final(self).accesses() == old(self).accesses() + fetch32(
                old(self).at(EMMC_RESP67_OFFSET),
                value,
            ),
    {
        self.load32(EMMC_RESP67_OFFSET)
    }
}

} // verus!
