//! The argument register: the 32-bit argument of the next command.
use vstd::prelude::*;
use crate::mmio::Mmio;
use crate::mmio::fetch32;
use crate::mmio::store32;
use crate::sdhci_reg::Reg;

verus! {

/// Offset of the register from the base of the window.
pub const EMMC_ARGUMENT_OFFSET: u64 = 0x08;

/// Command argument: position of the lowest bit.
pub const EMMC_ARGUMENT_POS: u32 = 0;

/// Command argument: width in bits.
pub const EMMC_ARGUMENT_WIDTH: u32 = 32;

/// Command argument: mask.
pub const EMMC_ARGUMENT_MASK: u32 = 0xffffffff << EMMC_ARGUMENT_POS;

/// Command argument.
pub const EMMC_ARGUMENT: u32 = EMMC_ARGUMENT_MASK;

impl<M: Mmio> Reg<M> {
    /// Loads the argument register.
    ///
    /// One load of the register.
    pub fn emmc_get_argument(&mut self) -> (value: u32)
        requires
            old(self).wf(),
        ensures
            final(self).wf(),
            final(self).follows(old(self)),
            final(self).accesses() == old(self).accesses() + fetch32(
                old(self).at(EMMC_ARGUMENT_OFFSET),
                value,
            ),
    {
        self.load32(EMMC_ARGUMENT_OFFSET)
    }

    /// Stores `arg` in the argument register.
    ///
    /// One store to the register.
    pub fn emmc_set_argument(&mut self, arg: u32)
        requires
            old(self).wf(),
        ensures
            final(self).wf(),
            final(self).follows(old(self)),
            final(self).accesses() == old(self).accesses() + store32(
                old(self).at(EMMC_ARGUMENT_OFFSET),
                arg,
            ),
    {
        self.store32(EMMC_ARGUMENT_OFFSET, arg);
    }
}

} // verus!
