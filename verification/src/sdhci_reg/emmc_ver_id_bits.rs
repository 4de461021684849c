//! The version identifier register.
use vstd::prelude::*;
use crate::mmio::Mmio;
use crate::mmio::fetch32;
use crate::sdhci_reg::Reg;

verus! {

/// Offset of the register from the base of the window.
pub const EMMC_VER_ID_OFFSET: u64 = 0x500;

/// Version identifier: position of the lowest bit.
pub const EMMC_VER_ID_POS: u32 = 0;

/// Version identifier: width in bits.
pub const EMMC_VER_ID_WIDTH: u32 = 32;

/// Version identifier: mask.
pub const EMMC_VER_ID_MASK: u32 = 0xffffffff << EMMC_VER_ID_POS;

/// Version identifier.
pub const EMMC_VER_ID: u32 = EMMC_VER_ID_MASK;

impl<M: Mmio> Reg<M> {
    /// Loads the version identifier.
    ///
    /// One load of the register.
    pub fn emmc_get_ver_id(&mut self) -> (value: u32)
        requires
            old(self).wf(),
        ensures
            final(self).wf(),
            final(self).follows(old(self)),
            final(self).accesses() == old(self).accesses() + fetch32(
                old(self).at(EMMC_VER_ID_OFFSET),
                value,
            ),
    {
        self.load32(EMMC_VER_ID_OFFSET)
    }
}

} // verus!
