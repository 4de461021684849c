//! The version type register.
use vstd::prelude::*;
use crate::mmio::Mmio;
use crate::mmio::fetch32;
use crate::sdhci_reg::Reg;

verus! {

/// Offset of the register from the base of the window.
pub const EMMC_VER_TYPE_OFFSET: u64 = 0x504;

/// Version type: position of the lowest bit.
pub const EMMC_VER_TYPE_POS: u32 = 0;

/// Version type: width in bits.
pub const EMMC_VER_TYPE_WIDTH: u32 = 32;

/// Version type: mask.
pub const EMMC_VER_TYPE_MASK: u32 = 0xffffffff << EMMC_VER_TYPE_POS;

/// Version type.
pub const EMMC_VER_TYPE: u32 = EMMC_VER_TYPE_MASK;

impl<M: Mmio> Reg<M> {
    /// Loads the version type.
    ///
    /// One load of the register.
    pub fn emmc_get_ver_type(&mut self) -> (value: u32)
        requires
            old(self).wf(),
        ensures
            final(self).wf(),
            final(self).follows(old(self)),
            final(self).accesses() == old(self).accesses() + fetch32(
                old(self).at(EMMC_VER_TYPE_OFFSET),
                value,
            ),
    {
        self.load32(EMMC_VER_TYPE_OFFSET)
    }
}

} // verus!
