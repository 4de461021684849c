//! The power control register.
use vstd::prelude::*;
use crate::mmio::Mmio;
use crate::mmio::clear_bits8;
use crate::mmio::fetch8;
use crate::mmio::set_bits8;
use crate::mmio::store8;
use crate::sdhci_reg::Reg;

verus! {

/// Offset of the register from the base of the window.
pub const EMMC_PWR_CTRL_OFFSET: u64 = 0x29;

/// Bus power: position of the lowest bit.
pub const EMMC_PWR_ON_POS: u8 = 0;

/// Bus power: width in bits.
pub const EMMC_PWR_ON_WIDTH: u8 = 1;

/// Bus power: mask.
pub const EMMC_PWR_ON_MASK: u8 = 0x01 << EMMC_PWR_ON_POS;

/// Bus power.
pub const EMMC_PWR_ON: u8 = EMMC_PWR_ON_MASK;

impl<M: Mmio> Reg<M> {
    /// Loads the power control register.
    ///
    /// One load of the register.
    pub fn emmc_get_pwr_ctrl(&mut self) -> (value: u8)
        requires
            old(self).wf(),
        ensures
            final(self).wf(),
            final(self).follows(old(self)),
            final(self).accesses() == old(self).accesses() + fetch8(
                old(self).at(EMMC_PWR_CTRL_OFFSET),
                value,
            ),
    {
        self.load8(EMMC_PWR_CTRL_OFFSET)
    }

    /// Stores `pwr_ctrl` in the power control register.
    ///
    /// One store to the register.
    pub fn emmc_set_pwr_ctrl(&mut self, pwr_ctrl: u8)
        requires
            old(self).wf(),
        ensures
            final(self).wf(),
            final(self).follows(old(self)),
            final(self).accesses() == old(self).accesses() + store8(
                old(self).at(EMMC_PWR_CTRL_OFFSET),
                pwr_ctrl,
            ),
    {
        self.store8(EMMC_PWR_CTRL_OFFSET, pwr_ctrl);
    }

    /// Turns the bus power on.
    ///
    /// One load of the register, then one store.
    pub fn emmc_pwr_on(&mut self)
        requires
            old(self).wf(),
        ensures
            final(self).wf(),
            final(self).follows(old(self)),
            exists|seen: u8|
                final(self).accesses() == old(self).accesses() + #[trigger] set_bits8(
                    old(self).at(EMMC_PWR_CTRL_OFFSET),
                    seen,
                    EMMC_PWR_ON,
                ),
    {
        self.raise8(EMMC_PWR_CTRL_OFFSET, EMMC_PWR_ON);
    }

    /// Turns the bus power off.
    ///
    /// One load of the register, then one store.
    pub fn emmc_pwr_off(&mut self)
        requires
            old(self).wf(),
        ensures
            final(self).wf(),
            final(self).follows(old(self)),
            exists|seen: u8|
                final(self).accesses() == old(self).accesses() + #[trigger] clear_bits8(
                    old(self).at(EMMC_PWR_CTRL_OFFSET),
                    seen,
                    EMMC_PWR_ON,
                ),
    {
        self.lower8(EMMC_PWR_CTRL_OFFSET, EMMC_PWR_ON);
    }
}

} // verus!
