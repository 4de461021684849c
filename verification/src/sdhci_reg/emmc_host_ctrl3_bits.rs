//! Host control register 3: command conflict check and clock gating.
use vstd::prelude::*;
use crate::bits::field_mask;
use crate::mmio::Mmio;
use crate::mmio::clear_bits8;
use crate::mmio::fetch8;
use crate::mmio::set_bits8;
use crate::mmio::store8;
use crate::sdhci_reg::Reg;

verus! {

/// Offset of the register from the base of the window.
pub const EMMC_HOST_CTRL3_OFFSET: u64 = 0x508;

/// Command conflict check: position of the lowest bit.
pub const EMMC_CMD_CONFLICT_CHECK_POS: u8 = 0;

/// Command conflict check: width in bits.
pub const EMMC_CMD_CONFLICT_CHECK_WIDTH: u8 = 1;

/// Command conflict check: mask.
pub const EMMC_CMD_CONFLICT_CHECK_MASK: u8 = 0x01 << EMMC_CMD_CONFLICT_CHECK_POS;

/// Command conflict check.
pub const EMMC_CMD_CONFLICT_CHECK: u8 = EMMC_CMD_CONFLICT_CHECK_MASK;

/// Internal clock gating control: position of the lowest bit.
pub const EMMC_SW_CG_DIS_POS: u8 = 4;

/// Internal clock gating control: width in bits.
pub const EMMC_SW_CG_DIS_WIDTH: u8 = 1;

/// Internal clock gating control: mask.
pub const EMMC_SW_CG_DIS_MASK: u8 = 0x01 << EMMC_SW_CG_DIS_POS;

/// Internal clock gating control.
pub const EMMC_SW_CG_DIS: u8 = EMMC_SW_CG_DIS_MASK;

impl<M: Mmio> Reg<M> {
    /// Loads host control register 3.
    ///
    /// One load of the register.
    pub fn emmc_get_host_ctrl3(&mut self) -> (value: u8)
        requires
            old(self).wf(),
        ensures
            final(self).wf(),
            final(self).follows(old(self)),
            final(self).accesses() == old(self).accesses() + fetch8(
                old(self).at(EMMC_HOST_CTRL3_OFFSET),
                value,
            ),
    {
        self.load8(EMMC_HOST_CTRL3_OFFSET)
    }

    /// Stores `host_ctrl3` in host control register 3.
    ///
    /// One store to the register.
    pub fn emmc_set_host_ctrl3(&mut self, host_ctrl3: u8)
        requires
            old(self).wf(),
        ensures
            final(self).wf(),
            final(self).follows(old(self)),
            final(self).accesses() == old(self).accesses() + store8(
                old(self).at(EMMC_HOST_CTRL3_OFFSET),
                host_ctrl3,
            ),
    {
        self.store8(EMMC_HOST_CTRL3_OFFSET, host_ctrl3);
    }

    /// Turns the command conflict check on.
    ///
    /// One load of the register, then one store.
    pub fn emmc_enable_cmd_conflict_check(&mut self)
        requires
            old(self).wf(),
        ensures
            final(self).wf(),
            final(self).follows(old(self)),
            exists|seen: u8|
                final(self).accesses() == old(self).accesses() + #[trigger] set_bits8(
                    old(self).at(EMMC_HOST_CTRL3_OFFSET),
                    seen,
                    EMMC_CMD_CONFLICT_CHECK,
                ),
    {
        self.raise8(EMMC_HOST_CTRL3_OFFSET, EMMC_CMD_CONFLICT_CHECK);
    }

    /// Turns the command conflict check off.
    ///
    /// One load of the register, then one store.
    pub fn emmc_disable_cmd_conflict_check(&mut self)
        requires
            old(self).wf(),
        ensures
            final(self).wf(),
            final(self).follows(old(self)),
            exists|seen: u8|
                final(self).accesses() == old(self).accesses() + #[trigger] clear_bits8(
                    old(self).at(EMMC_HOST_CTRL3_OFFSET),
                    seen,
                    EMMC_CMD_CONFLICT_CHECK,
                ),
    {
        self.lower8(EMMC_HOST_CTRL3_OFFSET, EMMC_CMD_CONFLICT_CHECK);
    }

    /// Turns the clock gating control bit on.
    ///
    /// One load of the register, then one store.
    pub fn emmc_enable_internal_clock_gate(&mut self)
        requires
            old(self).wf(),
        ensures
            final(self).wf(),
            final(self).follows(old(self)),
            exists|seen: u8|
                final(self).accesses() == old(self).accesses() + #[trigger] set_bits8(
                    old(self).at(EMMC_HOST_CTRL3_OFFSET),
                    seen,
                    EMMC_SW_CG_DIS,
                ),
    {
        self.raise8(EMMC_HOST_CTRL3_OFFSET, EMMC_SW_CG_DIS);
    }

    /// Turns the clock gating control bit off.
    ///
    /// One load of the register, then one store.
    pub fn emmc_disable_internal_clock_gate(&mut self)
        requires
            old(self).wf(),
        ensures
            final(self).wf(),
            final(self).follows(old(self)),
            exists|seen: u8|
                final(self).accesses() == old(self).accesses() + #[trigger] clear_bits8(
                    old(self).at(EMMC_HOST_CTRL3_OFFSET),
                    seen,
                    EMMC_SW_CG_DIS,
                ),
    {
        self.lower8(EMMC_HOST_CTRL3_OFFSET, EMMC_SW_CG_DIS);
    }
}

/// The table of this register holds together: the mask of every field is as
/// many ones as the field is wide, shifted to the field's position; and no
/// two fields share a bit.
pub proof fn lemma_layout()
    by (bit_vector)
    ensures
        EMMC_CMD_CONFLICT_CHECK_MASK as u64 == field_mask(
            EMMC_CMD_CONFLICT_CHECK_POS as u64,
            EMMC_CMD_CONFLICT_CHECK_WIDTH as u64,
        ),
        EMMC_SW_CG_DIS_MASK as u64 == field_mask(
            EMMC_SW_CG_DIS_POS as u64,
            EMMC_SW_CG_DIS_WIDTH as u64,
        ),
        EMMC_CMD_CONFLICT_CHECK_MASK & EMMC_SW_CG_DIS_MASK == 0,
{
}

} // verus!
