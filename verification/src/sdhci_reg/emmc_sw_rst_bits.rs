//! The software reset register. The hardware clears each bit when that reset
//! is done.
use vstd::prelude::*;
use crate::bits::field_mask;
use crate::mmio::Mmio;
use crate::mmio::fetch8;
use crate::mmio::set_bits8;
use crate::sdhci_reg::Reg;

verus! {

/// Offset of the register from the base of the window.
pub const EMMC_SW_RST_OFFSET: u64 = 0x2F;

/// Reset of the whole controller: position of the lowest bit.
pub const EMMC_SW_RST_ALL_POS: u8 = 0;

/// Reset of the whole controller: width in bits.
pub const EMMC_SW_RST_ALL_WIDTH: u8 = 1;

/// Reset of the whole controller: mask.
pub const EMMC_SW_RST_ALL_MASK: u8 = 0x01 << EMMC_SW_RST_ALL_POS;

/// Reset of the whole controller.
pub const EMMC_SW_RST_ALL: u8 = EMMC_SW_RST_ALL_MASK;

/// Reset of the command circuit: position of the lowest bit.
pub const EMMC_SW_RST_CMD_POS: u8 = 1;

/// Reset of the command circuit: width in bits.
pub const EMMC_SW_RST_CMD_WIDTH: u8 = 1;

/// Reset of the command circuit: mask.
pub const EMMC_SW_RST_CMD_MASK: u8 = 0x01 << EMMC_SW_RST_CMD_POS;

/// Reset of the command circuit.
pub const EMMC_SW_RST_CMD: u8 = EMMC_SW_RST_CMD_MASK;

/// Reset of the data circuit: position of the lowest bit.
pub const EMMC_SW_RST_DATA_POS: u8 = 2;

/// Reset of the data circuit: width in bits.
pub const EMMC_SW_RST_DATA_WIDTH: u8 = 1;

/// Reset of the data circuit: mask.
pub const EMMC_SW_RST_DATA_MASK: u8 = 0x01 << EMMC_SW_RST_DATA_POS;

/// Reset of the data circuit.
pub const EMMC_SW_RST_DATA: u8 = EMMC_SW_RST_DATA_MASK;

impl<M: Mmio> Reg<M> {
    /// Starts a reset of the whole controller.
    ///
    /// One load of the register, then one store.
    pub fn emmc_reset_all(&mut self)
        requires
            old(self).wf(),
        ensures
            final(self).wf(),
            final(self).follows(old(self)),
            exists|seen: u8|
                final(self).accesses() == old(self).accesses() + #[trigger] set_bits8(
                    old(self).at(EMMC_SW_RST_OFFSET),
                    seen,
                    EMMC_SW_RST_ALL,
                ),
    {
        self.raise8(EMMC_SW_RST_OFFSET, EMMC_SW_RST_ALL);
    }

    /// Whether the reset of the whole controller is done.
    ///
    /// One load of the register.
    pub fn emmc_reset_all_is_finished(&mut self) -> (finished: bool)
        requires
            old(self).wf(),
        ensures
            final(self).wf(),
            final(self).follows(old(self)),
            exists|seen: u8|
                final(self).accesses() == old(self).accesses() + #[trigger] fetch8(
                    old(self).at(EMMC_SW_RST_OFFSET),
                    seen,
                ) && finished == (seen & EMMC_SW_RST_ALL == 0),
    {
        self.load8(EMMC_SW_RST_OFFSET) & EMMC_SW_RST_ALL == 0
    }

    /// Starts a reset of the command circuit.
    ///
    /// One load of the register, then one store.
    pub fn emmc_reset_cmd(&mut self)
        requires
            old(self).wf(),
        ensures
            final(self).wf(),
            final(self).follows(old(self)),
            exists|seen: u8|
                final(self).accesses() == old(self).accesses() + #[trigger] set_bits8(
                    old(self).at(EMMC_SW_RST_OFFSET),
                    seen,
                    EMMC_SW_RST_CMD,
                ),
    {
        self.raise8(EMMC_SW_RST_OFFSET, EMMC_SW_RST_CMD);
    }

    /// Whether the reset of the command circuit is done.
    ///
    /// One load of the register.
    pub fn emmc_reset_cmd_is_finished(&mut self) -> (finished: bool)
        requires
            old(self).wf(),
        ensures
            final(self).wf(),
            final(self).follows(old(self)),
            exists|seen: u8|
                final(self).accesses() == old(self).accesses() + #[trigger] fetch8(
                    old(self).at(EMMC_SW_RST_OFFSET),
                    seen,
                ) && finished == (seen & EMMC_SW_RST_CMD == 0),
    {
        self.load8(EMMC_SW_RST_OFFSET) & EMMC_SW_RST_CMD == 0
    }

    /// Starts a reset of the data circuit.
    ///
    /// One load of the register, then one store.
    pub fn emmc_reset_data(&mut self)
        requires
            old(self).wf(),
        ensures
            final(self).wf(),
            final(self).follows(old(self)),
            exists|seen: u8|
                final(self).accesses() == old(self).accesses() + #[trigger] set_bits8(
                    old(self).at(EMMC_SW_RST_OFFSET),
                    seen,
                    EMMC_SW_RST_DATA,
                ),
    {
        self.raise8(EMMC_SW_RST_OFFSET, EMMC_SW_RST_DATA);
    }

    /// Whether the reset of the data circuit is done.
    ///
    /// One load of the register.
    pub fn emmc_reset_data_is_finished(&mut self) -> (finished: bool)
        requires
            old(self).wf(),
        ensures
            final(self).wf(),
            final(self).follows(old(self)),
            exists|seen: u8|
                final(self).accesses() == old(self).accesses() + #[trigger] fetch8(
                    old(self).at(EMMC_SW_RST_OFFSET),
                    seen,
                ) && finished == (seen & EMMC_SW_RST_DATA == 0),
    {
        self.load8(EMMC_SW_RST_OFFSET) & EMMC_SW_RST_DATA == 0
    }
}

/// The table of this register holds together: the mask of every field is as
/// many ones as the field is wide, shifted to the field's position; and no
/// two fields share a bit.
pub proof fn lemma_layout()
    by (bit_vector)
    ensures
        EMMC_SW_RST_ALL_MASK as u64 == field_mask(
            EMMC_SW_RST_ALL_POS as u64,
            EMMC_SW_RST_ALL_WIDTH as u64,
        ),
        EMMC_SW_RST_CMD_MASK as u64 == field_mask(
            EMMC_SW_RST_CMD_POS as u64,
            EMMC_SW_RST_CMD_WIDTH as u64,
        ),
        EMMC_SW_RST_DATA_MASK as u64 == field_mask(
            EMMC_SW_RST_DATA_POS as u64,
            EMMC_SW_RST_DATA_WIDTH as u64,
        ),
        EMMC_SW_RST_ALL_MASK & EMMC_SW_RST_CMD_MASK == 0,
        EMMC_SW_RST_ALL_MASK & EMMC_SW_RST_DATA_MASK == 0,
        EMMC_SW_RST_CMD_MASK & EMMC_SW_RST_DATA_MASK == 0,
{
}

} // verus!
