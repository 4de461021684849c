//! Status register 1 of the delay-locked loop: the delays in effect.
use vstd::prelude::*;
use crate::bits::field_mask;
use crate::mmio::Mmio;
use crate::mmio::fetch32;
use crate::sdhci_reg::Reg;

verus! {

/// Offset of the register from the base of the window.
pub const EMMC_DLL_STATUS1_OFFSET: u64 = 0x844;

/// Delay of the transmit clock: position of the lowest bit.
pub const EMMC_TXCLK_DELAY_VALUE_POS: u32 = 0;

/// Delay of the transmit clock: width in bits.
pub const EMMC_TXCLK_DELAY_VALUE_WIDTH: u32 = 8;

/// Delay of the transmit clock: mask.
pub const EMMC_TXCLK_DELAY_VALUE_MASK: u32 = 0xff << EMMC_TXCLK_DELAY_VALUE_POS;

/// Delay of the transmit clock.
pub const EMMC_TXCLK_DELAY_VALUE: u32 = EMMC_TXCLK_DELAY_VALUE_MASK;

/// Delay of the receive clock: position of the lowest bit.
pub const EMMC_RXCLK_DELAY_VALUE_POS: u32 = 8;

/// Delay of the receive clock: width in bits.
pub const EMMC_RXCLK_DELAY_VALUE_WIDTH: u32 = 8;

/// Delay of the receive clock: mask.
pub const EMMC_RXCLK_DELAY_VALUE_MASK: u32 = 0xff << EMMC_RXCLK_DELAY_VALUE_POS;

/// Delay of the receive clock.
pub const EMMC_RXCLK_DELAY_VALUE: u32 = EMMC_RXCLK_DELAY_VALUE_MASK;

/// Delay of the strobe input: position of the lowest bit.
pub const EMMC_STRBIN_DELAY_VALUE_POS: u32 = 16;

/// Delay of the strobe input: width in bits.
pub const EMMC_STRBIN_DELAY_VALUE_WIDTH: u32 = 8;

/// Delay of the strobe input: mask.
pub const EMMC_STRBIN_DELAY_VALUE_MASK: u32 = 0xff << EMMC_STRBIN_DELAY_VALUE_POS;

/// Delay of the strobe input.
pub const EMMC_STRBIN_DELAY_VALUE: u32 = EMMC_STRBIN_DELAY_VALUE_MASK;

impl<M: Mmio> Reg<M> {
    /// Loads status register 1 of the loop.
    ///
    /// One load of the register.
    pub fn emmc_get_dll_status1(&mut self) -> (value: u32)
        requires
            old(self).wf(),
        ensures
            final(self).wf(),
            final(self).follows(old(self)),
            final(self).accesses() == old(self).accesses() + fetch32(
                old(self).at(EMMC_DLL_STATUS1_OFFSET),
                value,
            ),
    {
        self.load32(EMMC_DLL_STATUS1_OFFSET)
    }

    /// The delay of the transmit clock.
    ///
    /// One load of the register.
    pub fn emmc_get_txclk_delay_value(&mut self) -> (value: u32)
        requires
            old(self).wf(),
        ensures
            final(self).wf(),
            final(self).follows(old(self)),
            exists|seen: u32|
                final(self).accesses() == old(self).accesses() + #[trigger] fetch32(
                    old(self).at(EMMC_DLL_STATUS1_OFFSET),
                    seen,
                ) && value == (seen & EMMC_TXCLK_DELAY_VALUE) >> EMMC_TXCLK_DELAY_VALUE_POS,
    {
        (self.load32(EMMC_DLL_STATUS1_OFFSET) & EMMC_TXCLK_DELAY_VALUE) >> EMMC_TXCLK_DELAY_VALUE_POS
    }

    /// The delay of the receive clock.
    ///
    /// One load of the register.
    pub fn emmc_get_rxclk_delay_value(&mut self) -> (value: u32)
        requires
            old(self).wf(),
        ensures
            final(self).wf(),
            final(self).follows(old(self)),
            exists|seen: u32|
                final(self).accesses() == old(self).accesses() + #[trigger] fetch32(
                    old(self).at(EMMC_DLL_STATUS1_OFFSET),
                    seen,
                ) && value == (seen & EMMC_RXCLK_DELAY_VALUE) >> EMMC_RXCLK_DELAY_VALUE_POS,
    {
        (self.load32(EMMC_DLL_STATUS1_OFFSET) & EMMC_RXCLK_DELAY_VALUE) >> EMMC_RXCLK_DELAY_VALUE_POS
    }

    /// The delay of the strobe input.
    ///
    /// One load of the register.
    pub fn emmc_get_strbin_delay_value(&mut self) -> (value: u32)
        requires
            old(self).wf(),
        ensures
            final(self).wf(),
            final(self).follows(old(self)),
            exists|seen: u32|
                final(self).accesses() == old(self).accesses() + #[trigger] fetch32(
                    old(self).at(EMMC_DLL_STATUS1_OFFSET),
                    seen,
                ) && value == (seen & EMMC_STRBIN_DELAY_VALUE) >> EMMC_STRBIN_DELAY_VALUE_POS,
    {
        (self.load32(EMMC_DLL_STATUS1_OFFSET) & EMMC_STRBIN_DELAY_VALUE) >> EMMC_STRBIN_DELAY_VALUE_POS
    }
}

/// The table of this register holds together: the register lies at a multiple
/// of its width; the mask of every field is as many ones as the field is
/// wide, shifted to the field's position; and no two fields share a bit.
pub proof fn lemma_layout()
    by (bit_vector)
    ensures
        EMMC_DLL_STATUS1_OFFSET % 4 == 0,
        EMMC_TXCLK_DELAY_VALUE_MASK as u64 == field_mask(
            EMMC_TXCLK_DELAY_VALUE_POS as u64,
            EMMC_TXCLK_DELAY_VALUE_WIDTH as u64,
        ),
        EMMC_RXCLK_DELAY_VALUE_MASK as u64 == field_mask(
            EMMC_RXCLK_DELAY_VALUE_POS as u64,
            EMMC_RXCLK_DELAY_VALUE_WIDTH as u64,
        ),
        EMMC_STRBIN_DELAY_VALUE_MASK as u64 == field_mask(
            EMMC_STRBIN_DELAY_VALUE_POS as u64,
            EMMC_STRBIN_DELAY_VALUE_WIDTH as u64,
        ),
        EMMC_TXCLK_DELAY_VALUE_MASK & EMMC_RXCLK_DELAY_VALUE_MASK == 0,
        EMMC_TXCLK_DELAY_VALUE_MASK & EMMC_STRBIN_DELAY_VALUE_MASK == 0,
        EMMC_RXCLK_DELAY_VALUE_MASK & EMMC_STRBIN_DELAY_VALUE_MASK == 0,
{
}

} // verus!
