//! The delay line register of the transmit clock.
use vstd::prelude::*;
use crate::bits::field_mask;
use crate::mmio::Mmio;
use crate::mmio::fetch32;
use crate::mmio::put_field32;
use crate::mmio::store32;
use crate::sdhci_reg::Reg;

verus! {

/// Offset of the register from the base of the window.
pub const EMMC_DLL_TXCLK_OFFSET: u64 = 0x808;

/// Number of taps: position of the lowest bit.
pub const EMMC_TX_TAP_NUM_POS: u32 = 0;

/// Number of taps: width in bits.
pub const EMMC_TX_TAP_NUM_WIDTH: u32 = 5;

/// Number of taps: mask.
pub const EMMC_TX_TAP_NUM_MASK: u32 = 0x1f << EMMC_TX_TAP_NUM_POS;

/// Number of taps.
pub const EMMC_TX_TAP_NUM: u32 = EMMC_TX_TAP_NUM_MASK;

/// Tap value: position of the lowest bit.
pub const EMMC_TX_TAP_VALUE_POS: u32 = 8;

/// Tap value: width in bits.
pub const EMMC_TX_TAP_VALUE_WIDTH: u32 = 8;

/// Tap value: mask.
pub const EMMC_TX_TAP_VALUE_MASK: u32 = 0xff << EMMC_TX_TAP_VALUE_POS;

/// Tap value.
pub const EMMC_TX_TAP_VALUE: u32 = EMMC_TX_TAP_VALUE_MASK;

/// Number of delay elements: position of the lowest bit.
pub const EMMC_TX_DELAY_NUM_POS: u32 = 16;

/// Number of delay elements: width in bits.
pub const EMMC_TX_DELAY_NUM_WIDTH: u32 = 8;

/// Number of delay elements: mask.
pub const EMMC_TX_DELAY_NUM_MASK: u32 = 0xff << EMMC_TX_DELAY_NUM_POS;

/// Number of delay elements.
pub const EMMC_TX_DELAY_NUM: u32 = EMMC_TX_DELAY_NUM_MASK;

/// Take the number of taps from this register: position of the lowest bit.
pub const EMMC_TX_TAP_NUM_SEL_POS: u32 = 24;

/// Take the number of taps from this register: width in bits.
pub const EMMC_TX_TAP_NUM_SEL_WIDTH: u32 = 1;

/// Take the number of taps from this register: mask.
pub const EMMC_TX_TAP_NUM_SEL_MASK: u32 = 0x01 << EMMC_TX_TAP_NUM_SEL_POS;

/// Take the number of taps from this register.
pub const EMMC_TX_TAP_NUM_SEL: u32 = EMMC_TX_TAP_NUM_SEL_MASK;

/// Take the tap value from this register: position of the lowest bit.
pub const EMMC_TX_TAP_VALUE_SEL_POS: u32 = 25;

/// Take the tap value from this register: width in bits.
pub const EMMC_TX_TAP_VALUE_SEL_WIDTH: u32 = 1;

/// Take the tap value from this register: mask.
pub const EMMC_TX_TAP_VALUE_SEL_MASK: u32 = 0x01 << EMMC_TX_TAP_VALUE_SEL_POS;

/// Take the tap value from this register.
pub const EMMC_TX_TAP_VALUE_SEL: u32 = EMMC_TX_TAP_VALUE_SEL_MASK;

/// Take the number of delay elements from this register: position of the lowest bit.
pub const EMMC_TX_DELAY_NUM_SEL_POS: u32 = 26;

/// Take the number of delay elements from this register: width in bits.
pub const EMMC_TX_DELAY_NUM_SEL_WIDTH: u32 = 1;

/// Take the number of delay elements from this register: mask.
pub const EMMC_TX_DELAY_NUM_SEL_MASK: u32 = 0x01 << EMMC_TX_DELAY_NUM_SEL_POS;

/// Take the number of delay elements from this register.
pub const EMMC_TX_DELAY_NUM_SEL: u32 = EMMC_TX_DELAY_NUM_SEL_MASK;

/// Transmit clock output select: position of the lowest bit.
pub const EMMC_TX_CLK_OUT_SEL_POS: u32 = 27;

/// Transmit clock output select: width in bits.
pub const EMMC_TX_CLK_OUT_SEL_WIDTH: u32 = 1;

/// Transmit clock output select: mask.
pub const EMMC_TX_CLK_OUT_SEL_MASK: u32 = 0x01 << EMMC_TX_CLK_OUT_SEL_POS;

/// Transmit clock output select.
pub const EMMC_TX_CLK_OUT_SEL: u32 = EMMC_TX_CLK_OUT_SEL_MASK;

impl<M: Mmio> Reg<M> {
    /// Stores `dll_txclk` in the delay line register of the transmit clock.
    ///
    /// One store to the register.
    pub fn emmc_set_dll_txclk(&mut self, dll_txclk: u32)
        requires
            old(self).wf(),
        ensures
            final(self).wf(),
            final(self).follows(old(self)),
            final(self).accesses() == old(self).accesses() + store32(
                old(self).at(EMMC_DLL_TXCLK_OFFSET),
                dll_txclk,
            ),
    {
        self.store32(EMMC_DLL_TXCLK_OFFSET, dll_txclk);
    }

    /// Loads the delay line register of the transmit clock.
    ///
    /// One load of the register.
    pub fn emmc_get_dll_txclk(&mut self) -> (value: u32)
        requires
            old(self).wf(),
        ensures
            final(self).wf(),
            final(self).follows(old(self)),
            final(self).accesses() == old(self).accesses() + fetch32(
                old(self).at(EMMC_DLL_TXCLK_OFFSET),
                value,
            ),
    {
        self.load32(EMMC_DLL_TXCLK_OFFSET)
    }

    /// Sets the number of taps to `tx_tap_num`. The number is shifted to the
    /// field's place and cut to its width.
    ///
    /// One load of the register, then one store.
    pub fn emmc_set_tx_tap_num(&mut self, tx_tap_num: u32)
        requires
            old(self).wf(),
        ensures
            final(self).wf(),
            final(self).follows(old(self)),
            exists|seen: u32|
                final(self).accesses() == old(self).accesses() + #[trigger] put_field32(
                    old(self).at(EMMC_DLL_TXCLK_OFFSET),
                    seen,
                    EMMC_TX_TAP_NUM_MASK,
                    EMMC_TX_TAP_NUM_POS,
                    tx_tap_num,
                ),
    {
        self.place32(EMMC_DLL_TXCLK_OFFSET, EMMC_TX_TAP_NUM_MASK, EMMC_TX_TAP_NUM_POS, tx_tap_num);
    }

    /// Sets the tap value to `tx_tap_value`. The number is shifted to the
    /// field's place and cut to its width.
    ///
    /// One load of the register, then one store.
    pub fn emmc_set_tx_tap_value(&mut self, tx_tap_value: u32)
        requires
            old(self).wf(),
        ensures
            final(self).wf(),
            final(self).follows(old(self)),
            exists|seen: u32|
                final(self).accesses() == old(self).accesses() + #[trigger] put_field32(
                    old(self).at(EMMC_DLL_TXCLK_OFFSET),
                    seen,
                    EMMC_TX_TAP_VALUE_MASK,
                    EMMC_TX_TAP_VALUE_POS,
                    tx_tap_value,
                ),
    {
        self.place32(EMMC_DLL_TXCLK_OFFSET, EMMC_TX_TAP_VALUE_MASK, EMMC_TX_TAP_VALUE_POS, tx_tap_value);
    }

    /// Sets the number of delay elements to `tx_delay_num`. The number is
    /// shifted to the field's place and cut to its width.
    ///
    /// One load of the register, then one store.
    pub fn emmc_set_tx_delay_num(&mut self, tx_delay_num: u32)
        requires
            old(self).wf(),
        ensures
            final(self).wf(),
            final(self).follows(old(self)),
            exists|seen: u32|
                final(self).accesses() == old(self).accesses() + #[trigger] put_field32(
                    old(self).at(EMMC_DLL_TXCLK_OFFSET),
                    seen,
                    EMMC_TX_DELAY_NUM_MASK,
                    EMMC_TX_DELAY_NUM_POS,
                    tx_delay_num,
                ),
    {
        self.place32(EMMC_DLL_TXCLK_OFFSET, EMMC_TX_DELAY_NUM_MASK, EMMC_TX_DELAY_NUM_POS, tx_delay_num);
    }
}

/// The table of this register holds together: the register lies at a multiple
/// of its width; the mask of every field is as many ones as the field is
/// wide, shifted to the field's position; and no two fields share a bit.
pub proof fn lemma_layout()
    by (bit_vector)
    ensures
        EMMC_DLL_TXCLK_OFFSET % 4 == 0,
        EMMC_TX_TAP_NUM_MASK as u64 == field_mask(
            EMMC_TX_TAP_NUM_POS as u64,
            EMMC_TX_TAP_NUM_WIDTH as u64,
        ),
        EMMC_TX_TAP_VALUE_MASK as u64 == field_mask(
            EMMC_TX_TAP_VALUE_POS as u64,
            EMMC_TX_TAP_VALUE_WIDTH as u64,
        ),
        EMMC_TX_DELAY_NUM_MASK as u64 == field_mask(
            EMMC_TX_DELAY_NUM_POS as u64,
            EMMC_TX_DELAY_NUM_WIDTH as u64,
        ),
        EMMC_TX_TAP_NUM_SEL_MASK as u64 == field_mask(
            EMMC_TX_TAP_NUM_SEL_POS as u64,
            EMMC_TX_TAP_NUM_SEL_WIDTH as u64,
        ),
        EMMC_TX_TAP_VALUE_SEL_MASK as u64 == field_mask(
            EMMC_TX_TAP_VALUE_SEL_POS as u64,
            EMMC_TX_TAP_VALUE_SEL_WIDTH as u64,
        ),
        EMMC_TX_DELAY_NUM_SEL_MASK as u64 == field_mask(
            EMMC_TX_DELAY_NUM_SEL_POS as u64,
            EMMC_TX_DELAY_NUM_SEL_WIDTH as u64,
        ),
        EMMC_TX_CLK_OUT_SEL_MASK as u64 == field_mask(
            EMMC_TX_CLK_OUT_SEL_POS as u64,
            EMMC_TX_CLK_OUT_SEL_WIDTH as u64,
        ),
        EMMC_TX_TAP_NUM_MASK & EMMC_TX_TAP_VALUE_MASK == 0,
        EMMC_TX_TAP_NUM_MASK & EMMC_TX_DELAY_NUM_MASK == 0,
        EMMC_TX_TAP_NUM_MASK & EMMC_TX_TAP_NUM_SEL_MASK == 0,
        EMMC_TX_TAP_NUM_MASK & EMMC_TX_TAP_VALUE_SEL_MASK == 0,
        EMMC_TX_TAP_NUM_MASK & EMMC_TX_DELAY_NUM_SEL_MASK == 0,
        EMMC_TX_TAP_NUM_MASK & EMMC_TX_CLK_OUT_SEL_MASK == 0,
        EMMC_TX_TAP_VALUE_MASK & EMMC_TX_DELAY_NUM_MASK == 0,
        EMMC_TX_TAP_VALUE_MASK & EMMC_TX_TAP_NUM_SEL_MASK == 0,
        EMMC_TX_TAP_VALUE_MASK & EMMC_TX_TAP_VALUE_SEL_MASK == 0,
        EMMC_TX_TAP_VALUE_MASK & EMMC_TX_DELAY_NUM_SEL_MASK == 0,
        EMMC_TX_TAP_VALUE_MASK & EMMC_TX_CLK_OUT_SEL_MASK == 0,
        EMMC_TX_DELAY_NUM_MASK & EMMC_TX_TAP_NUM_SEL_MASK == 0,
        EMMC_TX_DELAY_NUM_MASK & EMMC_TX_TAP_VALUE_SEL_MASK == 0,
        EMMC_TX_DELAY_NUM_MASK & EMMC_TX_DELAY_NUM_SEL_MASK == 0,
        EMMC_TX_DELAY_NUM_MASK & EMMC_TX_CLK_OUT_SEL_MASK == 0,
        EMMC_TX_TAP_NUM_SEL_MASK & EMMC_TX_TAP_VALUE_SEL_MASK == 0,
        EMMC_TX_TAP_NUM_SEL_MASK & EMMC_TX_DELAY_NUM_SEL_MASK == 0,
        EMMC_TX_TAP_NUM_SEL_MASK & EMMC_TX_CLK_OUT_SEL_MASK == 0,
        EMMC_TX_TAP_VALUE_SEL_MASK & EMMC_TX_DELAY_NUM_SEL_MASK == 0,
        EMMC_TX_TAP_VALUE_SEL_MASK & EMMC_TX_CLK_OUT_SEL_MASK == 0,
        EMMC_TX_DELAY_NUM_SEL_MASK & EMMC_TX_CLK_OUT_SEL_MASK == 0,
{
}

} // verus!
