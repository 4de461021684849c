//! The delay line register of the receive clock.
use vstd::prelude::*;
use crate::bits::field_mask;
use crate::mmio::Mmio;
use crate::mmio::fetch32;
use crate::mmio::put_field32;
use crate::mmio::store32;
use crate::sdhci_reg::Reg;

verus! {

/// Offset of the register from the base of the window.
pub const EMMC_DLL_RXCLK_OFFSET: u64 = 0x804;

/// Number of taps: position of the lowest bit.
pub const EMMC_RX_TAP_NUM_POS: u32 = 0;

/// Number of taps: width in bits.
pub const EMMC_RX_TAP_NUM_WIDTH: u32 = 5;

/// Number of taps: mask.
pub const EMMC_RX_TAP_NUM_MASK: u32 = 0x1f << EMMC_RX_TAP_NUM_POS;

/// Number of taps.
pub const EMMC_RX_TAP_NUM: u32 = EMMC_RX_TAP_NUM_MASK;

/// Tap value: position of the lowest bit.
pub const EMMC_RX_TAP_VALUE_POS: u32 = 8;

/// Tap value: width in bits.
pub const EMMC_RX_TAP_VALUE_WIDTH: u32 = 8;

/// Tap value: mask.
pub const EMMC_RX_TAP_VALUE_MASK: u32 = 0xff << EMMC_RX_TAP_VALUE_POS;

/// Tap value.
pub const EMMC_RX_TAP_VALUE: u32 = EMMC_RX_TAP_VALUE_MASK;

/// Number of delay elements: position of the lowest bit.
pub const EMMC_RX_DELAY_NUM_POS: u32 = 16;

/// Number of delay elements: width in bits.
pub const EMMC_RX_DELAY_NUM_WIDTH: u32 = 8;

/// Number of delay elements: mask.
pub const EMMC_RX_DELAY_NUM_MASK: u32 = 0xff << EMMC_RX_DELAY_NUM_POS;

/// Number of delay elements.
pub const EMMC_RX_DELAY_NUM: u32 = EMMC_RX_DELAY_NUM_MASK;

/// Take the number of taps from this register: position of the lowest bit.
pub const EMMC_RX_TAP_NUM_SEL_POS: u32 = 24;

/// Take the number of taps from this register: width in bits.
pub const EMMC_RX_TAP_NUM_SEL_WIDTH: u32 = 1;

/// Take the number of taps from this register: mask.
pub const EMMC_RX_TAP_NUM_SEL_MASK: u32 = 0x01 << EMMC_RX_TAP_NUM_SEL_POS;

/// Take the number of taps from this register.
pub const EMMC_RX_TAP_NUM_SEL: u32 = EMMC_RX_TAP_NUM_SEL_MASK;

/// Take the tap value from this register: position of the lowest bit.
pub const EMMC_RX_TAP_VALUE_SEL_POS: u32 = 25;

/// Take the tap value from this register: width in bits.
pub const EMMC_RX_TAP_VALUE_SEL_WIDTH: u32 = 1;

/// Take the tap value from this register: mask.
pub const EMMC_RX_TAP_VALUE_SEL_MASK: u32 = 0x01 << EMMC_RX_TAP_VALUE_SEL_POS;

/// Take the tap value from this register.
pub const EMMC_RX_TAP_VALUE_SEL: u32 = EMMC_RX_TAP_VALUE_SEL_MASK;

/// Take the number of delay elements from this register: position of the lowest bit.
pub const EMMC_RX_DELAY_NUM_SEL_POS: u32 = 26;

/// Take the number of delay elements from this register: width in bits.
pub const EMMC_RX_DELAY_NUM_SEL_WIDTH: u32 = 1;

/// Take the number of delay elements from this register: mask.
pub const EMMC_RX_DELAY_NUM_SEL_MASK: u32 = 0x01 << EMMC_RX_DELAY_NUM_SEL_POS;

/// Take the number of delay elements from this register.
pub const EMMC_RX_DELAY_NUM_SEL: u32 = EMMC_RX_DELAY_NUM_SEL_MASK;

/// Receive clock output select: position of the lowest bit.
pub const EMMC_RX_CLK_OUT_SEL_POS: u32 = 27;

/// Receive clock output select: width in bits.
pub const EMMC_RX_CLK_OUT_SEL_WIDTH: u32 = 1;

/// Receive clock output select: mask.
pub const EMMC_RX_CLK_OUT_SEL_MASK: u32 = 0x01 << EMMC_RX_CLK_OUT_SEL_POS;

/// Receive clock output select.
pub const EMMC_RX_CLK_OUT_SEL: u32 = EMMC_RX_CLK_OUT_SEL_MASK;

/// Receive clock change window: position of the lowest bit.
pub const EMMC_RX_CLK_CHANGE_WINDOW_POS: u32 = 28;

/// Receive clock change window: width in bits.
pub const EMMC_RX_CLK_CHANGE_WINDOW_WIDTH: u32 = 1;

/// Receive clock change window: mask.
pub const EMMC_RX_CLK_CHANGE_WINDOW_MASK: u32 = 0x01 << EMMC_RX_CLK_CHANGE_WINDOW_POS;

/// Receive clock change window.
pub const EMMC_RX_CLK_CHANGE_WINDOW: u32 = EMMC_RX_CLK_CHANGE_WINDOW_MASK;

/// Receive clock source select: position of the lowest bit.
pub const EMMC_RX_CLK_SRC_SEL_POS: u32 = 29;

/// Receive clock source select: width in bits.
pub const EMMC_RX_CLK_SRC_SEL_WIDTH: u32 = 1;

/// Receive clock source select: mask.
pub const EMMC_RX_CLK_SRC_SEL_MASK: u32 = 0x01 << EMMC_RX_CLK_SRC_SEL_POS;

/// Receive clock source select.
pub const EMMC_RX_CLK_SRC_SEL: u32 = EMMC_RX_CLK_SRC_SEL_MASK;

impl<M: Mmio> Reg<M> {
    /// Stores `dll_rxclk` in the delay line register of the receive clock.
    ///
    /// One store to the register.
    pub fn emmc_set_dll_rxclk(&mut self, dll_rxclk: u32)
        requires
            old(self).wf(),
        ensures
            final(self).wf(),
            final(self).follows(old(self)),
            final(self).accesses() == old(self).accesses() + store32(
                old(self).at(EMMC_DLL_RXCLK_OFFSET),
                dll_rxclk,
            ),
    {
        self.store32(EMMC_DLL_RXCLK_OFFSET, dll_rxclk);
    }

    /// Loads the delay line register of the receive clock.
    ///
    /// One load of the register.
    pub fn emmc_get_dll_rxclk(&mut self) -> (value: u32)
        requires
            old(self).wf(),
        ensures
            final(self).wf(),
            final(self).follows(old(self)),
            final(self).accesses() == old(self).accesses() + fetch32(
                old(self).at(EMMC_DLL_RXCLK_OFFSET),
                value,
            ),
    {
        self.load32(EMMC_DLL_RXCLK_OFFSET)
    }

    /// Sets the number of taps to `rx_tap_num`. The number is shifted to the
    /// field's place and cut to its width.
    ///
    /// One load of the register, then one store.
    pub fn emmc_set_rx_tap_num(&mut self, rx_tap_num: u32)
        requires
            old(self).wf(),
        ensures
            final(self).wf(),
            final(self).follows(old(self)),
            exists|seen: u32|
                final(self).accesses() == old(self).accesses() + #[trigger] put_field32(
                    old(self).at(EMMC_DLL_RXCLK_OFFSET),
                    seen,
                    EMMC_RX_TAP_NUM_MASK,
                    EMMC_RX_TAP_NUM_POS,
                    rx_tap_num,
                ),
    {
        self.place32(EMMC_DLL_RXCLK_OFFSET, EMMC_RX_TAP_NUM_MASK, EMMC_RX_TAP_NUM_POS, rx_tap_num);
    }

    /// Sets the tap value to `rx_tap_value`. The number is shifted to the
    /// field's place and cut to its width.
    ///
    /// One load of the register, then one store.
    pub fn emmc_set_rx_tap_value(&mut self, rx_tap_value: u32)
        requires
            old(self).wf(),
        ensures
            final(self).wf(),
            final(self).follows(old(self)),
            exists|seen: u32|
                final(self).accesses() == old(self).accesses() + #[trigger] put_field32(
                    old(self).at(EMMC_DLL_RXCLK_OFFSET),
                    seen,
                    EMMC_RX_TAP_VALUE_MASK,
                    EMMC_RX_TAP_VALUE_POS,
                    rx_tap_value,
                ),
    {
        self.place32(EMMC_DLL_RXCLK_OFFSET, EMMC_RX_TAP_VALUE_MASK, EMMC_RX_TAP_VALUE_POS, rx_tap_value);
    }

    /// Sets the number of delay elements to `rx_delay_num`. The number is
    /// shifted to the field's place and cut to its width.
    ///
    /// One load of the register, then one store.
    pub fn emmc_set_rx_delay_num(&mut self, rx_delay_num: u32)
        requires
            old(self).wf(),
        ensures
            final(self).wf(),
            final(self).follows(old(self)),
            exists|seen: u32|
                final(self).accesses() == old(self).accesses() + #[trigger] put_field32(
                    old(self).at(EMMC_DLL_RXCLK_OFFSET),
                    seen,
                    EMMC_RX_DELAY_NUM_MASK,
                    EMMC_RX_DELAY_NUM_POS,
                    rx_delay_num,
                ),
    {
        self.place32(EMMC_DLL_RXCLK_OFFSET, EMMC_RX_DELAY_NUM_MASK, EMMC_RX_DELAY_NUM_POS, rx_delay_num);
    }
}

/// The table of this register holds together: the register lies at a multiple
/// of its width; the mask of every field is as many ones as the field is
/// wide, shifted to the field's position; and no two fields share a bit.
pub proof fn lemma_layout()
    by (bit_vector)
    ensures
        EMMC_DLL_RXCLK_OFFSET % 4 == 0,
        EMMC_RX_TAP_NUM_MASK as u64 == field_mask(
            EMMC_RX_TAP_NUM_POS as u64,
            EMMC_RX_TAP_NUM_WIDTH as u64,
        ),
        EMMC_RX_TAP_VALUE_MASK as u64 == field_mask(
            EMMC_RX_TAP_VALUE_POS as u64,
            EMMC_RX_TAP_VALUE_WIDTH as u64,
        ),
        EMMC_RX_DELAY_NUM_MASK as u64 == field_mask(
            EMMC_RX_DELAY_NUM_POS as u64,
            EMMC_RX_DELAY_NUM_WIDTH as u64,
        ),
        EMMC_RX_TAP_NUM_SEL_MASK as u64 == field_mask(
            EMMC_RX_TAP_NUM_SEL_POS as u64,
            EMMC_RX_TAP_NUM_SEL_WIDTH as u64,
        ),
        EMMC_RX_TAP_VALUE_SEL_MASK as u64 == field_mask(
            EMMC_RX_TAP_VALUE_SEL_POS as u64,
            EMMC_RX_TAP_VALUE_SEL_WIDTH as u64,
        ),
        EMMC_RX_DELAY_NUM_SEL_MASK as u64 == field_mask(
            EMMC_RX_DELAY_NUM_SEL_POS as u64,
            EMMC_RX_DELAY_NUM_SEL_WIDTH as u64,
        ),
        EMMC_RX_CLK_OUT_SEL_MASK as u64 == field_mask(
            EMMC_RX_CLK_OUT_SEL_POS as u64,
            EMMC_RX_CLK_OUT_SEL_WIDTH as u64,
        ),
        EMMC_RX_CLK_CHANGE_WINDOW_MASK as u64 == field_mask(
            EMMC_RX_CLK_CHANGE_WINDOW_POS as u64,
            EMMC_RX_CLK_CHANGE_WINDOW_WIDTH as u64,
        ),
        EMMC_RX_CLK_SRC_SEL_MASK as u64 == field_mask(
            EMMC_RX_CLK_SRC_SEL_POS as u64,
            EMMC_RX_CLK_SRC_SEL_WIDTH as u64,
        ),
        EMMC_RX_TAP_NUM_MASK & EMMC_RX_TAP_VALUE_MASK == 0,
        EMMC_RX_TAP_NUM_MASK & EMMC_RX_DELAY_NUM_MASK == 0,
        EMMC_RX_TAP_NUM_MASK & EMMC_RX_TAP_NUM_SEL_MASK == 0,
        EMMC_RX_TAP_NUM_MASK & EMMC_RX_TAP_VALUE_SEL_MASK == 0,
        EMMC_RX_TAP_NUM_MASK & EMMC_RX_DELAY_NUM_SEL_MASK == 0,
        EMMC_RX_TAP_NUM_MASK & EMMC_RX_CLK_OUT_SEL_MASK == 0,
        EMMC_RX_TAP_NUM_MASK & EMMC_RX_CLK_CHANGE_WINDOW_MASK == 0,
        EMMC_RX_TAP_NUM_MASK & EMMC_RX_CLK_SRC_SEL_MASK == 0,
        EMMC_RX_TAP_VALUE_MASK & EMMC_RX_DELAY_NUM_MASK == 0,
        EMMC_RX_TAP_VALUE_MASK & EMMC_RX_TAP_NUM_SEL_MASK == 0,
        EMMC_RX_TAP_VALUE_MASK & EMMC_RX_TAP_VALUE_SEL_MASK == 0,
        EMMC_RX_TAP_VALUE_MASK & EMMC_RX_DELAY_NUM_SEL_MASK == 0,
        EMMC_RX_TAP_VALUE_MASK & EMMC_RX_CLK_OUT_SEL_MASK == 0,
        EMMC_RX_TAP_VALUE_MASK & EMMC_RX_CLK_CHANGE_WINDOW_MASK == 0,
        EMMC_RX_TAP_VALUE_MASK & EMMC_RX_CLK_SRC_SEL_MASK == 0,
        EMMC_RX_DELAY_NUM_MASK & EMMC_RX_TAP_NUM_SEL_MASK == 0,
        EMMC_RX_DELAY_NUM_MASK & EMMC_RX_TAP_VALUE_SEL_MASK == 0,
        EMMC_RX_DELAY_NUM_MASK & EMMC_RX_DELAY_NUM_SEL_MASK == 0,
        EMMC_RX_DELAY_NUM_MASK & EMMC_RX_CLK_OUT_SEL_MASK == 0,
        EMMC_RX_DELAY_NUM_MASK & EMMC_RX_CLK_CHANGE_WINDOW_MASK == 0,
        EMMC_RX_DELAY_NUM_MASK & EMMC_RX_CLK_SRC_SEL_MASK == 0,
        EMMC_RX_TAP_NUM_SEL_MASK & EMMC_RX_TAP_VALUE_SEL_MASK == 0,
        EMMC_RX_TAP_NUM_SEL_MASK & EMMC_RX_DELAY_NUM_SEL_MASK == 0,
        EMMC_RX_TAP_NUM_SEL_MASK & EMMC_RX_CLK_OUT_SEL_MASK == 0,
        EMMC_RX_TAP_NUM_SEL_MASK & EMMC_RX_CLK_CHANGE_WINDOW_MASK == 0,
        EMMC_RX_TAP_NUM_SEL_MASK & EMMC_RX_CLK_SRC_SEL_MASK == 0,
        EMMC_RX_TAP_VALUE_SEL_MASK & EMMC_RX_DELAY_NUM_SEL_MASK == 0,
        EMMC_RX_TAP_VALUE_SEL_MASK & EMMC_RX_CLK_OUT_SEL_MASK == 0,
        EMMC_RX_TAP_VALUE_SEL_MASK & EMMC_RX_CLK_CHANGE_WINDOW_MASK == 0,
        EMMC_RX_TAP_VALUE_SEL_MASK & EMMC_RX_CLK_SRC_SEL_MASK == 0,
        EMMC_RX_DELAY_NUM_SEL_MASK & EMMC_RX_CLK_OUT_SEL_MASK == 0,
        EMMC_RX_DELAY_NUM_SEL_MASK & EMMC_RX_CLK_CHANGE_WINDOW_MASK == 0,
        EMMC_RX_DELAY_NUM_SEL_MASK & EMMC_RX_CLK_SRC_SEL_MASK == 0,
        EMMC_RX_CLK_OUT_SEL_MASK & EMMC_RX_CLK_CHANGE_WINDOW_MASK == 0,
        EMMC_RX_CLK_OUT_SEL_MASK & EMMC_RX_CLK_SRC_SEL_MASK == 0,
        EMMC_RX_CLK_CHANGE_WINDOW_MASK & EMMC_RX_CLK_SRC_SEL_MASK == 0,
{
}

} // verus!
