//! The clock control register: the internal clock, the card clock and their
//! divider.
use vstd::prelude::*;
use crate::bits::field_mask;
use crate::bits::insert16;
use crate::mmio::Mmio;
use crate::mmio::clear_bits16;
use crate::mmio::fetch16;
use crate::mmio::put_field16;
use crate::mmio::set_bits16;
use crate::mmio::store16;
use crate::mmio::update16;
use crate::sdhci_reg::Reg;

verus! {

/// Offset of the register from the base of the window.
pub const EMMC_CLK_CTRL_OFFSET: u64 = 0x2c;

/// Internal clock enable: position of the lowest bit.
pub const EMMC_INTERNAL_CLK_EN_POS: u16 = 0;

/// Internal clock enable: width in bits.
pub const EMMC_INTERNAL_CLK_EN_WIDTH: u16 = 1;

/// Internal clock enable: mask.
pub const EMMC_INTERNAL_CLK_EN_MASK: u16 = 0x01 << EMMC_INTERNAL_CLK_EN_POS;

/// Internal clock enable.
pub const EMMC_INTERNAL_CLK_EN: u16 = EMMC_INTERNAL_CLK_EN_MASK;

/// Internal clock stable: position of the lowest bit.
pub const EMMC_INTERNAL_CLK_STABLE_POS: u16 = 1;

/// Internal clock stable: width in bits.
pub const EMMC_INTERNAL_CLK_STABLE_WIDTH: u16 = 1;

/// Internal clock stable: mask.
pub const EMMC_INTERNAL_CLK_STABLE_MASK: u16 = 0x01 << EMMC_INTERNAL_CLK_STABLE_POS;

/// Internal clock stable.
pub const EMMC_INTERNAL_CLK_STABLE: u16 = EMMC_INTERNAL_CLK_STABLE_MASK;

/// Card clock enable: position of the lowest bit.
pub const EMMC_SD_CLK_EN_POS: u16 = 2;

/// Card clock enable: width in bits.
pub const EMMC_SD_CLK_EN_WIDTH: u16 = 1;

/// Card clock enable: mask.
pub const EMMC_SD_CLK_EN_MASK: u16 = 0x01 << EMMC_SD_CLK_EN_POS;

/// Card clock enable.
pub const EMMC_SD_CLK_EN: u16 = EMMC_SD_CLK_EN_MASK;

/// Clock generator select: position of the lowest bit.
pub const EMMC_CLK_GEN_TYPE_POS: u16 = 5;

/// Clock generator select: width in bits.
pub const EMMC_CLK_GEN_TYPE_WIDTH: u16 = 1;

/// Clock generator select: mask.
pub const EMMC_CLK_GEN_TYPE_MASK: u16 = 0x01 << EMMC_CLK_GEN_TYPE_POS;

/// Clock generator select.
pub const EMMC_CLK_GEN_TYPE: u16 = EMMC_CLK_GEN_TYPE_MASK;

/// Programmable clock, as the number of the field: what the setter of the field takes.
pub const EMMC_CLK_GEN_TYPE_PROG_NUM: u16 = 0x01;

/// Programmable clock, in place: what stands in the register.
pub const EMMC_CLK_GEN_TYPE_PROG: u16 = 0x01 << EMMC_CLK_GEN_TYPE_POS;

/// Divided clock, as the number of the field: what the setter of the field takes.
pub const EMMC_CLK_GEN_TYPE_DIV_NUM: u16 = 0x00;

/// Divided clock, in place: what stands in the register.
pub const EMMC_CLK_GEN_TYPE_DIV: u16 = 0x00;

/// Bits 8 and 9 of the frequency select: position of the lowest bit.
pub const EMMC_UPPER_FREQ_POS: u16 = 6;

/// Bits 8 and 9 of the frequency select: width in bits.
pub const EMMC_UPPER_FREQ_WIDTH: u16 = 2;

/// Bits 8 and 9 of the frequency select: mask.
pub const EMMC_UPPER_FREQ_MASK: u16 = 0x03 << EMMC_UPPER_FREQ_POS;

/// Bits 8 and 9 of the frequency select.
pub const EMMC_UPPER_FREQ: u16 = EMMC_UPPER_FREQ_MASK;

/// Bits 0 to 7 of the frequency select: position of the lowest bit.
pub const EMMC_FREQ_POS: u16 = 8;

/// Bits 0 to 7 of the frequency select: width in bits.
pub const EMMC_FREQ_WIDTH: u16 = 8;

/// Bits 0 to 7 of the frequency select: mask.
pub const EMMC_FREQ_MASK: u16 = 0xff << EMMC_FREQ_POS;

/// Bits 0 to 7 of the frequency select.
pub const EMMC_FREQ: u16 = EMMC_FREQ_MASK;

/// A value of the register with the frequency select replaced by `freq`.
pub open spec fn with_freq(seen: u16, freq: u16) -> u16 {
    insert16(
        insert16(seen, EMMC_UPPER_FREQ_MASK, EMMC_UPPER_FREQ_POS, freq >> EMMC_FREQ_POS),
        EMMC_FREQ_MASK,
        EMMC_FREQ_POS,
        freq,
    )
}

impl<M: Mmio> Reg<M> {
    /// Loads the clock control register.
    ///
    /// One load of the register.
    pub fn emmc_get_clk_ctrl(&mut self) -> (value: u16)
        requires
            old(self).wf(),
        ensures
            final(self).wf(),
            final(self).follows(old(self)),
            final(self).accesses() == old(self).accesses() + fetch16(
                old(self).at(EMMC_CLK_CTRL_OFFSET),
                value,
            ),
    {
        self.load16(EMMC_CLK_CTRL_OFFSET)
    }

    /// Stores `clk_ctrl` in the clock control register.
    ///
    /// One store to the register.
    pub fn emmc_set_clk_ctrl(&mut self, clk_ctrl: u16)
        requires
            old(self).wf(),
        ensures
            final(self).wf(),
            final(self).follows(old(self)),
            final(self).accesses() == old(self).accesses() + store16(
                old(self).at(EMMC_CLK_CTRL_OFFSET),
                clk_ctrl,
            ),
    {
        self.store16(EMMC_CLK_CTRL_OFFSET, clk_ctrl);
    }

    /// Starts the internal clock.
    ///
    /// One load of the register, then one store.
    pub fn emmc_enable_internal_clk(&mut self)
        requires
            old(self).wf(),
        ensures
            final(self).wf(),
            final(self).follows(old(self)),
            exists|seen: u16|
                final(self).accesses() == old(self).accesses() + #[trigger] set_bits16(
                    old(self).at(EMMC_CLK_CTRL_OFFSET),
                    seen,
                    EMMC_INTERNAL_CLK_EN,
                ),
    {
        self.raise16(EMMC_CLK_CTRL_OFFSET, EMMC_INTERNAL_CLK_EN);
    }

    /// Stops the internal clock.
    ///
    /// One load of the register, then one store.
    pub fn emmc_disable_internal_clk(&mut self)
        requires
            old(self).wf(),
        ensures
            final(self).wf(),
            final(self).follows(old(self)),
            exists|seen: u16|
                final(self).accesses() == old(self).accesses() + #[trigger] clear_bits16(
                    old(self).at(EMMC_CLK_CTRL_OFFSET),
                    seen,
                    EMMC_INTERNAL_CLK_EN,
                ),
    {
        self.lower16(EMMC_CLK_CTRL_OFFSET, EMMC_INTERNAL_CLK_EN);
    }

    /// Whether the internal clock has become stable.
    ///
    /// One load of the register.
    pub fn emmc_internal_clk_is_stable(&mut self) -> (stable: bool)
        requires
            old(self).wf(),
        ensures
            final(self).wf(),
            final(self).follows(old(self)),
            exists|seen: u16|
                final(self).accesses() == old(self).accesses() + #[trigger] fetch16(
                    old(self).at(EMMC_CLK_CTRL_OFFSET),
                    seen,
                ) && stable == (seen & EMMC_INTERNAL_CLK_STABLE == EMMC_INTERNAL_CLK_STABLE),
    {
        self.load16(EMMC_CLK_CTRL_OFFSET) & EMMC_INTERNAL_CLK_STABLE == EMMC_INTERNAL_CLK_STABLE
    }

    /// Starts the card clock.
    ///
    /// One load of the register, then one store.
    pub fn emmc_enable_sd_clk(&mut self)
        requires
            old(self).wf(),
        ensures
            final(self).wf(),
            final(self).follows(old(self)),
            exists|seen: u16|
                final(self).accesses() == old(self).accesses() + #[trigger] set_bits16(
                    old(self).at(EMMC_CLK_CTRL_OFFSET),
                    seen,
                    EMMC_SD_CLK_EN,
                ),
    {
        self.raise16(EMMC_CLK_CTRL_OFFSET, EMMC_SD_CLK_EN);
    }

    /// Stops the card clock.
    ///
    /// One load of the register, then one store.
    pub fn emmc_disable_sd_clk(&mut self)
        requires
            old(self).wf(),
        ensures
            final(self).wf(),
            final(self).follows(old(self)),
            exists|seen: u16|
                final(self).accesses() == old(self).accesses() + #[trigger] clear_bits16(
                    old(self).at(EMMC_CLK_CTRL_OFFSET),
                    seen,
                    EMMC_SD_CLK_EN,
                ),
    {
        self.lower16(EMMC_CLK_CTRL_OFFSET, EMMC_SD_CLK_EN);
    }

    /// Selects the clock generator with the number `clk_gen_type`. The number
    /// is shifted to the field's place and cut to its width. Each named value
    /// of the field has its number beside it, under the same name with `_NUM`
    /// after it: that is what to hand over.
    ///
    /// One load of the register, then one store.
    pub fn emmc_set_clk_gen_type(&mut self, clk_gen_type: u16)
        requires
            old(self).wf(),
        ensures
            final(self).wf(),
            final(self).follows(old(self)),
            exists|seen: u16|
                final(self).accesses() == old(self).accesses() + #[trigger] put_field16(
                    old(self).at(EMMC_CLK_CTRL_OFFSET),
                    seen,
                    EMMC_CLK_GEN_TYPE_MASK,
                    EMMC_CLK_GEN_TYPE_POS,
                    clk_gen_type,
                ),
    {
        self.place16(EMMC_CLK_CTRL_OFFSET, EMMC_CLK_GEN_TYPE_MASK, EMMC_CLK_GEN_TYPE_POS, clk_gen_type);
    }

    /// Sets the ten-bit frequency select to `freq`: its bits 0 to 7 go to
    /// one field, its bits 8 and 9 to the other.
    ///
    /// One load of the register, then one store.
    pub fn emmc_set_freq(&mut self, freq: u16)
        requires
            old(self).wf(),
        ensures
            final(self).wf(),
            final(self).follows(old(self)),
            exists|seen: u16|
                final(self).accesses() == old(self).accesses() + #[trigger] update16(
                    old(self).at(EMMC_CLK_CTRL_OFFSET),
                    seen,
                    with_freq(seen, freq),
                ),
    {
        let seen = self.load16(EMMC_CLK_CTRL_OFFSET);
        let upper = (seen & !EMMC_UPPER_FREQ_MASK) | (((freq >> EMMC_FREQ_POS)
            << EMMC_UPPER_FREQ_POS) & EMMC_UPPER_FREQ_MASK);
        let value = (upper & !EMMC_FREQ_MASK) | ((freq << EMMC_FREQ_POS) & EMMC_FREQ_MASK);
        self.store16(EMMC_CLK_CTRL_OFFSET, value);
        assert(self.accesses() == old(self).accesses() + update16(
            old(self).at(EMMC_CLK_CTRL_OFFSET),
            seen,
            with_freq(seen, freq),
        ));
    }
}

/// The table of this register holds together: the register lies at a multiple
/// of its width; the mask of every field is as many ones as the field is
/// wide, shifted to the field's position; every named value lies within its
/// field, and is what the setter of the field puts there when it is handed
/// the value's number; and no two fields share a bit.
pub proof fn lemma_layout()
    by (bit_vector)
    ensures
        EMMC_CLK_CTRL_OFFSET % 2 == 0,
        EMMC_INTERNAL_CLK_EN_MASK as u64 == field_mask(
            EMMC_INTERNAL_CLK_EN_POS as u64,
            EMMC_INTERNAL_CLK_EN_WIDTH as u64,
        ),
        EMMC_INTERNAL_CLK_STABLE_MASK as u64 == field_mask(
            EMMC_INTERNAL_CLK_STABLE_POS as u64,
            EMMC_INTERNAL_CLK_STABLE_WIDTH as u64,
        ),
        EMMC_SD_CLK_EN_MASK as u64 == field_mask(
            EMMC_SD_CLK_EN_POS as u64,
            EMMC_SD_CLK_EN_WIDTH as u64,
        ),
        EMMC_CLK_GEN_TYPE_MASK as u64 == field_mask(
            EMMC_CLK_GEN_TYPE_POS as u64,
            EMMC_CLK_GEN_TYPE_WIDTH as u64,
        ),
        EMMC_UPPER_FREQ_MASK as u64 == field_mask(
            EMMC_UPPER_FREQ_POS as u64,
            EMMC_UPPER_FREQ_WIDTH as u64,
        ),
        EMMC_FREQ_MASK as u64 == field_mask(
            EMMC_FREQ_POS as u64,
            EMMC_FREQ_WIDTH as u64,
        ),
        EMMC_CLK_GEN_TYPE_PROG & !EMMC_CLK_GEN_TYPE_MASK == 0,
        (EMMC_CLK_GEN_TYPE_PROG_NUM << EMMC_CLK_GEN_TYPE_POS) & EMMC_CLK_GEN_TYPE_MASK == EMMC_CLK_GEN_TYPE_PROG,
        EMMC_CLK_GEN_TYPE_DIV & !EMMC_CLK_GEN_TYPE_MASK == 0,
        (EMMC_CLK_GEN_TYPE_DIV_NUM << EMMC_CLK_GEN_TYPE_POS) & EMMC_CLK_GEN_TYPE_MASK == EMMC_CLK_GEN_TYPE_DIV,
        EMMC_INTERNAL_CLK_EN_MASK & EMMC_INTERNAL_CLK_STABLE_MASK == 0,
        EMMC_INTERNAL_CLK_EN_MASK & EMMC_SD_CLK_EN_MASK == 0,
        EMMC_INTERNAL_CLK_EN_MASK & EMMC_CLK_GEN_TYPE_MASK == 0,
        EMMC_INTERNAL_CLK_EN_MASK & EMMC_UPPER_FREQ_MASK == 0,
        EMMC_INTERNAL_CLK_EN_MASK & EMMC_FREQ_MASK == 0,
        EMMC_INTERNAL_CLK_STABLE_MASK & EMMC_SD_CLK_EN_MASK == 0,
        EMMC_INTERNAL_CLK_STABLE_MASK & EMMC_CLK_GEN_TYPE_MASK == 0,
        EMMC_INTERNAL_CLK_STABLE_MASK & EMMC_UPPER_FREQ_MASK == 0,
        EMMC_INTERNAL_CLK_STABLE_MASK & EMMC_FREQ_MASK == 0,
        EMMC_SD_CLK_EN_MASK & EMMC_CLK_GEN_TYPE_MASK == 0,
        EMMC_SD_CLK_EN_MASK & EMMC_UPPER_FREQ_MASK == 0,
        EMMC_SD_CLK_EN_MASK & EMMC_FREQ_MASK == 0,
        EMMC_CLK_GEN_TYPE_MASK & EMMC_UPPER_FREQ_MASK == 0,
        EMMC_CLK_GEN_TYPE_MASK & EMMC_FREQ_MASK == 0,
        EMMC_UPPER_FREQ_MASK & EMMC_FREQ_MASK == 0,
{
}

} // verus!
