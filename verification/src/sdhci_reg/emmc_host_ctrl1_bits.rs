//! Host control register 1: bus width, speed and DMA choice.
use vstd::prelude::*;
use crate::bits::field_mask;
use crate::mmio::Mmio;
use crate::mmio::clear_bits8;
use crate::mmio::put_field8;
use crate::mmio::set_bits8;
use crate::sdhci_reg::Reg;

verus! {

/// Offset of the register from the base of the window.
pub const EMMC_HOST_CTRL1_OFFSET: u64 = 0x28;

/// Data transfer width: position of the lowest bit.
pub const EMMC_DAT_XFER_WIDTH_POS: u8 = 1;

/// Data transfer width: width in bits.
pub const EMMC_DAT_XFER_WIDTH_WIDTH: u8 = 1;

/// Data transfer width: mask.
pub const EMMC_DAT_XFER_WIDTH_MASK: u8 = 0x01 << EMMC_DAT_XFER_WIDTH_POS;

/// Data transfer width.
pub const EMMC_DAT_XFER_WIDTH: u8 = EMMC_DAT_XFER_WIDTH_MASK;

/// High speed enable: position of the lowest bit.
pub const EMMC_HIGH_SPEED_EN_POS: u8 = 2;

/// High speed enable: width in bits.
pub const EMMC_HIGH_SPEED_EN_WIDTH: u8 = 1;

/// High speed enable: mask.
pub const EMMC_HIGH_SPEED_EN_MASK: u8 = 0x01 << EMMC_HIGH_SPEED_EN_POS;

/// High speed enable.
pub const EMMC_HIGH_SPEED_EN: u8 = EMMC_HIGH_SPEED_EN_MASK;

/// DMA select: position of the lowest bit.
pub const EMMC_DMA_SEL_POS: u8 = 3;

/// DMA select: width in bits.
pub const EMMC_DMA_SEL_WIDTH: u8 = 2;

/// DMA select: mask.
pub const EMMC_DMA_SEL_MASK: u8 = 0x03 << EMMC_DMA_SEL_POS;

/// DMA select.
pub const EMMC_DMA_SEL: u8 = EMMC_DMA_SEL_MASK;

/// SDMA, as the number of the field: what the setter of the field takes.
pub const EMMC_DMA_SEL_SDMA_NUM: u8 = 0;

/// SDMA, in place: what stands in the register.
pub const EMMC_DMA_SEL_SDMA: u8 = 0 << EMMC_DMA_SEL_POS;

/// ADMA2, as the number of the field: what the setter of the field takes.
pub const EMMC_DMA_SEL_ADMA2_NUM: u8 = 2;

/// ADMA2, in place: what stands in the register.
pub const EMMC_DMA_SEL_ADMA2: u8 = 2 << EMMC_DMA_SEL_POS;

/// ADMA2 or ADMA3, as the number of the field: what the setter of the field takes.
pub const EMMC_DMA_SEL_ADMA2_3_NUM: u8 = 3;

/// ADMA2 or ADMA3, in place: what stands in the register.
pub const EMMC_DMA_SEL_ADMA2_3: u8 = 3 << EMMC_DMA_SEL_POS;

/// Extended data transfer width: position of the lowest bit.
pub const EMMC_EXT_DAT_XFER_POS: u8 = 5;

/// Extended data transfer width: width in bits.
pub const EMMC_EXT_DAT_XFER_WIDTH: u8 = 1;

/// Extended data transfer width: mask.
pub const EMMC_EXT_DAT_XFER_MASK: u8 = 0x01 << EMMC_EXT_DAT_XFER_POS;

/// Extended data transfer width.
pub const EMMC_EXT_DAT_XFER: u8 = EMMC_EXT_DAT_XFER_MASK;

impl<M: Mmio> Reg<M> {
    /// Selects a data bus of one line.
    ///
    /// One load of the register, then one store.
    pub fn emmc_enable_data_xfer_width_1bit(&mut self)
        requires
            old(self).wf(),
        ensures
            final(self).wf(),
            final(self).follows(old(self)),
            exists|seen: u8|
                final(self).accesses() == old(self).accesses() + #[trigger] clear_bits8(
                    old(self).at(EMMC_HOST_CTRL1_OFFSET),
                    seen,
                    EMMC_DAT_XFER_WIDTH,
                ),
    {
        self.lower8(EMMC_HOST_CTRL1_OFFSET, EMMC_DAT_XFER_WIDTH);
    }

    /// Selects a data bus of four lines.
    ///
    /// One load of the register, then one store.
    pub fn emmc_enable_data_xfer_width_4bit(&mut self)
        requires
            old(self).wf(),
        ensures
            final(self).wf(),
            final(self).follows(old(self)),
            exists|seen: u8|
                final(self).accesses() == old(self).accesses() + #[trigger] set_bits8(
                    old(self).at(EMMC_HOST_CTRL1_OFFSET),
                    seen,
                    EMMC_DAT_XFER_WIDTH,
                ),
    {
        self.raise8(EMMC_HOST_CTRL1_OFFSET, EMMC_DAT_XFER_WIDTH);
    }

    /// Turns high speed mode on.
    ///
    /// One load of the register, then one store.
    pub fn emmc_enable_high_speed(&mut self)
        requires
            old(self).wf(),
        ensures
            final(self).wf(),
            final(self).follows(old(self)),
            exists|seen: u8|
                final(self).accesses() == old(self).accesses() + #[trigger] set_bits8(
                    old(self).at(EMMC_HOST_CTRL1_OFFSET),
                    seen,
                    EMMC_HIGH_SPEED_EN,
                ),
    {
        self.raise8(EMMC_HOST_CTRL1_OFFSET, EMMC_HIGH_SPEED_EN);
    }

    /// Turns high speed mode off.
    ///
    /// One load of the register, then one store.
    pub fn emmc_disable_high_speed(&mut self)
        requires
            old(self).wf(),
        ensures
            final(self).wf(),
            final(self).follows(old(self)),
            exists|seen: u8|
                final(self).accesses() == old(self).accesses() + #[trigger] clear_bits8(
                    old(self).at(EMMC_HOST_CTRL1_OFFSET),
                    seen,
                    EMMC_HIGH_SPEED_EN,
                ),
    {
        self.lower8(EMMC_HOST_CTRL1_OFFSET, EMMC_HIGH_SPEED_EN);
    }

    /// Selects the DMA engine with the number `dma_sel`. The number is
    /// shifted to the field's place and cut to its width. Each named value of
    /// the field has its number beside it, under the same name with `_NUM`
    /// after it: that is what to hand over.
    ///
    /// One load of the register, then one store.
    pub fn emmc_select_dma(&mut self, dma_sel: u8)
        requires
            old(self).wf(),
        ensures
            final(self).wf(),
            final(self).follows(old(self)),
            exists|seen: u8|
                final(self).accesses() == old(self).accesses() + #[trigger] put_field8(
                    old(self).at(EMMC_HOST_CTRL1_OFFSET),
                    seen,
                    EMMC_DMA_SEL_MASK,
                    EMMC_DMA_SEL_POS,
                    dma_sel,
                ),
    {
        self.place8(EMMC_HOST_CTRL1_OFFSET, EMMC_DMA_SEL_MASK, EMMC_DMA_SEL_POS, dma_sel);
    }

    /// Selects a data bus of eight lines.
    ///
    /// One load of the register, then one store.
    pub fn emmc_enable_ext_data_xfre(&mut self)
        requires
            old(self).wf(),
        ensures
            final(self).wf(),
            final(self).follows(old(self)),
            exists|seen: u8|
                final(self).accesses() == old(self).accesses() + #[trigger] set_bits8(
                    old(self).at(EMMC_HOST_CTRL1_OFFSET),
                    seen,
                    EMMC_EXT_DAT_XFER,
                ),
    {
        self.raise8(EMMC_HOST_CTRL1_OFFSET, EMMC_EXT_DAT_XFER);
    }

    /// Leaves the width of the data bus to the data transfer width bit.
    ///
    /// One load of the register, then one store.
    pub fn emmc_disable_ext_data_xfre(&mut self)
        requires
            old(self).wf(),
        ensures
            final(self).wf(),
            final(self).follows(old(self)),
            exists|seen: u8|
                final(self).accesses() == old(self).accesses() + #[trigger] clear_bits8(
                    old(self).at(EMMC_HOST_CTRL1_OFFSET),
                    seen,
                    EMMC_EXT_DAT_XFER,
                ),
    {
        self.lower8(EMMC_HOST_CTRL1_OFFSET, EMMC_EXT_DAT_XFER);
    }
}

/// The table of this register holds together: the mask of every field is as
/// many ones as the field is wide, shifted to the field's position; every
/// named value lies within its field, and is what the setter of the field
/// puts there when it is handed the value's number; and no two fields share a
/// bit.
pub proof fn lemma_layout()
    by (bit_vector)
    ensures
        EMMC_DAT_XFER_WIDTH_MASK as u64 == field_mask(
            EMMC_DAT_XFER_WIDTH_POS as u64,
            EMMC_DAT_XFER_WIDTH_WIDTH as u64,
        ),
        EMMC_HIGH_SPEED_EN_MASK as u64 == field_mask(
            EMMC_HIGH_SPEED_EN_POS as u64,
            EMMC_HIGH_SPEED_EN_WIDTH as u64,
        ),
        EMMC_DMA_SEL_MASK as u64 == field_mask(
            EMMC_DMA_SEL_POS as u64,
            EMMC_DMA_SEL_WIDTH as u64,
        ),
        EMMC_EXT_DAT_XFER_MASK as u64 == field_mask(
            EMMC_EXT_DAT_XFER_POS as u64,
            EMMC_EXT_DAT_XFER_WIDTH as u64,
        ),
        EMMC_DMA_SEL_SDMA & !EMMC_DMA_SEL_MASK == 0,
        (EMMC_DMA_SEL_SDMA_NUM << EMMC_DMA_SEL_POS) & EMMC_DMA_SEL_MASK == EMMC_DMA_SEL_SDMA,
        EMMC_DMA_SEL_ADMA2 & !EMMC_DMA_SEL_MASK == 0,
        (EMMC_DMA_SEL_ADMA2_NUM << EMMC_DMA_SEL_POS) & EMMC_DMA_SEL_MASK == EMMC_DMA_SEL_ADMA2,
        EMMC_DMA_SEL_ADMA2_3 & !EMMC_DMA_SEL_MASK == 0,
        (EMMC_DMA_SEL_ADMA2_3_NUM << EMMC_DMA_SEL_POS) & EMMC_DMA_SEL_MASK == EMMC_DMA_SEL_ADMA2_3,
        EMMC_DAT_XFER_WIDTH_MASK & EMMC_HIGH_SPEED_EN_MASK == 0,
        EMMC_DAT_XFER_WIDTH_MASK & EMMC_DMA_SEL_MASK == 0,
        EMMC_DAT_XFER_WIDTH_MASK & EMMC_EXT_DAT_XFER_MASK == 0,
        EMMC_HIGH_SPEED_EN_MASK & EMMC_DMA_SEL_MASK == 0,
        EMMC_HIGH_SPEED_EN_MASK & EMMC_EXT_DAT_XFER_MASK == 0,
        EMMC_DMA_SEL_MASK & EMMC_EXT_DAT_XFER_MASK == 0,
{
}

} // verus!
