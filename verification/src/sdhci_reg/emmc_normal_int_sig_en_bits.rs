//! The normal interrupt signal enable register.
use vstd::prelude::*;
use crate::bits::field_mask;
use crate::mmio::Mmio;
use crate::mmio::fetch16;
use crate::mmio::set_bits16;
use crate::mmio::store16;
use crate::sdhci_reg::Reg;

verus! {

/// Offset of the register from the base of the window.
pub const EMMC_NORMAL_INT_SIG_EN_OFFSET: u64 = 0x38;

/// Command complete signal enable: position of the lowest bit.
pub const EMMC_CMD_COMPLETE_SIG_EN_POS: u16 = 0;

/// Command complete signal enable: width in bits.
pub const EMMC_CMD_COMPLETE_SIG_EN_WIDTH: u16 = 1;

/// Command complete signal enable: mask.
pub const EMMC_CMD_COMPLETE_SIG_EN_MASK: u16 = 0x01 << EMMC_CMD_COMPLETE_SIG_EN_POS;

/// Command complete signal enable.
pub const EMMC_CMD_COMPLETE_SIG_EN: u16 = EMMC_CMD_COMPLETE_SIG_EN_MASK;

/// Transfer complete signal enable: position of the lowest bit.
pub const EMMC_XFER_COMPLETE_SIG_EN_POS: u16 = 1;

/// Transfer complete signal enable: width in bits.
pub const EMMC_XFER_COMPLETE_SIG_EN_WIDTH: u16 = 1;

/// Transfer complete signal enable: mask.
pub const EMMC_XFER_COMPLETE_SIG_EN_MASK: u16 = 0x01 << EMMC_XFER_COMPLETE_SIG_EN_POS;

/// Transfer complete signal enable.
pub const EMMC_XFER_COMPLETE_SIG_EN: u16 = EMMC_XFER_COMPLETE_SIG_EN_MASK;

/// Block gap event signal enable: position of the lowest bit.
pub const EMMC_BGAP_EVENT_SIG_EN_POS: u16 = 2;

/// Block gap event signal enable: width in bits.
pub const EMMC_BGAP_EVENT_SIG_EN_WIDTH: u16 = 1;

/// Block gap event signal enable: mask.
pub const EMMC_BGAP_EVENT_SIG_EN_MASK: u16 = 0x01 << EMMC_BGAP_EVENT_SIG_EN_POS;

/// Block gap event signal enable.
pub const EMMC_BGAP_EVENT_SIG_EN: u16 = EMMC_BGAP_EVENT_SIG_EN_MASK;

/// DMA interrupt signal enable: position of the lowest bit.
pub const EMMC_DMA_INTERRUPT_SIG_EN_POS: u16 = 3;

/// DMA interrupt signal enable: width in bits.
pub const EMMC_DMA_INTERRUPT_SIG_EN_WIDTH: u16 = 1;

/// DMA interrupt signal enable: mask.
pub const EMMC_DMA_INTERRUPT_SIG_EN_MASK: u16 = 0x01 << EMMC_DMA_INTERRUPT_SIG_EN_POS;

/// DMA interrupt signal enable.
pub const EMMC_DMA_INTERRUPT_SIG_EN: u16 = EMMC_DMA_INTERRUPT_SIG_EN_MASK;

/// Buffer ready to be written signal enable: position of the lowest bit.
pub const EMMC_BUF_WR_READY_SIG_EN_POS: u16 = 4;

/// Buffer ready to be written signal enable: width in bits.
pub const EMMC_BUF_WR_READY_SIG_EN_WIDTH: u16 = 1;

/// Buffer ready to be written signal enable: mask.
pub const EMMC_BUF_WR_READY_SIG_EN_MASK: u16 = 0x01 << EMMC_BUF_WR_READY_SIG_EN_POS;

/// Buffer ready to be written signal enable.
pub const EMMC_BUF_WR_READY_SIG_EN: u16 = EMMC_BUF_WR_READY_SIG_EN_MASK;

/// Buffer ready to be read signal enable: position of the lowest bit.
pub const EMMC_BUF_RD_READY_SIG_EN_POS: u16 = 5;

/// Buffer ready to be read signal enable: width in bits.
pub const EMMC_BUF_RD_READY_SIG_EN_WIDTH: u16 = 1;

/// Buffer ready to be read signal enable: mask.
pub const EMMC_BUF_RD_READY_SIG_EN_MASK: u16 = 0x01 << EMMC_BUF_RD_READY_SIG_EN_POS;

/// Buffer ready to be read signal enable.
pub const EMMC_BUF_RD_READY_SIG_EN: u16 = EMMC_BUF_RD_READY_SIG_EN_MASK;

/// Card insertion signal enable: position of the lowest bit.
pub const EMMC_CARD_INSERTION_SIG_EN_POS: u16 = 6;

/// Card insertion signal enable: width in bits.
pub const EMMC_CARD_INSERTION_SIG_EN_WIDTH: u16 = 1;

/// Card insertion signal enable: mask.
pub const EMMC_CARD_INSERTION_SIG_EN_MASK: u16 = 0x01 << EMMC_CARD_INSERTION_SIG_EN_POS;

/// Card insertion signal enable.
pub const EMMC_CARD_INSERTION_SIG_EN: u16 = EMMC_CARD_INSERTION_SIG_EN_MASK;

/// Card removal signal enable: position of the lowest bit.
pub const EMMC_CARD_REMOVAL_SIG_EN_POS: u16 = 7;

/// Card removal signal enable: width in bits.
pub const EMMC_CARD_REMOVAL_SIG_EN_WIDTH: u16 = 1;

/// Card removal signal enable: mask.
pub const EMMC_CARD_REMOVAL_SIG_EN_MASK: u16 = 0x01 << EMMC_CARD_REMOVAL_SIG_EN_POS;

/// Card removal signal enable.
pub const EMMC_CARD_REMOVAL_SIG_EN: u16 = EMMC_CARD_REMOVAL_SIG_EN_MASK;

/// Card interrupt signal enable: position of the lowest bit.
pub const EMMC_CARD_INTERRUPT_SIG_EN_POS: u16 = 8;

/// Card interrupt signal enable: width in bits.
pub const EMMC_CARD_INTERRUPT_SIG_EN_WIDTH: u16 = 1;

/// Card interrupt signal enable: mask.
pub const EMMC_CARD_INTERRUPT_SIG_EN_MASK: u16 = 0x01 << EMMC_CARD_INTERRUPT_SIG_EN_POS;

/// Card interrupt signal enable.
pub const EMMC_CARD_INTERRUPT_SIG_EN: u16 = EMMC_CARD_INTERRUPT_SIG_EN_MASK;

/// Command queuing event signal enable: position of the lowest bit.
pub const EMMC_CQE_EVENT_SIG_EN_POS: u16 = 14;

/// Command queuing event signal enable: width in bits.
pub const EMMC_CQE_EVENT_SIG_EN_WIDTH: u16 = 1;

/// Command queuing event signal enable: mask.
pub const EMMC_CQE_EVENT_SIG_EN_MASK: u16 = 0x01 << EMMC_CQE_EVENT_SIG_EN_POS;

/// Command queuing event signal enable.
pub const EMMC_CQE_EVENT_SIG_EN: u16 = EMMC_CQE_EVENT_SIG_EN_MASK;

/// Every bit of the register that has a meaning.
pub const EMMC_NORMAL_INT_SIG_EN_ALL: u16 = EMMC_CMD_COMPLETE_SIG_EN
    | EMMC_XFER_COMPLETE_SIG_EN
    | EMMC_BGAP_EVENT_SIG_EN
    | EMMC_DMA_INTERRUPT_SIG_EN
    | EMMC_BUF_WR_READY_SIG_EN
    | EMMC_BUF_RD_READY_SIG_EN
    | EMMC_CARD_INSERTION_SIG_EN
    | EMMC_CARD_REMOVAL_SIG_EN
    | EMMC_CARD_INTERRUPT_SIG_EN
    | EMMC_CQE_EVENT_SIG_EN;

impl<M: Mmio> Reg<M> {
    /// Stores `normal_int_sig_en` in the normal interrupt signal enable
    /// register.
    ///
    /// One store to the register.
    pub fn emmc_set_normal_int_sig_en(&mut self, normal_int_sig_en: u16)
        requires
            old(self).wf(),
        ensures
            final(self).wf(),
            final(self).follows(old(self)),
            final(self).accesses() == old(self).accesses() + store16(
                old(self).at(EMMC_NORMAL_INT_SIG_EN_OFFSET),
                normal_int_sig_en,
            ),
    {
        self.store16(EMMC_NORMAL_INT_SIG_EN_OFFSET, normal_int_sig_en);
    }

    /// Loads the normal interrupt signal enable register.
    ///
    /// One load of the register.
    pub fn emmc_get_normal_int_sig_en(&mut self) -> (value: u16)
        requires
            old(self).wf(),
        ensures
            final(self).wf(),
            final(self).follows(old(self)),
            final(self).accesses() == old(self).accesses() + fetch16(
                old(self).at(EMMC_NORMAL_INT_SIG_EN_OFFSET),
                value,
            ),
    {
        self.load16(EMMC_NORMAL_INT_SIG_EN_OFFSET)
    }

    /// Turns every normal interrupt signal enable bit on.
    ///
    /// One load of the register, then one store.
    pub fn emmc_enable_all_normal_int_sig(&mut self)
        requires
            old(self).wf(),
        ensures
            final(self).wf(),
            final(self).follows(old(self)),
            exists|seen: u16|
                final(self).accesses() == old(self).accesses() + #[trigger] set_bits16(
                    old(self).at(EMMC_NORMAL_INT_SIG_EN_OFFSET),
                    seen,
                    EMMC_NORMAL_INT_SIG_EN_ALL,
                ),
    {
        self.raise16(EMMC_NORMAL_INT_SIG_EN_OFFSET, EMMC_NORMAL_INT_SIG_EN_ALL);
    }

    /// Turns every normal interrupt signal enable bit off by storing zero.
    ///
    /// One store to the register.
    pub fn emmc_disable_all_normal_int_sig(&mut self)
        requires
            old(self).wf(),
        ensures
            final(self).wf(),
            final(self).follows(old(self)),
            final(self).accesses() == old(self).accesses() + store16(
                old(self).at(EMMC_NORMAL_INT_SIG_EN_OFFSET),
                0,
            ),
    {
        self.store16(EMMC_NORMAL_INT_SIG_EN_OFFSET, 0);
    }
}

/// The table of this register holds together: the register lies at a multiple
/// of its width; the mask of every field is as many ones as the field is
/// wide, shifted to the field's position; and no two fields share a bit.
pub proof fn lemma_layout()
    by (bit_vector)
    ensures
        EMMC_NORMAL_INT_SIG_EN_OFFSET % 2 == 0,
        EMMC_CMD_COMPLETE_SIG_EN_MASK as u64 == field_mask(
            EMMC_CMD_COMPLETE_SIG_EN_POS as u64,
            EMMC_CMD_COMPLETE_SIG_EN_WIDTH as u64,
        ),
        EMMC_XFER_COMPLETE_SIG_EN_MASK as u64 == field_mask(
            EMMC_XFER_COMPLETE_SIG_EN_POS as u64,
            EMMC_XFER_COMPLETE_SIG_EN_WIDTH as u64,
        ),
        EMMC_BGAP_EVENT_SIG_EN_MASK as u64 == field_mask(
            EMMC_BGAP_EVENT_SIG_EN_POS as u64,
            EMMC_BGAP_EVENT_SIG_EN_WIDTH as u64,
        ),
        EMMC_DMA_INTERRUPT_SIG_EN_MASK as u64 == field_mask(
            EMMC_DMA_INTERRUPT_SIG_EN_POS as u64,
            EMMC_DMA_INTERRUPT_SIG_EN_WIDTH as u64,
        ),
        EMMC_BUF_WR_READY_SIG_EN_MASK as u64 == field_mask(
            EMMC_BUF_WR_READY_SIG_EN_POS as u64,
            EMMC_BUF_WR_READY_SIG_EN_WIDTH as u64,
        ),
        EMMC_BUF_RD_READY_SIG_EN_MASK as u64 == field_mask(
            EMMC_BUF_RD_READY_SIG_EN_POS as u64,
            EMMC_BUF_RD_READY_SIG_EN_WIDTH as u64,
        ),
        EMMC_CARD_INSERTION_SIG_EN_MASK as u64 == field_mask(
            EMMC_CARD_INSERTION_SIG_EN_POS as u64,
            EMMC_CARD_INSERTION_SIG_EN_WIDTH as u64,
        ),
        EMMC_CARD_REMOVAL_SIG_EN_MASK as u64 == field_mask(
            EMMC_CARD_REMOVAL_SIG_EN_POS as u64,
            EMMC_CARD_REMOVAL_SIG_EN_WIDTH as u64,
        ),
        EMMC_CARD_INTERRUPT_SIG_EN_MASK as u64 == field_mask(
            EMMC_CARD_INTERRUPT_SIG_EN_POS as u64,
            EMMC_CARD_INTERRUPT_SIG_EN_WIDTH as u64,
        ),
        EMMC_CQE_EVENT_SIG_EN_MASK as u64 == field_mask(
            EMMC_CQE_EVENT_SIG_EN_POS as u64,
            EMMC_CQE_EVENT_SIG_EN_WIDTH as u64,
        ),
        EMMC_CMD_COMPLETE_SIG_EN_MASK & EMMC_XFER_COMPLETE_SIG_EN_MASK == 0,
        EMMC_CMD_COMPLETE_SIG_EN_MASK & EMMC_BGAP_EVENT_SIG_EN_MASK == 0,
        EMMC_CMD_COMPLETE_SIG_EN_MASK & EMMC_DMA_INTERRUPT_SIG_EN_MASK == 0,
        EMMC_CMD_COMPLETE_SIG_EN_MASK & EMMC_BUF_WR_READY_SIG_EN_MASK == 0,
        EMMC_CMD_COMPLETE_SIG_EN_MASK & EMMC_BUF_RD_READY_SIG_EN_MASK == 0,
        EMMC_CMD_COMPLETE_SIG_EN_MASK & EMMC_CARD_INSERTION_SIG_EN_MASK == 0,
        EMMC_CMD_COMPLETE_SIG_EN_MASK & EMMC_CARD_REMOVAL_SIG_EN_MASK == 0,
        EMMC_CMD_COMPLETE_SIG_EN_MASK & EMMC_CARD_INTERRUPT_SIG_EN_MASK == 0,
        EMMC_CMD_COMPLETE_SIG_EN_MASK & EMMC_CQE_EVENT_SIG_EN_MASK == 0,
        EMMC_XFER_COMPLETE_SIG_EN_MASK & EMMC_BGAP_EVENT_SIG_EN_MASK == 0,
        EMMC_XFER_COMPLETE_SIG_EN_MASK & EMMC_DMA_INTERRUPT_SIG_EN_MASK == 0,
        EMMC_XFER_COMPLETE_SIG_EN_MASK & EMMC_BUF_WR_READY_SIG_EN_MASK == 0,
        EMMC_XFER_COMPLETE_SIG_EN_MASK & EMMC_BUF_RD_READY_SIG_EN_MASK == 0,
        EMMC_XFER_COMPLETE_SIG_EN_MASK & EMMC_CARD_INSERTION_SIG_EN_MASK == 0,
        EMMC_XFER_COMPLETE_SIG_EN_MASK & EMMC_CARD_REMOVAL_SIG_EN_MASK == 0,
        EMMC_XFER_COMPLETE_SIG_EN_MASK & EMMC_CARD_INTERRUPT_SIG_EN_MASK == 0,
        EMMC_XFER_COMPLETE_SIG_EN_MASK & EMMC_CQE_EVENT_SIG_EN_MASK == 0,
        EMMC_BGAP_EVENT_SIG_EN_MASK & EMMC_DMA_INTERRUPT_SIG_EN_MASK == 0,
        EMMC_BGAP_EVENT_SIG_EN_MASK & EMMC_BUF_WR_READY_SIG_EN_MASK == 0,
        EMMC_BGAP_EVENT_SIG_EN_MASK & EMMC_BUF_RD_READY_SIG_EN_MASK == 0,
        EMMC_BGAP_EVENT_SIG_EN_MASK & EMMC_CARD_INSERTION_SIG_EN_MASK == 0,
        EMMC_BGAP_EVENT_SIG_EN_MASK & EMMC_CARD_REMOVAL_SIG_EN_MASK == 0,
        EMMC_BGAP_EVENT_SIG_EN_MASK & EMMC_CARD_INTERRUPT_SIG_EN_MASK == 0,
        EMMC_BGAP_EVENT_SIG_EN_MASK & EMMC_CQE_EVENT_SIG_EN_MASK == 0,
        EMMC_DMA_INTERRUPT_SIG_EN_MASK & EMMC_BUF_WR_READY_SIG_EN_MASK == 0,
        EMMC_DMA_INTERRUPT_SIG_EN_MASK & EMMC_BUF_RD_READY_SIG_EN_MASK == 0,
        EMMC_DMA_INTERRUPT_SIG_EN_MASK & EMMC_CARD_INSERTION_SIG_EN_MASK == 0,
        EMMC_DMA_INTERRUPT_SIG_EN_MASK & EMMC_CARD_REMOVAL_SIG_EN_MASK == 0,
        EMMC_DMA_INTERRUPT_SIG_EN_MASK & EMMC_CARD_INTERRUPT_SIG_EN_MASK == 0,
        EMMC_DMA_INTERRUPT_SIG_EN_MASK & EMMC_CQE_EVENT_SIG_EN_MASK == 0,
        EMMC_BUF_WR_READY_SIG_EN_MASK & EMMC_BUF_RD_READY_SIG_EN_MASK == 0,
        EMMC_BUF_WR_READY_SIG_EN_MASK & EMMC_CARD_INSERTION_SIG_EN_MASK == 0,
        EMMC_BUF_WR_READY_SIG_EN_MASK & EMMC_CARD_REMOVAL_SIG_EN_MASK == 0,
        EMMC_BUF_WR_READY_SIG_EN_MASK & EMMC_CARD_INTERRUPT_SIG_EN_MASK == 0,
        EMMC_BUF_WR_READY_SIG_EN_MASK & EMMC_CQE_EVENT_SIG_EN_MASK == 0,
        EMMC_BUF_RD_READY_SIG_EN_MASK & EMMC_CARD_INSERTION_SIG_EN_MASK == 0,
        EMMC_BUF_RD_READY_SIG_EN_MASK & EMMC_CARD_REMOVAL_SIG_EN_MASK == 0,
        EMMC_BUF_RD_READY_SIG_EN_MASK & EMMC_CARD_INTERRUPT_SIG_EN_MASK == 0,
        EMMC_BUF_RD_READY_SIG_EN_MASK & EMMC_CQE_EVENT_SIG_EN_MASK == 0,
        EMMC_CARD_INSERTION_SIG_EN_MASK & EMMC_CARD_REMOVAL_SIG_EN_MASK == 0,
        EMMC_CARD_INSERTION_SIG_EN_MASK & EMMC_CARD_INTERRUPT_SIG_EN_MASK == 0,
        EMMC_CARD_INSERTION_SIG_EN_MASK & EMMC_CQE_EVENT_SIG_EN_MASK == 0,
        EMMC_CARD_REMOVAL_SIG_EN_MASK & EMMC_CARD_INTERRUPT_SIG_EN_MASK == 0,
        EMMC_CARD_REMOVAL_SIG_EN_MASK & EMMC_CQE_EVENT_SIG_EN_MASK == 0,
        EMMC_CARD_INTERRUPT_SIG_EN_MASK & EMMC_CQE_EVENT_SIG_EN_MASK == 0,
{
}

} // verus!
