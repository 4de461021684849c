//! The normal interrupt status register. A flag is cleared by storing a one
//! to it.
use vstd::prelude::*;
use crate::bits::field_mask;
use crate::mmio::Mmio;
use crate::mmio::fetch16;
use crate::mmio::store16;
use crate::sdhci_reg::Reg;

verus! {

/// Offset of the register from the base of the window.
pub const EMMC_NORMAL_INT_STAT_OFFSET: u64 = 0x30;

/// Command complete: position of the lowest bit.
pub const EMMC_CMD_COMPLETE_POS: u16 = 0;

/// Command complete: width in bits.
pub const EMMC_CMD_COMPLETE_WIDTH: u16 = 1;

/// Command complete: mask.
pub const EMMC_CMD_COMPLETE_MASK: u16 = 0x01 << EMMC_CMD_COMPLETE_POS;

/// Command complete.
pub const EMMC_CMD_COMPLETE: u16 = EMMC_CMD_COMPLETE_MASK;

/// Transfer complete: position of the lowest bit.
pub const EMMC_XFER_COMPLETE_POS: u16 = 1;

/// Transfer complete: width in bits.
pub const EMMC_XFER_COMPLETE_WIDTH: u16 = 1;

/// Transfer complete: mask.
pub const EMMC_XFER_COMPLETE_MASK: u16 = 0x01 << EMMC_XFER_COMPLETE_POS;

/// Transfer complete.
pub const EMMC_XFER_COMPLETE: u16 = EMMC_XFER_COMPLETE_MASK;

/// Block gap event: position of the lowest bit.
pub const EMMC_BGAP_EVENT_POS: u16 = 2;

/// Block gap event: width in bits.
pub const EMMC_BGAP_EVENT_WIDTH: u16 = 1;

/// Block gap event: mask.
pub const EMMC_BGAP_EVENT_MASK: u16 = 0x01 << EMMC_BGAP_EVENT_POS;

/// Block gap event.
pub const EMMC_BGAP_EVENT: u16 = EMMC_BGAP_EVENT_MASK;

/// DMA interrupt: position of the lowest bit.
pub const EMMC_DMA_INTERRUPT_POS: u16 = 3;

/// DMA interrupt: width in bits.
pub const EMMC_DMA_INTERRUPT_WIDTH: u16 = 1;

/// DMA interrupt: mask.
pub const EMMC_DMA_INTERRUPT_MASK: u16 = 0x01 << EMMC_DMA_INTERRUPT_POS;

/// DMA interrupt.
pub const EMMC_DMA_INTERRUPT: u16 = EMMC_DMA_INTERRUPT_MASK;

/// Buffer ready to be written: position of the lowest bit.
pub const EMMC_BUF_WR_READY_POS: u16 = 4;

/// Buffer ready to be written: width in bits.
pub const EMMC_BUF_WR_READY_WIDTH: u16 = 1;

/// Buffer ready to be written: mask.
pub const EMMC_BUF_WR_READY_MASK: u16 = 0x01 << EMMC_BUF_WR_READY_POS;

/// Buffer ready to be written.
pub const EMMC_BUF_WR_READY: u16 = EMMC_BUF_WR_READY_MASK;

/// Buffer ready to be read: position of the lowest bit.
pub const EMMC_BUF_RD_READY_POS: u16 = 5;

/// Buffer ready to be read: width in bits.
pub const EMMC_BUF_RD_READY_WIDTH: u16 = 1;

/// Buffer ready to be read: mask.
pub const EMMC_BUF_RD_READY_MASK: u16 = 0x01 << EMMC_BUF_RD_READY_POS;

/// Buffer ready to be read.
pub const EMMC_BUF_RD_READY: u16 = EMMC_BUF_RD_READY_MASK;

/// Card insertion: position of the lowest bit.
pub const EMMC_CARD_INSERTION_POS: u16 = 6;

/// Card insertion: width in bits.
pub const EMMC_CARD_INSERTION_WIDTH: u16 = 1;

/// Card insertion: mask.
pub const EMMC_CARD_INSERTION_MASK: u16 = 0x01 << EMMC_CARD_INSERTION_POS;

/// Card insertion.
pub const EMMC_CARD_INSERTION: u16 = EMMC_CARD_INSERTION_MASK;

/// Card removal: position of the lowest bit.
pub const EMMC_CARD_REMOVAL_POS: u16 = 7;

/// Card removal: width in bits.
pub const EMMC_CARD_REMOVAL_WIDTH: u16 = 1;

/// Card removal: mask.
pub const EMMC_CARD_REMOVAL_MASK: u16 = 0x01 << EMMC_CARD_REMOVAL_POS;

/// Card removal.
pub const EMMC_CARD_REMOVAL: u16 = EMMC_CARD_REMOVAL_MASK;

/// Card interrupt: position of the lowest bit.
pub const EMMC_CARD_INTERRUPT_POS: u16 = 8;

/// Card interrupt: width in bits.
pub const EMMC_CARD_INTERRUPT_WIDTH: u16 = 1;

/// Card interrupt: mask.
pub const EMMC_CARD_INTERRUPT_MASK: u16 = 0x01 << EMMC_CARD_INTERRUPT_POS;

/// Card interrupt.
pub const EMMC_CARD_INTERRUPT: u16 = EMMC_CARD_INTERRUPT_MASK;

/// Re-tuning event: position of the lowest bit.
pub const EMMC_RE_TUNE_EVENT_POS: u16 = 12;

/// Re-tuning event: width in bits.
pub const EMMC_RE_TUNE_EVENT_WIDTH: u16 = 1;

/// Re-tuning event: mask.
pub const EMMC_RE_TUNE_EVENT_MASK: u16 = 0x01 << EMMC_RE_TUNE_EVENT_POS;

/// Re-tuning event.
pub const EMMC_RE_TUNE_EVENT: u16 = EMMC_RE_TUNE_EVENT_MASK;

/// FX event: position of the lowest bit.
pub const EMMC_FX_EVENT_POS: u16 = 13;

/// FX event: width in bits.
pub const EMMC_FX_EVENT_WIDTH: u16 = 1;

/// FX event: mask.
pub const EMMC_FX_EVENT_MASK: u16 = 0x01 << EMMC_FX_EVENT_POS;

/// FX event.
pub const EMMC_FX_EVENT: u16 = EMMC_FX_EVENT_MASK;

/// Command queuing event: position of the lowest bit.
pub const EMMC_CQE_EVENT_POS: u16 = 14;

/// Command queuing event: width in bits.
pub const EMMC_CQE_EVENT_WIDTH: u16 = 1;

/// Command queuing event: mask.
pub const EMMC_CQE_EVENT_MASK: u16 = 0x01 << EMMC_CQE_EVENT_POS;

/// Command queuing event.
pub const EMMC_CQE_EVENT: u16 = EMMC_CQE_EVENT_MASK;

/// Error interrupt: position of the lowest bit.
pub const EMMC_ERROR_INT_POS: u16 = 15;

/// Error interrupt: width in bits.
pub const EMMC_ERROR_INT_WIDTH: u16 = 1;

/// Error interrupt: mask.
pub const EMMC_ERROR_INT_MASK: u16 = 0x01 << EMMC_ERROR_INT_POS;

/// Error interrupt.
pub const EMMC_ERROR_INT: u16 = EMMC_ERROR_INT_MASK;

/// The flags that software clears.
pub const EMMC_NORMAL_INT_FLAGS: u16 = EMMC_CMD_COMPLETE
    | EMMC_XFER_COMPLETE
    | EMMC_BGAP_EVENT
    | EMMC_DMA_INTERRUPT
    | EMMC_BUF_WR_READY
    | EMMC_BUF_RD_READY
    | EMMC_CARD_INSERTION
    | EMMC_CARD_REMOVAL
    | EMMC_CQE_EVENT;

impl<M: Mmio> Reg<M> {
    /// Loads the normal interrupt status register.
    ///
    /// One load of the register.
    pub fn emmc_get_normal_int_stat(&mut self) -> (value: u16)
        requires
            old(self).wf(),
        ensures
            final(self).wf(),
            final(self).follows(old(self)),
            final(self).accesses() == old(self).accesses() + fetch16(
                old(self).at(EMMC_NORMAL_INT_STAT_OFFSET),
                value,
            ),
    {
        self.load16(EMMC_NORMAL_INT_STAT_OFFSET)
    }

    /// Stores `normal_int_stat` in the normal interrupt status register,
    /// which clears the flags whose bit is one in it.
    ///
    /// One store to the register.
    pub fn emmc_set_normal_int_stat(&mut self, normal_int_stat: u16)
        requires
            old(self).wf(),
        ensures
            final(self).wf(),
            final(self).follows(old(self)),
            final(self).accesses() == old(self).accesses() + store16(
                old(self).at(EMMC_NORMAL_INT_STAT_OFFSET),
                normal_int_stat,
            ),
    {
        self.store16(EMMC_NORMAL_INT_STAT_OFFSET, normal_int_stat);
    }

    /// Clears every normal interrupt flag that software clears: stores a one
    /// for each of them and a zero for every other bit, which leaves the
    /// other bits as they are.
    ///
    /// One store to the register, and no load.
    pub fn emmc_clear_all_normal_int_flags(&mut self)
        requires
            old(self).wf(),
        ensures
            final(self).wf(),
            final(self).follows(old(self)),
            final(self).accesses() == old(self).accesses() + store16(
                old(self).at(EMMC_NORMAL_INT_STAT_OFFSET),
                EMMC_NORMAL_INT_FLAGS,
            ),
    {
        self.store16(EMMC_NORMAL_INT_STAT_OFFSET, EMMC_NORMAL_INT_FLAGS);
    }

    /// Whether the card interrupt flag is raised.
    ///
    /// One load of the register.
    pub fn emmc_card_interrupt_is_actived(&mut self) -> (actived: bool)
        requires
            old(self).wf(),
        ensures
            final(self).wf(),
            final(self).follows(old(self)),
            exists|seen: u16|
                final(self).accesses() == old(self).accesses() + #[trigger] fetch16(
                    old(self).at(EMMC_NORMAL_INT_STAT_OFFSET),
                    seen,
                ) && actived == (seen & EMMC_CARD_INTERRUPT == EMMC_CARD_INTERRUPT),
    {
        self.load16(EMMC_NORMAL_INT_STAT_OFFSET) & EMMC_CARD_INTERRUPT == EMMC_CARD_INTERRUPT
    }

    /// Whether the re-tuning event flag is raised.
    ///
    /// One load of the register.
    pub fn emmc_re_tune_event_is_actived(&mut self) -> (actived: bool)
        requires
            old(self).wf(),
        ensures
            final(self).wf(),
            final(self).follows(old(self)),
            exists|seen: u16|
                final(self).accesses() == old(self).accesses() + #[trigger] fetch16(
                    old(self).at(EMMC_NORMAL_INT_STAT_OFFSET),
                    seen,
                ) && actived == (seen & EMMC_RE_TUNE_EVENT == EMMC_RE_TUNE_EVENT),
    {
        self.load16(EMMC_NORMAL_INT_STAT_OFFSET) & EMMC_RE_TUNE_EVENT == EMMC_RE_TUNE_EVENT
    }

    /// Whether the FX event flag is raised.
    ///
    /// One load of the register.
    pub fn emmc_fx_event_is_actived(&mut self) -> (actived: bool)
        requires
            old(self).wf(),
        ensures
            final(self).wf(),
            final(self).follows(old(self)),
            exists|seen: u16|
                final(self).accesses() == old(self).accesses() + #[trigger] fetch16(
                    old(self).at(EMMC_NORMAL_INT_STAT_OFFSET),
                    seen,
                ) && actived == (seen & EMMC_FX_EVENT == EMMC_FX_EVENT),
    {
        self.load16(EMMC_NORMAL_INT_STAT_OFFSET) & EMMC_FX_EVENT == EMMC_FX_EVENT
    }

    /// Whether any error interrupt flag is raised.
    ///
    /// One load of the register.
    pub fn emmc_error_int_is_actived(&mut self) -> (actived: bool)
        requires
            old(self).wf(),
        ensures
            final(self).wf(),
            final(self).follows(old(self)),
            exists|seen: u16|
                final(self).accesses() == old(self).accesses() + #[trigger] fetch16(
                    old(self).at(EMMC_NORMAL_INT_STAT_OFFSET),
                    seen,
                ) && actived == (seen & EMMC_ERROR_INT == EMMC_ERROR_INT),
    {
        self.load16(EMMC_NORMAL_INT_STAT_OFFSET) & EMMC_ERROR_INT == EMMC_ERROR_INT
    }
}

/// The table of this register holds together: the register lies at a multiple
/// of its width; the mask of every field is as many ones as the field is
/// wide, shifted to the field's position; and no two fields share a bit.
pub proof fn lemma_layout()
    by (bit_vector)
    ensures
        EMMC_NORMAL_INT_STAT_OFFSET % 2 == 0,
        EMMC_CMD_COMPLETE_MASK as u64 == field_mask(
            EMMC_CMD_COMPLETE_POS as u64,
            EMMC_CMD_COMPLETE_WIDTH as u64,
        ),
        EMMC_XFER_COMPLETE_MASK as u64 == field_mask(
            EMMC_XFER_COMPLETE_POS as u64,
            EMMC_XFER_COMPLETE_WIDTH as u64,
        ),
        EMMC_BGAP_EVENT_MASK as u64 == field_mask(
            EMMC_BGAP_EVENT_POS as u64,
            EMMC_BGAP_EVENT_WIDTH as u64,
        ),
        EMMC_DMA_INTERRUPT_MASK as u64 == field_mask(
            EMMC_DMA_INTERRUPT_POS as u64,
            EMMC_DMA_INTERRUPT_WIDTH as u64,
        ),
        EMMC_BUF_WR_READY_MASK as u64 == field_mask(
            EMMC_BUF_WR_READY_POS as u64,
            EMMC_BUF_WR_READY_WIDTH as u64,
        ),
        EMMC_BUF_RD_READY_MASK as u64 == field_mask(
            EMMC_BUF_RD_READY_POS as u64,
            EMMC_BUF_RD_READY_WIDTH as u64,
        ),
        EMMC_CARD_INSERTION_MASK as u64 == field_mask(
            EMMC_CARD_INSERTION_POS as u64,
            EMMC_CARD_INSERTION_WIDTH as u64,
        ),
        EMMC_CARD_REMOVAL_MASK as u64 == field_mask(
            EMMC_CARD_REMOVAL_POS as u64,
            EMMC_CARD_REMOVAL_WIDTH as u64,
        ),
        EMMC_CARD_INTERRUPT_MASK as u64 == field_mask(
            EMMC_CARD_INTERRUPT_POS as u64,
            EMMC_CARD_INTERRUPT_WIDTH as u64,
        ),
        EMMC_RE_TUNE_EVENT_MASK as u64 == field_mask(
            EMMC_RE_TUNE_EVENT_POS as u64,
            EMMC_RE_TUNE_EVENT_WIDTH as u64,
        ),
        EMMC_FX_EVENT_MASK as u64 == field_mask(
            EMMC_FX_EVENT_POS as u64,
            EMMC_FX_EVENT_WIDTH as u64,
        ),
        EMMC_CQE_EVENT_MASK as u64 == field_mask(
            EMMC_CQE_EVENT_POS as u64,
            EMMC_CQE_EVENT_WIDTH as u64,
        ),
        EMMC_ERROR_INT_MASK as u64 == field_mask(
            EMMC_ERROR_INT_POS as u64,
            EMMC_ERROR_INT_WIDTH as u64,
        ),
        EMMC_CMD_COMPLETE_MASK & EMMC_XFER_COMPLETE_MASK == 0,
        EMMC_CMD_COMPLETE_MASK & EMMC_BGAP_EVENT_MASK == 0,
        EMMC_CMD_COMPLETE_MASK & EMMC_DMA_INTERRUPT_MASK == 0,
        EMMC_CMD_COMPLETE_MASK & EMMC_BUF_WR_READY_MASK == 0,
        EMMC_CMD_COMPLETE_MASK & EMMC_BUF_RD_READY_MASK == 0,
        EMMC_CMD_COMPLETE_MASK & EMMC_CARD_INSERTION_MASK == 0,
        EMMC_CMD_COMPLETE_MASK & EMMC_CARD_REMOVAL_MASK == 0,
        EMMC_CMD_COMPLETE_MASK & EMMC_CARD_INTERRUPT_MASK == 0,
        EMMC_CMD_COMPLETE_MASK & EMMC_RE_TUNE_EVENT_MASK == 0,
        EMMC_CMD_COMPLETE_MASK & EMMC_FX_EVENT_MASK == 0,
        EMMC_CMD_COMPLETE_MASK & EMMC_CQE_EVENT_MASK == 0,
        EMMC_CMD_COMPLETE_MASK & EMMC_ERROR_INT_MASK == 0,
        EMMC_XFER_COMPLETE_MASK & EMMC_BGAP_EVENT_MASK == 0,
        EMMC_XFER_COMPLETE_MASK & EMMC_DMA_INTERRUPT_MASK == 0,
        EMMC_XFER_COMPLETE_MASK & EMMC_BUF_WR_READY_MASK == 0,
        EMMC_XFER_COMPLETE_MASK & EMMC_BUF_RD_READY_MASK == 0,
        EMMC_XFER_COMPLETE_MASK & EMMC_CARD_INSERTION_MASK == 0,
        EMMC_XFER_COMPLETE_MASK & EMMC_CARD_REMOVAL_MASK == 0,
        EMMC_XFER_COMPLETE_MASK & EMMC_CARD_INTERRUPT_MASK == 0,
        EMMC_XFER_COMPLETE_MASK & EMMC_RE_TUNE_EVENT_MASK == 0,
        EMMC_XFER_COMPLETE_MASK & EMMC_FX_EVENT_MASK == 0,
        EMMC_XFER_COMPLETE_MASK & EMMC_CQE_EVENT_MASK == 0,
        EMMC_XFER_COMPLETE_MASK & EMMC_ERROR_INT_MASK == 0,
        EMMC_BGAP_EVENT_MASK & EMMC_DMA_INTERRUPT_MASK == 0,
        EMMC_BGAP_EVENT_MASK & EMMC_BUF_WR_READY_MASK == 0,
        EMMC_BGAP_EVENT_MASK & EMMC_BUF_RD_READY_MASK == 0,
        EMMC_BGAP_EVENT_MASK & EMMC_CARD_INSERTION_MASK == 0,
        EMMC_BGAP_EVENT_MASK & EMMC_CARD_REMOVAL_MASK == 0,
        EMMC_BGAP_EVENT_MASK & EMMC_CARD_INTERRUPT_MASK == 0,
        EMMC_BGAP_EVENT_MASK & EMMC_RE_TUNE_EVENT_MASK == 0,
        EMMC_BGAP_EVENT_MASK & EMMC_FX_EVENT_MASK == 0,
        EMMC_BGAP_EVENT_MASK & EMMC_CQE_EVENT_MASK == 0,
        EMMC_BGAP_EVENT_MASK & EMMC_ERROR_INT_MASK == 0,
        EMMC_DMA_INTERRUPT_MASK & EMMC_BUF_WR_READY_MASK == 0,
        EMMC_DMA_INTERRUPT_MASK & EMMC_BUF_RD_READY_MASK == 0,
        EMMC_DMA_INTERRUPT_MASK & EMMC_CARD_INSERTION_MASK == 0,
        EMMC_DMA_INTERRUPT_MASK & EMMC_CARD_REMOVAL_MASK == 0,
        EMMC_DMA_INTERRUPT_MASK & EMMC_CARD_INTERRUPT_MASK == 0,
        EMMC_DMA_INTERRUPT_MASK & EMMC_RE_TUNE_EVENT_MASK == 0,
        EMMC_DMA_INTERRUPT_MASK & EMMC_FX_EVENT_MASK == 0,
        EMMC_DMA_INTERRUPT_MASK & EMMC_CQE_EVENT_MASK == 0,
        EMMC_DMA_INTERRUPT_MASK & EMMC_ERROR_INT_MASK == 0,
        EMMC_BUF_WR_READY_MASK & EMMC_BUF_RD_READY_MASK == 0,
        EMMC_BUF_WR_READY_MASK & EMMC_CARD_INSERTION_MASK == 0,
        EMMC_BUF_WR_READY_MASK & EMMC_CARD_REMOVAL_MASK == 0,
        EMMC_BUF_WR_READY_MASK & EMMC_CARD_INTERRUPT_MASK == 0,
        EMMC_BUF_WR_READY_MASK & EMMC_RE_TUNE_EVENT_MASK == 0,
        EMMC_BUF_WR_READY_MASK & EMMC_FX_EVENT_MASK == 0,
        EMMC_BUF_WR_READY_MASK & EMMC_CQE_EVENT_MASK == 0,
        EMMC_BUF_WR_READY_MASK & EMMC_ERROR_INT_MASK == 0,
        EMMC_BUF_RD_READY_MASK & EMMC_CARD_INSERTION_MASK == 0,
        EMMC_BUF_RD_READY_MASK & EMMC_CARD_REMOVAL_MASK == 0,
        EMMC_BUF_RD_READY_MASK & EMMC_CARD_INTERRUPT_MASK == 0,
        EMMC_BUF_RD_READY_MASK & EMMC_RE_TUNE_EVENT_MASK == 0,
        EMMC_BUF_RD_READY_MASK & EMMC_FX_EVENT_MASK == 0,
        EMMC_BUF_RD_READY_MASK & EMMC_CQE_EVENT_MASK == 0,
        EMMC_BUF_RD_READY_MASK & EMMC_ERROR_INT_MASK == 0,
        EMMC_CARD_INSERTION_MASK & EMMC_CARD_REMOVAL_MASK == 0,
        EMMC_CARD_INSERTION_MASK & EMMC_CARD_INTERRUPT_MASK == 0,
        EMMC_CARD_INSERTION_MASK & EMMC_RE_TUNE_EVENT_MASK == 0,
        EMMC_CARD_INSERTION_MASK & EMMC_FX_EVENT_MASK == 0,
        EMMC_CARD_INSERTION_MASK & EMMC_CQE_EVENT_MASK == 0,
        EMMC_CARD_INSERTION_MASK & EMMC_ERROR_INT_MASK == 0,
        EMMC_CARD_REMOVAL_MASK & EMMC_CARD_INTERRUPT_MASK == 0,
        EMMC_CARD_REMOVAL_MASK & EMMC_RE_TUNE_EVENT_MASK == 0,
        EMMC_CARD_REMOVAL_MASK & EMMC_FX_EVENT_MASK == 0,
        EMMC_CARD_REMOVAL_MASK & EMMC_CQE_EVENT_MASK == 0,
        EMMC_CARD_REMOVAL_MASK & EMMC_ERROR_INT_MASK == 0,
        EMMC_CARD_INTERRUPT_MASK & EMMC_RE_TUNE_EVENT_MASK == 0,
        EMMC_CARD_INTERRUPT_MASK & EMMC_FX_EVENT_MASK == 0,
        EMMC_CARD_INTERRUPT_MASK & EMMC_CQE_EVENT_MASK == 0,
        EMMC_CARD_INTERRUPT_MASK & EMMC_ERROR_INT_MASK == 0,
        EMMC_RE_TUNE_EVENT_MASK & EMMC_FX_EVENT_MASK == 0,
        EMMC_RE_TUNE_EVENT_MASK & EMMC_CQE_EVENT_MASK == 0,
        EMMC_RE_TUNE_EVENT_MASK & EMMC_ERROR_INT_MASK == 0,
        EMMC_FX_EVENT_MASK & EMMC_CQE_EVENT_MASK == 0,
        EMMC_FX_EVENT_MASK & EMMC_ERROR_INT_MASK == 0,
        EMMC_CQE_EVENT_MASK & EMMC_ERROR_INT_MASK == 0,
{
}

} // verus!
