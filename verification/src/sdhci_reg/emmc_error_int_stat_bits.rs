//! The error interrupt status register. A flag is cleared by storing a one to
//! it.
use vstd::prelude::*;
use crate::bits::field_mask;
use crate::mmio::Mmio;
use crate::mmio::store16;
use crate::sdhci_reg::Reg;

verus! {

/// Offset of the register from the base of the window.
pub const EMMC_ERROR_INT_STAT_OFFSET: u64 = 0x32;

/// Command timeout error: position of the lowest bit.
pub const EMMC_CMD_TOUT_ERR_POS: u16 = 0;

/// Command timeout error: width in bits.
pub const EMMC_CMD_TOUT_ERR_WIDTH: u16 = 1;

/// Command timeout error: mask.
pub const EMMC_CMD_TOUT_ERR_MASK: u16 = 0x01 << EMMC_CMD_TOUT_ERR_POS;

/// Command timeout error.
pub const EMMC_CMD_TOUT_ERR: u16 = EMMC_CMD_TOUT_ERR_MASK;

/// Command CRC error: position of the lowest bit.
pub const EMMC_CMD_CRC_ERR_POS: u16 = 1;

/// Command CRC error: width in bits.
pub const EMMC_CMD_CRC_ERR_WIDTH: u16 = 1;

/// Command CRC error: mask.
pub const EMMC_CMD_CRC_ERR_MASK: u16 = 0x01 << EMMC_CMD_CRC_ERR_POS;

/// Command CRC error.
pub const EMMC_CMD_CRC_ERR: u16 = EMMC_CMD_CRC_ERR_MASK;

/// Command end bit error: position of the lowest bit.
pub const EMMC_CMD_END_BIT_ERR_POS: u16 = 2;

/// Command end bit error: width in bits.
pub const EMMC_CMD_END_BIT_ERR_WIDTH: u16 = 1;

/// Command end bit error: mask.
pub const EMMC_CMD_END_BIT_ERR_MASK: u16 = 0x01 << EMMC_CMD_END_BIT_ERR_POS;

/// Command end bit error.
pub const EMMC_CMD_END_BIT_ERR: u16 = EMMC_CMD_END_BIT_ERR_MASK;

/// Command index error: position of the lowest bit.
pub const EMMC_CMD_IDX_ERR_POS: u16 = 3;

/// Command index error: width in bits.
pub const EMMC_CMD_IDX_ERR_WIDTH: u16 = 1;

/// Command index error: mask.
pub const EMMC_CMD_IDX_ERR_MASK: u16 = 0x01 << EMMC_CMD_IDX_ERR_POS;

/// Command index error.
pub const EMMC_CMD_IDX_ERR: u16 = EMMC_CMD_IDX_ERR_MASK;

/// Data timeout error: position of the lowest bit.
pub const EMMC_DATA_TOUT_ERR_POS: u16 = 4;

/// Data timeout error: width in bits.
pub const EMMC_DATA_TOUT_ERR_WIDTH: u16 = 1;

/// Data timeout error: mask.
pub const EMMC_DATA_TOUT_ERR_MASK: u16 = 0x01 << EMMC_DATA_TOUT_ERR_POS;

/// Data timeout error.
pub const EMMC_DATA_TOUT_ERR: u16 = EMMC_DATA_TOUT_ERR_MASK;

/// Data CRC error: position of the lowest bit.
pub const EMMC_DATA_CRC_ERR_POS: u16 = 5;

/// Data CRC error: width in bits.
pub const EMMC_DATA_CRC_ERR_WIDTH: u16 = 1;

/// Data CRC error: mask.
pub const EMMC_DATA_CRC_ERR_MASK: u16 = 0x01 << EMMC_DATA_CRC_ERR_POS;

/// Data CRC error.
pub const EMMC_DATA_CRC_ERR: u16 = EMMC_DATA_CRC_ERR_MASK;

/// Data end bit error: position of the lowest bit.
pub const EMMC_DATA_END_BIT_ERR_POS: u16 = 6;

/// Data end bit error: width in bits.
pub const EMMC_DATA_END_BIT_ERR_WIDTH: u16 = 1;

/// Data end bit error: mask.
pub const EMMC_DATA_END_BIT_ERR_MASK: u16 = 0x01 << EMMC_DATA_END_BIT_ERR_POS;

/// Data end bit error.
pub const EMMC_DATA_END_BIT_ERR: u16 = EMMC_DATA_END_BIT_ERR_MASK;

/// Auto command error: position of the lowest bit.
pub const EMMC_AUTO_CMD_ERR_POS: u16 = 8;

/// Auto command error: width in bits.
pub const EMMC_AUTO_CMD_ERR_WIDTH: u16 = 1;

/// Auto command error: mask.
pub const EMMC_AUTO_CMD_ERR_MASK: u16 = 0x01 << EMMC_AUTO_CMD_ERR_POS;

/// Auto command error.
pub const EMMC_AUTO_CMD_ERR: u16 = EMMC_AUTO_CMD_ERR_MASK;

/// ADMA error: position of the lowest bit.
pub const EMMC_ADMA_ERR_POS: u16 = 9;

/// ADMA error: width in bits.
pub const EMMC_ADMA_ERR_WIDTH: u16 = 1;

/// ADMA error: mask.
pub const EMMC_ADMA_ERR_MASK: u16 = 0x01 << EMMC_ADMA_ERR_POS;

/// ADMA error.
pub const EMMC_ADMA_ERR: u16 = EMMC_ADMA_ERR_MASK;

/// Tuning error: position of the lowest bit.
pub const EMMC_TUNING_ERR_POS: u16 = 10;

/// Tuning error: width in bits.
pub const EMMC_TUNING_ERR_WIDTH: u16 = 1;

/// Tuning error: mask.
pub const EMMC_TUNING_ERR_MASK: u16 = 0x01 << EMMC_TUNING_ERR_POS;

/// Tuning error.
pub const EMMC_TUNING_ERR: u16 = EMMC_TUNING_ERR_MASK;

/// Response error: position of the lowest bit.
pub const EMMC_RESP_ERR_POS: u16 = 11;

/// Response error: width in bits.
pub const EMMC_RESP_ERR_WIDTH: u16 = 1;

/// Response error: mask.
pub const EMMC_RESP_ERR_MASK: u16 = 0x01 << EMMC_RESP_ERR_POS;

/// Response error.
pub const EMMC_RESP_ERR: u16 = EMMC_RESP_ERR_MASK;

/// Boot acknowledge error: position of the lowest bit.
pub const EMMC_BOOT_ACK_ERR_POS: u16 = 12;

/// Boot acknowledge error: width in bits.
pub const EMMC_BOOT_ACK_ERR_WIDTH: u16 = 1;

/// Boot acknowledge error: mask.
pub const EMMC_BOOT_ACK_ERR_MASK: u16 = 0x01 << EMMC_BOOT_ACK_ERR_POS;

/// Boot acknowledge error.
pub const EMMC_BOOT_ACK_ERR: u16 = EMMC_BOOT_ACK_ERR_MASK;

/// Every error flag.
pub const EMMC_ERROR_INT_FLAGS: u16 = EMMC_CMD_TOUT_ERR
    | EMMC_CMD_CRC_ERR
    | EMMC_CMD_END_BIT_ERR
    | EMMC_CMD_IDX_ERR
    | EMMC_DATA_TOUT_ERR
    | EMMC_DATA_CRC_ERR
    | EMMC_DATA_END_BIT_ERR
    | EMMC_AUTO_CMD_ERR
    | EMMC_ADMA_ERR
    | EMMC_TUNING_ERR
    | EMMC_RESP_ERR
    | EMMC_BOOT_ACK_ERR;

impl<M: Mmio> Reg<M> {
    /// Clears every error interrupt flag: stores a one for each of them and a
    /// zero for every other bit, which leaves the other bits as they are.
    ///
    /// One store to the register, and no load.
    pub fn emmc_clear_all_error_int_flags(&mut self)
        requires
            old(self).wf(),
        ensures
            final(self).wf(),
            final(self).follows(old(self)),
            final(self).accesses() == old(self).accesses() + store16(
                old(self).at(EMMC_ERROR_INT_STAT_OFFSET),
                EMMC_ERROR_INT_FLAGS,
            ),
    {
        self.store16(EMMC_ERROR_INT_STAT_OFFSET, EMMC_ERROR_INT_FLAGS);
    }
}

/// The table of this register holds together: the register lies at a multiple
/// of its width; the mask of every field is as many ones as the field is
/// wide, shifted to the field's position; and no two fields share a bit.
pub proof fn lemma_layout()
    by (bit_vector)
    ensures
        EMMC_ERROR_INT_STAT_OFFSET % 2 == 0,
        EMMC_CMD_TOUT_ERR_MASK as u64 == field_mask(
            EMMC_CMD_TOUT_ERR_POS as u64,
            EMMC_CMD_TOUT_ERR_WIDTH as u64,
        ),
        EMMC_CMD_CRC_ERR_MASK as u64 == field_mask(
            EMMC_CMD_CRC_ERR_POS as u64,
            EMMC_CMD_CRC_ERR_WIDTH as u64,
        ),
        EMMC_CMD_END_BIT_ERR_MASK as u64 == field_mask(
            EMMC_CMD_END_BIT_ERR_POS as u64,
            EMMC_CMD_END_BIT_ERR_WIDTH as u64,
        ),
        EMMC_CMD_IDX_ERR_MASK as u64 == field_mask(
            EMMC_CMD_IDX_ERR_POS as u64,
            EMMC_CMD_IDX_ERR_WIDTH as u64,
        ),
        EMMC_DATA_TOUT_ERR_MASK as u64 == field_mask(
            EMMC_DATA_TOUT_ERR_POS as u64,
            EMMC_DATA_TOUT_ERR_WIDTH as u64,
        ),
        EMMC_DATA_CRC_ERR_MASK as u64 == field_mask(
            EMMC_DATA_CRC_ERR_POS as u64,
            EMMC_DATA_CRC_ERR_WIDTH as u64,
        ),
        EMMC_DATA_END_BIT_ERR_MASK as u64 == field_mask(
            EMMC_DATA_END_BIT_ERR_POS as u64,
            EMMC_DATA_END_BIT_ERR_WIDTH as u64,
        ),
        EMMC_AUTO_CMD_ERR_MASK as u64 == field_mask(
            EMMC_AUTO_CMD_ERR_POS as u64,
            EMMC_AUTO_CMD_ERR_WIDTH as u64,
        ),
        EMMC_ADMA_ERR_MASK as u64 == field_mask(
            EMMC_ADMA_ERR_POS as u64,
            EMMC_ADMA_ERR_WIDTH as u64,
        ),
        EMMC_TUNING_ERR_MASK as u64 == field_mask(
            EMMC_TUNING_ERR_POS as u64,
            EMMC_TUNING_ERR_WIDTH as u64,
        ),
        EMMC_RESP_ERR_MASK as u64 == field_mask(
            EMMC_RESP_ERR_POS as u64,
            EMMC_RESP_ERR_WIDTH as u64,
        ),
        EMMC_BOOT_ACK_ERR_MASK as u64 == field_mask(
            EMMC_BOOT_ACK_ERR_POS as u64,
            EMMC_BOOT_ACK_ERR_WIDTH as u64,
        ),
        EMMC_CMD_TOUT_ERR_MASK & EMMC_CMD_CRC_ERR_MASK == 0,
        EMMC_CMD_TOUT_ERR_MASK & EMMC_CMD_END_BIT_ERR_MASK == 0,
        EMMC_CMD_TOUT_ERR_MASK & EMMC_CMD_IDX_ERR_MASK == 0,
        EMMC_CMD_TOUT_ERR_MASK & EMMC_DATA_TOUT_ERR_MASK == 0,
        EMMC_CMD_TOUT_ERR_MASK & EMMC_DATA_CRC_ERR_MASK == 0,
        EMMC_CMD_TOUT_ERR_MASK & EMMC_DATA_END_BIT_ERR_MASK == 0,
        EMMC_CMD_TOUT_ERR_MASK & EMMC_AUTO_CMD_ERR_MASK == 0,
        EMMC_CMD_TOUT_ERR_MASK & EMMC_ADMA_ERR_MASK == 0,
        EMMC_CMD_TOUT_ERR_MASK & EMMC_TUNING_ERR_MASK == 0,
        EMMC_CMD_TOUT_ERR_MASK & EMMC_RESP_ERR_MASK == 0,
        EMMC_CMD_TOUT_ERR_MASK & EMMC_BOOT_ACK_ERR_MASK == 0,
        EMMC_CMD_CRC_ERR_MASK & EMMC_CMD_END_BIT_ERR_MASK == 0,
        EMMC_CMD_CRC_ERR_MASK & EMMC_CMD_IDX_ERR_MASK == 0,
        EMMC_CMD_CRC_ERR_MASK & EMMC_DATA_TOUT_ERR_MASK == 0,
        EMMC_CMD_CRC_ERR_MASK & EMMC_DATA_CRC_ERR_MASK == 0,
        EMMC_CMD_CRC_ERR_MASK & EMMC_DATA_END_BIT_ERR_MASK == 0,
        EMMC_CMD_CRC_ERR_MASK & EMMC_AUTO_CMD_ERR_MASK == 0,
        EMMC_CMD_CRC_ERR_MASK & EMMC_ADMA_ERR_MASK == 0,
        EMMC_CMD_CRC_ERR_MASK & EMMC_TUNING_ERR_MASK == 0,
        EMMC_CMD_CRC_ERR_MASK & EMMC_RESP_ERR_MASK == 0,
        EMMC_CMD_CRC_ERR_MASK & EMMC_BOOT_ACK_ERR_MASK == 0,
        EMMC_CMD_END_BIT_ERR_MASK & EMMC_CMD_IDX_ERR_MASK == 0,
        EMMC_CMD_END_BIT_ERR_MASK & EMMC_DATA_TOUT_ERR_MASK == 0,
        EMMC_CMD_END_BIT_ERR_MASK & EMMC_DATA_CRC_ERR_MASK == 0,
        EMMC_CMD_END_BIT_ERR_MASK & EMMC_DATA_END_BIT_ERR_MASK == 0,
        EMMC_CMD_END_BIT_ERR_MASK & EMMC_AUTO_CMD_ERR_MASK == 0,
        EMMC_CMD_END_BIT_ERR_MASK & EMMC_ADMA_ERR_MASK == 0,
        EMMC_CMD_END_BIT_ERR_MASK & EMMC_TUNING_ERR_MASK == 0,
        EMMC_CMD_END_BIT_ERR_MASK & EMMC_RESP_ERR_MASK == 0,
        EMMC_CMD_END_BIT_ERR_MASK & EMMC_BOOT_ACK_ERR_MASK == 0,
        EMMC_CMD_IDX_ERR_MASK & EMMC_DATA_TOUT_ERR_MASK == 0,
        EMMC_CMD_IDX_ERR_MASK & EMMC_DATA_CRC_ERR_MASK == 0,
        EMMC_CMD_IDX_ERR_MASK & EMMC_DATA_END_BIT_ERR_MASK == 0,
        EMMC_CMD_IDX_ERR_MASK & EMMC_AUTO_CMD_ERR_MASK == 0,
        EMMC_CMD_IDX_ERR_MASK & EMMC_ADMA_ERR_MASK == 0,
        EMMC_CMD_IDX_ERR_MASK & EMMC_TUNING_ERR_MASK == 0,
        EMMC_CMD_IDX_ERR_MASK & EMMC_RESP_ERR_MASK == 0,
        EMMC_CMD_IDX_ERR_MASK & EMMC_BOOT_ACK_ERR_MASK == 0,
        EMMC_DATA_TOUT_ERR_MASK & EMMC_DATA_CRC_ERR_MASK == 0,
        EMMC_DATA_TOUT_ERR_MASK & EMMC_DATA_END_BIT_ERR_MASK == 0,
        EMMC_DATA_TOUT_ERR_MASK & EMMC_AUTO_CMD_ERR_MASK == 0,
        EMMC_DATA_TOUT_ERR_MASK & EMMC_ADMA_ERR_MASK == 0,
        EMMC_DATA_TOUT_ERR_MASK & EMMC_TUNING_ERR_MASK == 0,
        EMMC_DATA_TOUT_ERR_MASK & EMMC_RESP_ERR_MASK == 0,
        EMMC_DATA_TOUT_ERR_MASK & EMMC_BOOT_ACK_ERR_MASK == 0,
        EMMC_DATA_CRC_ERR_MASK & EMMC_DATA_END_BIT_ERR_MASK == 0,
        EMMC_DATA_CRC_ERR_MASK & EMMC_AUTO_CMD_ERR_MASK == 0,
        EMMC_DATA_CRC_ERR_MASK & EMMC_ADMA_ERR_MASK == 0,
        EMMC_DATA_CRC_ERR_MASK & EMMC_TUNING_ERR_MASK == 0,
        EMMC_DATA_CRC_ERR_MASK & EMMC_RESP_ERR_MASK == 0,
        EMMC_DATA_CRC_ERR_MASK & EMMC_BOOT_ACK_ERR_MASK == 0,
        EMMC_DATA_END_BIT_ERR_MASK & EMMC_AUTO_CMD_ERR_MASK == 0,
        EMMC_DATA_END_BIT_ERR_MASK & EMMC_ADMA_ERR_MASK == 0,
        EMMC_DATA_END_BIT_ERR_MASK & EMMC_TUNING_ERR_MASK == 0,
        EMMC_DATA_END_BIT_ERR_MASK & EMMC_RESP_ERR_MASK == 0,
        EMMC_DATA_END_BIT_ERR_MASK & EMMC_BOOT_ACK_ERR_MASK == 0,
        EMMC_AUTO_CMD_ERR_MASK & EMMC_ADMA_ERR_MASK == 0,
        EMMC_AUTO_CMD_ERR_MASK & EMMC_TUNING_ERR_MASK == 0,
        EMMC_AUTO_CMD_ERR_MASK & EMMC_RESP_ERR_MASK == 0,
        EMMC_AUTO_CMD_ERR_MASK & EMMC_BOOT_ACK_ERR_MASK == 0,
        EMMC_ADMA_ERR_MASK & EMMC_TUNING_ERR_MASK == 0,
        EMMC_ADMA_ERR_MASK & EMMC_RESP_ERR_MASK == 0,
        EMMC_ADMA_ERR_MASK & EMMC_BOOT_ACK_ERR_MASK == 0,
        EMMC_TUNING_ERR_MASK & EMMC_RESP_ERR_MASK == 0,
        EMMC_TUNING_ERR_MASK & EMMC_BOOT_ACK_ERR_MASK == 0,
        EMMC_RESP_ERR_MASK & EMMC_BOOT_ACK_ERR_MASK == 0,
{
}

} // verus!
