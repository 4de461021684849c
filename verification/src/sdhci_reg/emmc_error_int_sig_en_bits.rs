//! The error interrupt signal enable register.
use vstd::prelude::*;
use crate::bits::field_mask;
use crate::mmio::Mmio;
use crate::mmio::fetch16;
use crate::mmio::set_bits16;
use crate::mmio::store16;
use crate::sdhci_reg::Reg;

verus! {

/// Offset of the register from the base of the window.
pub const EMMC_ERROR_INT_SIG_EN_OFFSET: u64 = 0x3a;

/// Command timeout error signal enable: position of the lowest bit.
pub const EMMC_CMD_TOUT_SIG_EN_POS: u16 = 0;

/// Command timeout error signal enable: width in bits.
pub const EMMC_CMD_TOUT_SIG_EN_WIDTH: u16 = 1;

/// Command timeout error signal enable: mask.
pub const EMMC_CMD_TOUT_SIG_EN_MASK: u16 = 0x01 << EMMC_CMD_TOUT_SIG_EN_POS;

/// Command timeout error signal enable.
pub const EMMC_CMD_TOUT_SIG_EN: u16 = EMMC_CMD_TOUT_SIG_EN_MASK;

/// Command CRC error signal enable: position of the lowest bit.
pub const EMMC_CMD_CRC_SIG_EN_POS: u16 = 1;

/// Command CRC error signal enable: width in bits.
pub const EMMC_CMD_CRC_SIG_EN_WIDTH: u16 = 1;

/// Command CRC error signal enable: mask.
pub const EMMC_CMD_CRC_SIG_EN_MASK: u16 = 0x01 << EMMC_CMD_CRC_SIG_EN_POS;

/// Command CRC error signal enable.
pub const EMMC_CMD_CRC_SIG_EN: u16 = EMMC_CMD_CRC_SIG_EN_MASK;

/// Command end bit error signal enable: position of the lowest bit.
pub const EMMC_CMD_END_BIT_SIG_EN_POS: u16 = 2;

/// Command end bit error signal enable: width in bits.
pub const EMMC_CMD_END_BIT_SIG_EN_WIDTH: u16 = 1;

/// Command end bit error signal enable: mask.
pub const EMMC_CMD_END_BIT_SIG_EN_MASK: u16 = 0x01 << EMMC_CMD_END_BIT_SIG_EN_POS;

/// Command end bit error signal enable.
pub const EMMC_CMD_END_BIT_SIG_EN: u16 = EMMC_CMD_END_BIT_SIG_EN_MASK;

/// Command index error signal enable: position of the lowest bit.
pub const EMMC_CMD_IDX_SIG_EN_POS: u16 = 3;

/// Command index error signal enable: width in bits.
pub const EMMC_CMD_IDX_SIG_EN_WIDTH: u16 = 1;

/// Command index error signal enable: mask.
pub const EMMC_CMD_IDX_SIG_EN_MASK: u16 = 0x01 << EMMC_CMD_IDX_SIG_EN_POS;

/// Command index error signal enable.
pub const EMMC_CMD_IDX_SIG_EN: u16 = EMMC_CMD_IDX_SIG_EN_MASK;

/// Data timeout error signal enable: position of the lowest bit.
pub const EMMC_DATA_TOUT_SIG_EN_POS: u16 = 4;

/// Data timeout error signal enable: width in bits.
pub const EMMC_DATA_TOUT_SIG_EN_WIDTH: u16 = 1;

/// Data timeout error signal enable: mask.
pub const EMMC_DATA_TOUT_SIG_EN_MASK: u16 = 0x01 << EMMC_DATA_TOUT_SIG_EN_POS;

/// Data timeout error signal enable.
pub const EMMC_DATA_TOUT_SIG_EN: u16 = EMMC_DATA_TOUT_SIG_EN_MASK;

/// Data CRC error signal enable: position of the lowest bit.
pub const EMMC_DATA_CRC_SIG_EN_POS: u16 = 5;

/// Data CRC error signal enable: width in bits.
pub const EMMC_DATA_CRC_SIG_EN_WIDTH: u16 = 1;

/// Data CRC error signal enable: mask.
pub const EMMC_DATA_CRC_SIG_EN_MASK: u16 = 0x01 << EMMC_DATA_CRC_SIG_EN_POS;

/// Data CRC error signal enable.
pub const EMMC_DATA_CRC_SIG_EN: u16 = EMMC_DATA_CRC_SIG_EN_MASK;

/// Data end bit error signal enable: position of the lowest bit.
pub const EMMC_DATA_END_BIT_SIG_EN_POS: u16 = 6;

/// Data end bit error signal enable: width in bits.
pub const EMMC_DATA_END_BIT_SIG_EN_WIDTH: u16 = 1;

/// Data end bit error signal enable: mask.
pub const EMMC_DATA_END_BIT_SIG_EN_MASK: u16 = 0x01 << EMMC_DATA_END_BIT_SIG_EN_POS;

/// Data end bit error signal enable.
pub const EMMC_DATA_END_BIT_SIG_EN: u16 = EMMC_DATA_END_BIT_SIG_EN_MASK;

/// Auto command error signal enable: position of the lowest bit.
pub const EMMC_AUTO_CMD_SIG_EN_POS: u16 = 8;

/// Auto command error signal enable: width in bits.
pub const EMMC_AUTO_CMD_SIG_EN_WIDTH: u16 = 1;

/// Auto command error signal enable: mask.
pub const EMMC_AUTO_CMD_SIG_EN_MASK: u16 = 0x01 << EMMC_AUTO_CMD_SIG_EN_POS;

/// Auto command error signal enable.
pub const EMMC_AUTO_CMD_SIG_EN: u16 = EMMC_AUTO_CMD_SIG_EN_MASK;

/// ADMA error signal enable: position of the lowest bit.
pub const EMMC_ADMA_SIG_EN_POS: u16 = 9;

/// ADMA error signal enable: width in bits.
pub const EMMC_ADMA_SIG_EN_WIDTH: u16 = 1;

/// ADMA error signal enable: mask.
pub const EMMC_ADMA_SIG_EN_MASK: u16 = 0x01 << EMMC_ADMA_SIG_EN_POS;

/// ADMA error signal enable.
pub const EMMC_ADMA_SIG_EN: u16 = EMMC_ADMA_SIG_EN_MASK;

/// Tuning error signal enable: position of the lowest bit.
pub const EMMC_TUNING_SIG_EN_POS: u16 = 10;

/// Tuning error signal enable: width in bits.
pub const EMMC_TUNING_SIG_EN_WIDTH: u16 = 1;

/// Tuning error signal enable: mask.
pub const EMMC_TUNING_SIG_EN_MASK: u16 = 0x01 << EMMC_TUNING_SIG_EN_POS;

/// Tuning error signal enable.
pub const EMMC_TUNING_SIG_EN: u16 = EMMC_TUNING_SIG_EN_MASK;

/// Response error signal enable: position of the lowest bit.
pub const EMMC_RESP_SIG_EN_POS: u16 = 11;

/// Response error signal enable: width in bits.
pub const EMMC_RESP_SIG_EN_WIDTH: u16 = 1;

/// Response error signal enable: mask.
pub const EMMC_RESP_SIG_EN_MASK: u16 = 0x01 << EMMC_RESP_SIG_EN_POS;

/// Response error signal enable.
pub const EMMC_RESP_SIG_EN: u16 = EMMC_RESP_SIG_EN_MASK;

/// Boot acknowledge error signal enable: position of the lowest bit.
pub const EMMC_BOOT_ACK_SIG_EN_POS: u16 = 12;

/// Boot acknowledge error signal enable: width in bits.
pub const EMMC_BOOT_ACK_SIG_EN_WIDTH: u16 = 1;

/// Boot acknowledge error signal enable: mask.
pub const EMMC_BOOT_ACK_SIG_EN_MASK: u16 = 0x01 << EMMC_BOOT_ACK_SIG_EN_POS;

/// Boot acknowledge error signal enable.
pub const EMMC_BOOT_ACK_SIG_EN: u16 = EMMC_BOOT_ACK_SIG_EN_MASK;

/// Every bit of the register that has a meaning.
pub const EMMC_ERROR_INT_SIG_EN_ALL: u16 = EMMC_CMD_TOUT_SIG_EN
    | EMMC_CMD_CRC_SIG_EN
    | EMMC_CMD_END_BIT_SIG_EN
    | EMMC_CMD_IDX_SIG_EN
    | EMMC_DATA_TOUT_SIG_EN
    | EMMC_DATA_CRC_SIG_EN
    | EMMC_DATA_END_BIT_SIG_EN
    | EMMC_AUTO_CMD_SIG_EN
    | EMMC_ADMA_SIG_EN
    | EMMC_TUNING_SIG_EN
    | EMMC_RESP_SIG_EN
    | EMMC_BOOT_ACK_SIG_EN;

impl<M: Mmio> Reg<M> {
    /// Stores `error_int_sig_en` in the error interrupt signal enable
    /// register.
    ///
    /// One store to the register.
    pub fn emmc_set_error_int_sig_en(&mut self, error_int_sig_en: u16)
        requires
            old(self).wf(),
        ensures
            final(self).wf(),
            final(self).follows(old(self)),
            final(self).accesses() == old(self).accesses() + store16(
                old(self).at(EMMC_ERROR_INT_SIG_EN_OFFSET),
                error_int_sig_en,
            ),
    {
        self.store16(EMMC_ERROR_INT_SIG_EN_OFFSET, error_int_sig_en);
    }

    /// Loads the error interrupt signal enable register.
    ///
    /// One load of the register.
    pub fn emmc_get_error_int_sig_en(&mut self) -> (value: u16)
        requires
            old(self).wf(),
        ensures
            final(self).wf(),
            final(self).follows(old(self)),
            final(self).accesses() == old(self).accesses() + fetch16(
                old(self).at(EMMC_ERROR_INT_SIG_EN_OFFSET),
                value,
            ),
    {
        self.load16(EMMC_ERROR_INT_SIG_EN_OFFSET)
    }

    /// Turns every error interrupt signal enable bit on.
    ///
    /// One load of the register, then one store.
    pub fn emmc_enable_all_error_int_sig(&mut self)
        requires
            old(self).wf(),
        ensures
            final(self).wf(),
            final(self).follows(old(self)),
            exists|seen: u16|
                final(self).accesses() == old(self).accesses() + #[trigger] set_bits16(
                    old(self).at(EMMC_ERROR_INT_SIG_EN_OFFSET),
                    seen,
                    EMMC_ERROR_INT_SIG_EN_ALL,
                ),
    {
        self.raise16(EMMC_ERROR_INT_SIG_EN_OFFSET, EMMC_ERROR_INT_SIG_EN_ALL);
    }

    /// Turns every error interrupt signal enable bit off by storing zero.
    ///
    /// One store to the register.
    pub fn emmc_disable_all_error_int_sig(&mut self)
        requires
            old(self).wf(),
        ensures
            final(self).wf(),
            final(self).follows(old(self)),
            final(self).accesses() == old(self).accesses() + store16(
                old(self).at(EMMC_ERROR_INT_SIG_EN_OFFSET),
                0,
            ),
    {
        self.store16(EMMC_ERROR_INT_SIG_EN_OFFSET, 0);
    }
}

/// The table of this register holds together: the register lies at a multiple
/// of its width; the mask of every field is as many ones as the field is
/// wide, shifted to the field's position; and no two fields share a bit.
pub proof fn lemma_layout()
    by (bit_vector)
    ensures
        EMMC_ERROR_INT_SIG_EN_OFFSET % 2 == 0,
        EMMC_CMD_TOUT_SIG_EN_MASK as u64 == field_mask(
            EMMC_CMD_TOUT_SIG_EN_POS as u64,
            EMMC_CMD_TOUT_SIG_EN_WIDTH as u64,
        ),
        EMMC_CMD_CRC_SIG_EN_MASK as u64 == field_mask(
            EMMC_CMD_CRC_SIG_EN_POS as u64,
            EMMC_CMD_CRC_SIG_EN_WIDTH as u64,
        ),
        EMMC_CMD_END_BIT_SIG_EN_MASK as u64 == field_mask(
            EMMC_CMD_END_BIT_SIG_EN_POS as u64,
            EMMC_CMD_END_BIT_SIG_EN_WIDTH as u64,
        ),
        EMMC_CMD_IDX_SIG_EN_MASK as u64 == field_mask(
            EMMC_CMD_IDX_SIG_EN_POS as u64,
            EMMC_CMD_IDX_SIG_EN_WIDTH as u64,
        ),
        EMMC_DATA_TOUT_SIG_EN_MASK as u64 == field_mask(
            EMMC_DATA_TOUT_SIG_EN_POS as u64,
            EMMC_DATA_TOUT_SIG_EN_WIDTH as u64,
        ),
        EMMC_DATA_CRC_SIG_EN_MASK as u64 == field_mask(
            EMMC_DATA_CRC_SIG_EN_POS as u64,
            EMMC_DATA_CRC_SIG_EN_WIDTH as u64,
        ),
        EMMC_DATA_END_BIT_SIG_EN_MASK as u64 == field_mask(
            EMMC_DATA_END_BIT_SIG_EN_POS as u64,
            EMMC_DATA_END_BIT_SIG_EN_WIDTH as u64,
        ),
        EMMC_AUTO_CMD_SIG_EN_MASK as u64 == field_mask(
            EMMC_AUTO_CMD_SIG_EN_POS as u64,
            EMMC_AUTO_CMD_SIG_EN_WIDTH as u64,
        ),
        EMMC_ADMA_SIG_EN_MASK as u64 == field_mask(
            EMMC_ADMA_SIG_EN_POS as u64,
            EMMC_ADMA_SIG_EN_WIDTH as u64,
        ),
        EMMC_TUNING_SIG_EN_MASK as u64 == field_mask(
            EMMC_TUNING_SIG_EN_POS as u64,
            EMMC_TUNING_SIG_EN_WIDTH as u64,
        ),
        EMMC_RESP_SIG_EN_MASK as u64 == field_mask(
            EMMC_RESP_SIG_EN_POS as u64,
            EMMC_RESP_SIG_EN_WIDTH as u64,
        ),
        EMMC_BOOT_ACK_SIG_EN_MASK as u64 == field_mask(
            EMMC_BOOT_ACK_SIG_EN_POS as u64,
            EMMC_BOOT_ACK_SIG_EN_WIDTH as u64,
        ),
        EMMC_CMD_TOUT_SIG_EN_MASK & EMMC_CMD_CRC_SIG_EN_MASK == 0,
        EMMC_CMD_TOUT_SIG_EN_MASK & EMMC_CMD_END_BIT_SIG_EN_MASK == 0,
        EMMC_CMD_TOUT_SIG_EN_MASK & EMMC_CMD_IDX_SIG_EN_MASK == 0,
        EMMC_CMD_TOUT_SIG_EN_MASK & EMMC_DATA_TOUT_SIG_EN_MASK == 0,
        EMMC_CMD_TOUT_SIG_EN_MASK & EMMC_DATA_CRC_SIG_EN_MASK == 0,
        EMMC_CMD_TOUT_SIG_EN_MASK & EMMC_DATA_END_BIT_SIG_EN_MASK == 0,
        EMMC_CMD_TOUT_SIG_EN_MASK & EMMC_AUTO_CMD_SIG_EN_MASK == 0,
        EMMC_CMD_TOUT_SIG_EN_MASK & EMMC_ADMA_SIG_EN_MASK == 0,
        EMMC_CMD_TOUT_SIG_EN_MASK & EMMC_TUNING_SIG_EN_MASK == 0,
        EMMC_CMD_TOUT_SIG_EN_MASK & EMMC_RESP_SIG_EN_MASK == 0,
        EMMC_CMD_TOUT_SIG_EN_MASK & EMMC_BOOT_ACK_SIG_EN_MASK == 0,
        EMMC_CMD_CRC_SIG_EN_MASK & EMMC_CMD_END_BIT_SIG_EN_MASK == 0,
        EMMC_CMD_CRC_SIG_EN_MASK & EMMC_CMD_IDX_SIG_EN_MASK == 0,
        EMMC_CMD_CRC_SIG_EN_MASK & EMMC_DATA_TOUT_SIG_EN_MASK == 0,
        EMMC_CMD_CRC_SIG_EN_MASK & EMMC_DATA_CRC_SIG_EN_MASK == 0,
        EMMC_CMD_CRC_SIG_EN_MASK & EMMC_DATA_END_BIT_SIG_EN_MASK == 0,
        EMMC_CMD_CRC_SIG_EN_MASK & EMMC_AUTO_CMD_SIG_EN_MASK == 0,
        EMMC_CMD_CRC_SIG_EN_MASK & EMMC_ADMA_SIG_EN_MASK == 0,
        EMMC_CMD_CRC_SIG_EN_MASK & EMMC_TUNING_SIG_EN_MASK == 0,
        EMMC_CMD_CRC_SIG_EN_MASK & EMMC_RESP_SIG_EN_MASK == 0,
        EMMC_CMD_CRC_SIG_EN_MASK & EMMC_BOOT_ACK_SIG_EN_MASK == 0,
        EMMC_CMD_END_BIT_SIG_EN_MASK & EMMC_CMD_IDX_SIG_EN_MASK == 0,
        EMMC_CMD_END_BIT_SIG_EN_MASK & EMMC_DATA_TOUT_SIG_EN_MASK == 0,
        EMMC_CMD_END_BIT_SIG_EN_MASK & EMMC_DATA_CRC_SIG_EN_MASK == 0,
        EMMC_CMD_END_BIT_SIG_EN_MASK & EMMC_DATA_END_BIT_SIG_EN_MASK == 0,
        EMMC_CMD_END_BIT_SIG_EN_MASK & EMMC_AUTO_CMD_SIG_EN_MASK == 0,
        EMMC_CMD_END_BIT_SIG_EN_MASK & EMMC_ADMA_SIG_EN_MASK == 0,
        EMMC_CMD_END_BIT_SIG_EN_MASK & EMMC_TUNING_SIG_EN_MASK == 0,
        EMMC_CMD_END_BIT_SIG_EN_MASK & EMMC_RESP_SIG_EN_MASK == 0,
        EMMC_CMD_END_BIT_SIG_EN_MASK & EMMC_BOOT_ACK_SIG_EN_MASK == 0,
        EMMC_CMD_IDX_SIG_EN_MASK & EMMC_DATA_TOUT_SIG_EN_MASK == 0,
        EMMC_CMD_IDX_SIG_EN_MASK & EMMC_DATA_CRC_SIG_EN_MASK == 0,
        EMMC_CMD_IDX_SIG_EN_MASK & EMMC_DATA_END_BIT_SIG_EN_MASK == 0,
        EMMC_CMD_IDX_SIG_EN_MASK & EMMC_AUTO_CMD_SIG_EN_MASK == 0,
        EMMC_CMD_IDX_SIG_EN_MASK & EMMC_ADMA_SIG_EN_MASK == 0,
        EMMC_CMD_IDX_SIG_EN_MASK & EMMC_TUNING_SIG_EN_MASK == 0,
        EMMC_CMD_IDX_SIG_EN_MASK & EMMC_RESP_SIG_EN_MASK == 0,
        EMMC_CMD_IDX_SIG_EN_MASK & EMMC_BOOT_ACK_SIG_EN_MASK == 0,
        EMMC_DATA_TOUT_SIG_EN_MASK & EMMC_DATA_CRC_SIG_EN_MASK == 0,
        EMMC_DATA_TOUT_SIG_EN_MASK & EMMC_DATA_END_BIT_SIG_EN_MASK == 0,
        EMMC_DATA_TOUT_SIG_EN_MASK & EMMC_AUTO_CMD_SIG_EN_MASK == 0,
        EMMC_DATA_TOUT_SIG_EN_MASK & EMMC_ADMA_SIG_EN_MASK == 0,
        EMMC_DATA_TOUT_SIG_EN_MASK & EMMC_TUNING_SIG_EN_MASK == 0,
        EMMC_DATA_TOUT_SIG_EN_MASK & EMMC_RESP_SIG_EN_MASK == 0,
        EMMC_DATA_TOUT_SIG_EN_MASK & EMMC_BOOT_ACK_SIG_EN_MASK == 0,
        EMMC_DATA_CRC_SIG_EN_MASK & EMMC_DATA_END_BIT_SIG_EN_MASK == 0,
        EMMC_DATA_CRC_SIG_EN_MASK & EMMC_AUTO_CMD_SIG_EN_MASK == 0,
        EMMC_DATA_CRC_SIG_EN_MASK & EMMC_ADMA_SIG_EN_MASK == 0,
        EMMC_DATA_CRC_SIG_EN_MASK & EMMC_TUNING_SIG_EN_MASK == 0,
        EMMC_DATA_CRC_SIG_EN_MASK & EMMC_RESP_SIG_EN_MASK == 0,
        EMMC_DATA_CRC_SIG_EN_MASK & EMMC_BOOT_ACK_SIG_EN_MASK == 0,
        EMMC_DATA_END_BIT_SIG_EN_MASK & EMMC_AUTO_CMD_SIG_EN_MASK == 0,
        EMMC_DATA_END_BIT_SIG_EN_MASK & EMMC_ADMA_SIG_EN_MASK == 0,
        EMMC_DATA_END_BIT_SIG_EN_MASK & EMMC_TUNING_SIG_EN_MASK == 0,
        EMMC_DATA_END_BIT_SIG_EN_MASK & EMMC_RESP_SIG_EN_MASK == 0,
        EMMC_DATA_END_BIT_SIG_EN_MASK & EMMC_BOOT_ACK_SIG_EN_MASK == 0,
        EMMC_AUTO_CMD_SIG_EN_MASK & EMMC_ADMA_SIG_EN_MASK == 0,
        EMMC_AUTO_CMD_SIG_EN_MASK & EMMC_TUNING_SIG_EN_MASK == 0,
        EMMC_AUTO_CMD_SIG_EN_MASK & EMMC_RESP_SIG_EN_MASK == 0,
        EMMC_AUTO_CMD_SIG_EN_MASK & EMMC_BOOT_ACK_SIG_EN_MASK == 0,
        EMMC_ADMA_SIG_EN_MASK & EMMC_TUNING_SIG_EN_MASK == 0,
        EMMC_ADMA_SIG_EN_MASK & EMMC_RESP_SIG_EN_MASK == 0,
        EMMC_ADMA_SIG_EN_MASK & EMMC_BOOT_ACK_SIG_EN_MASK == 0,
        EMMC_TUNING_SIG_EN_MASK & EMMC_RESP_SIG_EN_MASK == 0,
        EMMC_TUNING_SIG_EN_MASK & EMMC_BOOT_ACK_SIG_EN_MASK == 0,
        EMMC_RESP_SIG_EN_MASK & EMMC_BOOT_ACK_SIG_EN_MASK == 0,
{
}

} // verus!
