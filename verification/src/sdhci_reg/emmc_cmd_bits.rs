//! The command register. Storing to it puts the command on the bus.
use vstd::prelude::*;
use crate::bits::field_mask;
use crate::mmio::Mmio;
use crate::mmio::clear_bits16;
use crate::mmio::fetch16;
use crate::mmio::put_field16;
use crate::mmio::set_bits16;
use crate::mmio::store16;
use crate::sdhci_reg::Reg;

verus! {

/// Offset of the register from the base of the window.
pub const EMMC_CMD_OFFSET: u64 = 0x0e;

/// Response type select: position of the lowest bit.
pub const EMMC_RESP_TYPE_POS: u16 = 0;

/// Response type select: width in bits.
pub const EMMC_RESP_TYPE_WIDTH: u16 = 2;

/// Response type select: mask.
pub const EMMC_RESP_TYPE_MASK: u16 = 0x03 << EMMC_RESP_TYPE_POS;

/// Response type select.
pub const EMMC_RESP_TYPE: u16 = EMMC_RESP_TYPE_MASK;

/// No response, as the number of the field: what the setter of the field takes.
pub const EMMC_RESP_TYPE_NONE_NUM: u16 = 0x00;

/// No response, in place: what stands in the register.
pub const EMMC_RESP_TYPE_NONE: u16 = 0x00 << EMMC_RESP_TYPE_POS;

/// Response of 136 bits, as the number of the field: what the setter of the field takes.
pub const EMMC_RESP_TYPE_LEN_136_NUM: u16 = 0x01;

/// Response of 136 bits, in place: what stands in the register.
pub const EMMC_RESP_TYPE_LEN_136: u16 = 0x01 << EMMC_RESP_TYPE_POS;

/// Response of 48 bits, as the number of the field: what the setter of the field takes.
pub const EMMC_RESP_TYPE_LEN_48_NUM: u16 = 0x02;

/// Response of 48 bits, in place: what stands in the register.
pub const EMMC_RESP_TYPE_LEN_48: u16 = 0x02 << EMMC_RESP_TYPE_POS;

/// Response of 48 bits, busy checked after it, as the number of the field: what the setter of the field takes.
pub const EMMC_RESP_TYPE_LEN_48_CHECK_NUM: u16 = 0x03;

/// Response of 48 bits, busy checked after it, in place: what stands in the register.
pub const EMMC_RESP_TYPE_LEN_48_CHECK: u16 = 0x03 << EMMC_RESP_TYPE_POS;

/// Sub command flag: position of the lowest bit.
pub const EMMC_SUB_CMD_POS: u16 = 2;

/// Sub command flag: width in bits.
pub const EMMC_SUB_CMD_WIDTH: u16 = 1;

/// Sub command flag: mask.
pub const EMMC_SUB_CMD_MASK: u16 = 0x01 << EMMC_SUB_CMD_POS;

/// Sub command flag.
pub const EMMC_SUB_CMD: u16 = EMMC_SUB_CMD_MASK;

/// Command CRC check enable: position of the lowest bit.
pub const EMMC_CMD_CRC_CHK_POS: u16 = 3;

/// Command CRC check enable: width in bits.
pub const EMMC_CMD_CRC_CHK_WIDTH: u16 = 1;

/// Command CRC check enable: mask.
pub const EMMC_CMD_CRC_CHK_MASK: u16 = 0x01 << EMMC_CMD_CRC_CHK_POS;

/// Command CRC check enable.
pub const EMMC_CMD_CRC_CHK: u16 = EMMC_CMD_CRC_CHK_MASK;

/// Command index check enable: position of the lowest bit.
pub const EMMC_CMD_IDX_CHK_POS: u16 = 4;

/// Command index check enable: width in bits.
pub const EMMC_CMD_IDX_CHK_WIDTH: u16 = 1;

/// Command index check enable: mask.
pub const EMMC_CMD_IDX_CHK_MASK: u16 = 0x01 << EMMC_CMD_IDX_CHK_POS;

/// Command index check enable.
pub const EMMC_CMD_IDX_CHK: u16 = EMMC_CMD_IDX_CHK_MASK;

/// Data present select: position of the lowest bit.
pub const EMMC_DATA_PRESENT_POS: u16 = 5;

/// Data present select: width in bits.
pub const EMMC_DATA_PRESENT_WIDTH: u16 = 1;

/// Data present select: mask.
pub const EMMC_DATA_PRESENT_MASK: u16 = 0x01 << EMMC_DATA_PRESENT_POS;

/// Data present select.
pub const EMMC_DATA_PRESENT: u16 = EMMC_DATA_PRESENT_MASK;

/// Command type: position of the lowest bit.
pub const EMMC_CMD_TYPE_POS: u16 = 6;

/// Command type: width in bits.
pub const EMMC_CMD_TYPE_WIDTH: u16 = 2;

/// Command type: mask.
pub const EMMC_CMD_TYPE_MASK: u16 = 0x03 << EMMC_CMD_TYPE_POS;

/// Command type.
pub const EMMC_CMD_TYPE: u16 = EMMC_CMD_TYPE_MASK;

/// Any command but the three below, as the number of the field: what the setter of the field takes.
pub const EMMC_CMD_TYPE_NORMAL_NUM: u16 = 0x00;

/// Any command but the three below, in place: what stands in the register.
pub const EMMC_CMD_TYPE_NORMAL: u16 = 0x00 << EMMC_CMD_TYPE_POS;

/// Suspend command, as the number of the field: what the setter of the field takes.
pub const EMMC_CMD_TYPE_SUSPEND_NUM: u16 = 0x01;

/// Suspend command, in place: what stands in the register.
pub const EMMC_CMD_TYPE_SUSPEND: u16 = 0x01 << EMMC_CMD_TYPE_POS;

/// Resume command, as the number of the field: what the setter of the field takes.
pub const EMMC_CMD_TYPE_RESUME_NUM: u16 = 0x02;

/// Resume command, in place: what stands in the register.
pub const EMMC_CMD_TYPE_RESUME: u16 = 0x02 << EMMC_CMD_TYPE_POS;

/// Abort command, as the number of the field: what the setter of the field takes.
pub const EMMC_CMD_TYPE_ABORT_NUM: u16 = 0x03;

/// Abort command, in place: what stands in the register.
pub const EMMC_CMD_TYPE_ABORT: u16 = 0x03 << EMMC_CMD_TYPE_POS;

/// Command index: position of the lowest bit.
pub const EMMC_CMD_INDEX_POS: u16 = 8;

/// Command index: width in bits.
pub const EMMC_CMD_INDEX_WIDTH: u16 = 6;

/// Command index: mask.
pub const EMMC_CMD_INDEX_MASK: u16 = 0x3f << EMMC_CMD_INDEX_POS;

/// Command index.
pub const EMMC_CMD_INDEX: u16 = EMMC_CMD_INDEX_MASK;

impl<M: Mmio> Reg<M> {
    /// Loads the command register.
    ///
    /// One load of the register.
    pub fn emmc_get_cmd(&mut self) -> (value: u16)
        requires
            old(self).wf(),
        ensures
            final(self).wf(),
            final(self).follows(old(self)),
            final(self).accesses() == old(self).accesses() + fetch16(
                old(self).at(EMMC_CMD_OFFSET),
                value,
            ),
    {
        self.load16(EMMC_CMD_OFFSET)
    }

    /// Stores `cmd` in the command register, which issues the command.
    ///
    /// One store to the register.
    pub fn emmc_set_cmd(&mut self, cmd: u16)
        requires
            old(self).wf(),
        ensures
            final(self).wf(),
            final(self).follows(old(self)),
            final(self).accesses() == old(self).accesses() + store16(
                old(self).at(EMMC_CMD_OFFSET),
                cmd,
            ),
    {
        self.store16(EMMC_CMD_OFFSET, cmd);
    }

    /// Sets the response type to the number `resp_type`. The number is
    /// shifted to the field's place and cut to its width. Each named value of
    /// the field has its number beside it, under the same name with `_NUM`
    /// after it: that is what to hand over.
    ///
    /// One load of the register, then one store.
    pub fn emmc_set_resp_type(&mut self, resp_type: u16)
        requires
            old(self).wf(),
        ensures
            final(self).wf(),
            final(self).follows(old(self)),
            exists|seen: u16|
                final(self).accesses() == old(self).accesses() + #[trigger] put_field16(
                    old(self).at(EMMC_CMD_OFFSET),
                    seen,
                    EMMC_RESP_TYPE_MASK,
                    EMMC_RESP_TYPE_POS,
                    resp_type,
                ),
    {
        self.place16(EMMC_CMD_OFFSET, EMMC_RESP_TYPE_MASK, EMMC_RESP_TYPE_POS, resp_type);
    }

    /// Marks the command as a sub command.
    ///
    /// One load of the register, then one store.
    pub fn emmc_enable_sub_cmd(&mut self)
        requires
            old(self).wf(),
        ensures
            final(self).wf(),
            final(self).follows(old(self)),
            exists|seen: u16|
                final(self).accesses() == old(self).accesses() + #[trigger] set_bits16(
                    old(self).at(EMMC_CMD_OFFSET),
                    seen,
                    EMMC_SUB_CMD,
                ),
    {
        self.raise16(EMMC_CMD_OFFSET, EMMC_SUB_CMD);
    }

    /// Marks the command as a main command.
    ///
    /// One load of the register, then one store.
    pub fn emmc_disable_sub_cmd(&mut self)
        requires
            old(self).wf(),
        ensures
            final(self).wf(),
            final(self).follows(old(self)),
            exists|seen: u16|
                final(self).accesses() == old(self).accesses() + #[trigger] clear_bits16(
                    old(self).at(EMMC_CMD_OFFSET),
                    seen,
                    EMMC_SUB_CMD,
                ),
    {
        self.lower16(EMMC_CMD_OFFSET, EMMC_SUB_CMD);
    }

    /// Has the controller check the CRC of the response.
    ///
    /// One load of the register, then one store.
    pub fn emmc_enable_cmd_crc_check(&mut self)
        requires
            old(self).wf(),
        ensures
            final(self).wf(),
            final(self).follows(old(self)),
            exists|seen: u16|
                final(self).accesses() == old(self).accesses() + #[trigger] set_bits16(
                    old(self).at(EMMC_CMD_OFFSET),
                    seen,
                    EMMC_CMD_CRC_CHK,
                ),
    {
        self.raise16(EMMC_CMD_OFFSET, EMMC_CMD_CRC_CHK);
    }

    /// Stops the CRC check of the response.
    ///
    /// One load of the register, then one store.
    pub fn emmc_disable_cmd_crc_check(&mut self)
        requires
            old(self).wf(),
        ensures
            final(self).wf(),
            final(self).follows(old(self)),
            exists|seen: u16|
                final(self).accesses() == old(self).accesses() + #[trigger] clear_bits16(
                    old(self).at(EMMC_CMD_OFFSET),
                    seen,
                    EMMC_CMD_CRC_CHK,
                ),
    {
        self.lower16(EMMC_CMD_OFFSET, EMMC_CMD_CRC_CHK);
    }

    /// Has the controller check the index in the response.
    ///
    /// One load of the register, then one store.
    pub fn emmc_enable_cmd_idx_check(&mut self)
        requires
            old(self).wf(),
        ensures
            final(self).wf(),
            final(self).follows(old(self)),
            exists|seen: u16|
                final(self).accesses() == old(self).accesses() + #[trigger] set_bits16(
                    old(self).at(EMMC_CMD_OFFSET),
                    seen,
                    EMMC_CMD_IDX_CHK,
                ),
    {
        self.raise16(EMMC_CMD_OFFSET, EMMC_CMD_IDX_CHK);
    }

    /// Stops the index check of the response.
    ///
    /// One load of the register, then one store.
    pub fn emmc_disable_cmd_idx_check(&mut self)
        requires
            old(self).wf(),
        ensures
            final(self).wf(),
            final(self).follows(old(self)),
            exists|seen: u16|
                final(self).accesses() == old(self).accesses() + #[trigger] clear_bits16(
                    old(self).at(EMMC_CMD_OFFSET),
                    seen,
                    EMMC_CMD_IDX_CHK,
                ),
    {
        self.lower16(EMMC_CMD_OFFSET, EMMC_CMD_IDX_CHK);
    }

    /// Says that data follows on the data lines.
    ///
    /// One load of the register, then one store.
    pub fn emmc_enable_data_present(&mut self)
        requires
            old(self).wf(),
        ensures
            final(self).wf(),
            final(self).follows(old(self)),
            exists|seen: u16|
                final(self).accesses() == old(self).accesses() + #[trigger] set_bits16(
                    old(self).at(EMMC_CMD_OFFSET),
                    seen,
                    EMMC_DATA_PRESENT,
                ),
    {
        self.raise16(EMMC_CMD_OFFSET, EMMC_DATA_PRESENT);
    }

    /// Says that no data follows.
    ///
    /// One load of the register, then one store.
    pub fn emmc_disable_data_present(&mut self)
        requires
            old(self).wf(),
        ensures
            final(self).wf(),
            final(self).follows(old(self)),
            exists|seen: u16|
                final(self).accesses() == old(self).accesses() + #[trigger] clear_bits16(
                    old(self).at(EMMC_CMD_OFFSET),
                    seen,
                    EMMC_DATA_PRESENT,
                ),
    {
        self.lower16(EMMC_CMD_OFFSET, EMMC_DATA_PRESENT);
    }

    /// Sets the command type to the number `cmd_type`. The number is shifted
    /// to the field's place and cut to its width. Each named value of the
    /// field has its number beside it, under the same name with `_NUM` after
    /// it: that is what to hand over.
    ///
    /// One load of the register, then one store.
    pub fn emmc_set_cmd_type(&mut self, cmd_type: u16)
        requires
            old(self).wf(),
        ensures
            final(self).wf(),
            final(self).follows(old(self)),
            exists|seen: u16|
                final(self).accesses() == old(self).accesses() + #[trigger] put_field16(
                    old(self).at(EMMC_CMD_OFFSET),
                    seen,
                    EMMC_CMD_TYPE_MASK,
                    EMMC_CMD_TYPE_POS,
                    cmd_type,
                ),
    {
        self.place16(EMMC_CMD_OFFSET, EMMC_CMD_TYPE_MASK, EMMC_CMD_TYPE_POS, cmd_type);
    }

    /// Sets the command index to `cmd_idx`. The number is shifted to the
    /// field's place and cut to its width.
    ///
    /// One load of the register, then one store.
    pub fn emmc_set_cmd_index(&mut self, cmd_idx: u16)
        requires
            old(self).wf(),
        ensures
            final(self).wf(),
            final(self).follows(old(self)),
            exists|seen: u16|
                final(self).accesses() == old(self).accesses() + #[trigger] put_field16(
                    old(self).at(EMMC_CMD_OFFSET),
                    seen,
                    EMMC_CMD_INDEX_MASK,
                    EMMC_CMD_INDEX_POS,
                    cmd_idx,
                ),
    {
        self.place16(EMMC_CMD_OFFSET, EMMC_CMD_INDEX_MASK, EMMC_CMD_INDEX_POS, cmd_idx);
    }
}

/// The table of this register holds together: the register lies at a multiple
/// of its width; the mask of every field is as many ones as the field is
/// wide, shifted to the field's position; every named value lies within its
/// field, and is what the setter of the field puts there when it is handed
/// the value's number; and no two fields share a bit.
pub proof fn lemma_layout()
    by (bit_vector)
    ensures
        EMMC_CMD_OFFSET % 2 == 0,
        EMMC_RESP_TYPE_MASK as u64 == field_mask(
            EMMC_RESP_TYPE_POS as u64,
            EMMC_RESP_TYPE_WIDTH as u64,
        ),
        EMMC_SUB_CMD_MASK as u64 == field_mask(
            EMMC_SUB_CMD_POS as u64,
            EMMC_SUB_CMD_WIDTH as u64,
        ),
        EMMC_CMD_CRC_CHK_MASK as u64 == field_mask(
            EMMC_CMD_CRC_CHK_POS as u64,
            EMMC_CMD_CRC_CHK_WIDTH as u64,
        ),
        EMMC_CMD_IDX_CHK_MASK as u64 == field_mask(
            EMMC_CMD_IDX_CHK_POS as u64,
            EMMC_CMD_IDX_CHK_WIDTH as u64,
        ),
        EMMC_DATA_PRESENT_MASK as u64 == field_mask(
            EMMC_DATA_PRESENT_POS as u64,
            EMMC_DATA_PRESENT_WIDTH as u64,
        ),
        EMMC_CMD_TYPE_MASK as u64 == field_mask(
            EMMC_CMD_TYPE_POS as u64,
            EMMC_CMD_TYPE_WIDTH as u64,
        ),
        EMMC_CMD_INDEX_MASK as u64 == field_mask(
            EMMC_CMD_INDEX_POS as u64,
            EMMC_CMD_INDEX_WIDTH as u64,
        ),
        EMMC_RESP_TYPE_NONE & !EMMC_RESP_TYPE_MASK == 0,
        (EMMC_RESP_TYPE_NONE_NUM << EMMC_RESP_TYPE_POS) & EMMC_RESP_TYPE_MASK == EMMC_RESP_TYPE_NONE,
        EMMC_RESP_TYPE_LEN_136 & !EMMC_RESP_TYPE_MASK == 0,
        (EMMC_RESP_TYPE_LEN_136_NUM << EMMC_RESP_TYPE_POS) & EMMC_RESP_TYPE_MASK == EMMC_RESP_TYPE_LEN_136,
        EMMC_RESP_TYPE_LEN_48 & !EMMC_RESP_TYPE_MASK == 0,
        (EMMC_RESP_TYPE_LEN_48_NUM << EMMC_RESP_TYPE_POS) & EMMC_RESP_TYPE_MASK == EMMC_RESP_TYPE_LEN_48,
        EMMC_RESP_TYPE_LEN_48_CHECK & !EMMC_RESP_TYPE_MASK == 0,
        (EMMC_RESP_TYPE_LEN_48_CHECK_NUM << EMMC_RESP_TYPE_POS) & EMMC_RESP_TYPE_MASK == EMMC_RESP_TYPE_LEN_48_CHECK,
        EMMC_CMD_TYPE_NORMAL & !EMMC_CMD_TYPE_MASK == 0,
        (EMMC_CMD_TYPE_NORMAL_NUM << EMMC_CMD_TYPE_POS) & EMMC_CMD_TYPE_MASK == EMMC_CMD_TYPE_NORMAL,
        EMMC_CMD_TYPE_SUSPEND & !EMMC_CMD_TYPE_MASK == 0,
        (EMMC_CMD_TYPE_SUSPEND_NUM << EMMC_CMD_TYPE_POS) & EMMC_CMD_TYPE_MASK == EMMC_CMD_TYPE_SUSPEND,
        EMMC_CMD_TYPE_RESUME & !EMMC_CMD_TYPE_MASK == 0,
        (EMMC_CMD_TYPE_RESUME_NUM << EMMC_CMD_TYPE_POS) & EMMC_CMD_TYPE_MASK == EMMC_CMD_TYPE_RESUME,
        EMMC_CMD_TYPE_ABORT & !EMMC_CMD_TYPE_MASK == 0,
        (EMMC_CMD_TYPE_ABORT_NUM << EMMC_CMD_TYPE_POS) & EMMC_CMD_TYPE_MASK == EMMC_CMD_TYPE_ABORT,
        EMMC_RESP_TYPE_MASK & EMMC_SUB_CMD_MASK == 0,
        EMMC_RESP_TYPE_MASK & EMMC_CMD_CRC_CHK_MASK == 0,
        EMMC_RESP_TYPE_MASK & EMMC_CMD_IDX_CHK_MASK == 0,
        EMMC_RESP_TYPE_MASK & EMMC_DATA_PRESENT_MASK == 0,
        EMMC_RESP_TYPE_MASK & EMMC_CMD_TYPE_MASK == 0,
        EMMC_RESP_TYPE_MASK & EMMC_CMD_INDEX_MASK == 0,
        EMMC_SUB_CMD_MASK & EMMC_CMD_CRC_CHK_MASK == 0,
        EMMC_SUB_CMD_MASK & EMMC_CMD_IDX_CHK_MASK == 0,
        EMMC_SUB_CMD_MASK & EMMC_DATA_PRESENT_MASK == 0,
        EMMC_SUB_CMD_MASK & EMMC_CMD_TYPE_MASK == 0,
        EMMC_SUB_CMD_MASK & EMMC_CMD_INDEX_MASK == 0,
        EMMC_CMD_CRC_CHK_MASK & EMMC_CMD_IDX_CHK_MASK == 0,
        EMMC_CMD_CRC_CHK_MASK & EMMC_DATA_PRESENT_MASK == 0,
        EMMC_CMD_CRC_CHK_MASK & EMMC_CMD_TYPE_MASK == 0,
        EMMC_CMD_CRC_CHK_MASK & EMMC_CMD_INDEX_MASK == 0,
        EMMC_CMD_IDX_CHK_MASK & EMMC_DATA_PRESENT_MASK == 0,
        EMMC_CMD_IDX_CHK_MASK & EMMC_CMD_TYPE_MASK == 0,
        EMMC_CMD_IDX_CHK_MASK & EMMC_CMD_INDEX_MASK == 0,
        EMMC_DATA_PRESENT_MASK & EMMC_CMD_TYPE_MASK == 0,
        EMMC_DATA_PRESENT_MASK & EMMC_CMD_INDEX_MASK == 0,
        EMMC_CMD_TYPE_MASK & EMMC_CMD_INDEX_MASK == 0,
{
}

} // verus!
