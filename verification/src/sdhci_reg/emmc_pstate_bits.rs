//! The present-state register: what the command and data paths are doing now.
use vstd::prelude::*;
use crate::bits::field_mask;
use crate::mmio::Mmio;
use crate::mmio::fetch32;
use crate::sdhci_reg::Reg;

verus! {

/// Offset of the register from the base of the window.
pub const EMMC_PSTATE_OFFSET: u64 = 0x24;

/// Command line in use: position of the lowest bit.
pub const EMMC_CMD_INHIBIT_POS: u32 = 0;

/// Command line in use: width in bits.
pub const EMMC_CMD_INHIBIT_WIDTH: u32 = 1;

/// Command line in use: mask.
pub const EMMC_CMD_INHIBIT_MASK: u32 = 0x01 << EMMC_CMD_INHIBIT_POS;

/// Command line in use.
pub const EMMC_CMD_INHIBIT: u32 = EMMC_CMD_INHIBIT_MASK;

/// Data lines in use: position of the lowest bit.
pub const EMMC_CMD_INHIBIT_DATA_POS: u32 = 1;

/// Data lines in use: width in bits.
pub const EMMC_CMD_INHIBIT_DATA_WIDTH: u32 = 1;

/// Data lines in use: mask.
pub const EMMC_CMD_INHIBIT_DATA_MASK: u32 = 0x01 << EMMC_CMD_INHIBIT_DATA_POS;

/// Data lines in use.
pub const EMMC_CMD_INHIBIT_DATA: u32 = EMMC_CMD_INHIBIT_DATA_MASK;

/// Data line active: position of the lowest bit.
pub const EMMC_DATA_LINE_ACTIVE_POS: u32 = 2;

/// Data line active: width in bits.
pub const EMMC_DATA_LINE_ACTIVE_WIDTH: u32 = 1;

/// Data line active: mask.
pub const EMMC_DATA_LINE_ACTIVE_MASK: u32 = 0x01 << EMMC_DATA_LINE_ACTIVE_POS;

/// Data line active.
pub const EMMC_DATA_LINE_ACTIVE: u32 = EMMC_DATA_LINE_ACTIVE_MASK;

/// Level of data lines 7 to 4: position of the lowest bit.
pub const EMMC_DATA_LINE7_4_LEVEL_POS: u32 = 4;

/// Level of data lines 7 to 4: width in bits.
pub const EMMC_DATA_LINE7_4_LEVEL_WIDTH: u32 = 4;

/// Level of data lines 7 to 4: mask.
pub const EMMC_DATA_LINE7_4_LEVEL_MASK: u32 = 0x0f << EMMC_DATA_LINE7_4_LEVEL_POS;

/// Level of data lines 7 to 4.
pub const EMMC_DATA_LINE7_4_LEVEL: u32 = EMMC_DATA_LINE7_4_LEVEL_MASK;

/// Card inserted: position of the lowest bit.
pub const EMMC_CARD_INSERTED_POS: u32 = 16;

/// Card inserted: width in bits.
pub const EMMC_CARD_INSERTED_WIDTH: u32 = 1;

/// Card inserted: mask.
pub const EMMC_CARD_INSERTED_MASK: u32 = 0x01 << EMMC_CARD_INSERTED_POS;

/// Card inserted.
pub const EMMC_CARD_INSERTED: u32 = EMMC_CARD_INSERTED_MASK;

/// Card detect level stable: position of the lowest bit.
pub const EMMC_CARD_STABLE_POS: u32 = 17;

/// Card detect level stable: width in bits.
pub const EMMC_CARD_STABLE_WIDTH: u32 = 1;

/// Card detect level stable: mask.
pub const EMMC_CARD_STABLE_MASK: u32 = 0x01 << EMMC_CARD_STABLE_POS;

/// Card detect level stable.
pub const EMMC_CARD_STABLE: u32 = EMMC_CARD_STABLE_MASK;

/// Level of data lines 3 to 0: position of the lowest bit.
pub const EMMC_DATA_LINE3_0_LEVEL_POS: u32 = 20;

/// Level of data lines 3 to 0: width in bits.
pub const EMMC_DATA_LINE3_0_LEVEL_WIDTH: u32 = 4;

/// Level of data lines 3 to 0: mask.
pub const EMMC_DATA_LINE3_0_LEVEL_MASK: u32 = 0x0f << EMMC_DATA_LINE3_0_LEVEL_POS;

/// Level of data lines 3 to 0.
pub const EMMC_DATA_LINE3_0_LEVEL: u32 = EMMC_DATA_LINE3_0_LEVEL_MASK;

/// The levels of the eight data lines in a value of the register: lines 7 to
/// 4 stay where they are, lines 3 to 0 come down from bit 20.
pub open spec fn data_line_level(seen: u32) -> u8 {
    ((seen & EMMC_DATA_LINE7_4_LEVEL) | ((seen & EMMC_DATA_LINE3_0_LEVEL)
        >> EMMC_DATA_LINE3_0_LEVEL_POS)) as u8
}

impl<M: Mmio> Reg<M> {
    /// Whether the command line is free for a command.
    ///
    /// One load of the register.
    pub fn emmc_cmd_is_ready(&mut self) -> (ready: bool)
        requires
            old(self).wf(),
        ensures
            final(self).wf(),
            final(self).follows(old(self)),
            exists|seen: u32|
                final(self).accesses() == old(self).accesses() + #[trigger] fetch32(
                    old(self).at(EMMC_PSTATE_OFFSET),
                    seen,
                ) && ready == (seen & EMMC_CMD_INHIBIT == 0),
    {
        self.load32(EMMC_PSTATE_OFFSET) & EMMC_CMD_INHIBIT == 0
    }

    /// Whether the data lines are free for a command that uses them.
    ///
    /// One load of the register.
    pub fn emmc_cmd_data_is_ready(&mut self) -> (ready: bool)
        requires
            old(self).wf(),
        ensures
            final(self).wf(),
            final(self).follows(old(self)),
            exists|seen: u32|
                final(self).accesses() == old(self).accesses() + #[trigger] fetch32(
                    old(self).at(EMMC_PSTATE_OFFSET),
                    seen,
                ) && ready == (seen & EMMC_CMD_INHIBIT_DATA == 0),
    {
        self.load32(EMMC_PSTATE_OFFSET) & EMMC_CMD_INHIBIT_DATA == 0
    }

    /// Whether a data line is active.
    ///
    /// One load of the register.
    pub fn emmc_data_line_is_active(&mut self) -> (active: bool)
        requires
            old(self).wf(),
        ensures
            final(self).wf(),
            final(self).follows(old(self)),
            exists|seen: u32|
                final(self).accesses() == old(self).accesses() + #[trigger] fetch32(
                    old(self).at(EMMC_PSTATE_OFFSET),
                    seen,
                ) && active == (seen & EMMC_DATA_LINE_ACTIVE == EMMC_DATA_LINE_ACTIVE),
    {
        self.load32(EMMC_PSTATE_OFFSET) & EMMC_DATA_LINE_ACTIVE == EMMC_DATA_LINE_ACTIVE
    }

    /// The levels of the eight data lines, line 7 in the top bit.
    ///
    /// One load of the register.
    pub fn emmc_get_data_line_level(&mut self) -> (level: u8)
        requires
            old(self).wf(),
        ensures
            final(self).wf(),
            final(self).follows(old(self)),
            exists|seen: u32|
                final(self).accesses() == old(self).accesses() + #[trigger] fetch32(
                    old(self).at(EMMC_PSTATE_OFFSET),
                    seen,
                ) && level == data_line_level(seen),
    {
        let value = self.load32(EMMC_PSTATE_OFFSET);
        #[verifier::truncate]
        (((value & EMMC_DATA_LINE7_4_LEVEL) | ((value & EMMC_DATA_LINE3_0_LEVEL)
            >> EMMC_DATA_LINE3_0_LEVEL_POS)) as u8)
    }

    /// Whether a card is inserted.
    ///
    /// One load of the register.
    pub fn emmc_card_is_inserted(&mut self) -> (inserted: bool)
        requires
            old(self).wf(),
        ensures
            final(self).wf(),
            final(self).follows(old(self)),
            exists|seen: u32|
                final(self).accesses() == old(self).accesses() + #[trigger] fetch32(
                    old(self).at(EMMC_PSTATE_OFFSET),
                    seen,
                ) && inserted == (seen & EMMC_CARD_INSERTED == EMMC_CARD_INSERTED),
    {
        self.load32(EMMC_PSTATE_OFFSET) & EMMC_CARD_INSERTED == EMMC_CARD_INSERTED
    }

    /// Whether the card detect level is stable.
    ///
    /// One load of the register.
    pub fn emmc_card_is_stable(&mut self) -> (stable: bool)
        requires
            old(self).wf(),
        ensures
            final(self).wf(),
            final(self).follows(old(self)),
            exists|seen: u32|
                final(self).accesses() == old(self).accesses() + #[trigger] fetch32(
                    old(self).at(EMMC_PSTATE_OFFSET),
                    seen,
                ) && stable == (seen & EMMC_CARD_STABLE == EMMC_CARD_STABLE),
    {
        self.load32(EMMC_PSTATE_OFFSET) & EMMC_CARD_STABLE == EMMC_CARD_STABLE
    }
}

/// The table of this register holds together: the register lies at a multiple
/// of its width; the mask of every field is as many ones as the field is
/// wide, shifted to the field's position; and no two fields share a bit.
pub proof fn lemma_layout()
    by (bit_vector)
    ensures
        EMMC_PSTATE_OFFSET % 4 == 0,
        EMMC_CMD_INHIBIT_MASK as u64 == field_mask(
            EMMC_CMD_INHIBIT_POS as u64,
            EMMC_CMD_INHIBIT_WIDTH as u64,
        ),
        EMMC_CMD_INHIBIT_DATA_MASK as u64 == field_mask(
            EMMC_CMD_INHIBIT_DATA_POS as u64,
            EMMC_CMD_INHIBIT_DATA_WIDTH as u64,
        ),
        EMMC_DATA_LINE_ACTIVE_MASK as u64 == field_mask(
            EMMC_DATA_LINE_ACTIVE_POS as u64,
            EMMC_DATA_LINE_ACTIVE_WIDTH as u64,
        ),
        EMMC_DATA_LINE7_4_LEVEL_MASK as u64 == field_mask(
            EMMC_DATA_LINE7_4_LEVEL_POS as u64,
            EMMC_DATA_LINE7_4_LEVEL_WIDTH as u64,
        ),
        EMMC_CARD_INSERTED_MASK as u64 == field_mask(
            EMMC_CARD_INSERTED_POS as u64,
            EMMC_CARD_INSERTED_WIDTH as u64,
        ),
        EMMC_CARD_STABLE_MASK as u64 == field_mask(
            EMMC_CARD_STABLE_POS as u64,
            EMMC_CARD_STABLE_WIDTH as u64,
        ),
        EMMC_DATA_LINE3_0_LEVEL_MASK as u64 == field_mask(
            EMMC_DATA_LINE3_0_LEVEL_POS as u64,
            EMMC_DATA_LINE3_0_LEVEL_WIDTH as u64,
        ),
        EMMC_CMD_INHIBIT_MASK & EMMC_CMD_INHIBIT_DATA_MASK == 0,
        EMMC_CMD_INHIBIT_MASK & EMMC_DATA_LINE_ACTIVE_MASK == 0,
        EMMC_CMD_INHIBIT_MASK & EMMC_DATA_LINE7_4_LEVEL_MASK == 0,
        EMMC_CMD_INHIBIT_MASK & EMMC_CARD_INSERTED_MASK == 0,
        EMMC_CMD_INHIBIT_MASK & EMMC_CARD_STABLE_MASK == 0,
        EMMC_CMD_INHIBIT_MASK & EMMC_DATA_LINE3_0_LEVEL_MASK == 0,
        EMMC_CMD_INHIBIT_DATA_MASK & EMMC_DATA_LINE_ACTIVE_MASK == 0,
        EMMC_CMD_INHIBIT_DATA_MASK & EMMC_DATA_LINE7_4_LEVEL_MASK == 0,
        EMMC_CMD_INHIBIT_DATA_MASK & EMMC_CARD_INSERTED_MASK == 0,
        EMMC_CMD_INHIBIT_DATA_MASK & EMMC_CARD_STABLE_MASK == 0,
        EMMC_CMD_INHIBIT_DATA_MASK & EMMC_DATA_LINE3_0_LEVEL_MASK == 0,
        EMMC_DATA_LINE_ACTIVE_MASK & EMMC_DATA_LINE7_4_LEVEL_MASK == 0,
        EMMC_DATA_LINE_ACTIVE_MASK & EMMC_CARD_INSERTED_MASK == 0,
        EMMC_DATA_LINE_ACTIVE_MASK & EMMC_CARD_STABLE_MASK == 0,
        EMMC_DATA_LINE_ACTIVE_MASK & EMMC_DATA_LINE3_0_LEVEL_MASK == 0,
        EMMC_DATA_LINE7_4_LEVEL_MASK & EMMC_CARD_INSERTED_MASK == 0,
        EMMC_DATA_LINE7_4_LEVEL_MASK & EMMC_CARD_STABLE_MASK == 0,
        EMMC_DATA_LINE7_4_LEVEL_MASK & EMMC_DATA_LINE3_0_LEVEL_MASK == 0,
        EMMC_CARD_INSERTED_MASK & EMMC_CARD_STABLE_MASK == 0,
        EMMC_CARD_INSERTED_MASK & EMMC_DATA_LINE3_0_LEVEL_MASK == 0,
        EMMC_CARD_STABLE_MASK & EMMC_DATA_LINE3_0_LEVEL_MASK == 0,
{
}

} // verus!
