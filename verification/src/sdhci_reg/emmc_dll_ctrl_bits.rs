//! The control register of the delay-locked loop.
use vstd::prelude::*;
use crate::bits::field_mask;
use crate::mmio::Mmio;
use crate::mmio::clear_bits32;
use crate::mmio::fetch32;
use crate::mmio::put_field32;
use crate::mmio::set_bits32;
use crate::mmio::store32;
use crate::sdhci_reg::Reg;

verus! {

/// Offset of the register from the base of the window.
pub const EMMC_DLL_CTRL_OFFSET: u64 = 0x800;

/// Loop running: position of the lowest bit.
pub const EMMC_DLL_START_POS: u32 = 0;

/// Loop running: width in bits.
pub const EMMC_DLL_START_WIDTH: u32 = 1;

/// Loop running: mask.
pub const EMMC_DLL_START_MASK: u32 = 0x01 << EMMC_DLL_START_POS;

/// Loop running.
pub const EMMC_DLL_START: u32 = EMMC_DLL_START_MASK;

/// Soft reset of the loop: position of the lowest bit.
pub const EMMC_DLL_SRST_POS: u32 = 1;

/// Soft reset of the loop: width in bits.
pub const EMMC_DLL_SRST_WIDTH: u32 = 1;

/// Soft reset of the loop: mask.
pub const EMMC_DLL_SRST_MASK: u32 = 0x01 << EMMC_DLL_SRST_POS;

/// Soft reset of the loop.
pub const EMMC_DLL_SRST: u32 = EMMC_DLL_SRST_MASK;

/// Increment of the loop: position of the lowest bit.
pub const EMMC_DLL_INCRMENT_POS: u32 = 8;

/// Increment of the loop: width in bits.
pub const EMMC_DLL_INCRMENT_WIDTH: u32 = 8;

/// Increment of the loop: mask.
pub const EMMC_DLL_INCRMENT_MASK: u32 = 0xff << EMMC_DLL_INCRMENT_POS;

/// Increment of the loop.
pub const EMMC_DLL_INCRMENT: u32 = EMMC_DLL_INCRMENT_MASK;

/// Start point of the phase detection: position of the lowest bit.
pub const EMMC_DLL_START_POINT_POS: u32 = 16;

/// Start point of the phase detection: width in bits.
pub const EMMC_DLL_START_POINT_WIDTH: u32 = 8;

/// Start point of the phase detection: mask.
pub const EMMC_DLL_START_POINT_MASK: u32 = 0xff << EMMC_DLL_START_POINT_POS;

/// Start point of the phase detection.
pub const EMMC_DLL_START_POINT: u32 = EMMC_DLL_START_POINT_MASK;

/// Bypass mode select: position of the lowest bit.
pub const EMMC_DLL_BYPASS_POS: u32 = 24;

/// Bypass mode select: width in bits.
pub const EMMC_DLL_BYPASS_WIDTH: u32 = 8;

/// Bypass mode select: mask.
pub const EMMC_DLL_BYPASS_MASK: u32 = 0xff << EMMC_DLL_BYPASS_POS;

/// Bypass mode select.
pub const EMMC_DLL_BYPASS: u32 = EMMC_DLL_BYPASS_MASK;

impl<M: Mmio> Reg<M> {
    /// Loads the loop's control register.
    ///
    /// One load of the register.
    pub fn emmc_get_dll_ctrl(&mut self) -> (value: u32)
        requires
            old(self).wf(),
        ensures
            final(self).wf(),
            final(self).follows(old(self)),
            final(self).accesses() == old(self).accesses() + fetch32(
                old(self).at(EMMC_DLL_CTRL_OFFSET),
                value,
            ),
    {
        self.load32(EMMC_DLL_CTRL_OFFSET)
    }

    /// Stores `dll_ctrl` in the loop's control register.
    ///
    /// One store to the register.
    pub fn emmc_set_dll_ctrl(&mut self, dll_ctrl: u32)
        requires
            old(self).wf(),
        ensures
            final(self).wf(),
            final(self).follows(old(self)),
            final(self).accesses() == old(self).accesses() + store32(
                old(self).at(EMMC_DLL_CTRL_OFFSET),
                dll_ctrl,
            ),
    {
        self.store32(EMMC_DLL_CTRL_OFFSET, dll_ctrl);
    }

    /// Starts the loop.
    ///
    /// One load of the register, then one store.
    pub fn emmc_enable_dll_start(&mut self)
        requires
            old(self).wf(),
        ensures
            final(self).wf(),
            final(self).follows(old(self)),
            exists|seen: u32|
                final(self).accesses() == old(self).accesses() + #[trigger] set_bits32(
                    old(self).at(EMMC_DLL_CTRL_OFFSET),
                    seen,
                    EMMC_DLL_START,
                ),
    {
        self.raise32(EMMC_DLL_CTRL_OFFSET, EMMC_DLL_START);
    }

    /// Stops the loop.
    ///
    /// One load of the register, then one store.
    pub fn emmc_disable_dll_start(&mut self)
        requires
            old(self).wf(),
        ensures
            final(self).wf(),
            final(self).follows(old(self)),
            exists|seen: u32|
                final(self).accesses() == old(self).accesses() + #[trigger] clear_bits32(
                    old(self).at(EMMC_DLL_CTRL_OFFSET),
                    seen,
                    EMMC_DLL_START,
                ),
    {
        self.lower32(EMMC_DLL_CTRL_OFFSET, EMMC_DLL_START);
    }

    /// Starts a soft reset of the loop. The hardware clears the bit when the
    /// reset is done.
    ///
    /// One load of the register, then one store.
    pub fn emmc_reset_dll(&mut self)
        requires
            old(self).wf(),
        ensures
            final(self).wf(),
            final(self).follows(old(self)),
            exists|seen: u32|
                final(self).accesses() == old(self).accesses() + #[trigger] set_bits32(
                    old(self).at(EMMC_DLL_CTRL_OFFSET),
                    seen,
                    EMMC_DLL_SRST,
                ),
    {
        self.raise32(EMMC_DLL_CTRL_OFFSET, EMMC_DLL_SRST);
    }

    /// Whether the soft reset of the loop is done.
    ///
    /// One load of the register.
    pub fn emmc_dll_reset_is_finished(&mut self) -> (finished: bool)
        requires
            old(self).wf(),
        ensures
            final(self).wf(),
            final(self).follows(old(self)),
            exists|seen: u32|
                final(self).accesses() == old(self).accesses() + #[trigger] fetch32(
                    old(self).at(EMMC_DLL_CTRL_OFFSET),
                    seen,
                ) && finished == (seen & EMMC_DLL_SRST == 0),
    {
        self.load32(EMMC_DLL_CTRL_OFFSET) & EMMC_DLL_SRST == 0
    }

    /// Sets the loop's increment to `dll_incrment`. The number is shifted to
    /// the field's place and cut to its width.
    ///
    /// One load of the register, then one store.
    pub fn emmc_set_dll_incrment(&mut self, dll_incrment: u8)
        requires
            old(self).wf(),
        ensures
            final(self).wf(),
            final(self).follows(old(self)),
            exists|seen: u32|
                final(self).accesses() == old(self).accesses() + #[trigger] put_field32(
                    old(self).at(EMMC_DLL_CTRL_OFFSET),
                    seen,
                    EMMC_DLL_INCRMENT_MASK,
                    EMMC_DLL_INCRMENT_POS,
                    dll_incrment as u32,
                ),
    {
        self.place32(EMMC_DLL_CTRL_OFFSET, EMMC_DLL_INCRMENT_MASK, EMMC_DLL_INCRMENT_POS, dll_incrment as u32);
    }

    /// Sets the start point of the phase detection to `dll_start_point`. The
    /// number is shifted to the field's place and cut to its width.
    ///
    /// One load of the register, then one store.
    pub fn emmc_set_dll_start_point(&mut self, dll_start_point: u8)
        requires
            old(self).wf(),
        ensures
            final(self).wf(),
            final(self).follows(old(self)),
            exists|seen: u32|
                final(self).accesses() == old(self).accesses() + #[trigger] put_field32(
                    old(self).at(EMMC_DLL_CTRL_OFFSET),
                    seen,
                    EMMC_DLL_START_POINT_MASK,
                    EMMC_DLL_START_POINT_POS,
                    dll_start_point as u32,
                ),
    {
        self.place32(EMMC_DLL_CTRL_OFFSET, EMMC_DLL_START_POINT_MASK, EMMC_DLL_START_POINT_POS, dll_start_point as u32);
    }

    /// Selects bypass mode.
    ///
    /// One load of the register, then one store.
    pub fn emmc_enable_dll_bypass(&mut self)
        requires
            old(self).wf(),
        ensures
            final(self).wf(),
            final(self).follows(old(self)),
            exists|seen: u32|
                final(self).accesses() == old(self).accesses() + #[trigger] set_bits32(
                    old(self).at(EMMC_DLL_CTRL_OFFSET),
                    seen,
                    EMMC_DLL_BYPASS,
                ),
    {
        self.raise32(EMMC_DLL_CTRL_OFFSET, EMMC_DLL_BYPASS);
    }

    /// Leaves bypass mode.
    ///
    /// One load of the register, then one store.
    pub fn emmc_disable_dll_bypass(&mut self)
        requires
            old(self).wf(),
        ensures
            final(self).wf(),
            final(self).follows(old(self)),
            exists|seen: u32|
                final(self).accesses() == old(self).accesses() + #[trigger] clear_bits32(
                    old(self).at(EMMC_DLL_CTRL_OFFSET),
                    seen,
                    EMMC_DLL_BYPASS,
                ),
    {
        self.lower32(EMMC_DLL_CTRL_OFFSET, EMMC_DLL_BYPASS);
    }
}

/// The table of this register holds together: the register lies at a multiple
/// of its width; the mask of every field is as many ones as the field is
/// wide, shifted to the field's position; and no two fields share a bit.
pub proof fn lemma_layout()
    by (bit_vector)
    ensures
        EMMC_DLL_CTRL_OFFSET % 4 == 0,
        EMMC_DLL_START_MASK as u64 == field_mask(
            EMMC_DLL_START_POS as u64,
            EMMC_DLL_START_WIDTH as u64,
        ),
        EMMC_DLL_SRST_MASK as u64 == field_mask(
            EMMC_DLL_SRST_POS as u64,
            EMMC_DLL_SRST_WIDTH as u64,
        ),
        EMMC_DLL_INCRMENT_MASK as u64 == field_mask(
            EMMC_DLL_INCRMENT_POS as u64,
            EMMC_DLL_INCRMENT_WIDTH as u64,
        ),
        EMMC_DLL_START_POINT_MASK as u64 == field_mask(
            EMMC_DLL_START_POINT_POS as u64,
            EMMC_DLL_START_POINT_WIDTH as u64,
        ),
        EMMC_DLL_BYPASS_MASK as u64 == field_mask(
            EMMC_DLL_BYPASS_POS as u64,
            EMMC_DLL_BYPASS_WIDTH as u64,
        ),
        EMMC_DLL_START_MASK & EMMC_DLL_SRST_MASK == 0,
        EMMC_DLL_START_MASK & EMMC_DLL_INCRMENT_MASK == 0,
        EMMC_DLL_START_MASK & EMMC_DLL_START_POINT_MASK == 0,
        EMMC_DLL_START_MASK & EMMC_DLL_BYPASS_MASK == 0,
        EMMC_DLL_SRST_MASK & EMMC_DLL_INCRMENT_MASK == 0,
        EMMC_DLL_SRST_MASK & EMMC_DLL_START_POINT_MASK == 0,
        EMMC_DLL_SRST_MASK & EMMC_DLL_BYPASS_MASK == 0,
        EMMC_DLL_INCRMENT_MASK & EMMC_DLL_START_POINT_MASK == 0,
        EMMC_DLL_INCRMENT_MASK & EMMC_DLL_BYPASS_MASK == 0,
        EMMC_DLL_START_POINT_MASK & EMMC_DLL_BYPASS_MASK == 0,
{
}

} // verus!
