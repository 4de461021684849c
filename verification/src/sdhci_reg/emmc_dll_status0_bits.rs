//! Status register 0 of the delay-locked loop: whether and where it has
//! locked.
use vstd::prelude::*;
use crate::bits::field_mask;
use crate::mmio::Mmio;
use crate::mmio::fetch32;
use crate::sdhci_reg::Reg;

verus! {

/// Offset of the register from the base of the window.
pub const EMMC_DLL_STATUS0_OFFSET: u64 = 0x840;

/// Value at which the loop locked: position of the lowest bit.
pub const EMMC_DLL_LOCK_VALUE_POS: u32 = 0;

/// Value at which the loop locked: width in bits.
pub const EMMC_DLL_LOCK_VALUE_WIDTH: u32 = 8;

/// Value at which the loop locked: mask.
pub const EMMC_DLL_LOCK_VALUE_MASK: u32 = 0xff << EMMC_DLL_LOCK_VALUE_POS;

/// Value at which the loop locked.
pub const EMMC_DLL_LOCK_VALUE: u32 = EMMC_DLL_LOCK_VALUE_MASK;

/// Loop locked: position of the lowest bit.
pub const EMMC_DLL_LOCK_POS: u32 = 8;

/// Loop locked: width in bits.
pub const EMMC_DLL_LOCK_WIDTH: u32 = 1;

/// Loop locked: mask.
pub const EMMC_DLL_LOCK_MASK: u32 = 0x01 << EMMC_DLL_LOCK_POS;

/// Loop locked.
pub const EMMC_DLL_LOCK: u32 = EMMC_DLL_LOCK_MASK;

/// Loop gave up locking: position of the lowest bit.
pub const EMMC_DLL_LOCK_TIMEOUT_POS: u32 = 9;

/// Loop gave up locking: width in bits.
pub const EMMC_DLL_LOCK_TIMEOUT_WIDTH: u32 = 1;

/// Loop gave up locking: mask.
pub const EMMC_DLL_LOCK_TIMEOUT_MASK: u32 = 0x01 << EMMC_DLL_LOCK_TIMEOUT_POS;

/// Loop gave up locking.
pub const EMMC_DLL_LOCK_TIMEOUT: u32 = EMMC_DLL_LOCK_TIMEOUT_MASK;

impl<M: Mmio> Reg<M> {
    /// Loads status register 0 of the loop.
    ///
    /// One load of the register.
    pub fn emmc_get_dll_status0(&mut self) -> (value: u32)
        requires
            old(self).wf(),
        ensures
            final(self).wf(),
            final(self).follows(old(self)),
            final(self).accesses() == old(self).accesses() + fetch32(
                old(self).at(EMMC_DLL_STATUS0_OFFSET),
                value,
            ),
    {
        self.load32(EMMC_DLL_STATUS0_OFFSET)
    }

    /// The value at which the loop locked.
    ///
    /// One load of the register.
    pub fn emmc_get_dll_lock_value(&mut self) -> (value: u32)
        requires
            old(self).wf(),
        ensures
            final(self).wf(),
            final(self).follows(old(self)),
            exists|seen: u32|
                final(self).accesses() == old(self).accesses() + #[trigger] fetch32(
                    old(self).at(EMMC_DLL_STATUS0_OFFSET),
                    seen,
                ) && value == (seen & EMMC_DLL_LOCK_VALUE) >> EMMC_DLL_LOCK_VALUE_POS,
    {
        (self.load32(EMMC_DLL_STATUS0_OFFSET) & EMMC_DLL_LOCK_VALUE) >> EMMC_DLL_LOCK_VALUE_POS
    }

    /// Whether the loop has locked.
    ///
    /// One load of the register.
    pub fn emmc_dll_is_locked(&mut self) -> (locked: bool)
        requires
            old(self).wf(),
        ensures
            final(self).wf(),
            final(self).follows(old(self)),
            exists|seen: u32|
                final(self).accesses() == old(self).accesses() + #[trigger] fetch32(
                    old(self).at(EMMC_DLL_STATUS0_OFFSET),
                    seen,
                ) && locked == (seen & EMMC_DLL_LOCK == EMMC_DLL_LOCK),
    {
        self.load32(EMMC_DLL_STATUS0_OFFSET) & EMMC_DLL_LOCK == EMMC_DLL_LOCK
    }

    /// Whether the loop gave up locking.
    ///
    /// One load of the register.
    pub fn emmc_dll_lock_is_timeout(&mut self) -> (timeout: bool)
        requires
            old(self).wf(),
        ensures
            final(self).wf(),
            final(self).follows(old(self)),
            exists|seen: u32|
                final(self).accesses() == old(self).accesses() + #[trigger] fetch32(
                    old(self).at(EMMC_DLL_STATUS0_OFFSET),
                    seen,
                ) && timeout == (seen & EMMC_DLL_LOCK_TIMEOUT == EMMC_DLL_LOCK_TIMEOUT),
    {
        self.load32(EMMC_DLL_STATUS0_OFFSET) & EMMC_DLL_LOCK_TIMEOUT == EMMC_DLL_LOCK_TIMEOUT
    }
}

/// The table of this register holds together: the register lies at a multiple
/// of its width; the mask of every field is as many ones as the field is
/// wide, shifted to the field's position; and no two fields share a bit.
pub proof fn lemma_layout()
    by (bit_vector)
    ensures
        EMMC_DLL_STATUS0_OFFSET % 4 == 0,
        EMMC_DLL_LOCK_VALUE_MASK as u64 == field_mask(
            EMMC_DLL_LOCK_VALUE_POS as u64,
            EMMC_DLL_LOCK_VALUE_WIDTH as u64,
        ),
        EMMC_DLL_LOCK_MASK as u64 == field_mask(
            EMMC_DLL_LOCK_POS as u64,
            EMMC_DLL_LOCK_WIDTH as u64,
        ),
        EMMC_DLL_LOCK_TIMEOUT_MASK as u64 == field_mask(
            EMMC_DLL_LOCK_TIMEOUT_POS as u64,
            EMMC_DLL_LOCK_TIMEOUT_WIDTH as u64,
        ),
        EMMC_DLL_LOCK_VALUE_MASK & EMMC_DLL_LOCK_MASK == 0,
        EMMC_DLL_LOCK_VALUE_MASK & EMMC_DLL_LOCK_TIMEOUT_MASK == 0,
        EMMC_DLL_LOCK_MASK & EMMC_DLL_LOCK_TIMEOUT_MASK == 0,
{
}

} // verus!
