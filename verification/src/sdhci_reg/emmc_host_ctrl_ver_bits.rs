//! The host controller version register.
use vstd::prelude::*;
use crate::bits::field_mask;
use crate::mmio::Mmio;
use crate::mmio::fetch16;
use crate::sdhci_reg::Reg;

verus! {

/// Offset of the register from the base of the window.
pub const EMMC_HOST_CTRL_VER_OFFSET: u64 = 0xfe;

/// Number of the specification version: position of the lowest bit.
pub const EMMC_SPEC_VERSION_POS: u16 = 0;

/// Number of the specification version: width in bits.
pub const EMMC_SPEC_VERSION_WIDTH: u16 = 8;

/// Number of the specification version: mask.
pub const EMMC_SPEC_VERSION_MASK: u16 = 0xff << EMMC_SPEC_VERSION_POS;

/// Number of the specification version.
pub const EMMC_SPEC_VERSION: u16 = EMMC_SPEC_VERSION_MASK;

/// Version 1.00, as the number of the field: what the setter of the field takes.
pub const EMMC_SPEC_VERSION_V100_NUM: u16 = 0x00;

/// Version 1.00, in place: what stands in the register.
pub const EMMC_SPEC_VERSION_V100: u16 = 0x00 << EMMC_SPEC_VERSION_POS;

/// Version 2.00, as the number of the field: what the setter of the field takes.
pub const EMMC_SPEC_VERSION_V200_NUM: u16 = 0x01;

/// Version 2.00, in place: what stands in the register.
pub const EMMC_SPEC_VERSION_V200: u16 = 0x01 << EMMC_SPEC_VERSION_POS;

/// Version 3.00, as the number of the field: what the setter of the field takes.
pub const EMMC_SPEC_VERSION_V300_NUM: u16 = 0x02;

/// Version 3.00, in place: what stands in the register.
pub const EMMC_SPEC_VERSION_V300: u16 = 0x02 << EMMC_SPEC_VERSION_POS;

/// Version 4.00, as the number of the field: what the setter of the field takes.
pub const EMMC_SPEC_VERSION_V400_NUM: u16 = 0x03;

/// Version 4.00, in place: what stands in the register.
pub const EMMC_SPEC_VERSION_V400: u16 = 0x03 << EMMC_SPEC_VERSION_POS;

/// Version 4.10, as the number of the field: what the setter of the field takes.
pub const EMMC_SPEC_VERSION_V410_NUM: u16 = 0x04;

/// Version 4.10, in place: what stands in the register.
pub const EMMC_SPEC_VERSION_V410: u16 = 0x04 << EMMC_SPEC_VERSION_POS;

/// Version 4.20, as the number of the field: what the setter of the field takes.
pub const EMMC_SPEC_VERSION_V420_NUM: u16 = 0x05;

/// Version 4.20, in place: what stands in the register.
pub const EMMC_SPEC_VERSION_V420: u16 = 0x05 << EMMC_SPEC_VERSION_POS;

/// Number of the vendor version: position of the lowest bit.
pub const EMMC_VENDOR_VERSION_POS: u16 = 8;

/// Number of the vendor version: width in bits.
pub const EMMC_VENDOR_VERSION_WIDTH: u16 = 8;

/// Number of the vendor version: mask.
pub const EMMC_VENDOR_VERSION_MASK: u16 = 0xff << EMMC_VENDOR_VERSION_POS;

/// Number of the vendor version.
pub const EMMC_VENDOR_VERSION: u16 = EMMC_VENDOR_VERSION_MASK;

impl<M: Mmio> Reg<M> {
    /// Loads the host controller version register.
    ///
    /// One load of the register.
    pub fn emmc_get_host_ctrl_ver(&mut self) -> (value: u16)
        requires
            old(self).wf(),
        ensures
            final(self).wf(),
            final(self).follows(old(self)),
            final(self).accesses() == old(self).accesses() + fetch16(
                old(self).at(EMMC_HOST_CTRL_VER_OFFSET),
                value,
            ),
    {
        self.load16(EMMC_HOST_CTRL_VER_OFFSET)
    }

    /// The number of the specification version.
    ///
    /// One load of the register.
    pub fn emmc_get_spec_version(&mut self) -> (value: u16)
        requires
            old(self).wf(),
        ensures
            final(self).wf(),
            final(self).follows(old(self)),
            exists|seen: u16|
                final(self).accesses() == old(self).accesses() + #[trigger] fetch16(
                    old(self).at(EMMC_HOST_CTRL_VER_OFFSET),
                    seen,
                ) && value == (seen & EMMC_SPEC_VERSION) >> EMMC_SPEC_VERSION_POS,
    {
        (self.load16(EMMC_HOST_CTRL_VER_OFFSET) & EMMC_SPEC_VERSION) >> EMMC_SPEC_VERSION_POS
    }

    /// The number of the vendor version.
    ///
    /// One load of the register.
    pub fn emmc_get_vendor_version(&mut self) -> (value: u16)
        requires
            old(self).wf(),
        ensures
            final(self).wf(),
            final(self).follows(old(self)),
            exists|seen: u16|
                final(self).accesses() == old(self).accesses() + #[trigger] fetch16(
                    old(self).at(EMMC_HOST_CTRL_VER_OFFSET),
                    seen,
                ) && value == (seen & EMMC_VENDOR_VERSION) >> EMMC_VENDOR_VERSION_POS,
    {
        (self.load16(EMMC_HOST_CTRL_VER_OFFSET) & EMMC_VENDOR_VERSION) >> EMMC_VENDOR_VERSION_POS
    }
}

/// The table of this register holds together: the register lies at a multiple
/// of its width; the mask of every field is as many ones as the field is
/// wide, shifted to the field's position; every named value lies within its
/// field, and is what the setter of the field puts there when it is handed
/// the value's number; and no two fields share a bit.
pub proof fn lemma_layout()
    by (bit_vector)
    ensures
        EMMC_HOST_CTRL_VER_OFFSET % 2 == 0,
        EMMC_SPEC_VERSION_MASK as u64 == field_mask(
            EMMC_SPEC_VERSION_POS as u64,
            EMMC_SPEC_VERSION_WIDTH as u64,
        ),
        EMMC_VENDOR_VERSION_MASK as u64 == field_mask(
            EMMC_VENDOR_VERSION_POS as u64,
            EMMC_VENDOR_VERSION_WIDTH as u64,
        ),
        EMMC_SPEC_VERSION_V100 & !EMMC_SPEC_VERSION_MASK == 0,
        (EMMC_SPEC_VERSION_V100_NUM << EMMC_SPEC_VERSION_POS) & EMMC_SPEC_VERSION_MASK == EMMC_SPEC_VERSION_V100,
        EMMC_SPEC_VERSION_V200 & !EMMC_SPEC_VERSION_MASK == 0,
        (EMMC_SPEC_VERSION_V200_NUM << EMMC_SPEC_VERSION_POS) & EMMC_SPEC_VERSION_MASK == EMMC_SPEC_VERSION_V200,
        EMMC_SPEC_VERSION_V300 & !EMMC_SPEC_VERSION_MASK == 0,
        (EMMC_SPEC_VERSION_V300_NUM << EMMC_SPEC_VERSION_POS) & EMMC_SPEC_VERSION_MASK == EMMC_SPEC_VERSION_V300,
        EMMC_SPEC_VERSION_V400 & !EMMC_SPEC_VERSION_MASK == 0,
        (EMMC_SPEC_VERSION_V400_NUM << EMMC_SPEC_VERSION_POS) & EMMC_SPEC_VERSION_MASK == EMMC_SPEC_VERSION_V400,
        EMMC_SPEC_VERSION_V410 & !EMMC_SPEC_VERSION_MASK == 0,
        (EMMC_SPEC_VERSION_V410_NUM << EMMC_SPEC_VERSION_POS) & EMMC_SPEC_VERSION_MASK == EMMC_SPEC_VERSION_V410,
        EMMC_SPEC_VERSION_V420 & !EMMC_SPEC_VERSION_MASK == 0,
        (EMMC_SPEC_VERSION_V420_NUM << EMMC_SPEC_VERSION_POS) & EMMC_SPEC_VERSION_MASK == EMMC_SPEC_VERSION_V420,
        EMMC_SPEC_VERSION_MASK & EMMC_VENDOR_VERSION_MASK == 0,
{
}

} // verus!
