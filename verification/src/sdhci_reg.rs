//! The register access layer: one handle over the controller's register
//! window, with a named operation for every register and field.
use vstd::prelude::*;
use crate::bits::field_mask;
use crate::mmio::Access;
use crate::mmio::clear_bits16;
use crate::mmio::clear_bits32;
use crate::mmio::clear_bits8;
use crate::mmio::fetch16;
use crate::mmio::fetch32;
use crate::mmio::fetch8;
use crate::mmio::Mmio;
use crate::mmio::put_field16;
use crate::mmio::put_field32;
use crate::mmio::put_field8;
use crate::mmio::set_bits16;
use crate::mmio::set_bits32;
use crate::mmio::set_bits8;
use crate::mmio::store16;
use crate::mmio::store32;
use crate::mmio::store8;

pub mod emmc_argument_bits;
pub mod emmc_cmd_bits;
pub mod emmc_resp01_bits;
pub mod emmc_resp23_bits;
pub mod emmc_resp45_bits;
pub mod emmc_resp67_bits;
pub mod emmc_pstate_bits;
pub mod emmc_host_ctrl1_bits;
pub mod emmc_pwr_ctrl_bits;
pub mod emmc_clk_ctrl_bits;
pub mod emmc_sw_rst_bits;
pub mod emmc_normal_int_stat_bits;
pub mod emmc_error_int_stat_bits;
pub mod emmc_normal_int_en_bits;
pub mod emmc_error_int_en_bits;
pub mod emmc_normal_int_sig_en_bits;
pub mod emmc_error_int_sig_en_bits;
pub mod emmc_adma_id_bits;
pub mod emmc_slot_int_status_bits;
pub mod emmc_host_ctrl_ver_bits;
pub mod emmc_ver_id_bits;
pub mod emmc_ver_type_bits;
pub mod emmc_host_ctrl3_bits;
pub mod emmc_dll_ctrl_bits;
pub mod emmc_dll_rxclk_bits;
pub mod emmc_dll_txclk_bits;
pub mod emmc_dll_strbin_bits;
pub mod emmc_dll_status0_bits;
pub mod emmc_dll_status1_bits;

verus! {

/// Bytes from the base of the window to the end of its last register.
pub const EMMC_WINDOW_SPAN: u64 = 0x848;

/// Handle on the controller's registers.
///
/// It owns the base address of the window and the bus that reaches it, and
/// nothing else: all state is in the hardware. Beside them it keeps, as ghost
/// state, the list of every access it has issued. The contract of each
/// operation says which accesses the operation adds to that list: their
/// widths, their addresses, their order, and what is stored as a function of
/// what was loaded. What a load returns is up to the hardware; where a
/// contract needs a name for it, it says that there is such a value.
///
/// The list is tied to the bus. Where the bus keeps a record of its own, that
/// record is what the bus had seen when the handle was made, followed by the
/// handle's list: whatever a contract says was issued, the bus has seen.
///
/// An operation takes the handle by exclusive reference: a read-modify-write
/// is two accesses, and nothing else may reach the register between them.
pub struct Reg<M: Mmio> {
    base_addr: u64,
    io: M,
    trace: Ghost<Seq<Access>>,
    before: Ghost<Seq<Access>>,
}

impl<M: Mmio> Reg<M> {
    /// Base address of the register window.
    pub closed spec fn base(&self) -> u64 {
        self.base_addr
    }

    /// Every access issued through this handle so far, oldest first.
    pub closed spec fn accesses(&self) -> Seq<Access> {
        self.trace@
    }

    /// The bus behind the handle.
    pub closed spec fn bus(&self) -> M {
        self.io
    }

    /// What the bus had recorded when the handle was made.
    pub closed spec fn prior(&self) -> Seq<Access> {
        self.before@
    }

    /// Where the bus keeps a record, the record is what it had recorded
    /// before, followed by every access issued through the handle.
    pub open spec fn tied(&self) -> bool {
        self.bus().records() ==> self.bus().seen() == self.prior() + self.accesses()
    }

    /// The whole window lies within the address space, and the handle's list
    /// of accesses is the bus's.
    pub open spec fn wf(&self) -> bool {
        &&& self.base() <= u64::MAX - (EMMC_WINDOW_SPAN - 1)
        &&& self.tied()
    }

    /// The handle is the one that `before` was: on the same window, on a bus
    /// that still keeps a record if it did, with the same start of its list.
    pub open spec fn follows(&self, before: &Self) -> bool {
        &&& self.base() == before.base()
        &&& self.prior() == before.prior()
        &&& self.bus().records() == before.bus().records()
    }

    /// Address of the register `offset` bytes into the window.
    pub open spec fn at(&self, offset: u64) -> u64 {
        (self.base() + offset) as u64
    }

    /// What the handle has issued, the bus has seen. For a handle on a bus
    /// that keeps a record: when an operation has taken the handle from
    /// `before` to `self` and added `issued` to its list, the bus has
    /// recorded exactly `issued` since.
    pub proof fn lemma_bus_has_seen(&self, before: &Self, issued: Seq<Access>)
        requires
            before.wf(),
            self.wf(),
            self.follows(before),
            self.accesses() == before.accesses() + issued,
            before.bus().records(),
        ensures
            self.bus().records(),
            self.bus().seen() == before.bus().seen() + issued,
    {
        assert(self.prior() + (before.accesses() + issued) =~= (before.prior()
            + before.accesses()) + issued);
    }

    /// A handle on the window at `base_addr`, reached through `io`.
    pub fn new(base_addr: u64, io: M) -> (reg: Self)
        requires
            base_addr <= u64::MAX - (EMMC_WINDOW_SPAN - 1),
        ensures
            reg.wf(),
            reg.base() == base_addr,
            reg.bus() == io,
            reg.prior() == io.seen(),
            reg.accesses() == Seq::<Access>::empty(),
    {
        let ghost before = io.seen();
        let reg = Reg { base_addr, io, trace: Ghost(Seq::empty()), before: Ghost(before) };
        assert(reg.prior() + reg.accesses() =~= io.seen());
        reg
    }

    /// The bus, to look at.
    pub fn io(&self) -> (io: &M)
        ensures
            *io == self.bus(),
    {
        &self.io
    }

    /// Gives the bus back.
    pub fn into_io(self) -> (io: M)
        ensures
            io == self.bus(),
    {
        self.io
    }

    /// One 32-bit load at `addr`, noted in the record. No other code of the
    /// handle loads 32 bits from the bus.
    fn read_reg(&mut self, addr: u64) -> (value: u32)
        requires
            old(self).tied(),
        ensures
            final(self).tied(),
            final(self).follows(old(self)),
            final(self).accesses() == old(self).accesses() + fetch32(addr, value),
    {
        let value = self.io.read32(addr);
        proof {
            self.trace@ = self.trace@ + fetch32(addr, value);
            assert(self.prior() + self.accesses() =~= (old(self).prior() + old(self).accesses())
                + fetch32(addr, value));
        }
        value
    }

    /// One 32-bit store at `addr`, noted in the record. No other code of the
    /// handle stores 32 bits to the bus.
    fn write_reg(&mut self, addr: u64, value: u32)
        requires
            old(self).tied(),
        ensures
            final(self).tied(),
            final(self).follows(old(self)),
            final(self).accesses() == old(self).accesses() + store32(addr, value),
    {
        self.io.write32(addr, value);
        proof {
            self.trace@ = self.trace@ + store32(addr, value);
            assert(self.prior() + self.accesses() =~= (old(self).prior() + old(self).accesses())
                + store32(addr, value));
        }
    }

    /// One 16-bit load at `addr`, noted in the record. No other code of the
    /// handle loads 16 bits from the bus.
    fn read_reg16(&mut self, addr: u64) -> (value: u16)
        requires
            old(self).tied(),
        ensures
            final(self).tied(),
            final(self).follows(old(self)),
            final(self).accesses() == old(self).accesses() + fetch16(addr, value),
    {
        let value = self.io.read16(addr);
        proof {
            self.trace@ = self.trace@ + fetch16(addr, value);
            assert(self.prior() + self.accesses() =~= (old(self).prior() + old(self).accesses())
                + fetch16(addr, value));
        }
        value
    }

    /// One 16-bit store at `addr`, noted in the record. No other code of the
    /// handle stores 16 bits to the bus.
    fn write_reg16(&mut self, addr: u64, value: u16)
        requires
            old(self).tied(),
        ensures
            final(self).tied(),
            final(self).follows(old(self)),
            final(self).accesses() == old(self).accesses() + store16(addr, value),
    {
        self.io.write16(addr, value);
        proof {
            self.trace@ = self.trace@ + store16(addr, value);
            assert(self.prior() + self.accesses() =~= (old(self).prior() + old(self).accesses())
                + store16(addr, value));
        }
    }

    /// One 8-bit load at `addr`, noted in the record. No other code of the
    /// handle loads 8 bits from the bus.
    fn read_reg8(&mut self, addr: u64) -> (value: u8)
        requires
            old(self).tied(),
        ensures
            final(self).tied(),
            final(self).follows(old(self)),
            final(self).accesses() == old(self).accesses() + fetch8(addr, value),
    {
        let value = self.io.read8(addr);
        proof {
            self.trace@ = self.trace@ + fetch8(addr, value);
            assert(self.prior() + self.accesses() =~= (old(self).prior() + old(self).accesses())
                + fetch8(addr, value));
        }
        value
    }

    /// One 8-bit store at `addr`, noted in the record. No other code of the
    /// handle stores 8 bits to the bus.
    fn write_reg8(&mut self, addr: u64, value: u8)
        requires
            old(self).tied(),
        ensures
            final(self).tied(),
            final(self).follows(old(self)),
            final(self).accesses() == old(self).accesses() + store8(addr, value),
    {
        self.io.write8(addr, value);
        proof {
            self.trace@ = self.trace@ + store8(addr, value);
            assert(self.prior() + self.accesses() =~= (old(self).prior() + old(self).accesses())
                + store8(addr, value));
        }
    }

    /// One load of the register at `offset`.
    fn load8(&mut self, offset: u64) -> (value: u8)
        requires
            old(self).wf(),
            offset < EMMC_WINDOW_SPAN,
        ensures
            final(self).wf(),
            final(self).follows(old(self)),
            final(self).accesses() == old(self).accesses() + fetch8(old(self).at(offset), value),
    {
        let addr = self.base_addr + offset;
        self.read_reg8(addr)
    }

    /// One store to the register at `offset`.
    fn store8(&mut self, offset: u64, value: u8)
        requires
            old(self).wf(),
            offset < EMMC_WINDOW_SPAN,
        ensures
            final(self).wf(),
            final(self).follows(old(self)),
            final(self).accesses() == old(self).accesses() + store8(old(self).at(offset), value),
    {
        let addr = self.base_addr + offset;
        self.write_reg8(addr, value);
    }

    /// Read-modify-write of the register at `offset` that turns the bits of
    /// `mask` on.
    fn raise8(&mut self, offset: u64, mask: u8)
        requires
            old(self).wf(),
            offset < EMMC_WINDOW_SPAN,
        ensures
            final(self).wf(),
            final(self).follows(old(self)),
            exists|seen: u8|
                final(self).accesses() == old(self).accesses() + #[trigger] set_bits8(
                    old(self).at(offset),
                    seen,
                    mask,
                ),
    {
        let addr = self.base_addr + offset;
        let seen = self.read_reg8(addr);
        self.write_reg8(addr, seen | mask);
        assert(self.accesses() == old(self).accesses() + set_bits8(old(self).at(offset), seen, mask));
    }

    /// Read-modify-write of the register at `offset` that turns the bits of
    /// `mask` off.
    fn lower8(&mut self, offset: u64, mask: u8)
        requires
            old(self).wf(),
            offset < EMMC_WINDOW_SPAN,
        ensures
            final(self).wf(),
            final(self).follows(old(self)),
            exists|seen: u8|
                final(self).accesses() == old(self).accesses() + #[trigger] clear_bits8(
                    old(self).at(offset),
                    seen,
                    mask,
                ),
    {
        let addr = self.base_addr + offset;
        let seen = self.read_reg8(addr);
        self.write_reg8(addr, seen & !mask);
        assert(self.accesses() == old(self).accesses() + clear_bits8(old(self).at(offset), seen, mask));
    }

    /// Read-modify-write of the register at `offset` that replaces the field
    /// under `mask`, whose lowest bit is bit `pos`, by `value`.
    fn place8(&mut self, offset: u64, mask: u8, pos: u8, value: u8)
        requires
            old(self).wf(),
            offset < EMMC_WINDOW_SPAN,
            pos < 8,
        ensures
            final(self).wf(),
            final(self).follows(old(self)),
            exists|seen: u8|
                final(self).accesses() == old(self).accesses() + #[trigger] put_field8(
                    old(self).at(offset),
                    seen,
                    mask,
                    pos,
                    value,
                ),
    {
        let addr = self.base_addr + offset;
        let seen = self.read_reg8(addr);
        self.write_reg8(addr, (seen & !mask) | ((value << pos) & mask));
        assert(self.accesses() == old(self).accesses() + put_field8(
            old(self).at(offset),
            seen,
            mask,
            pos,
            value,
        ));
    }

    /// One load of the register at `offset`.
    fn load16(&mut self, offset: u64) -> (value: u16)
        requires
            old(self).wf(),
            offset < EMMC_WINDOW_SPAN,
        ensures
            final(self).wf(),
            final(self).follows(old(self)),
            final(self).accesses() == old(self).accesses() + fetch16(old(self).at(offset), value),
    {
        let addr = self.base_addr + offset;
        self.read_reg16(addr)
    }

    /// One store to the register at `offset`.
    fn store16(&mut self, offset: u64, value: u16)
        requires
            old(self).wf(),
            offset < EMMC_WINDOW_SPAN,
        ensures
            final(self).wf(),
            final(self).follows(old(self)),
            final(self).accesses() == old(self).accesses() + store16(old(self).at(offset), value),
    {
        let addr = self.base_addr + offset;
        self.write_reg16(addr, value);
    }

    /// Read-modify-write of the register at `offset` that turns the bits of
    /// `mask` on.
    fn raise16(&mut self, offset: u64, mask: u16)
        requires
            old(self).wf(),
            offset < EMMC_WINDOW_SPAN,
        ensures
            final(self).wf(),
            final(self).follows(old(self)),
            exists|seen: u16|
                final(self).accesses() == old(self).accesses() + #[trigger] set_bits16(
                    old(self).at(offset),
                    seen,
                    mask,
                ),
    {
        let addr = self.base_addr + offset;
        let seen = self.read_reg16(addr);
        self.write_reg16(addr, seen | mask);
        assert(self.accesses() == old(self).accesses() + set_bits16(old(self).at(offset), seen, mask));
    }

    /// Read-modify-write of the register at `offset` that turns the bits of
    /// `mask` off.
    fn lower16(&mut self, offset: u64, mask: u16)
        requires
            old(self).wf(),
            offset < EMMC_WINDOW_SPAN,
        ensures
            final(self).wf(),
            final(self).follows(old(self)),
            exists|seen: u16|
                final(self).accesses() == old(self).accesses() + #[trigger] clear_bits16(
                    old(self).at(offset),
                    seen,
                    mask,
                ),
    {
        let addr = self.base_addr + offset;
        let seen = self.read_reg16(addr);
        self.write_reg16(addr, seen & !mask);
        assert(self.accesses() == old(self).accesses() + clear_bits16(old(self).at(offset), seen, mask));
    }

    /// Read-modify-write of the register at `offset` that replaces the field
    /// under `mask`, whose lowest bit is bit `pos`, by `value`.
    fn place16(&mut self, offset: u64, mask: u16, pos: u16, value: u16)
        requires
            old(self).wf(),
            offset < EMMC_WINDOW_SPAN,
            pos < 16,
        ensures
            final(self).wf(),
            final(self).follows(old(self)),
            exists|seen: u16|
                final(self).accesses() == old(self).accesses() + #[trigger] put_field16(
                    old(self).at(offset),
                    seen,
                    mask,
                    pos,
                    value,
                ),
    {
        let addr = self.base_addr + offset;
        let seen = self.read_reg16(addr);
        self.write_reg16(addr, (seen & !mask) | ((value << pos) & mask));
        assert(self.accesses() == old(self).accesses() + put_field16(
            old(self).at(offset),
            seen,
            mask,
            pos,
            value,
        ));
    }

    /// One load of the register at `offset`.
    fn load32(&mut self, offset: u64) -> (value: u32)
        requires
            old(self).wf(),
            offset < EMMC_WINDOW_SPAN,
        ensures
            final(self).wf(),
            final(self).follows(old(self)),
            final(self).accesses() == old(self).accesses() + fetch32(old(self).at(offset), value),
    {
        let addr = self.base_addr + offset;
        self.read_reg(addr)
    }

    /// One store to the register at `offset`.
    fn store32(&mut self, offset: u64, value: u32)
        requires
            old(self).wf(),
            offset < EMMC_WINDOW_SPAN,
        ensures
            final(self).wf(),
            final(self).follows(old(self)),
            final(self).accesses() == old(self).accesses() + store32(old(self).at(offset), value),
    {
        let addr = self.base_addr + offset;
        self.write_reg(addr, value);
    }

    /// Read-modify-write of the register at `offset` that turns the bits of
    /// `mask` on.
    fn raise32(&mut self, offset: u64, mask: u32)
        requires
            old(self).wf(),
            offset < EMMC_WINDOW_SPAN,
        ensures
            final(self).wf(),
            final(self).follows(old(self)),
            exists|seen: u32|
                final(self).accesses() == old(self).accesses() + #[trigger] set_bits32(
                    old(self).at(offset),
                    seen,
                    mask,
                ),
    {
        let addr = self.base_addr + offset;
        let seen = self.read_reg(addr);
        self.write_reg(addr, seen | mask);
        assert(self.accesses() == old(self).accesses() + set_bits32(old(self).at(offset), seen, mask));
    }

    /// Read-modify-write of the register at `offset` that turns the bits of
    /// `mask` off.
    fn lower32(&mut self, offset: u64, mask: u32)
        requires
            old(self).wf(),
            offset < EMMC_WINDOW_SPAN,
        ensures
            final(self).wf(),
            final(self).follows(old(self)),
            exists|seen: u32|
                final(self).accesses() == old(self).accesses() + #[trigger] clear_bits32(
                    old(self).at(offset),
                    seen,
                    mask,
                ),
    {
        let addr = self.base_addr + offset;
        let seen = self.read_reg(addr);
        self.write_reg(addr, seen & !mask);
        assert(self.accesses() == old(self).accesses() + clear_bits32(old(self).at(offset), seen, mask));
    }

    /// Read-modify-write of the register at `offset` that replaces the field
    /// under `mask`, whose lowest bit is bit `pos`, by `value`.
    fn place32(&mut self, offset: u64, mask: u32, pos: u32, value: u32)
        requires
            old(self).wf(),
            offset < EMMC_WINDOW_SPAN,
            pos < 32,
        ensures
            final(self).wf(),
            final(self).follows(old(self)),
            exists|seen: u32|
                final(self).accesses() == old(self).accesses() + #[trigger] put_field32(
                    old(self).at(offset),
                    seen,
                    mask,
                    pos,
                    value,
                ),
    {
        let addr = self.base_addr + offset;
        let seen = self.read_reg(addr);
        self.write_reg(addr, (seen & !mask) | ((value << pos) & mask));
        assert(self.accesses() == old(self).accesses() + put_field32(
            old(self).at(offset),
            seen,
            mask,
            pos,
            value,
        ));
    }
}

/// Every register that is a single field: the register, where it is wider
/// than a byte, lies at a multiple of its width, and the mask of the field is as many ones as the field is
/// wide, shifted to the field's position.
pub proof fn lemma_single_field_layout()
    by (bit_vector)
    ensures
        emmc_argument_bits::EMMC_ARGUMENT_OFFSET % 4 == 0,
        emmc_argument_bits::EMMC_ARGUMENT_MASK as u64 == field_mask(
            emmc_argument_bits::EMMC_ARGUMENT_POS as u64,
            emmc_argument_bits::EMMC_ARGUMENT_WIDTH as u64,
        ),
        emmc_resp01_bits::EMMC_RESP01_OFFSET % 4 == 0,
        emmc_resp01_bits::EMMC_RESP01_MASK as u64 == field_mask(
            emmc_resp01_bits::EMMC_RESP01_POS as u64,
            emmc_resp01_bits::EMMC_RESP01_WIDTH as u64,
        ),
        emmc_resp23_bits::EMMC_RESP23_OFFSET % 4 == 0,
        emmc_resp23_bits::EMMC_RESP23_MASK as u64 == field_mask(
            emmc_resp23_bits::EMMC_RESP23_POS as u64,
            emmc_resp23_bits::EMMC_RESP23_WIDTH as u64,
        ),
        emmc_resp45_bits::EMMC_RESP45_OFFSET % 4 == 0,
        emmc_resp45_bits::EMMC_RESP45_MASK as u64 == field_mask(
            emmc_resp45_bits::EMMC_RESP45_POS as u64,
            emmc_resp45_bits::EMMC_RESP45_WIDTH as u64,
        ),
        emmc_resp67_bits::EMMC_RESP67_OFFSET % 4 == 0,
        emmc_resp67_bits::EMMC_RESP67_MASK as u64 == field_mask(
            emmc_resp67_bits::EMMC_RESP67_POS as u64,
            emmc_resp67_bits::EMMC_RESP67_WIDTH as u64,
        ),
        emmc_pwr_ctrl_bits::EMMC_PWR_ON_MASK as u64 == field_mask(
            emmc_pwr_ctrl_bits::EMMC_PWR_ON_POS as u64,
            emmc_pwr_ctrl_bits::EMMC_PWR_ON_WIDTH as u64,
        ),
        emmc_adma_id_bits::EMMC_ADMA_ID_OFFSET % 4 == 0,
        emmc_adma_id_bits::EMMC_ADMA_ID_MASK as u64 == field_mask(
            emmc_adma_id_bits::EMMC_ADMA_ID_POS as u64,
            emmc_adma_id_bits::EMMC_ADMA_ID_WIDTH as u64,
        ),
        emmc_slot_int_status_bits::EMMC_INTR_SLOT_MASK as u64 == field_mask(
            emmc_slot_int_status_bits::EMMC_INTR_SLOT_POS as u64,
            emmc_slot_int_status_bits::EMMC_INTR_SLOT_WIDTH as u64,
        ),
        emmc_ver_id_bits::EMMC_VER_ID_OFFSET % 4 == 0,
        emmc_ver_id_bits::EMMC_VER_ID_MASK as u64 == field_mask(
            emmc_ver_id_bits::EMMC_VER_ID_POS as u64,
            emmc_ver_id_bits::EMMC_VER_ID_WIDTH as u64,
        ),
        emmc_ver_type_bits::EMMC_VER_TYPE_OFFSET % 4 == 0,
        emmc_ver_type_bits::EMMC_VER_TYPE_MASK as u64 == field_mask(
            emmc_ver_type_bits::EMMC_VER_TYPE_POS as u64,
            emmc_ver_type_bits::EMMC_VER_TYPE_WIDTH as u64,
        ),
{
}

} // verus!
