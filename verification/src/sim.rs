//! A model of a register window, and a simulated window that follows it.
//!
//! The model says what a device made of plain registers does with each
//! access. Three kinds of register are told apart: one that keeps what is
//! stored to it, a status register whose bits are cleared by storing a one
//! to them, and a register whose bits the hardware clears at once. Beside
//! that a script can hold values that the hardware will put into a register
//! just before a coming load, which is how a bit that changes by itself is
//! played.
use vstd::prelude::*;
use crate::mmio::Access;
use crate::mmio::fetch16;
use crate::mmio::fetch32;
use crate::mmio::fetch8;
use crate::mmio::Mmio;
use crate::mmio::set_bits16;
use crate::mmio::set_bits32;
use crate::mmio::set_bits8;
use crate::mmio::store16;
use crate::mmio::store32;
use crate::mmio::store8;
use crate::sdhci::CclkEmmc;
use crate::sdhci::ClockRequest;
use crate::sdhci::ClockTree;
use crate::sdhci::Delay;
use crate::sdhci::Diagnostics;
use crate::sdhci::Probe;
use crate::sdhci::Report;
use crate::sdhci_reg::emmc_error_int_stat_bits::EMMC_ERROR_INT_STAT_OFFSET;
use crate::sdhci_reg::emmc_normal_int_stat_bits::EMMC_NORMAL_INT_STAT_OFFSET;
use crate::sdhci_reg::emmc_sw_rst_bits::EMMC_SW_RST_OFFSET;
use crate::sdhci_reg::EMMC_WINDOW_SPAN;

verus! {

/// How a register takes a store.
#[derive(Clone, Copy, Debug, PartialEq, Eq)]
pub enum Kind {
    /// It keeps the value stored.
    Memory,
    /// Each one in the value stored clears that bit; a zero leaves the bit
    /// as it is.
    WriteOneToClear,
    /// The hardware finishes at once what a store asks for: the register
    /// stays as it is.
    SelfClearing,
}

/// One register: what it holds and how it takes a store.
#[derive(Clone, Copy, Debug, PartialEq, Eq)]
pub struct Cell {
    pub value: u32,
    pub kind: Kind,
}

/// A value that the hardware will put into the register at `addr` just
/// before the next load of it.
#[derive(Clone, Copy, Debug, PartialEq, Eq)]
pub struct Forced {
    pub addr: u64,
    pub value: u32,
}

/// A device as plain values: one register for each address from `base` on,
/// and the script of what the hardware will do by itself.
pub struct Device {
    pub base: u64,
    pub cells: Seq<Cell>,
    pub script: Seq<Forced>,
}

impl Device {
    /// The device has a register at `addr`.
    pub open spec fn covers(self, addr: u64) -> bool {
        self.base <= addr && addr - self.base < self.cells.len()
    }

    /// What the register at `addr` holds. Where there is no register, zero.
    pub open spec fn held(self, addr: u64) -> u32 {
        if self.covers(addr) {
            self.cells[addr - self.base].value
        } else {
            0
        }
    }

    /// How the register at `addr` takes a store.
    pub open spec fn kind(self, addr: u64) -> Kind {
        if self.covers(addr) {
            self.cells[addr - self.base].kind
        } else {
            Kind::Memory
        }
    }

    /// The next step of the script is for the register at `addr`.
    pub open spec fn forced(self, addr: u64) -> bool {
        self.script.len() > 0 && self.script[0].addr == addr
    }

    /// What a load of the register at `addr` returns now.
    pub open spec fn answer(self, addr: u64) -> u32 {
        if self.forced(addr) {
            self.script[0].value
        } else {
            self.held(addr)
        }
    }

    /// The device with `value` in the register at `addr`.
    pub open spec fn put(self, addr: u64, value: u32) -> Device {
        if self.covers(addr) {
            Device {
                cells: self.cells.update(
                    addr - self.base,
                    Cell { value, kind: self.cells[addr - self.base].kind },
                ),
                ..self
            }
        } else {
            self
        }
    }

    /// The device after a load of the register at `addr`: a step of the
    /// script that was for this register is taken.
    pub open spec fn after_load(self, addr: u64) -> Device {
        if self.forced(addr) {
            (Device { script: self.script.drop_first(), ..self }).put(addr, self.script[0].value)
        } else {
            self
        }
    }

    /// The device after a store of `value` to the register at `addr`.
    pub open spec fn after_store(self, addr: u64, value: u32) -> Device {
        match self.kind(addr) {
            Kind::Memory => self.put(addr, value),
            Kind::WriteOneToClear => self.put(addr, self.held(addr) & !value),
            Kind::SelfClearing => self,
        }
    }

    /// The device after the access `a`, or `None` where `a` is a load that
    /// returned something else than this device would.
    pub open spec fn step(self, a: Access) -> Option<Device> {
        match a {
            Access::Read8 { addr, value } => if value == self.answer(addr) as u8 {
                Some(self.after_load(addr))
            } else {
                None
            },
            Access::Read16 { addr, value } => if value == self.answer(addr) as u16 {
                Some(self.after_load(addr))
            } else {
                None
            },
            Access::Read32 { addr, value } => if value == self.answer(addr) {
                Some(self.after_load(addr))
            } else {
                None
            },
            Access::Write8 { addr, value } => Some(self.after_store(addr, value as u32)),
            Access::Write16 { addr, value } => Some(self.after_store(addr, value as u32)),
            Access::Write32 { addr, value } => Some(self.after_store(addr, value)),
        }
    }

    /// The device after the accesses `t`, or `None` where this device
    /// cannot have answered so.
    pub open spec fn run(self, t: Seq<Access>) -> Option<Device>
        decreases t.len(),
    {
        if t.len() == 0 {
            Some(self)
        } else {
            match self.run(t.drop_last()) {
                Some(d) => d.step(t.last()),
                None => None,
            }
        }
    }
}

/// How the register `offset` bytes into the controller's window takes a
/// store.
pub open spec fn controller_kind(offset: int) -> Kind {
    if offset == EMMC_SW_RST_OFFSET {
        Kind::SelfClearing
    } else if offset == EMMC_NORMAL_INT_STAT_OFFSET || offset == EMMC_ERROR_INT_STAT_OFFSET {
        Kind::WriteOneToClear
    } else {
        Kind::Memory
    }
}

/// The controller's window at `base` as a device, every register holding
/// zero. Where the window would not fit below the top of the address space,
/// every register keeps what is stored to it.
pub open spec fn controller_device(base: u64) -> Device {
    Device {
        base,
        cells: Seq::new(
            EMMC_WINDOW_SPAN as nat,
            |i: int|
                Cell {
                    value: 0,
                    kind: if base <= u64::MAX - (EMMC_WINDOW_SPAN - 1) {
                        controller_kind(i)
                    } else {
                        Kind::Memory
                    },
                },
        ),
        script: Seq::empty(),
    }
}

/// A simulated register window. It answers as the model says, and keeps a
/// list of every access made to it.
pub struct SimRegisters {
    base: u64,
    cells: Vec<Cell>,
    script: Vec<Forced>,
    log: Vec<Access>,
}

impl SimRegisters {
    /// The window as a device of the model.
    pub closed spec fn device(&self) -> Device {
        Device { base: self.base, cells: self.cells@, script: self.script@ }
    }

    /// Every access made to the window so far, oldest first.
    pub closed spec fn recorded(&self) -> Seq<Access> {
        self.log@
    }

    /// A window of `span` registers from `base` on, each holding zero and
    /// keeping what is stored to it.
    pub fn new(base: u64, span: usize) -> (sim: Self)
        ensures
            sim.device().base == base,
            sim.device().cells == Seq::new(
                span as nat,
                |i: int| Cell { value: 0, kind: Kind::Memory },
            ),
            sim.device().script == Seq::<Forced>::empty(),
            sim.recorded() == Seq::<Access>::empty(),
    {
        let mut cells: Vec<Cell> = Vec::new();
        let mut i: usize = 0;
        while i < span
            invariant
                i <= span,
                cells@ == Seq::new(i as nat, |i: int| Cell { value: 0, kind: Kind::Memory }),
            decreases span - i,
        {
            cells.push(Cell { value: 0, kind: Kind::Memory });
            i = i + 1;
            assert(cells@ == Seq::new(i as nat, |i: int| Cell { value: 0, kind: Kind::Memory }));
        }
        SimRegisters { base, cells, script: Vec::new(), log: Vec::new() }
    }


    /// The controller's window at `base`: the software reset register
    /// finishes every reset at once, the two interrupt status registers are
    /// cleared by ones, and every other register keeps what is stored to
    /// it. All registers hold zero.
    pub fn controller(base: u64) -> (sim: Self)
        ensures
            sim.device() == controller_device(base),
            sim.recorded() == Seq::<Access>::empty(),
    {
        let mut sim = SimRegisters::new(base, EMMC_WINDOW_SPAN as usize);
        if base <= u64::MAX - (EMMC_WINDOW_SPAN - 1) {
            sim.set_kind(base + EMMC_SW_RST_OFFSET, Kind::SelfClearing);
            sim.set_kind(base + EMMC_NORMAL_INT_STAT_OFFSET, Kind::WriteOneToClear);
            sim.set_kind(base + EMMC_ERROR_INT_STAT_OFFSET, Kind::WriteOneToClear);
        }
        assert(sim.device().cells =~= controller_device(base).cells);
        sim
    }

    /// Whether the window has a register at `addr`.
    fn covers(&self, addr: u64) -> (covered: bool)
        ensures
            covered == self.device().covers(addr),
            covered ==> (addr - self.base) as usize as int == addr - self.base,
    {
        addr >= self.base && ((addr - self.base) as u128) < (self.cells.len() as u128)
    }

    /// Says how the register at `addr` takes a store from now on. Nothing
    /// changes where the window has no register.
    pub fn set_kind(&mut self, addr: u64, kind: Kind)
        ensures
            final(self).recorded() == old(self).recorded(),
            final(self).device().base == old(self).device().base,
            final(self).device().script == old(self).device().script,
            final(self).device().cells.len() == old(self).device().cells.len(),
            old(self).device().covers(addr) ==> final(self).device().cells == old(
                self,
            ).device().cells.update(
                addr - old(self).device().base,
                Cell { value: old(self).device().held(addr), kind },
            ),
            !old(self).device().covers(addr) ==> final(self).device() == old(self).device(),
    {
        if self.covers(addr) {
            let i = (addr - self.base) as usize;
            let value = self.cells[i].value;
            self.cells.set(i, Cell { value, kind });
        }
    }

    /// Puts `value` into the register at `addr`, as the hardware would by
    /// itself. Nothing changes where the window has no register.
    pub fn poke(&mut self, addr: u64, value: u32)
        ensures
            final(self).recorded() == old(self).recorded(),
            final(self).device() == old(self).device().put(addr, value),
    {
        if self.covers(addr) {
            let i = (addr - self.base) as usize;
            let kind = self.cells[i].kind;
            self.cells.set(i, Cell { value, kind });
        }
    }

    /// What the register at `addr` holds.
    pub fn peek(&self, addr: u64) -> (value: u32)
        ensures
            value == self.device().held(addr),
    {
        if self.covers(addr) {
            self.cells[(addr - self.base) as usize].value
        } else {
            0
        }
    }

    /// Adds a step to the end of the script: the hardware will put `value`
    /// into the register at `addr` just before a load of it, once the steps
    /// before this one have been taken.
    pub fn force(&mut self, addr: u64, value: u32)
        ensures
            final(self).recorded() == old(self).recorded(),
            final(self).device() == (Device {
                script: old(self).device().script.push(Forced { addr, value }),
                ..old(self).device()
            }),
    {
        self.script.push(Forced { addr, value });
    }

    /// The list of every access made so far.
    pub fn log(&self) -> (log: &Vec<Access>)
        ensures
            log@ == self.recorded(),
    {
        &self.log
    }

    /// One load of the register at `addr`, before it is cut to a width.
    fn load(&mut self, addr: u64) -> (value: u32)
        ensures
            value == old(self).device().answer(addr),
            final(self).device() == old(self).device().after_load(addr),
            final(self).log@ == old(self).log@,
    {
        if self.script.len() > 0 && self.script[0].addr == addr {
            let step = self.script.remove(0);
            if self.covers(addr) {
                let i = (addr - self.base) as usize;
                let kind = self.cells[i].kind;
                self.cells.set(i, Cell { value: step.value, kind });
            }
            assert(self.script@ == old(self).script@.drop_first());
            step.value
        } else {
            self.peek(addr)
        }
    }

    /// One store of `value` to the register at `addr`.
    fn store(&mut self, addr: u64, value: u32)
        ensures
            final(self).device() == old(self).device().after_store(addr, value),
            final(self).log@ == old(self).log@,
    {
        if self.covers(addr) {
            let i = (addr - self.base) as usize;
            let cell = self.cells[i];
            match cell.kind {
                Kind::Memory => {
                    self.cells.set(i, Cell { value, kind: cell.kind });
                },
                Kind::WriteOneToClear => {
                    self.cells.set(i, Cell { value: cell.value & !value, kind: cell.kind });
                },
                Kind::SelfClearing => {},
            }
        }
    }
}

impl Mmio for SimRegisters {
    open spec fn records(&self) -> bool {
        true
    }

    open spec fn seen(&self) -> Seq<Access> {
        self.recorded()
    }

    fn read8(&mut self, addr: u64) -> (value: u8)
        ensures
            old(self).device().step(Access::Read8 { addr, value }) == Some(final(self).device()),
            final(self).recorded() == old(self).recorded().push(Access::Read8 { addr, value }),
    {
        let value = #[verifier::truncate] (self.load(addr) as u8);
        self.log.push(Access::Read8 { addr, value });
        value
    }

    fn read16(&mut self, addr: u64) -> (value: u16)
        ensures
            old(self).device().step(Access::Read16 { addr, value }) == Some(final(self).device()),
            final(self).recorded() == old(self).recorded().push(Access::Read16 { addr, value }),
    {
        let value = #[verifier::truncate] (self.load(addr) as u16);
        self.log.push(Access::Read16 { addr, value });
        value
    }

    fn read32(&mut self, addr: u64) -> (value: u32)
        ensures
            old(self).device().step(Access::Read32 { addr, value }) == Some(final(self).device()),
            final(self).recorded() == old(self).recorded().push(Access::Read32 { addr, value }),
    {
        let value = self.load(addr);
        self.log.push(Access::Read32 { addr, value });
        value
    }

    fn write8(&mut self, addr: u64, value: u8)
        ensures
            old(self).device().step(Access::Write8 { addr, value }) == Some(final(self).device()),
            final(self).recorded() == old(self).recorded().push(Access::Write8 { addr, value }),
    {
        self.store(addr, value as u32);
        self.log.push(Access::Write8 { addr, value });
    }

    fn write16(&mut self, addr: u64, value: u16)
        ensures
            old(self).device().step(Access::Write16 { addr, value }) == Some(final(self).device()),
            final(self).recorded() == old(self).recorded().push(Access::Write16 { addr, value }),
    {
        self.store(addr, value as u32);
        self.log.push(Access::Write16 { addr, value });
    }

    fn write32(&mut self, addr: u64, value: u32)
        ensures
            old(self).device().step(Access::Write32 { addr, value }) == Some(final(self).device()),
            final(self).recorded() == old(self).recorded().push(Access::Write32 { addr, value }),
    {
        self.store(addr, value);
        self.log.push(Access::Write32 { addr, value });
    }
}

/// A simulated clock tree. It keeps a record of everything it is asked, and
/// reports a selector that is fixed when it is made.
pub struct SimClockTree {
    requests: Vec<ClockRequest>,
    selector: u32,
}

impl SimClockTree {
    /// The selector that is reported.
    pub closed spec fn selector(&self) -> u32 {
        self.selector
    }

    /// Everything asked so far, oldest first.
    pub closed spec fn requests(&self) -> Seq<ClockRequest> {
        self.requests@
    }

    /// A clock tree that reports `selector` and has been asked nothing.
    pub fn new(selector: u32) -> (clk: Self)
        ensures
            clk.requests() == Seq::<ClockRequest>::empty(),
            clk.selector() == selector,
    {
        SimClockTree { requests: Vec::new(), selector }
    }

    /// The list of everything asked so far.
    pub fn log(&self) -> (log: &Vec<ClockRequest>)
        ensures
            log@ == self.requests(),
    {
        &self.requests
    }
}

impl ClockTree for SimClockTree {
    open spec fn records(&self) -> bool {
        true
    }

    open spec fn asked(&self) -> Seq<ClockRequest> {
        self.requests()
    }

    fn cru_clksel_set_cclk_emmc(&mut self, sel: CclkEmmc)
        ensures
            final(self).selector() == old(self).selector(),
    {
        self.requests.push(ClockRequest::Select(sel));
    }

    fn cru_clksel_get_cclk_emmc(&mut self) -> (selector: u32)
        ensures
            selector == old(self).selector(),
            final(self).selector() == old(self).selector(),
    {
        self.requests.push(ClockRequest::Read(self.selector));
        self.selector
    }
}

/// A simulated timer. No time passes; it keeps a record of every delay
/// asked for.
pub struct SimDelay {
    delays: Vec<u64>,
}

impl SimDelay {
    /// Every delay asked for so far, in microseconds, oldest first.
    pub closed spec fn delays(&self) -> Seq<u64> {
        self.delays@
    }

    /// A timer that has been asked for no delay.
    pub fn new() -> (timer: Self)
        ensures
            timer.delays() == Seq::<u64>::empty(),
    {
        SimDelay { delays: Vec::new() }
    }

    /// The list of every delay asked for so far.
    pub fn log(&self) -> (log: &Vec<u64>)
        ensures
            log@ == self.delays(),
    {
        &self.delays
    }
}

impl Delay for SimDelay {
    open spec fn records(&self) -> bool {
        true
    }

    open spec fn waited(&self) -> Seq<u64> {
        self.delays()
    }

    fn delay_us(&mut self, us: u64) {
        self.delays.push(us);
    }
}

/// A simulated sink. It keeps a record of every report.
pub struct SimLog {
    reports: Vec<Report>,
}

impl SimLog {
    /// Every report taken so far, oldest first.
    pub closed spec fn reports(&self) -> Seq<Report> {
        self.reports@
    }

    /// A sink that has taken no report.
    pub fn new() -> (sink: Self)
        ensures
            sink.reports() == Seq::<Report>::empty(),
    {
        SimLog { reports: Vec::new() }
    }

    /// The list of every report taken so far.
    pub fn log(&self) -> (log: &Vec<Report>)
        ensures
            log@ == self.reports(),
    {
        &self.reports
    }
}

impl Diagnostics for SimLog {
    open spec fn records(&self) -> bool {
        true
    }

    open spec fn reported(&self) -> Seq<Report> {
        self.reports()
    }

    fn report(&mut self, probe: Probe, value: u32) {
        self.reports.push(Report { probe, value });
    }
}

/// Running no access leaves the device as it is; running one access is
/// taking one step.
pub proof fn lemma_run_one(dev: Device, a: Access)
    ensures
        dev.run(Seq::empty()) == Some(dev),
        dev.run(seq![a]) == dev.step(a),
{
    reveal_with_fuel(Device::run, 2);
    assert(seq![a].drop_last() =~= Seq::<Access>::empty());
}

/// Running a list of accesses and then one more is running the list and
/// taking one step.
pub proof fn lemma_run_push(dev: Device, t: Seq<Access>, a: Access)
    ensures
        dev.run(t.push(a)) == match dev.run(t) {
            Some(d) => d.step(a),
            None => None,
        },
{
    assert(t.push(a).drop_last() =~= t);
}

/// Running two lists of accesses one after the other is running the first
/// and, on the device that comes out, the second.
pub proof fn lemma_run_add(dev: Device, s: Seq<Access>, t: Seq<Access>)
    ensures
        dev.run(s + t) == match dev.run(s) {
            Some(d) => d.run(t),
            None => None,
        },
    decreases t.len(),
{
    if t.len() == 0 {
        assert(s + t =~= s);
    } else {
        lemma_run_add(dev, s, t.drop_last());
        assert((s + t).drop_last() =~= s + t.drop_last());
        assert((s + t).last() == t.last());
    }
}

/// A register that keeps what is stored to it gives it back: when `x` is
/// stored to it and it is loaded next, the load returns `x`.
pub proof fn lemma_store_then_load8(dev: Device, addr: u64, x: u8, seen: u8)
    requires
        dev.covers(addr),
        dev.kind(addr) == Kind::Memory,
        dev.script.len() == 0,
        dev.run(store8(addr, x) + fetch8(addr, seen)) is Some,
    ensures
        seen == x,
{
    lemma_run_add(dev, store8(addr, x), fetch8(addr, seen));
    lemma_run_one(dev, Access::Write8 { addr, value: x });
    let d = dev.after_store(addr, x as u32);
    lemma_run_one(d, Access::Read8 { addr, value: seen });
}

/// Turning one flag on leaves every other flag of the register as it was.
/// On a register that keeps what is stored to it: when it is loaded, then
/// the bits of `mask` are turned on by a read-modify-write, and it is loaded
/// again, a flag `other` that shares no bit with `mask` is found on the
/// second time exactly if it was on the first time.
pub proof fn lemma_enable_keeps_other_flag8(
    dev: Device,
    addr: u64,
    mask: u8,
    other: u8,
    before: u8,
    seen: u8,
    after: u8,
)
    requires
        mask & other == 0,
        dev.covers(addr),
        dev.kind(addr) == Kind::Memory,
        dev.script.len() == 0,
        dev.run(fetch8(addr, before) + set_bits8(addr, seen, mask) + fetch8(addr, after))
            is Some,
    ensures
        after & other == before & other,
        (after & other == other) == (before & other == other),
{
    let r0 = Access::Read8 { addr, value: before };
    let r1 = Access::Read8 { addr, value: seen };
    let w = Access::Write8 { addr, value: seen | mask };
    let r2 = Access::Read8 { addr, value: after };
    assert(fetch8(addr, before) + set_bits8(addr, seen, mask) + fetch8(addr, after)
        =~= seq![r0].push(r1).push(w).push(r2));
    lemma_run_one(dev, r0);
    lemma_run_push(dev, seq![r0], r1);
    lemma_run_push(dev, seq![r0].push(r1), w);
    lemma_run_push(dev, seq![r0].push(r1).push(w), r2);
    crate::bits::lemma_other_bits_kept8(seen, mask, other, 0, 0);
}

/// A register that keeps what is stored to it gives it back: when `x` is
/// stored to it and it is loaded next, the load returns `x`.
pub proof fn lemma_store_then_load16(dev: Device, addr: u64, x: u16, seen: u16)
    requires
        dev.covers(addr),
        dev.kind(addr) == Kind::Memory,
        dev.script.len() == 0,
        dev.run(store16(addr, x) + fetch16(addr, seen)) is Some,
    ensures
        seen == x,
{
    lemma_run_add(dev, store16(addr, x), fetch16(addr, seen));
    lemma_run_one(dev, Access::Write16 { addr, value: x });
    let d = dev.after_store(addr, x as u32);
    lemma_run_one(d, Access::Read16 { addr, value: seen });
}

/// Turning one flag on leaves every other flag of the register as it was.
/// On a register that keeps what is stored to it: when it is loaded, then
/// the bits of `mask` are turned on by a read-modify-write, and it is loaded
/// again, a flag `other` that shares no bit with `mask` is found on the
/// second time exactly if it was on the first time.
pub proof fn lemma_enable_keeps_other_flag16(
    dev: Device,
    addr: u64,
    mask: u16,
    other: u16,
    before: u16,
    seen: u16,
    after: u16,
)
    requires
        mask & other == 0,
        dev.covers(addr),
        dev.kind(addr) == Kind::Memory,
        dev.script.len() == 0,
        dev.run(fetch16(addr, before) + set_bits16(addr, seen, mask) + fetch16(addr, after))
            is Some,
    ensures
        after & other == before & other,
        (after & other == other) == (before & other == other),
{
    let r0 = Access::Read16 { addr, value: before };
    let r1 = Access::Read16 { addr, value: seen };
    let w = Access::Write16 { addr, value: seen | mask };
    let r2 = Access::Read16 { addr, value: after };
    assert(fetch16(addr, before) + set_bits16(addr, seen, mask) + fetch16(addr, after)
        =~= seq![r0].push(r1).push(w).push(r2));
    lemma_run_one(dev, r0);
    lemma_run_push(dev, seq![r0], r1);
    lemma_run_push(dev, seq![r0].push(r1), w);
    lemma_run_push(dev, seq![r0].push(r1).push(w), r2);
    crate::bits::lemma_other_bits_kept16(seen, mask, other, 0, 0);
}

/// A register that keeps what is stored to it gives it back: when `x` is
/// stored to it and it is loaded next, the load returns `x`.
pub proof fn lemma_store_then_load32(dev: Device, addr: u64, x: u32, seen: u32)
    requires
        dev.covers(addr),
        dev.kind(addr) == Kind::Memory,
        dev.script.len() == 0,
        dev.run(store32(addr, x) + fetch32(addr, seen)) is Some,
    ensures
        seen == x,
{
    lemma_run_add(dev, store32(addr, x), fetch32(addr, seen));
    lemma_run_one(dev, Access::Write32 { addr, value: x });
    let d = dev.after_store(addr, x);
    lemma_run_one(d, Access::Read32 { addr, value: seen });
}

/// Turning one flag on leaves every other flag of the register as it was.
/// On a register that keeps what is stored to it: when it is loaded, then
/// the bits of `mask` are turned on by a read-modify-write, and it is loaded
/// again, a flag `other` that shares no bit with `mask` is found on the
/// second time exactly if it was on the first time.
pub proof fn lemma_enable_keeps_other_flag32(
    dev: Device,
    addr: u64,
    mask: u32,
    other: u32,
    before: u32,
    seen: u32,
    after: u32,
)
    requires
        mask & other == 0,
        dev.covers(addr),
        dev.kind(addr) == Kind::Memory,
        dev.script.len() == 0,
        dev.run(fetch32(addr, before) + set_bits32(addr, seen, mask) + fetch32(addr, after))
            is Some,
    ensures
        after & other == before & other,
        (after & other == other) == (before & other == other),
{
    let r0 = Access::Read32 { addr, value: before };
    let r1 = Access::Read32 { addr, value: seen };
    let w = Access::Write32 { addr, value: seen | mask };
    let r2 = Access::Read32 { addr, value: after };
    assert(fetch32(addr, before) + set_bits32(addr, seen, mask) + fetch32(addr, after)
        =~= seq![r0].push(r1).push(w).push(r2));
    lemma_run_one(dev, r0);
    lemma_run_push(dev, seq![r0], r1);
    lemma_run_push(dev, seq![r0].push(r1), w);
    lemma_run_push(dev, seq![r0].push(r1).push(w), r2);
    crate::bits::lemma_other_bits_kept32(seen, mask, other, 0, 0);
}

/// A store to a status register that is cleared by ones clears the bits
/// that are one in the value stored, and no others: when `value` is stored
/// and the register is loaded next, the load returns what the register held
/// before, without the bits of `value`.
pub proof fn lemma_store_clears_ones16(dev: Device, addr: u64, value: u16, after: u16)
    requires
        dev.covers(addr),
        dev.kind(addr) == Kind::WriteOneToClear,
        dev.script.len() == 0,
        dev.run(store16(addr, value) + fetch16(addr, after)) is Some,
    ensures
        after == (dev.held(addr) as u16) & !value,
{
    lemma_run_add(dev, store16(addr, value), fetch16(addr, after));
    lemma_run_one(dev, Access::Write16 { addr, value });
    let d = dev.after_store(addr, value as u32);
    lemma_run_one(d, Access::Read16 { addr, value: after });
    let held = dev.held(addr);
    assert((held & !(value as u32)) as u16 == (held as u16) & !value) by (bit_vector);
}

/// Clearing flags clears them and nothing else. On a register that is
/// cleared by ones: when the mask `flags` is stored, as the operations do
/// that clear all flags, and the register is loaded next, the load finds no
/// bit of `flags`, and finds every other bit as the register held it.
pub proof fn lemma_clear_all_flags16(dev: Device, addr: u64, flags: u16, after: u16)
    requires
        dev.covers(addr),
        dev.kind(addr) == Kind::WriteOneToClear,
        dev.script.len() == 0,
        dev.run(store16(addr, flags) + fetch16(addr, after)) is Some,
    ensures
        after & flags == 0,
        after & !flags == (dev.held(addr) as u16) & !flags,
{
    lemma_store_clears_ones16(dev, addr, flags, after);
    let held = dev.held(addr) as u16;
    assert((held & !flags) & flags == 0 && (held & !flags) & !flags == held & !flags)
        by (bit_vector);
}

} // verus!
