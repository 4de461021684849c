use std::cell::RefCell;
use std::rc::Rc;

use rk3568_emmc::mmio::Access;
use rk3568_emmc::mmio::Mmio;
use rk3568_emmc::sdhci::CclkEmmc;
use rk3568_emmc::sdhci::ClockRequest;
use rk3568_emmc::sdhci::ClockTree;
use rk3568_emmc::sdhci::Delay;
use rk3568_emmc::sdhci::Diagnostics;
use rk3568_emmc::sdhci::Probe;
use rk3568_emmc::sdhci::Report;
use rk3568_emmc::sdhci::Timeout;
use rk3568_emmc::sdhci::EMMC_DLL_CTRL_INIT;
use rk3568_emmc::sdhci::EMMC_DLL_RXCLK_INIT;
use rk3568_emmc::sdhci::EMMC_DLL_TXCLK_INIT;
use rk3568_emmc::sdhci::EMMC_IDLE_SETTLE_US;
use rk3568_emmc::sdhci::EMMC_POLLED_INT_EN;
use rk3568_emmc::sdhci::EMMC_SEND_OP_COND_ARG;
use rk3568_emmc::sdhci::SDHCI;
use rk3568_emmc::sdhci_cmd::Cmd;
use rk3568_emmc::sdhci_reg::emmc_cmd_bits::EMMC_CMD_TYPE_ABORT;
use rk3568_emmc::sdhci_reg::emmc_cmd_bits::EMMC_CMD_TYPE_NORMAL;
use rk3568_emmc::sdhci_reg::emmc_cmd_bits::EMMC_RESP_TYPE_LEN_136;
use rk3568_emmc::sdhci_reg::emmc_cmd_bits::EMMC_RESP_TYPE_LEN_48;
use rk3568_emmc::sim::SimClockTree;
use rk3568_emmc::sim::SimDelay;
use rk3568_emmc::sim::SimLog;
use rk3568_emmc::sim::SimRegisters;

const BASE: u64 = 0xfe31_0000;
const ARGUMENT: u64 = BASE + 0x08;
const COMMAND: u64 = BASE + 0x0e;
const RESP01: u64 = BASE + 0x10;
const PSTATE: u64 = BASE + 0x24;
const HOST_CTRL1: u64 = BASE + 0x28;
const PWR_CTRL: u64 = BASE + 0x29;
const CLK_CTRL: u64 = BASE + 0x2c;
const SW_RST: u64 = BASE + 0x2f;
const NORMAL_INT_STAT: u64 = BASE + 0x30;
const ERROR_INT_STAT: u64 = BASE + 0x32;
const NORMAL_INT_EN: u64 = BASE + 0x34;
const NORMAL_INT_SIG_EN: u64 = BASE + 0x38;
const ERROR_INT_SIG_EN: u64 = BASE + 0x3a;
const DLL_CTRL: u64 = BASE + 0x800;
const DLL_RXCLK: u64 = BASE + 0x804;
const DLL_TXCLK: u64 = BASE + 0x808;

type Sim = SDHCI<SimRegisters, SimClockTree, SimDelay, SimLog>;

fn handle(sim: SimRegisters, poll_limit: u32) -> Sim {
    SDHCI::new(BASE, sim, SimClockTree::new(5), SimDelay::new(), SimLog::new(), poll_limit)
}

/// The controller's window with an internal clock that is stable from the
/// first look on.
fn ready_controller() -> SimRegisters {
    let mut sim = SimRegisters::controller(BASE);
    sim.force(CLK_CTRL, 0x0002);
    sim
}

fn finish(sdhci: Sim) -> (Vec<Access>, SimRegisters, SimClockTree, SimDelay) {
    let (reg, clk, timer, _) = sdhci.into_parts();
    let sim = reg.into_io();
    (sim.log().clone(), sim, clk, timer)
}

fn reports_of(sdhci: Sim) -> Vec<Report> {
    let (_, _, _, sink) = sdhci.into_parts();
    sink.log().clone()
}

fn report(probe: Probe, value: u32) -> Report {
    Report { probe, value }
}

fn selection() -> Vec<ClockRequest> {
    vec![ClockRequest::Select(CclkEmmc::Soc0Div375K), ClockRequest::Read(5)]
}

fn r8(addr: u64, value: u8) -> Access {
    Access::Read8 { addr, value }
}

fn r16(addr: u64, value: u16) -> Access {
    Access::Read16 { addr, value }
}

fn r32(addr: u64, value: u32) -> Access {
    Access::Read32 { addr, value }
}

fn w8(addr: u64, value: u8) -> Access {
    Access::Write8 { addr, value }
}

fn w16(addr: u64, value: u16) -> Access {
    Access::Write16 { addr, value }
}

fn w32(addr: u64, value: u32) -> Access {
    Access::Write32 { addr, value }
}

fn is_write(access: &Access) -> bool {
    matches!(access, Access::Write8 { .. } | Access::Write16 { .. } | Access::Write32 { .. })
}

fn addr_of(access: &Access) -> u64 {
    match *access {
        Access::Read8 { addr, .. } => addr,
        Access::Read16 { addr, .. } => addr,
        Access::Read32 { addr, .. } => addr,
        Access::Write8 { addr, .. } => addr,
        Access::Write16 { addr, .. } => addr,
        Access::Write32 { addr, .. } => addr,
    }
}

/// What a command looks like on a controller that answers at once.
fn command(argument: u32, word: u16) -> Vec<Access> {
    vec![
        w16(ERROR_INT_STAT, 0x1f7f),
        w16(NORMAL_INT_STAT, 0x40ff),
        r8(SW_RST, 0),
        w8(SW_RST, 0x02),
        r8(SW_RST, 0),
        r32(PSTATE, 0),
        w32(ARGUMENT, argument),
        w16(COMMAND, word),
    ]
}

#[test]
fn send_command_stores_argument_then_command_word() {
    let mut sdhci = handle(SimRegisters::controller(BASE), 100);
    let outcome = sdhci.sdhci_send_cmd(7, EMMC_CMD_TYPE_NORMAL, EMMC_RESP_TYPE_LEN_48, 0x1234_5678);
    assert_eq!(outcome, Ok(()));
    let (log, sim, clk, timer) = finish(sdhci);
    assert_eq!((7u16 << 8) | EMMC_CMD_TYPE_NORMAL | EMMC_RESP_TYPE_LEN_48, 0x0702);
    assert_eq!(log, command(0x1234_5678, 0x0702));
    assert_eq!(&log[log.len() - 2..], &[w32(ARGUMENT, 0x1234_5678), w16(COMMAND, 0x0702)]);
    assert_eq!(sim.peek(ARGUMENT), 0x1234_5678);
    assert_eq!(sim.peek(COMMAND), 0x0702);
    assert!(clk.log().is_empty());
    assert!(timer.log().is_empty());
}

#[test]
fn send_command_takes_type_and_response_as_they_stand_in_the_register() {
    let mut sdhci = handle(SimRegisters::controller(BASE), 100);
    assert_eq!(sdhci.sdhci_send_cmd(12, EMMC_CMD_TYPE_ABORT, EMMC_RESP_TYPE_LEN_136, 0), Ok(()));
    let (log, _, _, _) = finish(sdhci);
    assert_eq!(log, command(0, 0x0cc1));
}

#[test]
fn send_command_lets_an_index_that_is_too_wide_spill() {
    let mut sdhci = handle(SimRegisters::controller(BASE), 100);
    assert_eq!(sdhci.sdhci_send_cmd(0x01ff, 0, 0, 0xffff_ffff), Ok(()));
    let (log, _, _, _) = finish(sdhci);
    assert_eq!(log, command(0xffff_ffff, 0xff00));
}

#[test]
fn send_command_clears_latched_flags() {
    let mut sim = SimRegisters::controller(BASE);
    sim.poke(NORMAL_INT_STAT, 0x9103);
    sim.poke(ERROR_INT_STAT, 0x8091);
    let mut sdhci = handle(sim, 100);
    assert_eq!(sdhci.sdhci_send_cmd(1, 0, 2, 0), Ok(()));
    let (log, sim, _, _) = finish(sdhci);
    assert_eq!(&log[..2], &[w16(ERROR_INT_STAT, 0x1f7f), w16(NORMAL_INT_STAT, 0x40ff)]);
    // the flags are gone, the bits beside them are as they were
    assert_eq!(sim.peek(NORMAL_INT_STAT), 0x9100);
    assert_eq!(sim.peek(ERROR_INT_STAT), 0x8080);
}

#[test]
fn send_command_waits_for_the_command_reset() {
    let mut sim = SimRegisters::controller(BASE);
    sim.force(SW_RST, 0x00);
    sim.force(SW_RST, 0x02);
    sim.force(SW_RST, 0x06);
    sim.force(SW_RST, 0x04);
    let mut sdhci = handle(sim, 100);
    assert_eq!(sdhci.sdhci_send_cmd(0, 0, 0, 0), Ok(()));
    let (log, _, _, _) = finish(sdhci);
    assert_eq!(
        &log[2..],
        &[
            r8(SW_RST, 0x00),
            w8(SW_RST, 0x02),
            r8(SW_RST, 0x02),
            r8(SW_RST, 0x06),
            r8(SW_RST, 0x04),
            r32(PSTATE, 0),
            w32(ARGUMENT, 0),
            w16(COMMAND, 0),
        ]
    );
}

#[test]
fn send_command_waits_for_the_command_line() {
    let mut sim = SimRegisters::controller(BASE);
    sim.force(PSTATE, 0x0000_0001);
    sim.force(PSTATE, 0x0003_0003);
    sim.force(PSTATE, 0x0003_0002);
    let mut sdhci = handle(sim, 3);
    assert_eq!(sdhci.sdhci_send_cmd(0, 0, 0, 0), Ok(()));
    let (log, _, _, _) = finish(sdhci);
    assert_eq!(
        &log[5..],
        &[
            r32(PSTATE, 0x0000_0001),
            r32(PSTATE, 0x0003_0003),
            r32(PSTATE, 0x0003_0002),
            w32(ARGUMENT, 0),
            w16(COMMAND, 0),
        ]
    );
}

#[test]
fn send_command_gives_up_on_the_command_reset() {
    let mut sdhci = handle(SimRegisters::new(BASE, 0x848), 3);
    let outcome = sdhci.sdhci_send_cmd(7, 0, 2, 0x1234_5678);
    assert_eq!(outcome, Err(Timeout::CommandReset));
    let (log, _, _, _) = finish(sdhci);
    assert_eq!(
        log,
        vec![
            w16(ERROR_INT_STAT, 0x1f7f),
            w16(NORMAL_INT_STAT, 0x40ff),
            r8(SW_RST, 0),
            w8(SW_RST, 0x02),
            r8(SW_RST, 0x02),
            r8(SW_RST, 0x02),
            r8(SW_RST, 0x02),
        ]
    );
}

#[test]
fn send_command_gives_up_on_the_command_line() {
    let mut sim = SimRegisters::controller(BASE);
    sim.poke(PSTATE, 0x0000_0001);
    let mut sdhci = handle(sim, 4);
    let outcome = sdhci.sdhci_send_cmd(7, 0, 2, 0x1234_5678);
    assert_eq!(outcome, Err(Timeout::CommandInhibit));
    let (log, sim, _, _) = finish(sdhci);
    assert_eq!(&log[5..], &[r32(PSTATE, 1), r32(PSTATE, 1), r32(PSTATE, 1), r32(PSTATE, 1)]);
    assert_eq!(sim.peek(ARGUMENT), 0);
    assert_eq!(sim.peek(COMMAND), 0);
}

#[test]
fn send_command_with_no_patience_gives_up_without_a_look() {
    let mut sdhci = handle(SimRegisters::controller(BASE), 0);
    assert_eq!(sdhci.sdhci_send_cmd(0, 0, 0, 0), Err(Timeout::CommandReset));
    let (log, _, _, _) = finish(sdhci);
    assert_eq!(log.len(), 4);
    assert_eq!(log[3], w8(SW_RST, 0x02));
}

/// The bring-up on a controller that answers at once, the clock control
/// register holding `clk` when the internal clock is started.
fn bring_up(clk: u16) -> Vec<Access> {
    let mut log = vec![
        r8(SW_RST, 0),
        w8(SW_RST, 0x01),
        r8(SW_RST, 0),
        r8(PWR_CTRL, 0),
        w8(PWR_CTRL, 0x01),
        w16(NORMAL_INT_EN, 0x003b),
        w16(NORMAL_INT_SIG_EN, 0),
        w16(ERROR_INT_SIG_EN, 0),
        r8(HOST_CTRL1, 0),
        w8(HOST_CTRL1, 0),
        w32(DLL_CTRL, 0),
        r32(DLL_CTRL, 0),
        r32(DLL_RXCLK, 0),
        r32(DLL_TXCLK, 0),
        w32(DLL_CTRL, 0xff00_0001),
        w32(DLL_RXCLK, 0x8000_0000),
        w32(DLL_TXCLK, 0),
        r32(DLL_CTRL, 0xff00_0001),
        r32(DLL_RXCLK, 0x8000_0000),
        r32(DLL_TXCLK, 0),
        r16(CLK_CTRL, clk),
        w16(CLK_CTRL, clk | 0x0001),
        r16(CLK_CTRL, clk | 0x0001),
        r16(CLK_CTRL, clk | 0x0001),
        w16(CLK_CTRL, clk | 0x0005),
        r16(CLK_CTRL, clk | 0x0005),
    ];
    log.extend(command(0, 0x0000));
    log.push(r32(RESP01, 0));
    log.extend(command(0x4000_0000, 0x0102));
    log.push(r32(RESP01, 0));
    log
}

#[test]
fn init_issues_the_whole_sequence_in_order() {
    let mut sdhci = handle(ready_controller(), 100);
    assert_eq!(sdhci.init(), Ok(()));
    let (log, sim, clk, timer) = finish(sdhci);
    assert_eq!(log, bring_up(0x0002));
    assert_eq!(clk.log(), &selection());
    assert_eq!(timer.log(), &vec![10000u64]);
    assert_eq!(sim.peek(PWR_CTRL), 0x01);
    assert_eq!(sim.peek(NORMAL_INT_EN), 0x003b);
    assert_eq!(sim.peek(CLK_CTRL), 0x0007);
    assert_eq!(sim.peek(DLL_CTRL), 0xff00_0001);
    assert_eq!(sim.peek(ARGUMENT), 0x4000_0000);
    assert_eq!(sim.peek(COMMAND), 0x0102);
}

#[test]
fn init_values_are_the_named_ones() {
    assert_eq!(EMMC_POLLED_INT_EN, 0x003b);
    assert_eq!(EMMC_DLL_CTRL_INIT, 0xff00_0001);
    assert_eq!(EMMC_DLL_RXCLK_INIT, 1 << 31);
    assert_eq!(EMMC_DLL_TXCLK_INIT, 0);
    assert_eq!(EMMC_SEND_OP_COND_ARG, 0x4000_0000);
    assert_eq!(EMMC_IDLE_SETTLE_US, 10000);
}

#[test]
fn init_asserts_reset_before_any_other_store() {
    let mut sdhci = handle(ready_controller(), 100);
    assert_eq!(sdhci.init(), Ok(()));
    let (log, _, _, _) = finish(sdhci);
    let first_store = log.iter().position(is_write).unwrap();
    assert_eq!(first_store, 1);
    assert_eq!(log[first_store], w8(SW_RST, 0x01));
    for (i, access) in log.iter().enumerate() {
        let watched = [CLK_CTRL, DLL_CTRL, DLL_RXCLK, DLL_TXCLK, ARGUMENT, COMMAND];
        if is_write(access) && watched.contains(&addr_of(access)) {
            assert!(i > first_store);
        }
    }
}

#[test]
fn init_starts_the_internal_clock_before_the_card_clock() {
    let mut sdhci = handle(ready_controller(), 100);
    assert_eq!(sdhci.init(), Ok(()));
    let (log, _, _, _) = finish(sdhci);
    let stores: Vec<usize> = log
        .iter()
        .enumerate()
        .filter(|(_, a)| is_write(a) && addr_of(a) == CLK_CTRL)
        .map(|(i, _)| i)
        .collect();
    assert_eq!(stores.len(), 2);
    assert_eq!(log[stores[0]], w16(CLK_CTRL, 0x0003));
    assert_eq!(log[stores[1]], w16(CLK_CTRL, 0x0007));
    assert!(stores[0] < stores[1]);
    for (i, access) in log.iter().enumerate() {
        if is_write(access) && (addr_of(access) == ARGUMENT || addr_of(access) == COMMAND) {
            assert!(i > stores[1]);
        }
    }
}

/// The bring-up on a controller whose internal clock is found stable at the
/// `n`th look: the places of the two clock stores in the log, and the log.
fn stable_at_look(n: u32) -> (usize, usize, Vec<Access>) {
    let mut sim = SimRegisters::controller(BASE);
    sim.force(CLK_CTRL, 0x0000);
    for _ in 1..n {
        sim.force(CLK_CTRL, 0x0001);
    }
    sim.force(CLK_CTRL, 0x0003);
    let mut sdhci = handle(sim, 1000);
    assert_eq!(sdhci.init(), Ok(()));
    let (log, _, _, _) = finish(sdhci);
    let internal = log.iter().position(|a| *a == w16(CLK_CTRL, 0x0001)).unwrap();
    let card = log.iter().position(|a| *a == w16(CLK_CTRL, 0x0007)).unwrap();
    (internal, card, log)
}

#[test]
fn init_looks_at_clock_control_until_the_clock_is_stable() {
    for n in [1u32, 2, 5, 40] {
        let (internal, card, log) = stable_at_look(n);
        let between = &log[internal + 1..card];
        // the looks of the wait, then the load for the second store
        assert_eq!(between.len(), n as usize + 1);
        for look in &between[..n as usize - 1] {
            assert_eq!(*look, r16(CLK_CTRL, 0x0001));
        }
        assert_eq!(between[n as usize - 1], r16(CLK_CTRL, 0x0003));
        assert_eq!(between[n as usize], r16(CLK_CTRL, 0x0003));
        for access in &log[..card] {
            assert!(!(is_write(access) && addr_of(access) == ARGUMENT));
            assert!(!(is_write(access) && addr_of(access) == COMMAND));
        }
    }
}

#[test]
fn init_gives_up_on_the_reset() {
    let mut sdhci = handle(SimRegisters::new(BASE, 0x848), 5);
    assert_eq!(sdhci.init(), Err(Timeout::ResetAll));
    let (log, _, clk, timer) = finish(sdhci);
    assert_eq!(
        log,
        vec![
            r8(SW_RST, 0),
            w8(SW_RST, 1),
            r8(SW_RST, 1),
            r8(SW_RST, 1),
            r8(SW_RST, 1),
            r8(SW_RST, 1),
            r8(SW_RST, 1),
        ]
    );
    assert!(clk.log().is_empty());
    assert!(timer.log().is_empty());
}

#[test]
fn init_gives_up_on_the_internal_clock() {
    let mut sdhci = handle(SimRegisters::controller(BASE), 3);
    assert_eq!(sdhci.init(), Err(Timeout::InternalClock));
    let (log, sim, clk, timer) = finish(sdhci);
    let expected = bring_up(0);
    assert_eq!(&log[..22], &expected[..22]);
    assert_eq!(&log[22..], &[r16(CLK_CTRL, 1), r16(CLK_CTRL, 1), r16(CLK_CTRL, 1)]);
    assert_eq!(sim.peek(CLK_CTRL), 0x0001);
    assert_eq!(clk.log(), &selection());
    assert!(timer.log().is_empty());
}

#[test]
fn init_gives_up_in_the_first_command() {
    let mut sim = ready_controller();
    sim.poke(PSTATE, 0x0000_0001);
    let mut sdhci = handle(sim, 2);
    assert_eq!(sdhci.init(), Err(Timeout::CommandInhibit));
    let (log, sim, _, timer) = finish(sdhci);
    assert_eq!(log.len(), 26 + 5 + 2);
    assert_eq!(&log[31..], &[r32(PSTATE, 1), r32(PSTATE, 1)]);
    assert_eq!(sim.peek(COMMAND), 0);
    assert!(timer.log().is_empty());
}

#[test]
fn init_gives_up_in_the_second_command() {
    let mut sim = ready_controller();
    // the script goes on once the clock has been looked at; the loads of the
    // software reset register from then on are those for the first command
    // and its wait, for the second command, and then its wait
    sim.force(SW_RST, 0);
    sim.force(SW_RST, 0);
    sim.force(SW_RST, 0);
    sim.force(SW_RST, 0x02);
    let mut sdhci = handle(sim, 2);
    assert_eq!(sdhci.init(), Err(Timeout::CommandReset));
    let (log, sim, _, timer) = finish(sdhci);
    assert_eq!(log.len(), 26 + 8 + 1 + 4 + 2);
    assert_eq!(&log[39..], &[r8(SW_RST, 0x02), r8(SW_RST, 0x02)]);
    assert_eq!(sim.peek(ARGUMENT), 0);
    assert_eq!(timer.log(), &vec![10000u64]);
}

#[test]
fn init_twice_repeats_the_sequence() {
    let mut sdhci = handle(ready_controller(), 100);
    assert_eq!(sdhci.init(), Ok(()));
    assert_eq!(sdhci.init(), Ok(()));
    let (log, _, clk, timer) = finish(sdhci);
    let once = bring_up(0x0002);
    assert_eq!(log.len(), 2 * once.len());
    assert_eq!(&log[..once.len()], once.as_slice());
    assert_eq!(log[once.len() + 1], w8(SW_RST, 0x01));
    assert_eq!(clk.log().len(), 4);
    assert_eq!(timer.log(), &vec![10000u64, 10000]);
}

#[test]
fn response_is_read_through_the_register_layer() {
    let mut sim = ready_controller();
    sim.poke(RESP01, 0x00ff_8080);
    let mut sdhci = handle(sim, 100);
    assert_eq!(sdhci.init(), Ok(()));
    assert_eq!(sdhci.reg().emmc_get_resp01(), 0x00ff_8080);
    assert!(sdhci.reg().emmc_cmd_is_ready());
    let (log, _, _, _) = finish(sdhci);
    assert_eq!(log.len(), bring_up(0x0002).len() + 2);
    assert_eq!(log[log.len() - 2], r32(RESP01, 0x00ff_8080));
}

#[test]
fn command_description_is_built_from_its_parts() {
    let _go_idle = Cmd::new(0, 0, 0);
    let _send_op_cond = Cmd::new(1, 0, 2);
}

/// One list that every part of a simulated board writes to, so that what
/// the clock tree and the timer were asked can be placed among the register
/// accesses.
#[derive(Clone)]
struct Journal {
    lines: Rc<RefCell<Vec<String>>>,
}

impl Journal {
    fn new() -> Self {
        Journal { lines: Rc::new(RefCell::new(Vec::new())) }
    }

    fn note(&self, line: String) {
        self.lines.borrow_mut().push(line);
    }
}

struct JournalBus {
    journal: Journal,
    sim: SimRegisters,
}

impl Mmio for JournalBus {
    fn read8(&mut self, addr: u64) -> u8 {
        let value = self.sim.read8(addr);
        self.journal.note(format!("load8 {:#x}", addr - BASE));
        value
    }

    fn read16(&mut self, addr: u64) -> u16 {
        let value = self.sim.read16(addr);
        self.journal.note(format!("load16 {:#x}", addr - BASE));
        value
    }

    fn read32(&mut self, addr: u64) -> u32 {
        let value = self.sim.read32(addr);
        self.journal.note(format!("load32 {:#x}", addr - BASE));
        value
    }

    fn write8(&mut self, addr: u64, value: u8) {
        self.sim.write8(addr, value);
        self.journal.note(format!("store8 {:#x} {:#x}", addr - BASE, value));
    }

    fn write16(&mut self, addr: u64, value: u16) {
        self.sim.write16(addr, value);
        self.journal.note(format!("store16 {:#x} {:#x}", addr - BASE, value));
    }

    fn write32(&mut self, addr: u64, value: u32) {
        self.sim.write32(addr, value);
        self.journal.note(format!("store32 {:#x} {:#x}", addr - BASE, value));
    }
}

struct JournalClock {
    journal: Journal,
}

impl ClockTree for JournalClock {
    fn cru_clksel_set_cclk_emmc(&mut self, sel: CclkEmmc) {
        self.journal.note(format!("select {:?}", sel));
    }

    fn cru_clksel_get_cclk_emmc(&mut self) -> u32 {
        self.journal.note(format!("selector"));
        5
    }
}

struct JournalTimer {
    journal: Journal,
}

struct JournalSink {
    journal: Journal,
}

impl Diagnostics for JournalSink {
    fn report(&mut self, probe: Probe, value: u32) {
        self.journal.note(format!("report {:?} {:#x}", probe, value));
    }
}

impl Delay for JournalTimer {
    fn delay_us(&mut self, us: u64) {
        self.journal.note(format!("delay {}", us));
    }
}

fn journal_of_init() -> Vec<String> {
    let journal = Journal::new();
    let bus = JournalBus { journal: journal.clone(), sim: ready_controller() };
    let clk = JournalClock { journal: journal.clone() };
    let timer = JournalTimer { journal: journal.clone() };
    let sink = JournalSink { journal: journal.clone() };
    let mut sdhci = SDHCI::new(BASE, bus, clk, timer, sink, 100);
    assert_eq!(sdhci.init(), Ok(()));
    let lines = journal.lines.borrow().clone();
    lines
}

#[test]
fn init_selects_the_card_clock_after_the_reset_and_before_the_power() {
    let lines = journal_of_init();
    assert_eq!(
        &lines[..8],
        &[
            "load8 0x2f",
            "store8 0x2f 0x1",
            "load8 0x2f",
            "select Soc0Div375K",
            "selector",
            "report CardClock 0x5",
            "load8 0x29",
            "store8 0x29 0x1",
        ]
    );
    assert_eq!(lines.iter().filter(|l| l.starts_with("select ")).count(), 1);
    let select = lines.iter().position(|l| l == "select Soc0Div375K").unwrap();
    let internal = lines.iter().position(|l| l == "store16 0x2c 0x3").unwrap();
    assert!(select < internal);
}

#[test]
fn init_lets_the_card_settle_between_its_two_commands() {
    let lines = journal_of_init();
    let delay = lines.iter().position(|l| l == "delay 10000").unwrap();
    assert_eq!(lines.iter().filter(|l| l.starts_with("delay ")).count(), 1);
    assert_eq!(lines[delay - 3], "store16 0xe 0x0");
    assert_eq!(lines[delay - 2], "load32 0x10");
    assert_eq!(lines[delay - 1], "report Response01 0x0");
    assert_eq!(lines[delay + 1], "store16 0x32 0x1f7f");
    let op_cond = lines.iter().position(|l| l == "store16 0xe 0x102").unwrap();
    assert!(delay < op_cond);
    assert_eq!(lines[op_cond - 1], "store32 0x8 0x40000000");
    assert_eq!(lines[lines.len() - 2], "load32 0x10");
    assert_eq!(lines.last().unwrap(), "report Response01 0x0");
}

#[test]
fn test_platform() {
    // the eMMC controller and the clock and reset unit of the RK3568
    let emmc_addr: u64 = 0xfe31_0000;
    let clk = SimClockTree::new(0);
    let mut sim = SimRegisters::controller(emmc_addr);
    sim.force(emmc_addr + 0x2c, 0x0002);
    let mut sdhci = SDHCI::new(emmc_addr, sim, clk, SimDelay::new(), SimLog::new(), 1_000_000);
    let outcome = sdhci.init();
    println!("EMMC reg {:#x}, bring-up {:?}", emmc_addr, outcome);
    assert_eq!(outcome, Ok(()));
}

#[test]
fn init_reports_what_it_loads_to_look_at() {
    let mut sim = ready_controller();
    sim.poke(RESP01, 0x00ff_8080);
    let mut sdhci = handle(sim, 100);
    assert_eq!(sdhci.init(), Ok(()));
    assert_eq!(
        reports_of(sdhci),
        vec![
            report(Probe::CardClock, 5),
            report(Probe::DllCtrl, 0),
            report(Probe::DllRxclk, 0),
            report(Probe::DllTxclk, 0),
            report(Probe::DllCtrl, 0xff00_0001),
            report(Probe::DllRxclk, 0x8000_0000),
            report(Probe::DllTxclk, 0),
            report(Probe::ClkCtrl, 0x0007),
            report(Probe::Response01, 0x00ff_8080),
            report(Probe::Response01, 0x00ff_8080),
        ]
    );
}

#[test]
fn init_that_gives_up_reports_what_it_saw_until_then() {
    let mut sdhci = handle(SimRegisters::new(BASE, 0x848), 5);
    assert_eq!(sdhci.init(), Err(Timeout::ResetAll));
    assert!(reports_of(sdhci).is_empty());
    let mut sdhci = handle(SimRegisters::controller(BASE), 3);
    assert_eq!(sdhci.init(), Err(Timeout::InternalClock));
    assert_eq!(
        reports_of(sdhci),
        vec![
            report(Probe::CardClock, 5),
            report(Probe::DllCtrl, 0),
            report(Probe::DllRxclk, 0),
            report(Probe::DllTxclk, 0),
            report(Probe::DllCtrl, 0xff00_0001),
            report(Probe::DllRxclk, 0x8000_0000),
            report(Probe::DllTxclk, 0),
        ]
    );
}

#[test]
fn send_command_reports_nothing() {
    let mut sdhci = handle(SimRegisters::controller(BASE), 100);
    assert_eq!(sdhci.sdhci_send_cmd(7, 0, 2, 1), Ok(()));
    assert!(reports_of(sdhci).is_empty());
}

#[test]
fn init_works_on_the_highest_window_that_fits() {
    let base = u64::MAX - 0x847;
    assert_eq!(base % 4, 0);
    let mut sim = SimRegisters::controller(base);
    sim.force(base + 0x2c, 0x0002);
    let mut sdhci =
        SDHCI::new(base, sim, SimClockTree::new(5), SimDelay::new(), SimLog::new(), 100);
    assert_eq!(sdhci.init(), Ok(()));
    sdhci.reg().emmc_set_dll_strbin(0x00a5_0000);
    assert_eq!(sdhci.reg().emmc_get_strbin_delay_value(), 0);
    let (reg, _, _, _) = sdhci.into_parts();
    let sim = reg.into_io();
    assert_eq!(sim.peek(base + 0x2f), 0);
    assert_eq!(sim.log().last(), Some(&Access::Read32 { addr: u64::MAX - 3, value: 0 }));
}
