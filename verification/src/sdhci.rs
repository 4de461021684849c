//! The controller sequencer: bring-up of the controller and the issue of a
//! command, built from the operations of the register access layer.
//!
//! Wherever the hardware has to finish something first, the sequencer loads
//! a status bit again and again. Each such wait is bounded by the handle's
//! poll limit: after that many loads without the awaited answer the call
//! gives up and says which wait ran out.
//!
//! Beside the registers the sequencer needs the clock tree of the chip, a
//! way to let time pass, and a sink for the values that it loads only to
//! show them. Each is a trait here. A part may keep a record of what is
//! asked of it; the contracts then say what that record has grown by.
use vstd::prelude::*;
use crate::mmio::Access;
use crate::mmio::clear_bits8;
use crate::mmio::fetch16;
use crate::mmio::fetch32;
use crate::mmio::fetch8;
use crate::mmio::Mmio;
use crate::mmio::set_bits16;
use crate::mmio::set_bits8;
use crate::mmio::spin16;
use crate::mmio::spin32;
use crate::mmio::spin8;
use crate::mmio::store16;
use crate::mmio::store32;
use crate::sdhci::script::BringupReplies;
use crate::sdhci::script::CardClockReplies;
use crate::sdhci::script::clock_selected;
use crate::sdhci::script::CommandReplies;
use crate::sdhci::script::delays_of;
use crate::sdhci::script::DllProbe;
use crate::sdhci::script::ends16;
use crate::sdhci::script::ends32;
use crate::sdhci::script::ends8;
use crate::sdhci::script::Event;
use crate::sdhci::script::lemma_side_step;
use crate::sdhci::script::lemma_sides_add;
use crate::sdhci::script::reg_at;
use crate::sdhci::script::reported;
use crate::sdhci::script::reports_of;
use crate::sdhci::script::requests_of;
use crate::sdhci::script::ResetReplies;
use crate::sdhci::script::settled;
use crate::sdhci::script::SetupReplies;
use crate::sdhci::script::Side;
use crate::sdhci::script::wait16;
use crate::sdhci::script::wait32;
use crate::sdhci::script::wait8;
use crate::sdhci_reg::emmc_clk_ctrl_bits::EMMC_CLK_CTRL_OFFSET;
use crate::sdhci_reg::emmc_clk_ctrl_bits::EMMC_INTERNAL_CLK_EN;
use crate::sdhci_reg::emmc_clk_ctrl_bits::EMMC_INTERNAL_CLK_STABLE;
use crate::sdhci_reg::emmc_clk_ctrl_bits::EMMC_SD_CLK_EN;
use crate::sdhci_reg::emmc_cmd_bits::EMMC_CMD_INDEX_POS;
use crate::sdhci_reg::emmc_cmd_bits::EMMC_CMD_TYPE_NORMAL;
use crate::sdhci_reg::emmc_cmd_bits::EMMC_RESP_TYPE_LEN_48;
use crate::sdhci_reg::emmc_cmd_bits::EMMC_RESP_TYPE_NONE;
use crate::sdhci_reg::emmc_dll_ctrl_bits::EMMC_DLL_BYPASS;
use crate::sdhci_reg::emmc_dll_ctrl_bits::EMMC_DLL_CTRL_OFFSET;
use crate::sdhci_reg::emmc_dll_ctrl_bits::EMMC_DLL_START;
use crate::sdhci_reg::emmc_dll_rxclk_bits::EMMC_DLL_RXCLK_OFFSET;
use crate::sdhci_reg::emmc_dll_txclk_bits::EMMC_DLL_TXCLK_OFFSET;
use crate::sdhci_reg::emmc_error_int_stat_bits::EMMC_ERROR_INT_FLAGS;
use crate::sdhci_reg::emmc_error_int_stat_bits::EMMC_ERROR_INT_STAT_OFFSET;
use crate::sdhci_reg::emmc_host_ctrl1_bits::EMMC_DAT_XFER_WIDTH;
use crate::sdhci_reg::emmc_host_ctrl1_bits::EMMC_HOST_CTRL1_OFFSET;
use crate::sdhci_reg::emmc_normal_int_en_bits::EMMC_BUF_RD_READY_EN;
use crate::sdhci_reg::emmc_normal_int_en_bits::EMMC_BUF_WR_READY_EN;
use crate::sdhci_reg::emmc_normal_int_en_bits::EMMC_CMD_COMPLETE_EN;
use crate::sdhci_reg::emmc_normal_int_en_bits::EMMC_DMA_INTERRUPT_EN;
use crate::sdhci_reg::emmc_normal_int_en_bits::EMMC_XFER_COMPLETE_EN;
use crate::sdhci_reg::emmc_normal_int_stat_bits::EMMC_NORMAL_INT_FLAGS;
use crate::sdhci_reg::emmc_normal_int_stat_bits::EMMC_NORMAL_INT_STAT_OFFSET;
use crate::sdhci_reg::emmc_pstate_bits::EMMC_CMD_INHIBIT;
use crate::sdhci_reg::emmc_pstate_bits::EMMC_PSTATE_OFFSET;
use crate::sdhci_reg::emmc_pwr_ctrl_bits::EMMC_PWR_CTRL_OFFSET;
use crate::sdhci_reg::emmc_pwr_ctrl_bits::EMMC_PWR_ON;
use crate::sdhci_reg::emmc_resp01_bits::EMMC_RESP01_OFFSET;
use crate::sdhci_reg::emmc_sw_rst_bits::EMMC_SW_RST_ALL;
use crate::sdhci_reg::emmc_sw_rst_bits::EMMC_SW_RST_CMD;
use crate::sdhci_reg::emmc_sw_rst_bits::EMMC_SW_RST_OFFSET;
use crate::sdhci_reg::EMMC_WINDOW_SPAN;
use crate::sdhci_reg::Reg;
pub mod order;
pub mod script;

verus! {

/// A setting of the divider that feeds the card clock of the eMMC
/// controller.
#[derive(Clone, Copy, Debug, PartialEq, Eq)]
pub enum CclkEmmc {
    /// 375 kHz, the clock at which a card is identified.
    Soc0Div375K,
}

/// Something asked of the clock tree.
#[derive(Clone, Copy, Debug, PartialEq, Eq)]
pub enum ClockRequest {
    /// To select this source for the card clock.
    Select(CclkEmmc),
    /// The selector of the card clock, which came back as this.
    Read(u32),
}

/// The clock tree of the chip, as far as the sequencer needs it.
///
/// A clock tree may keep a record of what it is asked. One that does says so
/// by `records`, and then each call adds to `asked` exactly the request it
/// is. One that keeps no record leaves both as they are given here and
/// promises nothing.
pub trait ClockTree {
    /// Whether the clock tree keeps a record of what it is asked.
    open spec fn records(&self) -> bool {
        false
    }

    /// Everything that the clock tree has recorded, oldest first.
    open spec fn asked(&self) -> Seq<ClockRequest> {
        Seq::empty()
    }

    /// Selects the source of the card clock.
    fn cru_clksel_set_cclk_emmc(&mut self, sel: CclkEmmc)
        ensures
            final(self).records() == old(self).records(),
            old(self).records() ==> final(self).asked() == old(self).asked().push(
                ClockRequest::Select(sel),
            ),
    ;

    /// The selector of the card clock as the clock tree holds it now.
    fn cru_clksel_get_cclk_emmc(&mut self) -> (selector: u32)
        ensures
            final(self).records() == old(self).records(),
            old(self).records() ==> final(self).asked() == old(self).asked().push(
                ClockRequest::Read(selector),
            ),
    ;
}

/// A way to let time pass.
///
/// A timer may keep a record of the delays asked of it; it then says so by
/// `records`, and each call adds its delay to `waited`.
pub trait Delay {
    /// Whether the timer keeps a record of the delays asked of it.
    open spec fn records(&self) -> bool {
        false
    }

    /// Every delay that the timer has recorded, in microseconds, oldest
    /// first.
    open spec fn waited(&self) -> Seq<u64> {
        Seq::empty()
    }

    /// Returns when at least `us` microseconds have passed.
    fn delay_us(&mut self, us: u64)
        ensures
            final(self).records() == old(self).records(),
            old(self).records() ==> final(self).waited() == old(self).waited().push(us),
    ;
}

/// What a reported value was loaded from.
#[derive(Clone, Copy, Debug, PartialEq, Eq)]
pub enum Probe {
    /// The selector of the card clock in the clock tree.
    CardClock,
    /// The control register of the delay-locked loop.
    DllCtrl,
    /// The delay line of the receive clock.
    DllRxclk,
    /// The delay line of the transmit clock.
    DllTxclk,
    /// The clock control register.
    ClkCtrl,
    /// Response register 01.
    Response01,
}

/// One reported value.
#[derive(Clone, Copy, Debug, PartialEq, Eq)]
pub struct Report {
    pub probe: Probe,
    pub value: u32,
}

/// Where the sequencer reports what it has seen: the values that it loads
/// during bring-up only to show them.
///
/// A sink may keep a record of what is reported to it; it then says so by
/// `records`, and each call adds its report to `reported`.
pub trait Diagnostics {
    /// Whether the sink keeps a record of what is reported to it.
    open spec fn records(&self) -> bool {
        false
    }

    /// Every report that the sink has recorded, oldest first.
    open spec fn reported(&self) -> Seq<Report> {
        Seq::empty()
    }

    /// Takes the value `value` that was loaded from `probe`.
    fn report(&mut self, probe: Probe, value: u32)
        ensures
            final(self).records() == old(self).records(),
            old(self).records() ==> final(self).reported() == old(self).reported().push(
                Report { probe, value },
            ),
    ;
}

/// A wait that ran out: the hardware did not give the awaited answer within
/// the poll limit.
#[derive(Clone, Copy, Debug, PartialEq, Eq)]
pub enum Timeout {
    /// The reset of the whole controller did not finish.
    ResetAll,
    /// The internal clock did not become stable.
    InternalClock,
    /// The reset of the command circuit did not finish.
    CommandReset,
    /// The command line did not become free.
    CommandInhibit,
}

/// The normal interrupts whose status is latched during bring-up: command
/// complete, transfer complete, DMA, and the buffer ready for writing or
/// reading. None of them is signalled: the driver polls.
pub const EMMC_POLLED_INT_EN: u16 = EMMC_CMD_COMPLETE_EN | EMMC_XFER_COMPLETE_EN
    | EMMC_DMA_INTERRUPT_EN | EMMC_BUF_WR_READY_EN | EMMC_BUF_RD_READY_EN;

/// What the control register of the delay-locked loop is set to at
/// bring-up: the loop runs, in bypass mode.
pub const EMMC_DLL_CTRL_INIT: u32 = EMMC_DLL_START | EMMC_DLL_BYPASS;

/// What the delay line of the receive clock is set to at bring-up.
pub const EMMC_DLL_RXCLK_INIT: u32 = 1 << 31;

/// What the delay line of the transmit clock is set to at bring-up.
pub const EMMC_DLL_TXCLK_INIT: u32 = 0;

/// Argument of the command that asks an eMMC card for its operating
/// conditions.
pub const EMMC_SEND_OP_COND_ARG: u32 = 0x4000_0000;

/// Microseconds left to the card between the command that sends it to idle
/// and the next one.
pub const EMMC_IDLE_SETTLE_US: u64 = 10000;

/// Handle on the controller and on what it depends on: the register access
/// layer, the clock tree, a way to wait, and a sink for what is seen on the
/// way.
///
/// Beside them it keeps, as ghost state, the list of the side steps it has
/// taken, each with its place among the register accesses. Where the bus,
/// the clock tree, the timer or the sink keeps a record of its own, the
/// contracts also say what that record has grown by.
pub struct SDHCI<M: Mmio, C: ClockTree, D: Delay, L: Diagnostics> {
    reg: Reg<M>,
    clk: C,
    timer: D,
    log: L,
    poll_limit: u32,
    side: Ghost<Seq<Event>>,
    asked_before: Ghost<Seq<ClockRequest>>,
    waited_before: Ghost<Seq<u64>>,
    shown_before: Ghost<Seq<Report>>,
}

/// Which reset a wait is for.
enum Reset {
    Whole,
    Command,
}

impl Reset {
    /// The bit of the software reset register that stands for the reset.
    spec fn mask(self) -> u8 {
        match self {
            Reset::Whole => EMMC_SW_RST_ALL,
            Reset::Command => EMMC_SW_RST_CMD,
        }
    }
}

impl<M: Mmio, C: ClockTree, D: Delay, L: Diagnostics> SDHCI<M, C, D, L> {
    /// Base address of the controller's register window.
    pub closed spec fn base(&self) -> u64 {
        self.reg.base()
    }

    /// Every register access issued through this handle so far, oldest
    /// first.
    pub closed spec fn accesses(&self) -> Seq<Access> {
        self.reg.accesses()
    }

    /// What the bus had recorded when the handle was made.
    pub closed spec fn prior(&self) -> Seq<Access> {
        self.reg.prior()
    }

    /// Every side step taken through this handle so far, oldest first.
    pub closed spec fn events(&self) -> Seq<Event> {
        self.side@
    }

    /// The most loads that one wait may take.
    pub closed spec fn limit(&self) -> u32 {
        self.poll_limit
    }

    /// The bus behind the register access layer.
    pub closed spec fn bus(&self) -> M {
        self.reg.bus()
    }

    /// The clock tree.
    pub closed spec fn clock(&self) -> C {
        self.clk
    }

    /// The timer.
    pub closed spec fn timer(&self) -> D {
        self.timer
    }

    /// The sink for what is seen.
    pub closed spec fn sink(&self) -> L {
        self.log
    }

    /// What the clock tree had recorded when the handle was made.
    pub closed spec fn clock_prior(&self) -> Seq<ClockRequest> {
        self.asked_before@
    }

    /// What the timer had recorded when the handle was made.
    pub closed spec fn timer_prior(&self) -> Seq<u64> {
        self.waited_before@
    }

    /// What the sink had recorded when the handle was made.
    pub closed spec fn sink_prior(&self) -> Seq<Report> {
        self.shown_before@
    }

    /// The register window lies within the address space, and the handle's
    /// lists are those of its parts. Where the bus keeps a record, the
    /// record is what it had recorded before the handle was made, followed
    /// by every access issued through the handle. Where the clock tree, the
    /// timer or the sink keeps a record, the record is what it had recorded
    /// before, followed by the side steps of its kind.
    pub open spec fn wf(&self) -> bool {
        &&& self.base() <= u64::MAX - (EMMC_WINDOW_SPAN - 1)
        &&& self.bus().records() ==> self.bus().seen() == self.prior() + self.accesses()
        &&& self.clock().records() ==> self.clock().asked() == self.clock_prior() + requests_of(
            self.events(),
        )
        &&& self.timer().records() ==> self.timer().waited() == self.timer_prior() + delays_of(
            self.events(),
        )
        &&& self.sink().records() ==> self.sink().reported() == self.sink_prior() + reports_of(
            self.events(),
        )
    }

    /// The handle is the one that `before` was: on the same window, with the
    /// same poll limit and the same starts of its lists, and each of its
    /// four parts still keeps a record if it did.
    pub open spec fn same_setup(&self, before: &Self) -> bool {
        &&& self.base() == before.base()
        &&& self.limit() == before.limit()
        &&& self.prior() == before.prior()
        &&& self.clock_prior() == before.clock_prior()
        &&& self.timer_prior() == before.timer_prior()
        &&& self.sink_prior() == before.sink_prior()
        &&& self.bus().records() == before.bus().records()
        &&& self.clock().records() == before.clock().records()
        &&& self.timer().records() == before.timer().records()
        &&& self.sink().records() == before.sink().records()
    }

    /// Nothing was asked of the clock tree, the timer or the sink since
    /// `before`.
    pub open spec fn sides_untouched(&self, before: &Self) -> bool {
        &&& self.clock() == before.clock()
        &&& self.timer() == before.timer()
        &&& self.sink() == before.sink()
    }

    /// What the handle has done, its parts have seen. When a call has taken
    /// the handle from `before` to `self`, adding `issued` to its accesses
    /// and `steps` to its side steps, then each part that keeps a record has
    /// recorded exactly its share since: the bus `issued`, the clock tree
    /// the requests among `steps`, the timer the delays, the sink the
    /// reports.
    pub proof fn lemma_parts_have_seen(&self, before: &Self, issued: Seq<Access>, steps: Seq<Event>)
        requires
            before.wf(),
            self.wf(),
            self.same_setup(before),
            self.accesses() == before.accesses() + issued,
            self.events() == before.events() + steps,
        ensures
            before.bus().records() ==> self.bus().seen() == before.bus().seen() + issued,
            before.clock().records() ==> self.clock().asked() == before.clock().asked()
                + requests_of(steps),
            before.timer().records() ==> self.timer().waited() == before.timer().waited()
                + delays_of(steps),
            before.sink().records() ==> self.sink().reported() == before.sink().reported()
                + reports_of(steps),
    {
        lemma_sides_add(before.events(), steps);
        assert(self.prior() + (before.accesses() + issued) =~= (before.prior()
            + before.accesses()) + issued);
        assert(self.clock_prior() + (requests_of(before.events()) + requests_of(steps)) =~= (
        before.clock_prior() + requests_of(before.events())) + requests_of(steps));
        assert(self.timer_prior() + (delays_of(before.events()) + delays_of(steps)) =~= (
        before.timer_prior() + delays_of(before.events())) + delays_of(steps));
        assert(self.sink_prior() + (reports_of(before.events()) + reports_of(steps)) =~= (
        before.sink_prior() + reports_of(before.events())) + reports_of(steps));
    }

    /// A handle on the controller whose registers start at `base_addr` and
    /// are reached through `io`. `clk` is the clock tree, `timer` the way to
    /// wait, `log` the sink for what is seen, `poll_limit` the most loads
    /// that one wait may take.
    pub fn new(base_addr: u64, io: M, clk: C, timer: D, log: L, poll_limit: u32) -> (sdhci: Self)
        requires
            base_addr <= u64::MAX - (EMMC_WINDOW_SPAN - 1),
        ensures
            sdhci.wf(),
            sdhci.base() == base_addr,
            sdhci.limit() == poll_limit,
            sdhci.bus() == io,
            sdhci.clock() == clk,
            sdhci.timer() == timer,
            sdhci.sink() == log,
            sdhci.prior() == io.seen(),
            sdhci.clock_prior() == clk.asked(),
            sdhci.timer_prior() == timer.waited(),
            sdhci.sink_prior() == log.reported(),
            sdhci.accesses() == Seq::<Access>::empty(),
            sdhci.events() == Seq::<Event>::empty(),
    {
        let ghost asked = clk.asked();
        let ghost waited = timer.waited();
        let ghost shown = log.reported();
        let sdhci = SDHCI {
            reg: Reg::new(base_addr, io),
            clk,
            timer,
            log,
            poll_limit,
            side: Ghost(Seq::empty()),
            asked_before: Ghost(asked),
            waited_before: Ghost(waited),
            shown_before: Ghost(shown),
        };
        proof {
            assert(asked + requests_of(Seq::empty()) =~= asked);
            assert(waited + delays_of(Seq::empty()) =~= waited);
            assert(shown + reports_of(Seq::empty()) =~= shown);
        }
        sdhci
    }

    /// The register access layer, to use directly: after a command its
    /// response is read through it.
    pub fn reg(&mut self) -> (reg: &mut Reg<M>)
        ensures
            reg.base() == old(self).base(),
            reg.accesses() == old(self).accesses(),
            reg.bus() == old(self).bus(),
            reg.prior() == old(self).prior(),
            final(self).base() == final(reg).base(),
            final(self).accesses() == final(reg).accesses(),
            final(self).bus() == final(reg).bus(),
            final(self).prior() == final(reg).prior(),
            final(self).limit() == old(self).limit(),
            final(self).events() == old(self).events(),
            final(self).sides_untouched(old(self)),
            final(self).clock_prior() == old(self).clock_prior(),
            final(self).timer_prior() == old(self).timer_prior(),
            final(self).sink_prior() == old(self).sink_prior(),
    {
        &mut self.reg
    }

    /// Takes the handle apart: the register access layer, the clock tree,
    /// the timer and the sink.
    pub fn into_parts(self) -> (parts: (Reg<M>, C, D, L))
        ensures
            parts.0.base() == self.base(),
            parts.0.accesses() == self.accesses(),
            parts.0.bus() == self.bus(),
            parts.0.prior() == self.prior(),
            parts.1 == self.clock(),
            parts.2 == self.timer(),
            parts.3 == self.sink(),
    {
        (self.reg, self.clk, self.timer, self.log)
    }

    /// Loads the software reset register until the reset `which` has
    /// finished or the poll limit is reached. Returns whether the reset
    /// finished, and the answers.
    fn await_reset(&mut self, which: Reset) -> (out: (bool, Ghost<Seq<u8>>))
        requires
            old(self).wf(),
        ensures
            final(self).wf(),
            final(self).same_setup(old(self)),
            final(self).events() == old(self).events(),
            final(self).sides_untouched(old(self)),
            wait8(out.1@, which.mask(), 0, old(self).limit()),
            final(self).accesses() == old(self).accesses() + spin8(
                reg_at(old(self).base(), EMMC_SW_RST_OFFSET),
                out.1@,
            ),
            out.0 == ends8(out.1@, which.mask(), 0),
    {
        let ghost addr = reg_at(self.base(), EMMC_SW_RST_OFFSET);
        let ghost mask = which.mask();
        let ghost mut replies: Seq<u8> = Seq::empty();
        let mut tries: u32 = 0;
        assert(self.accesses() == old(self).accesses() + spin8(addr, replies));
        while tries < self.poll_limit
            invariant
                self.wf(),
                self.same_setup(old(self)),
                self.events() == old(self).events(),
                self.sides_untouched(old(self)),
                addr == reg_at(old(self).base(), EMMC_SW_RST_OFFSET),
                mask == which.mask(),
                replies.len() == tries,
                tries <= self.poll_limit,
                forall|i: int| 0 <= i < replies.len() ==> (#[trigger] replies[i]) & mask != 0,
                self.accesses() == old(self).accesses() + spin8(addr, replies),
            decreases self.poll_limit - tries,
        {
            let ghost prev = self.reg;
            let finished = match which {
                Reset::Whole => self.reg.emmc_reset_all_is_finished(),
                Reset::Command => self.reg.emmc_reset_cmd_is_finished(),
            };
            let ghost seen = choose|seen: u8|
                self.reg.accesses() == prev.accesses() + #[trigger] fetch8(
                    prev.at(EMMC_SW_RST_OFFSET),
                    seen,
                ) && finished == (seen & mask == 0);
            proof {
                assert(prev.at(EMMC_SW_RST_OFFSET) == addr);
                assert(self.accesses() == old(self).accesses() + spin8(addr, replies.push(seen)));
                replies = replies.push(seen);
            }
            tries = tries + 1;
            if finished {
                return (true, Ghost(replies));
            }
        }
        (false, Ghost(replies))
    }

    /// Loads the clock control register until the internal clock is stable
    /// or the poll limit is reached. Returns whether the clock became
    /// stable, and the answers.
    fn await_internal_clk(&mut self) -> (out: (bool, Ghost<Seq<u16>>))
        requires
            old(self).wf(),
        ensures
            final(self).wf(),
            final(self).same_setup(old(self)),
            final(self).events() == old(self).events(),
            final(self).sides_untouched(old(self)),
            wait16(
                out.1@,
                EMMC_INTERNAL_CLK_STABLE,
                EMMC_INTERNAL_CLK_STABLE,
                old(self).limit(),
            ),
            final(self).accesses() == old(self).accesses() + spin16(
                reg_at(old(self).base(), EMMC_CLK_CTRL_OFFSET),
                out.1@,
            ),
            out.0 == ends16(out.1@, EMMC_INTERNAL_CLK_STABLE, EMMC_INTERNAL_CLK_STABLE),
    {
        let ghost addr = reg_at(self.base(), EMMC_CLK_CTRL_OFFSET);
        let ghost mut replies: Seq<u16> = Seq::empty();
        let mut tries: u32 = 0;
        assert(self.accesses() == old(self).accesses() + spin16(addr, replies));
        while tries < self.poll_limit
            invariant
                self.wf(),
                self.same_setup(old(self)),
                self.events() == old(self).events(),
                self.sides_untouched(old(self)),
                addr == reg_at(old(self).base(), EMMC_CLK_CTRL_OFFSET),
                replies.len() == tries,
                tries <= self.poll_limit,
                forall|i: int|
                    0 <= i < replies.len() ==> (#[trigger] replies[i]) & EMMC_INTERNAL_CLK_STABLE
                        != EMMC_INTERNAL_CLK_STABLE,
                self.accesses() == old(self).accesses() + spin16(addr, replies),
            decreases self.poll_limit - tries,
        {
            let ghost prev = self.reg;
            let finished = self.reg.emmc_internal_clk_is_stable();
            let ghost seen = choose|seen: u16|
                self.reg.accesses() == prev.accesses() + #[trigger] fetch16(
                    prev.at(EMMC_CLK_CTRL_OFFSET),
                    seen,
                ) && finished == (seen & EMMC_INTERNAL_CLK_STABLE == EMMC_INTERNAL_CLK_STABLE);
            proof {
                assert(prev.at(EMMC_CLK_CTRL_OFFSET) == addr);
                assert(self.accesses() == old(self).accesses() + spin16(addr, replies.push(seen)));
                replies = replies.push(seen);
            }
            tries = tries + 1;
            if finished {
                return (true, Ghost(replies));
            }
        }
        (false, Ghost(replies))
    }

    /// Loads the present state until the command line is free or the poll
    /// limit is reached. Returns whether the line became free, and the
    /// answers.
    fn await_cmd_ready(&mut self) -> (out: (bool, Ghost<Seq<u32>>))
        requires
            old(self).wf(),
        ensures
            final(self).wf(),
            final(self).same_setup(old(self)),
            final(self).events() == old(self).events(),
            final(self).sides_untouched(old(self)),
            wait32(out.1@, EMMC_CMD_INHIBIT, 0, old(self).limit()),
            final(self).accesses() == old(self).accesses() + spin32(
                reg_at(old(self).base(), EMMC_PSTATE_OFFSET),
                out.1@,
            ),
            out.0 == ends32(out.1@, EMMC_CMD_INHIBIT, 0),
    {
        let ghost addr = reg_at(self.base(), EMMC_PSTATE_OFFSET);
        let ghost mut replies: Seq<u32> = Seq::empty();
        let mut tries: u32 = 0;
        assert(self.accesses() == old(self).accesses() + spin32(addr, replies));
        while tries < self.poll_limit
            invariant
                self.wf(),
                self.same_setup(old(self)),
                self.events() == old(self).events(),
                self.sides_untouched(old(self)),
                addr == reg_at(old(self).base(), EMMC_PSTATE_OFFSET),
                replies.len() == tries,
                tries <= self.poll_limit,
                forall|i: int|
                    0 <= i < replies.len() ==> (#[trigger] replies[i]) & EMMC_CMD_INHIBIT != 0,
                self.accesses() == old(self).accesses() + spin32(addr, replies),
            decreases self.poll_limit - tries,
        {
            let ghost prev = self.reg;
            let finished = self.reg.emmc_cmd_is_ready();
            let ghost seen = choose|seen: u32|
                self.reg.accesses() == prev.accesses() + #[trigger] fetch32(
                    prev.at(EMMC_PSTATE_OFFSET),
                    seen,
                ) && finished == (seen & EMMC_CMD_INHIBIT == 0);
            proof {
                assert(prev.at(EMMC_PSTATE_OFFSET) == addr);
                assert(self.accesses() == old(self).accesses() + spin32(addr, replies.push(seen)));
                replies = replies.push(seen);
            }
            tries = tries + 1;
            if finished {
                return (true, Ghost(replies));
            }
        }
        (false, Ghost(replies))
    }

    /// Clears the latched flags, resets the command circuit and waits for
    /// the reset. Returns whether the reset finished, and the answers.
    fn prepare_command(&mut self) -> (out: (bool, Ghost<CommandReplies>))
        requires
            old(self).wf(),
        ensures
            final(self).wf(),
            final(self).same_setup(old(self)),
            final(self).events() == old(self).events(),
            final(self).sides_untouched(old(self)),
            wait8(out.1@.reset_wait, EMMC_SW_RST_CMD, 0, old(self).limit()),
            out.1@.inhibit_wait == Seq::<u32>::empty(),
            final(self).accesses() == old(self).accesses() + out.1@.prepare(old(self).base()),
            out.0 == out.1@.reset_done(),
    {
        let ghost base = self.base();
        let ghost t0 = self.accesses();
        self.reg.emmc_clear_all_error_int_flags();
        self.reg.emmc_clear_all_normal_int_flags();
        let ghost t2 = self.accesses();
        let ghost prev = self.reg;
        self.reg.emmc_reset_cmd();
        let ghost reset = choose|seen: u8|
            self.reg.accesses() == prev.accesses() + #[trigger] set_bits8(
                prev.at(EMMC_SW_RST_OFFSET),
                seen,
                EMMC_SW_RST_CMD,
            );
        let ghost t3 = self.accesses();
        let (done, Ghost(reset_wait)) = self.await_reset(Reset::Command);
        let ghost r = CommandReplies { reset, reset_wait, inhibit_wait: Seq::empty() };
        proof {
            assert(t2 == t0 + store16(
                reg_at(base, EMMC_ERROR_INT_STAT_OFFSET),
                EMMC_ERROR_INT_FLAGS,
            ) + store16(reg_at(base, EMMC_NORMAL_INT_STAT_OFFSET), EMMC_NORMAL_INT_FLAGS));
            assert(t3 == t2 + set_bits8(reg_at(base, EMMC_SW_RST_OFFSET), reset, EMMC_SW_RST_CMD));
            assert(self.accesses() == t0 + r.prepare(base));
        }
        (done, Ghost(r))
    }

    /// Issues one command and returns, beside the outcome, what the
    /// hardware answered.
    fn issue_command(&mut self, idx: u16, ctype: u16, resp_type: u16, arg: u32) -> (out: (
        Result<(), Timeout>,
        Ghost<CommandReplies>,
    ))
        requires
            old(self).wf(),
        ensures
            final(self).wf(),
            final(self).same_setup(old(self)),
            final(self).events() == old(self).events(),
            final(self).sides_untouched(old(self)),
            out.1@.bounded(old(self).limit()),
            final(self).accesses() == old(self).accesses() + out.1@.accesses(
                old(self).base(),
                idx,
                ctype,
                resp_type,
                arg,
            ),
            out.0 == out.1@.outcome(),
    {
        let ghost base = self.base();
        let ghost t0 = self.accesses();
        let (reset_done, Ghost(r0)) = self.prepare_command();
        if !reset_done {
            return (Err(Timeout::CommandReset), Ghost(r0));
        }
        let (line_free, Ghost(inhibit_wait)) = self.await_cmd_ready();
        let ghost r = CommandReplies { inhibit_wait, ..r0 };
        let ghost t2 = self.accesses();
        proof {
            assert(r.prepare(base) == r0.prepare(base));
            assert(t2 == t0 + (r.prepare(base) + spin32(
                reg_at(base, EMMC_PSTATE_OFFSET),
                inhibit_wait,
            )));
        }
        if !line_free {
            return (Err(Timeout::CommandInhibit), Ghost(r));
        }
        self.reg.emmc_set_argument(arg);
        self.reg.emmc_set_cmd(idx << EMMC_CMD_INDEX_POS | ctype | resp_type);
        proof {
            assert(self.accesses() == t2 + CommandReplies::issue(
                base,
                idx,
                ctype,
                resp_type,
                arg,
            ));
            assert(self.accesses() == t0 + r.accesses(base, idx, ctype, resp_type, arg));
        }
        (Ok(()), Ghost(r))
    }

    /// Issues one command: index `idx`, command type `ctype` and response
    /// type `resp_type` (both as they stand in the command register), and
    /// argument `arg`.
    ///
    /// Every latched error flag and normal flag is cleared; the command
    /// circuit is reset and the reset awaited; the command line is awaited;
    /// then the argument is stored and, last, the command word. The store of
    /// the command word is what puts the command on the bus; the call does
    /// not wait for the command to complete. When a wait runs out, nothing
    /// more is done and the wait is named.
    pub fn sdhci_send_cmd(&mut self, idx: u16, ctype: u16, resp_type: u16, arg: u32) -> (outcome:
        Result<(), Timeout>)
        requires
            old(self).wf(),
        ensures
            final(self).wf(),
            final(self).same_setup(old(self)),
            final(self).events() == old(self).events(),
            final(self).sides_untouched(old(self)),
            exists|r: CommandReplies|
                {
                    &&& #[trigger] r.bounded(old(self).limit())
                    &&& final(self).accesses() == old(self).accesses() + r.accesses(
                        old(self).base(),
                        idx,
                        ctype,
                        resp_type,
                        arg,
                    )
                    &&& outcome == r.outcome()
                },
    {
        let (outcome, Ghost(r)) = self.issue_command(idx, ctype, resp_type, arg);
        assert(r.bounded(old(self).limit()));
        outcome
    }

    /// Starts the reset of the whole controller and waits for it. Returns
    /// whether the reset finished, and the answers.
    fn reset_controller(&mut self) -> (out: (bool, Ghost<ResetReplies>))
        requires
            old(self).wf(),
        ensures
            final(self).wf(),
            final(self).same_setup(old(self)),
            final(self).events() == old(self).events(),
            final(self).sides_untouched(old(self)),
            out.1@.bounded(old(self).limit()),
            final(self).accesses() == old(self).accesses() + out.1@.accesses(old(self).base()),
            out.0 == out.1@.done(),
    {
        let ghost base = self.base();
        let ghost t0 = self.accesses();
        let ghost prev = self.reg;
        self.reg.emmc_reset_all();
        let ghost seen = choose|seen: u8|
            self.reg.accesses() == prev.accesses() + #[trigger] set_bits8(
                prev.at(EMMC_SW_RST_OFFSET),
                seen,
                EMMC_SW_RST_ALL,
            );
        let ghost t1 = self.accesses();
        let (done, Ghost(wait)) = self.await_reset(Reset::Whole);
        let ghost r = ResetReplies { seen, wait };
        proof {
            assert(t1 == t0 + set_bits8(reg_at(base, EMMC_SW_RST_OFFSET), seen, EMMC_SW_RST_ALL));
            assert(self.accesses() == t0 + r.accesses(base));
        }
        (done, Ghost(r))
    }

    /// Reports `value` as loaded from `probe`.
    fn show(&mut self, probe: Probe, value: u32)
        requires
            old(self).wf(),
        ensures
            final(self).wf(),
            final(self).same_setup(old(self)),
            final(self).accesses() == old(self).accesses(),
            final(self).events() == old(self).events() + reported(
                old(self).accesses().len(),
                probe,
                value,
            ),
    {
        self.log.report(probe, value);
        proof {
            let event = Event {
                after: self.accesses().len(),
                side: Side::Report(Report { probe, value }),
            };
            lemma_side_step(self.side@, event);
            assert(self.side@ + reported(self.accesses().len(), probe, value) =~= self.side@.push(
                event,
            ));
            assert(self.sink_prior() + reports_of(self.side@).push(Report { probe, value })
                =~= (self.sink_prior() + reports_of(self.side@)).push(Report { probe, value }));
            self.side@ = self.side@.push(event);
        }
    }

    /// Sets the card clock to the identification clock, reads the selection
    /// back and reports it. Returns the answer of the clock tree.
    fn select_card_clock(&mut self) -> (answer: Ghost<u32>)
        requires
            old(self).wf(),
        ensures
            final(self).wf(),
            final(self).same_setup(old(self)),
            final(self).accesses() == old(self).accesses(),
            final(self).events() == old(self).events() + clock_selected(
                old(self).accesses().len(),
                answer@,
            ),
    {
        self.clk.cru_clksel_set_cclk_emmc(CclkEmmc::Soc0Div375K);
        proof {
            let event = Event {
                after: self.accesses().len(),
                side: Side::Clock(ClockRequest::Select(CclkEmmc::Soc0Div375K)),
            };
            lemma_side_step(self.side@, event);
            assert(self.clock_prior() + requests_of(self.side@).push(
                ClockRequest::Select(CclkEmmc::Soc0Div375K),
            ) =~= (self.clock_prior() + requests_of(self.side@)).push(
                ClockRequest::Select(CclkEmmc::Soc0Div375K),
            ));
            self.side@ = self.side@.push(event);
        }
        let answer = self.clk.cru_clksel_get_cclk_emmc();
        proof {
            let event = Event {
                after: self.accesses().len(),
                side: Side::Clock(ClockRequest::Read(answer)),
            };
            lemma_side_step(self.side@, event);
            assert(self.clock_prior() + requests_of(self.side@).push(ClockRequest::Read(answer))
                =~= (self.clock_prior() + requests_of(self.side@)).push(
                ClockRequest::Read(answer),
            ));
            self.side@ = self.side@.push(event);
        }
        self.show(Probe::CardClock, answer);
        proof {
            assert(self.events() =~= old(self).events() + clock_selected(
                old(self).accesses().len(),
                answer,
            ));
        }
        Ghost(answer)
    }

    /// Lets the settling time pass.
    fn settle(&mut self)
        requires
            old(self).wf(),
        ensures
            final(self).wf(),
            final(self).same_setup(old(self)),
            final(self).accesses() == old(self).accesses(),
            final(self).events() == old(self).events() + settled(old(self).accesses().len()),
    {
        self.timer.delay_us(EMMC_IDLE_SETTLE_US);
        proof {
            let event = Event {
                after: self.accesses().len(),
                side: Side::DelayUs(EMMC_IDLE_SETTLE_US),
            };
            lemma_side_step(self.side@, event);
            assert(self.side@ + settled(self.accesses().len()) =~= self.side@.push(event));
            assert(self.timer_prior() + delays_of(self.side@).push(EMMC_IDLE_SETTLE_US)
                =~= (self.timer_prior() + delays_of(self.side@)).push(EMMC_IDLE_SETTLE_US));
            self.side@ = self.side@.push(event);
        }
    }

    /// Looks at the three registers of the delay-locked loop and reports
    /// each as it is loaded. Returns what was seen.
    fn probe_dll(&mut self) -> (probe: Ghost<DllProbe>)
        requires
            old(self).wf(),
        ensures
            final(self).wf(),
            final(self).same_setup(old(self)),
            final(self).accesses() == old(self).accesses() + probe@.accesses(old(self).base()),
            final(self).events() == old(self).events() + probe@.events(old(self).accesses().len()),
    {
        let ghost n = self.accesses().len();
        let ctrl = self.reg.emmc_get_dll_ctrl();
        self.show(Probe::DllCtrl, ctrl);
        let rxclk = self.reg.emmc_get_dll_rxclk();
        self.show(Probe::DllRxclk, rxclk);
        let txclk = self.reg.emmc_get_dll_txclk();
        self.show(Probe::DllTxclk, txclk);
        let ghost probe = DllProbe { ctrl, rxclk, txclk };
        proof {
            assert(self.accesses() == old(self).accesses() + probe.accesses(old(self).base()));
            assert(self.events() == old(self).events() + probe.events(n));
        }
        Ghost(probe)
    }

    /// Turns the power on, latches the polled interrupts without signalling
    /// any, and sets the data bus to one line. Returns what the two
    /// registers held that were loaded.
    fn power_and_mask(&mut self) -> (seen: (Ghost<u8>, Ghost<u8>))
        requires
            old(self).wf(),
        ensures
            final(self).wf(),
            final(self).same_setup(old(self)),
            final(self).events() == old(self).events(),
            final(self).accesses() == old(self).accesses() + set_bits8(
                reg_at(old(self).base(), EMMC_PWR_CTRL_OFFSET),
                seen.0@,
                EMMC_PWR_ON,
            ) + SetupReplies::mask_interrupts(old(self).base()) + clear_bits8(
                reg_at(old(self).base(), EMMC_HOST_CTRL1_OFFSET),
                seen.1@,
                EMMC_DAT_XFER_WIDTH,
            ),
    {
        let ghost base = self.base();
        let ghost t0 = self.accesses();
        let ghost prev = self.reg;
        self.reg.emmc_pwr_on();
        let ghost power = choose|seen: u8|
            self.reg.accesses() == prev.accesses() + #[trigger] set_bits8(
                prev.at(EMMC_PWR_CTRL_OFFSET),
                seen,
                EMMC_PWR_ON,
            );
        let ghost t1 = self.accesses();
        self.reg.emmc_set_normal_int_en(
            EMMC_CMD_COMPLETE_EN | EMMC_XFER_COMPLETE_EN | EMMC_DMA_INTERRUPT_EN
                | EMMC_BUF_WR_READY_EN | EMMC_BUF_RD_READY_EN,
        );
        self.reg.emmc_disable_all_normal_int_sig();
        self.reg.emmc_disable_all_error_int_sig();
        let ghost t2 = self.accesses();
        let ghost prev = self.reg;
        self.reg.emmc_enable_data_xfer_width_1bit();
        let ghost host_ctrl1 = choose|seen: u8|
            self.reg.accesses() == prev.accesses() + #[trigger] clear_bits8(
                prev.at(EMMC_HOST_CTRL1_OFFSET),
                seen,
                EMMC_DAT_XFER_WIDTH,
            );
        proof {
            assert(t1 == t0 + set_bits8(reg_at(base, EMMC_PWR_CTRL_OFFSET), power, EMMC_PWR_ON));
            assert(t2 == t1 + SetupReplies::mask_interrupts(base));
            assert(self.accesses() == t2 + clear_bits8(
                reg_at(base, EMMC_HOST_CTRL1_OFFSET),
                host_ctrl1,
                EMMC_DAT_XFER_WIDTH,
            ));
        }
        (Ghost(power), Ghost(host_ctrl1))
    }

    /// Puts the delay-locked loop in bypass mode with fixed delay lines,
    /// looking at its registers before and after. Returns what was seen.
    fn bypass_dll(&mut self) -> (seen: (Ghost<DllProbe>, Ghost<DllProbe>))
        requires
            old(self).wf(),
        ensures
            final(self).wf(),
            final(self).same_setup(old(self)),
            final(self).accesses() == old(self).accesses() + store32(
                reg_at(old(self).base(), EMMC_DLL_CTRL_OFFSET),
                0,
            ) + seen.0@.accesses(old(self).base()) + store32(
                reg_at(old(self).base(), EMMC_DLL_CTRL_OFFSET),
                EMMC_DLL_CTRL_INIT,
            ) + store32(reg_at(old(self).base(), EMMC_DLL_RXCLK_OFFSET), EMMC_DLL_RXCLK_INIT)
                + store32(reg_at(old(self).base(), EMMC_DLL_TXCLK_OFFSET), EMMC_DLL_TXCLK_INIT)
                + seen.1@.accesses(old(self).base()),
            final(self).events() == old(self).events() + seen.0@.events(
                old(self).accesses().len() + 1,
            ) + seen.1@.events(old(self).accesses().len() + 7),
    {
        self.reg.emmc_set_dll_ctrl(0);
        let before = self.probe_dll();
        self.reg.emmc_set_dll_ctrl(EMMC_DLL_START | EMMC_DLL_BYPASS);
        self.reg.emmc_set_dll_rxclk(1 << 31);
        self.reg.emmc_set_dll_txclk(0);
        let after = self.probe_dll();
        (before, after)
    }

    /// Starts the internal clock and waits for it. Returns whether it
    /// became stable, what the register held when it was loaded for the
    /// start, and the answers to the wait.
    fn start_internal_clock(&mut self) -> (out: (bool, Ghost<u16>, Ghost<Seq<u16>>))
        requires
            old(self).wf(),
        ensures
            final(self).wf(),
            final(self).same_setup(old(self)),
            final(self).events() == old(self).events(),
            wait16(
                out.2@,
                EMMC_INTERNAL_CLK_STABLE,
                EMMC_INTERNAL_CLK_STABLE,
                old(self).limit(),
            ),
            final(self).accesses() == old(self).accesses() + set_bits16(
                reg_at(old(self).base(), EMMC_CLK_CTRL_OFFSET),
                out.1@,
                EMMC_INTERNAL_CLK_EN,
            ) + spin16(reg_at(old(self).base(), EMMC_CLK_CTRL_OFFSET), out.2@),
            out.0 == ends16(out.2@, EMMC_INTERNAL_CLK_STABLE, EMMC_INTERNAL_CLK_STABLE),
    {
        let ghost base = self.base();
        let ghost t0 = self.accesses();
        let ghost prev = self.reg;
        self.reg.emmc_enable_internal_clk();
        let ghost clk = choose|seen: u16|
            self.reg.accesses() == prev.accesses() + #[trigger] set_bits16(
                prev.at(EMMC_CLK_CTRL_OFFSET),
                seen,
                EMMC_INTERNAL_CLK_EN,
            );
        proof {
            assert(self.accesses() == t0 + set_bits16(
                reg_at(base, EMMC_CLK_CTRL_OFFSET),
                clk,
                EMMC_INTERNAL_CLK_EN,
            ));
        }
        let (stable, wait) = self.await_internal_clk();
        (stable, Ghost(clk), wait)
    }

    /// Configures the controller, from power-on to the stable internal
    /// clock. Returns whether the clock became stable, and the answers.
    fn configure(&mut self) -> (out: (bool, Ghost<SetupReplies>))
        requires
            old(self).wf(),
        ensures
            final(self).wf(),
            final(self).same_setup(old(self)),
            final(self).events() == old(self).events() + out.1@.events(old(self).accesses().len()),
            out.1@.bounded(old(self).limit()),
            final(self).accesses() == old(self).accesses() + out.1@.accesses(old(self).base()),
            out.0 == out.1@.stable(),
    {
        let ghost base = self.base();
        let ghost t0 = self.accesses();
        let (Ghost(power), Ghost(host_ctrl1)) = self.power_and_mask();
        let ghost t1 = self.accesses();
        let (Ghost(dll_before), Ghost(dll_after)) = self.bypass_dll();
        let ghost t2 = self.accesses();
        let (stable, Ghost(clk), Ghost(stable_wait)) = self.start_internal_clock();
        let ghost r = SetupReplies { power, host_ctrl1, dll_before, dll_after, clk, stable_wait };
        proof {
            assert(t1 == t0 + (r.power_on(base) + SetupReplies::mask_interrupts(base)
                + r.one_bit_bus(base)));
            assert(t1.len() == t0.len() + 7);
            assert(t2 == t1 + r.bypass_dll(base));
            assert(self.accesses() == t2 + r.start_internal_clock(base));
            assert(self.accesses() == t0 + r.accesses(base));
        }
        (stable, Ghost(r))
    }

    /// Starts the card clock, looks at the clock control register and
    /// reports it. Returns what was seen.
    fn start_card_clock(&mut self) -> (seen: Ghost<CardClockReplies>)
        requires
            old(self).wf(),
        ensures
            final(self).wf(),
            final(self).same_setup(old(self)),
            final(self).events() == old(self).events() + seen@.events(old(self).accesses().len()),
            final(self).accesses() == old(self).accesses() + seen@.accesses(old(self).base()),
    {
        let ghost base = self.base();
        let ghost t0 = self.accesses();
        let ghost prev = self.reg;
        self.reg.emmc_enable_sd_clk();
        let ghost clk = choose|seen: u16|
            self.reg.accesses() == prev.accesses() + #[trigger] set_bits16(
                prev.at(EMMC_CLK_CTRL_OFFSET),
                seen,
                EMMC_SD_CLK_EN,
            );
        let ghost t1 = self.accesses();
        let readback = self.reg.emmc_get_clk_ctrl();
        self.show(Probe::ClkCtrl, readback as u32);
        let ghost r = CardClockReplies { clk, readback };
        proof {
            assert(t1 == t0 + set_bits16(reg_at(base, EMMC_CLK_CTRL_OFFSET), clk, EMMC_SD_CLK_EN));
            assert(self.accesses() == t0 + r.accesses(base));
        }
        Ghost(r)
    }

    /// Resets the controller, selects the card clock, configures the
    /// controller and starts the card clock. Returns the wait that ran out,
    /// if one did, and the answers as far as they came.
    fn start_clocks(&mut self) -> (out: (Result<(), Timeout>, Ghost<BringupReplies>))
        requires
            old(self).wf(),
        ensures
            final(self).wf(),
            final(self).same_setup(old(self)),
            out.1@.reset.bounded(old(self).limit()),
            out.1@.reset.done() ==> out.1@.setup.bounded(old(self).limit()),
            out.0 == (if !out.1@.reset.done() {
                Err::<(), Timeout>(Timeout::ResetAll)
            } else if !out.1@.setup.stable() {
                Err(Timeout::InternalClock)
            } else {
                Ok(())
            }),
            final(self).accesses() == old(self).accesses() + (if !out.1@.reset.done() {
                out.1@.reset.accesses(old(self).base())
            } else if !out.1@.setup.stable() {
                out.1@.until_stable(old(self).base())
            } else {
                out.1@.until_stable(old(self).base()) + out.1@.sd_clock.accesses(old(self).base())
            }),
            final(self).events() == old(self).events() + out.1@.events_until_clocks(
                old(self).base(),
                old(self).accesses().len(),
            ),
    {
        let ghost base = self.base();
        let ghost t0 = self.accesses();
        let ghost e0 = self.events();
        let ghost blank: BringupReplies = arbitrary();
        let (reset_done, Ghost(reset)) = self.reset_controller();
        if !reset_done {
            let ghost r = BringupReplies { reset, ..blank };
            proof {
                assert(self.events() == e0 + Seq::<Event>::empty());
            }
            return (Err(Timeout::ResetAll), Ghost(r));
        }
        let ghost t1 = self.accesses();
        let Ghost(card_clock) = self.select_card_clock();
        let (stable, Ghost(setup)) = self.configure();
        let ghost t2 = self.accesses();
        let ghost e2 = self.events();
        proof {
            assert(t1.len() == t0.len() + reset.accesses(base).len());
            assert(t2 == t0 + (reset.accesses(base) + setup.accesses(base)));
            assert(e2 == e0 + (clock_selected(t1.len(), card_clock) + setup.events(t1.len())));
        }
        if !stable {
            let ghost r = BringupReplies { reset, card_clock, setup, ..blank };
            return (Err(Timeout::InternalClock), Ghost(r));
        }
        let Ghost(sd_clock) = self.start_card_clock();
        let ghost r = BringupReplies { reset, card_clock, setup, sd_clock, ..blank };
        proof {
            assert(self.accesses() == t0 + (r.until_stable(base) + sd_clock.accesses(base)));
            assert(t2.len() == t0.len() + r.until_stable(base).len());
            assert(self.events() == e0 + (clock_selected(t1.len(), card_clock) + setup.events(
                t1.len(),
            ) + sd_clock.events(t2.len())));
        }
        (Ok(()), Ghost(r))
    }

    /// Brings the controller up, from reset to the first two commands to
    /// the card.
    ///
    /// In order: the whole controller is reset and the reset awaited; the
    /// card clock is set to the identification clock in the clock tree; the
    /// bus power is turned on; the status of the polled interrupts is
    /// latched and every interrupt signal is turned off; the data bus is set
    /// to one line; the delay-locked loop is put in bypass mode with fixed
    /// delay lines; the internal clock is started and awaited; the card
    /// clock is started; the card is sent to idle; after the settling time
    /// it is asked for its operating conditions. After each command response
    /// register 01 is loaded. What is loaded only to be looked at goes to
    /// the sink. When a wait runs out, nothing more is done and the wait is
    /// named.
    pub fn init(&mut self) -> (outcome: Result<(), Timeout>)
        requires
            old(self).wf(),
        ensures
            final(self).wf(),
            final(self).same_setup(old(self)),
            exists|r: BringupReplies|
                {
                    &&& #[trigger] r.bounded(old(self).limit())
                    &&& final(self).accesses() == old(self).accesses() + r.accesses(
                        old(self).base(),
                    )
                    &&& final(self).events() == old(self).events() + r.events(
                        old(self).base(),
                        old(self).accesses().len(),
                    )
                    &&& outcome == r.outcome()
                },
    {
        let ghost base = self.base();
        let ghost limit = self.limit();
        let ghost t0 = self.accesses();
        let ghost e0 = self.events();
        let (started, Ghost(r0)) = self.start_clocks();
        let ghost e1 = self.events();
        if let Err(timeout) = started {
            proof {
                assert(r0.bounded(limit));
                assert(self.accesses() == t0 + r0.accesses(base));
                assert(r0.events_of_commands(base, t0.len()) == Seq::<Event>::empty());
                assert(e1 == e0 + r0.events(base, t0.len()));
                assert(started == r0.outcome());
            }
            return Err(timeout);
        }
        let (idle, Ghost(go_idle)) = self.issue_command(
            0,
            EMMC_CMD_TYPE_NORMAL,
            EMMC_RESP_TYPE_NONE,
            0,
        );
        let ghost r1 = BringupReplies { go_idle, ..r0 };
        let ghost t2 = self.accesses();
        proof {
            assert(r1.until_stable(base) == r0.until_stable(base));
            assert(r1.events_until_clocks(base, t0.len()) == r0.events_until_clocks(
                base,
                t0.len(),
            ));
            assert(t2 == t0 + r1.until_idle(base));
        }
        if let Err(timeout) = idle {
            proof {
                assert(r1.bounded(limit));
                assert(self.accesses() == t0 + r1.accesses(base));
                assert(r1.events_of_commands(base, t0.len()) == Seq::<Event>::empty());
                assert(e1 == e0 + r1.events(base, t0.len()));
            }
            return Err(timeout);
        }
        let idle_response = self.reg.emmc_get_resp01();
        let ghost t3 = self.accesses();
        self.show(Probe::Response01, idle_response);
        self.settle();
        let ghost e3 = self.events();
        let (op_cond, Ghost(op)) = self.issue_command(
            1,
            EMMC_CMD_TYPE_NORMAL,
            EMMC_RESP_TYPE_LEN_48,
            EMMC_SEND_OP_COND_ARG,
        );
        let ghost r2 = BringupReplies { idle_response, op_cond: op, ..r1 };
        let ghost t4 = self.accesses();
        proof {
            assert(r2.until_idle(base) == r1.until_idle(base));
            assert(r2.events_until_clocks(base, t0.len()) == r0.events_until_clocks(
                base,
                t0.len(),
            ));
            assert(t3 == t2 + fetch32(reg_at(base, EMMC_RESP01_OFFSET), idle_response));
            assert(t3.len() == t0.len() + r2.until_idle(base).len() + 1);
            assert(t4 == t0 + r2.until_op_cond(base));
            assert(e3 == e1 + (reported(t3.len(), Probe::Response01, idle_response) + settled(
                t3.len(),
            )));
            assert(r2.bounded(limit));
        }
        if let Err(timeout) = op_cond {
            proof {
                assert(self.accesses() == t0 + r2.accesses(base));
                assert(e3 == e0 + r2.events(base, t0.len()));
            }
            return Err(timeout);
        }
        let op_cond_response = self.reg.emmc_get_resp01();
        let ghost t5 = self.accesses();
        self.show(Probe::Response01, op_cond_response);
        let ghost r3 = BringupReplies { op_cond_response, ..r2 };
        proof {
            assert(r3.until_op_cond(base) == r2.until_op_cond(base));
            assert(r3.events_until_clocks(base, t0.len()) == r0.events_until_clocks(
                base,
                t0.len(),
            ));
            assert(t5.len() == t0.len() + r3.until_op_cond(base).len() + 1);
            assert(self.accesses() == t0 + r3.accesses(base));
            assert(self.events() == e3 + reported(t5.len(), Probe::Response01, op_cond_response));
            assert(self.events() == e0 + r3.events(base, t0.len()));
            assert(r3.bounded(limit));
        }
        Ok(())
    }
}

} // verus!
