//! What a run of the sequencer looks like from outside: the accesses it
//! issues and the side steps it takes, as a function of what the hardware
//! answered.
//!
//! The hardware decides how long each wait lasts and what each load
//! returns. The records here hold those answers; the functions on them say
//! which accesses the sequencer then issues, in which order, and how the run
//! ends.
use vstd::prelude::*;
use crate::mmio::Access;
use crate::mmio::clear_bits8;
use crate::mmio::fetch16;
use crate::mmio::fetch32;
use crate::mmio::set_bits16;
use crate::mmio::set_bits8;
use crate::mmio::spin16;
use crate::mmio::spin32;
use crate::mmio::spin8;
use crate::mmio::store16;
use crate::mmio::store32;
use crate::sdhci::CclkEmmc;
use crate::sdhci::ClockRequest;
use crate::sdhci::Probe;
use crate::sdhci::Report;
use crate::sdhci::EMMC_DLL_CTRL_INIT;
use crate::sdhci::EMMC_DLL_RXCLK_INIT;
use crate::sdhci::EMMC_DLL_TXCLK_INIT;
use crate::sdhci::EMMC_IDLE_SETTLE_US;
use crate::sdhci::EMMC_POLLED_INT_EN;
use crate::sdhci::EMMC_SEND_OP_COND_ARG;
use crate::sdhci::Timeout;
use crate::sdhci_reg::emmc_argument_bits::EMMC_ARGUMENT_OFFSET;
use crate::sdhci_reg::emmc_clk_ctrl_bits::EMMC_CLK_CTRL_OFFSET;
use crate::sdhci_reg::emmc_clk_ctrl_bits::EMMC_INTERNAL_CLK_EN;
use crate::sdhci_reg::emmc_clk_ctrl_bits::EMMC_INTERNAL_CLK_STABLE;
use crate::sdhci_reg::emmc_clk_ctrl_bits::EMMC_SD_CLK_EN;
use crate::sdhci_reg::emmc_cmd_bits::EMMC_CMD_INDEX_POS;
use crate::sdhci_reg::emmc_cmd_bits::EMMC_CMD_OFFSET;
use crate::sdhci_reg::emmc_cmd_bits::EMMC_CMD_TYPE_NORMAL;
use crate::sdhci_reg::emmc_cmd_bits::EMMC_RESP_TYPE_LEN_48;
use crate::sdhci_reg::emmc_cmd_bits::EMMC_RESP_TYPE_NONE;
use crate::sdhci_reg::emmc_dll_ctrl_bits::EMMC_DLL_CTRL_OFFSET;
use crate::sdhci_reg::emmc_dll_rxclk_bits::EMMC_DLL_RXCLK_OFFSET;
use crate::sdhci_reg::emmc_dll_txclk_bits::EMMC_DLL_TXCLK_OFFSET;
use crate::sdhci_reg::emmc_error_int_sig_en_bits::EMMC_ERROR_INT_SIG_EN_OFFSET;
use crate::sdhci_reg::emmc_error_int_stat_bits::EMMC_ERROR_INT_FLAGS;
use crate::sdhci_reg::emmc_error_int_stat_bits::EMMC_ERROR_INT_STAT_OFFSET;
use crate::sdhci_reg::emmc_host_ctrl1_bits::EMMC_DAT_XFER_WIDTH;
use crate::sdhci_reg::emmc_host_ctrl1_bits::EMMC_HOST_CTRL1_OFFSET;
use crate::sdhci_reg::emmc_normal_int_en_bits::EMMC_NORMAL_INT_EN_OFFSET;
use crate::sdhci_reg::emmc_normal_int_sig_en_bits::EMMC_NORMAL_INT_SIG_EN_OFFSET;
use crate::sdhci_reg::emmc_normal_int_stat_bits::EMMC_NORMAL_INT_FLAGS;
use crate::sdhci_reg::emmc_normal_int_stat_bits::EMMC_NORMAL_INT_STAT_OFFSET;
use crate::sdhci_reg::emmc_pstate_bits::EMMC_CMD_INHIBIT;
use crate::sdhci_reg::emmc_pstate_bits::EMMC_PSTATE_OFFSET;
use crate::sdhci_reg::emmc_pwr_ctrl_bits::EMMC_PWR_CTRL_OFFSET;
use crate::sdhci_reg::emmc_pwr_ctrl_bits::EMMC_PWR_ON;
use crate::sdhci_reg::emmc_resp01_bits::EMMC_RESP01_OFFSET;
use crate::sdhci_reg::emmc_sw_rst_bits::EMMC_SW_RST_ALL;
use crate::sdhci_reg::emmc_sw_rst_bits::EMMC_SW_RST_CMD;
use crate::sdhci_reg::emmc_sw_rst_bits::EMMC_SW_RST_OFFSET;

verus! {

/// The answers to a wait end it: there is one, and the last one has `want`
/// under `mask`.
pub open spec fn ends8(replies: Seq<u8>, mask: u8, want: u8) -> bool {
    replies.len() > 0 && replies.last() & mask == want
}

/// The answers to a wait end it: there is one, and the last one has `want`
/// under `mask`.
pub open spec fn ends16(replies: Seq<u16>, mask: u16, want: u16) -> bool {
    replies.len() > 0 && replies.last() & mask == want
}

/// The answers to a wait end it: there is one, and the last one has `want`
/// under `mask`.
pub open spec fn ends32(replies: Seq<u32>, mask: u32, want: u32) -> bool {
    replies.len() > 0 && replies.last() & mask == want
}

/// `replies` are the answers to one wait of at most `limit` loads: no answer
/// but the last has `want` under `mask`, and the wait went on until one had
/// or the limit was reached.
pub open spec fn wait8(replies: Seq<u8>, mask: u8, want: u8, limit: u32) -> bool {
    &&& replies.len() <= limit
    &&& forall|i: int| 0 <= i < replies.len() - 1 ==> (#[trigger] replies[i]) & mask != want
    &&& (ends8(replies, mask, want) || replies.len() == limit)
}

/// `replies` are the answers to one wait of at most `limit` loads: no answer
/// but the last has `want` under `mask`, and the wait went on until one had
/// or the limit was reached.
pub open spec fn wait16(replies: Seq<u16>, mask: u16, want: u16, limit: u32) -> bool {
    &&& replies.len() <= limit
    &&& forall|i: int| 0 <= i < replies.len() - 1 ==> (#[trigger] replies[i]) & mask != want
    &&& (ends16(replies, mask, want) || replies.len() == limit)
}

/// `replies` are the answers to one wait of at most `limit` loads: no answer
/// but the last has `want` under `mask`, and the wait went on until one had
/// or the limit was reached.
pub open spec fn wait32(replies: Seq<u32>, mask: u32, want: u32, limit: u32) -> bool {
    &&& replies.len() <= limit
    &&& forall|i: int| 0 <= i < replies.len() - 1 ==> (#[trigger] replies[i]) & mask != want
    &&& (ends32(replies, mask, want) || replies.len() == limit)
}

/// What the hardware answered while one command was issued.
pub struct CommandReplies {
    /// The software reset register, loaded to start the reset of the
    /// command circuit.
    pub reset: u8,
    /// The software reset register, each time it was loaded to see whether
    /// the reset had finished.
    pub reset_wait: Seq<u8>,
    /// The present state, each time it was loaded to see whether the
    /// command line was free.
    pub inhibit_wait: Seq<u32>,
}

/// The command word for a command: the index shifted to its field, with the
/// command type and the response type, both already in place.
pub open spec fn command_word(idx: u16, ctype: u16, resp_type: u16) -> u16 {
    (idx << EMMC_CMD_INDEX_POS) | ctype | resp_type
}

/// Address of the register `offset` bytes into the window at `base`.
pub open spec fn reg_at(base: u64, offset: u64) -> u64 {
    (base + offset) as u64
}

impl CommandReplies {
    /// The reset of the command circuit was seen to finish.
    pub open spec fn reset_done(self) -> bool {
        ends8(self.reset_wait, EMMC_SW_RST_CMD, 0)
    }

    /// The command line was seen to be free.
    pub open spec fn line_free(self) -> bool {
        ends32(self.inhibit_wait, EMMC_CMD_INHIBIT, 0)
    }

    /// The answers are those of waits bounded by `limit`.
    pub open spec fn bounded(self, limit: u32) -> bool {
        &&& wait8(self.reset_wait, EMMC_SW_RST_CMD, 0, limit)
        &&& self.reset_done() ==> wait32(self.inhibit_wait, EMMC_CMD_INHIBIT, 0, limit)
    }

    /// How the issue of the command ends, given these answers.
    pub open spec fn outcome(self) -> Result<(), Timeout> {
        if !self.reset_done() {
            Err(Timeout::CommandReset)
        } else if !self.line_free() {
            Err(Timeout::CommandInhibit)
        } else {
            Ok(())
        }
    }

    /// The accesses up to and including the wait for the reset of the
    /// command circuit: one store clears the error flags, one the normal
    /// flags; then the reset is started and awaited.
    pub open spec fn prepare(self, base: u64) -> Seq<Access> {
        store16(reg_at(base, EMMC_ERROR_INT_STAT_OFFSET), EMMC_ERROR_INT_FLAGS) + store16(
            reg_at(base, EMMC_NORMAL_INT_STAT_OFFSET),
            EMMC_NORMAL_INT_FLAGS,
        ) + set_bits8(reg_at(base, EMMC_SW_RST_OFFSET), self.reset, EMMC_SW_RST_CMD) + spin8(
            reg_at(base, EMMC_SW_RST_OFFSET),
            self.reset_wait,
        )
    }

    /// The two stores that issue the command.
    pub open spec fn issue(base: u64, idx: u16, ctype: u16, resp_type: u16, arg: u32) -> Seq<
        Access,
    > {
        store32(reg_at(base, EMMC_ARGUMENT_OFFSET), arg) + store16(
            reg_at(base, EMMC_CMD_OFFSET),
            command_word(idx, ctype, resp_type),
        )
    }

    /// Every access made to issue the command, given these answers: the
    /// error flags are cleared, then the normal flags; the command circuit
    /// is reset and awaited; the command line is awaited; the argument is
    /// stored, and last the command word. A wait that runs out ends the
    /// list.
    pub open spec fn accesses(
        self,
        base: u64,
        idx: u16,
        ctype: u16,
        resp_type: u16,
        arg: u32,
    ) -> Seq<Access> {
        if !self.reset_done() {
            self.prepare(base)
        } else if !self.line_free() {
            self.prepare(base) + spin32(reg_at(base, EMMC_PSTATE_OFFSET), self.inhibit_wait)
        } else {
            self.prepare(base) + spin32(reg_at(base, EMMC_PSTATE_OFFSET), self.inhibit_wait)
                + Self::issue(base, idx, ctype, resp_type, arg)
        }
    }
}

/// Something the sequencer did that is no access to the controller's
/// registers.
pub enum Side {
    /// It asked the clock tree for something.
    Clock(ClockRequest),
    /// It let this many microseconds pass.
    DelayUs(u64),
    /// It reported a value that it had loaded.
    Report(Report),
}

/// A side step and its place among the register accesses: it was taken when
/// `after` accesses had been issued.
pub struct Event {
    pub after: nat,
    pub side: Side,
}

/// The card clock was set to the identification clock, the selector read
/// back as `answer` and reported, when `after` accesses had been issued.
pub open spec fn clock_selected(after: nat, answer: u32) -> Seq<Event> {
    seq![
        Event { after, side: Side::Clock(ClockRequest::Select(CclkEmmc::Soc0Div375K)) },
        Event { after, side: Side::Clock(ClockRequest::Read(answer)) },
        Event { after, side: Side::Report(Report { probe: Probe::CardClock, value: answer }) },
    ]
}

/// The value `value` of `probe` was reported when `after` accesses had been
/// issued.
pub open spec fn reported(after: nat, probe: Probe, value: u32) -> Seq<Event> {
    seq![Event { after, side: Side::Report(Report { probe, value }) }]
}

/// The card was left alone for the settling time when `after` accesses had
/// been issued.
pub open spec fn settled(after: nat) -> Seq<Event> {
    seq![Event { after, side: Side::DelayUs(EMMC_IDLE_SETTLE_US) }]
}

/// What the side steps `events` asked of the clock tree, in order.
pub open spec fn requests_of(events: Seq<Event>) -> Seq<ClockRequest>
    decreases events.len(),
{
    if events.len() == 0 {
        Seq::empty()
    } else {
        match events.last().side {
            Side::Clock(request) => requests_of(events.drop_last()).push(request),
            _ => requests_of(events.drop_last()),
        }
    }
}

/// The delays among the side steps `events`, in microseconds, in order.
pub open spec fn delays_of(events: Seq<Event>) -> Seq<u64>
    decreases events.len(),
{
    if events.len() == 0 {
        Seq::empty()
    } else {
        match events.last().side {
            Side::DelayUs(us) => delays_of(events.drop_last()).push(us),
            _ => delays_of(events.drop_last()),
        }
    }
}

/// The reports among the side steps `events`, in order.
pub open spec fn reports_of(events: Seq<Event>) -> Seq<Report>
    decreases events.len(),
{
    if events.len() == 0 {
        Seq::empty()
    } else {
        match events.last().side {
            Side::Report(report) => reports_of(events.drop_last()).push(report),
            _ => reports_of(events.drop_last()),
        }
    }
}

/// One more side step adds itself to the list of its kind and leaves the
/// two other lists as they are.
pub proof fn lemma_side_step(events: Seq<Event>, event: Event)
    ensures
        requests_of(events.push(event)) == (match event.side {
            Side::Clock(request) => requests_of(events).push(request),
            _ => requests_of(events),
        }),
        delays_of(events.push(event)) == (match event.side {
            Side::DelayUs(us) => delays_of(events).push(us),
            _ => delays_of(events),
        }),
        reports_of(events.push(event)) == (match event.side {
            Side::Report(report) => reports_of(events).push(report),
            _ => reports_of(events),
        }),
{
    assert(events.push(event).drop_last() =~= events);
}

/// The side steps of two lists, one after the other, are those of the first
/// followed by those of the second, kind by kind.
pub proof fn lemma_sides_add(first: Seq<Event>, second: Seq<Event>)
    ensures
        requests_of(first + second) == requests_of(first) + requests_of(second),
        delays_of(first + second) == delays_of(first) + delays_of(second),
        reports_of(first + second) == reports_of(first) + reports_of(second),
    decreases second.len(),
{
    if second.len() == 0 {
        assert(first + second =~= first);
        assert(requests_of(first) + requests_of(second) =~= requests_of(first));
        assert(delays_of(first) + delays_of(second) =~= delays_of(first));
        assert(reports_of(first) + reports_of(second) =~= reports_of(first));
    } else {
        let rest = second.drop_last();
        let event = second.last();
        lemma_sides_add(first, rest);
        assert(first + second =~= (first + rest).push(event));
        assert(second =~= rest.push(event));
        lemma_side_step(first + rest, event);
        lemma_side_step(rest, event);
        match event.side {
            Side::Clock(request) => {
                assert((requests_of(first) + requests_of(rest)).push(request) =~= requests_of(
                    first,
                ) + requests_of(rest).push(request));
            },
            Side::DelayUs(us) => {
                assert((delays_of(first) + delays_of(rest)).push(us) =~= delays_of(first)
                    + delays_of(rest).push(us));
            },
            Side::Report(report) => {
                assert((reports_of(first) + reports_of(rest)).push(report) =~= reports_of(first)
                    + reports_of(rest).push(report));
            },
        }
    }
}

/// What the hardware answered while the whole controller was reset.
pub struct ResetReplies {
    /// The software reset register, loaded to start the reset.
    pub seen: u8,
    /// The software reset register, each time it was loaded to see whether
    /// the reset had finished.
    pub wait: Seq<u8>,
}

impl ResetReplies {
    /// The reset was seen to finish.
    pub open spec fn done(self) -> bool {
        ends8(self.wait, EMMC_SW_RST_ALL, 0)
    }

    /// The answers are those of a wait bounded by `limit`.
    pub open spec fn bounded(self, limit: u32) -> bool {
        wait8(self.wait, EMMC_SW_RST_ALL, 0, limit)
    }

    /// The reset is started, then awaited.
    pub open spec fn accesses(self, base: u64) -> Seq<Access> {
        set_bits8(reg_at(base, EMMC_SW_RST_OFFSET), self.seen, EMMC_SW_RST_ALL) + spin8(
            reg_at(base, EMMC_SW_RST_OFFSET),
            self.wait,
        )
    }
}

/// The three registers of the delay-locked loop that bring-up looks at.
pub struct DllProbe {
    pub ctrl: u32,
    pub rxclk: u32,
    pub txclk: u32,
}

impl DllProbe {
    /// The control register is loaded, then the delay line of the receive
    /// clock, then that of the transmit clock.
    pub open spec fn accesses(self, base: u64) -> Seq<Access> {
        fetch32(reg_at(base, EMMC_DLL_CTRL_OFFSET), self.ctrl) + fetch32(
            reg_at(base, EMMC_DLL_RXCLK_OFFSET),
            self.rxclk,
        ) + fetch32(reg_at(base, EMMC_DLL_TXCLK_OFFSET), self.txclk)
    }

    /// Each of the three is reported as soon as it is loaded: the three
    /// reports and their places, for a look that began when `after` accesses
    /// had been issued.
    pub open spec fn events(self, after: nat) -> Seq<Event> {
        reported(after + 1, Probe::DllCtrl, self.ctrl) + reported(
            after + 2,
            Probe::DllRxclk,
            self.rxclk,
        ) + reported(after + 3, Probe::DllTxclk, self.txclk)
    }
}

/// What the hardware answered while the controller was configured, from
/// power-on to the wait for the internal clock.
pub struct SetupReplies {
    /// The power control register, loaded to turn the power on.
    pub power: u8,
    /// Host control register 1, loaded to select the bus width.
    pub host_ctrl1: u8,
    /// The loop's registers after its control register was zeroed.
    pub dll_before: DllProbe,
    /// The loop's registers after they were set.
    pub dll_after: DllProbe,
    /// The clock control register, loaded to start the internal clock.
    pub clk: u16,
    /// The clock control register, each time it was loaded to see whether
    /// the internal clock was stable.
    pub stable_wait: Seq<u16>,
}

impl SetupReplies {
    /// The internal clock was seen to be stable.
    pub open spec fn stable(self) -> bool {
        ends16(self.stable_wait, EMMC_INTERNAL_CLK_STABLE, EMMC_INTERNAL_CLK_STABLE)
    }

    /// The answers are those of a wait bounded by `limit`.
    pub open spec fn bounded(self, limit: u32) -> bool {
        wait16(self.stable_wait, EMMC_INTERNAL_CLK_STABLE, EMMC_INTERNAL_CLK_STABLE, limit)
    }

    /// The bus power is turned on.
    pub open spec fn power_on(self, base: u64) -> Seq<Access> {
        set_bits8(reg_at(base, EMMC_PWR_CTRL_OFFSET), self.power, EMMC_PWR_ON)
    }

    /// The status of the polled interrupts is latched, and no interrupt,
    /// normal or error, is signalled.
    pub open spec fn mask_interrupts(base: u64) -> Seq<Access> {
        store16(reg_at(base, EMMC_NORMAL_INT_EN_OFFSET), EMMC_POLLED_INT_EN) + store16(
            reg_at(base, EMMC_NORMAL_INT_SIG_EN_OFFSET),
            0,
        ) + store16(reg_at(base, EMMC_ERROR_INT_SIG_EN_OFFSET), 0)
    }

    /// The data bus is set to one line.
    pub open spec fn one_bit_bus(self, base: u64) -> Seq<Access> {
        clear_bits8(reg_at(base, EMMC_HOST_CTRL1_OFFSET), self.host_ctrl1, EMMC_DAT_XFER_WIDTH)
    }

    /// The delay-locked loop is zeroed and looked at, then started in bypass
    /// mode with fixed delay lines and looked at again.
    pub open spec fn bypass_dll(self, base: u64) -> Seq<Access> {
        store32(reg_at(base, EMMC_DLL_CTRL_OFFSET), 0) + self.dll_before.accesses(base) + store32(
            reg_at(base, EMMC_DLL_CTRL_OFFSET),
            EMMC_DLL_CTRL_INIT,
        ) + store32(reg_at(base, EMMC_DLL_RXCLK_OFFSET), EMMC_DLL_RXCLK_INIT) + store32(
            reg_at(base, EMMC_DLL_TXCLK_OFFSET),
            EMMC_DLL_TXCLK_INIT,
        ) + self.dll_after.accesses(base)
    }

    /// The internal clock is started, then awaited.
    pub open spec fn start_internal_clock(self, base: u64) -> Seq<Access> {
        set_bits16(reg_at(base, EMMC_CLK_CTRL_OFFSET), self.clk, EMMC_INTERNAL_CLK_EN) + spin16(
            reg_at(base, EMMC_CLK_CTRL_OFFSET),
            self.stable_wait,
        )
    }

    /// Every access of the configuration, in order.
    pub open spec fn accesses(self, base: u64) -> Seq<Access> {
        self.power_on(base) + Self::mask_interrupts(base) + self.one_bit_bus(base)
            + self.bypass_dll(base) + self.start_internal_clock(base)
    }

    /// The reports of the configuration and their places, for a
    /// configuration that began when `after` accesses had been issued: the
    /// first look at the loop begins eight accesses in, the second fourteen.
    pub open spec fn events(self, after: nat) -> Seq<Event> {
        self.dll_before.events(after + 8) + self.dll_after.events(after + 14)
    }
}

/// What the hardware answered while the card clock was started.
pub struct CardClockReplies {
    /// The clock control register, loaded to start the card clock.
    pub clk: u16,
    /// The clock control register, loaded once more afterwards.
    pub readback: u16,
}

impl CardClockReplies {
    /// The card clock is started, and the register looked at.
    pub open spec fn accesses(self, base: u64) -> Seq<Access> {
        set_bits16(reg_at(base, EMMC_CLK_CTRL_OFFSET), self.clk, EMMC_SD_CLK_EN) + fetch16(
            reg_at(base, EMMC_CLK_CTRL_OFFSET),
            self.readback,
        )
    }

    /// The register as it was seen at the end is reported, for a start of
    /// the card clock that began when `after` accesses had been issued.
    pub open spec fn events(self, after: nat) -> Seq<Event> {
        reported(after + 3, Probe::ClkCtrl, self.readback as u32)
    }
}

/// What the hardware answered during one bring-up.
pub struct BringupReplies {
    pub reset: ResetReplies,
    /// The selector that the clock tree reported after the card clock was
    /// selected.
    pub card_clock: u32,
    pub setup: SetupReplies,
    pub sd_clock: CardClockReplies,
    /// The command that sends the card to idle.
    pub go_idle: CommandReplies,
    /// Response register 01 after that command.
    pub idle_response: u32,
    /// The command that asks the card for its operating conditions.
    pub op_cond: CommandReplies,
    /// Response register 01 after that command.
    pub op_cond_response: u32,
}

impl BringupReplies {
    /// The answers are those of waits bounded by `limit`.
    pub open spec fn bounded(self, limit: u32) -> bool {
        &&& self.reset.bounded(limit)
        &&& self.reset.done() ==> self.setup.bounded(limit)
        &&& self.reset.done() && self.setup.stable() ==> self.go_idle.bounded(limit)
        &&& self.reset.done() && self.setup.stable() && self.go_idle.outcome() is Ok
            ==> self.op_cond.bounded(limit)
    }

    /// How the bring-up ends, given these answers: well, or with the first
    /// wait that ran out.
    pub open spec fn outcome(self) -> Result<(), Timeout> {
        if !self.reset.done() {
            Err(Timeout::ResetAll)
        } else if !self.setup.stable() {
            Err(Timeout::InternalClock)
        } else if self.go_idle.outcome() is Err {
            self.go_idle.outcome()
        } else {
            self.op_cond.outcome()
        }
    }

    /// The accesses from the start to the end of the wait for the internal
    /// clock.
    pub open spec fn until_stable(self, base: u64) -> Seq<Access> {
        self.reset.accesses(base) + self.setup.accesses(base)
    }

    /// The accesses from the start to the end of the command that sends the
    /// card to idle.
    pub open spec fn until_idle(self, base: u64) -> Seq<Access> {
        self.until_stable(base) + self.sd_clock.accesses(base) + self.go_idle.accesses(
            base,
            0,
            EMMC_CMD_TYPE_NORMAL,
            EMMC_RESP_TYPE_NONE,
            0,
        )
    }

    /// The accesses from the start to the end of the command that asks for
    /// the operating conditions.
    pub open spec fn until_op_cond(self, base: u64) -> Seq<Access> {
        self.until_idle(base) + fetch32(reg_at(base, EMMC_RESP01_OFFSET), self.idle_response)
            + self.op_cond.accesses(
            base,
            1,
            EMMC_CMD_TYPE_NORMAL,
            EMMC_RESP_TYPE_LEN_48,
            EMMC_SEND_OP_COND_ARG,
        )
    }

    /// Every register access of the bring-up, given these answers: the
    /// reset; the configuration up to the stable internal clock; the start
    /// of the card clock; the command that sends the card to idle and a look
    /// at its response; the command that asks for the operating conditions
    /// and a look at its response. A wait that runs out ends the list.
    pub open spec fn accesses(self, base: u64) -> Seq<Access> {
        if !self.reset.done() {
            self.reset.accesses(base)
        } else if !self.setup.stable() {
            self.until_stable(base)
        } else if self.go_idle.outcome() is Err {
            self.until_idle(base)
        } else if self.op_cond.outcome() is Err {
            self.until_op_cond(base)
        } else {
            self.until_op_cond(base) + fetch32(
                reg_at(base, EMMC_RESP01_OFFSET),
                self.op_cond_response,
            )
        }
    }

    /// The side steps from the start to the start of the card clock, for a
    /// handle that had issued `start` accesses before: the card clock is
    /// selected, and the selection read back and reported, when the reset has
    /// been awaited and before anything else is done; the registers of the
    /// loop are reported as they are loaded; clock control is reported as it
    /// is seen once the card clock runs.
    pub open spec fn events_until_clocks(self, base: u64, start: nat) -> Seq<Event> {
        if !self.reset.done() {
            Seq::empty()
        } else if !self.setup.stable() {
            clock_selected(start + self.reset.accesses(base).len(), self.card_clock)
                + self.setup.events(start + self.reset.accesses(base).len())
        } else {
            clock_selected(start + self.reset.accesses(base).len(), self.card_clock)
                + self.setup.events(start + self.reset.accesses(base).len())
                + self.sd_clock.events(start + self.until_stable(base).len())
        }
    }

    /// The side steps around the two commands: the response to the first is
    /// reported, and the card left alone for a while, after the look at that
    /// response; the response to the second is reported after the look at
    /// it.
    pub open spec fn events_of_commands(self, base: u64, start: nat) -> Seq<Event> {
        if !self.reset.done() || !self.setup.stable() || self.go_idle.outcome() is Err {
            Seq::empty()
        } else if self.op_cond.outcome() is Err {
            reported(start + self.until_idle(base).len() + 1, Probe::Response01, self.idle_response)
                + settled(start + self.until_idle(base).len() + 1)
        } else {
            reported(start + self.until_idle(base).len() + 1, Probe::Response01, self.idle_response)
                + settled(start + self.until_idle(base).len() + 1) + reported(
                start + self.until_op_cond(base).len() + 1,
                Probe::Response01,
                self.op_cond_response,
            )
        }
    }

    /// Every side step of the bring-up, given these answers, for a handle
    /// that had issued `start` accesses before.
    pub open spec fn events(self, base: u64, start: nat) -> Seq<Event> {
        self.events_until_clocks(base, start) + self.events_of_commands(base, start)
    }
}

impl BringupReplies {
    /// The accesses of the bring-up before the internal clock is started.
    pub open spec fn before_clocks(self, base: u64) -> Seq<Access> {
        self.reset.accesses(base) + self.setup.power_on(base) + SetupReplies::mask_interrupts(base)
            + self.setup.one_bit_bus(base) + self.setup.bypass_dll(base)
    }

    /// Place of the store that starts the reset, counted from the first
    /// access of the bring-up.
    pub open spec fn reset_at(self) -> int {
        1
    }

    /// Place of the store that starts the internal clock.
    pub open spec fn internal_clock_at(self, base: u64) -> int {
        self.before_clocks(base).len() as int + 1
    }

    /// Place of the store that starts the card clock.
    pub open spec fn card_clock_at(self, base: u64) -> int {
        self.internal_clock_at(base) + self.setup.stable_wait.len() as int + 2
    }
}

} // verus!
