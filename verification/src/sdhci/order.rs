//! The order of a bring-up: what comes before what, whatever the hardware
//! answered.
use vstd::prelude::*;
use crate::mmio::Access;
use crate::mmio::fetch16;
use crate::mmio::fetch32;
use crate::mmio::set_bits16;
use crate::mmio::set_bits8;
use crate::mmio::spin16;
use crate::mmio::spin32;
use crate::mmio::spin8;
use crate::mmio::store16;
use crate::sdhci::CclkEmmc;
use crate::sdhci::ClockRequest;
use crate::sdhci::EMMC_IDLE_SETTLE_US;
use crate::sdhci::EMMC_SEND_OP_COND_ARG;
use crate::sdhci::Probe;
use crate::sdhci::Report;
use crate::sdhci::script::BringupReplies;
use crate::sdhci::script::clock_selected;
use crate::sdhci::script::command_word;
use crate::sdhci::script::CommandReplies;
use crate::sdhci::script::Event;
use crate::sdhci::script::reg_at;
use crate::sdhci::script::reported;
use crate::sdhci::script::settled;
use crate::sdhci::script::SetupReplies;
use crate::sdhci::script::Side;
use crate::sdhci::Timeout;
use crate::sdhci_reg::emmc_argument_bits::EMMC_ARGUMENT_OFFSET;
use crate::sdhci_reg::emmc_clk_ctrl_bits::EMMC_CLK_CTRL_OFFSET;
use crate::sdhci_reg::emmc_clk_ctrl_bits::EMMC_INTERNAL_CLK_EN;
use crate::sdhci_reg::emmc_clk_ctrl_bits::EMMC_INTERNAL_CLK_STABLE;
use crate::sdhci_reg::emmc_clk_ctrl_bits::EMMC_SD_CLK_EN;
use crate::sdhci_reg::emmc_cmd_bits::EMMC_CMD_OFFSET;
use crate::sdhci_reg::emmc_cmd_bits::EMMC_CMD_TYPE_NORMAL;
use crate::sdhci_reg::emmc_cmd_bits::EMMC_RESP_TYPE_LEN_48;
use crate::sdhci_reg::emmc_cmd_bits::EMMC_RESP_TYPE_NONE;
use crate::sdhci_reg::emmc_error_int_stat_bits::EMMC_ERROR_INT_FLAGS;
use crate::sdhci_reg::emmc_error_int_stat_bits::EMMC_ERROR_INT_STAT_OFFSET;
use crate::sdhci_reg::emmc_normal_int_stat_bits::EMMC_NORMAL_INT_FLAGS;
use crate::sdhci_reg::emmc_normal_int_stat_bits::EMMC_NORMAL_INT_STAT_OFFSET;
use crate::sdhci_reg::emmc_pstate_bits::EMMC_PSTATE_OFFSET;
use crate::sdhci_reg::emmc_resp01_bits::EMMC_RESP01_OFFSET;
use crate::sdhci_reg::emmc_sw_rst_bits::EMMC_SW_RST_ALL;
use crate::sdhci_reg::emmc_sw_rst_bits::EMMC_SW_RST_CMD;
use crate::sdhci_reg::emmc_sw_rst_bits::EMMC_SW_RST_OFFSET;
use crate::sdhci_reg::EMMC_WINDOW_SPAN;

verus! {

/// No access in `s` is a store to `addr`.
pub open spec fn quiet(s: Seq<Access>, addr: u64) -> bool {
    forall|j: int| 0 <= j < s.len() ==> !(#[trigger] s[j]).writes_to(addr)
}

/// Two lists without a store to `addr` make one without.
proof fn lemma_quiet_add(s: Seq<Access>, t: Seq<Access>, addr: u64)
    requires
        quiet(s, addr),
        quiet(t, addr),
    ensures
        quiet(s + t, addr),
{
    assert forall|j: int| 0 <= j < (s + t).len() implies !(#[trigger] (s + t)[j]).writes_to(
        addr,
    ) by {
        if j < s.len() {
            assert((s + t)[j] == s[j]);
        } else {
            assert((s + t)[j] == t[j - s.len()]);
        }
    }
}

/// The issue of a command stores nothing to the clock control register.
proof fn lemma_command_leaves_clock(
    r: CommandReplies,
    base: u64,
    idx: u16,
    ctype: u16,
    resp_type: u16,
    arg: u32,
)
    requires
        base <= u64::MAX - EMMC_WINDOW_SPAN,
    ensures
        quiet(r.accesses(base, idx, ctype, resp_type, arg), reg_at(base, EMMC_CLK_CTRL_OFFSET)),
{
    let clk = reg_at(base, EMMC_CLK_CTRL_OFFSET);
    let a = store16(reg_at(base, EMMC_ERROR_INT_STAT_OFFSET), EMMC_ERROR_INT_FLAGS);
    let b = store16(reg_at(base, EMMC_NORMAL_INT_STAT_OFFSET), EMMC_NORMAL_INT_FLAGS);
    let c = set_bits8(reg_at(base, EMMC_SW_RST_OFFSET), r.reset, EMMC_SW_RST_CMD);
    let d = spin8(reg_at(base, EMMC_SW_RST_OFFSET), r.reset_wait);
    let e = spin32(reg_at(base, EMMC_PSTATE_OFFSET), r.inhibit_wait);
    let f = CommandReplies::issue(base, idx, ctype, resp_type, arg);
    assert(quiet(a, clk));
    assert(quiet(b, clk));
    assert(quiet(c, clk));
    assert(quiet(d, clk));
    assert(quiet(e, clk));
    assert(quiet(f, clk));
    lemma_quiet_add(a, b, clk);
    lemma_quiet_add(a + b, c, clk);
    lemma_quiet_add(a + b + c, d, clk);
    lemma_quiet_add(r.prepare(base), e, clk);
    lemma_quiet_add(r.prepare(base) + e, f, clk);
}

/// The argument goes before the command, and the command last. When a
/// command is issued without a wait running out, the last two accesses are
/// the store of the argument and then the store of the command word.
pub proof fn lemma_command_issued_last(
    r: CommandReplies,
    base: u64,
    idx: u16,
    ctype: u16,
    resp_type: u16,
    arg: u32,
)
    requires
        r.outcome() is Ok,
    ensures
        r.accesses(base, idx, ctype, resp_type, arg).len() >= 2,
        r.accesses(base, idx, ctype, resp_type, arg)[r.accesses(
            base,
            idx,
            ctype,
            resp_type,
            arg,
        ).len() - 2] == (Access::Write32 { addr: reg_at(base, EMMC_ARGUMENT_OFFSET), value: arg }),
        r.accesses(base, idx, ctype, resp_type, arg).last() == (Access::Write16 {
            addr: reg_at(base, EMMC_CMD_OFFSET),
            value: command_word(idx, ctype, resp_type),
        }),
{
}

/// The reset comes first. In every bring-up the second access is the store
/// that starts the reset of the whole controller, the first being the load
/// for it; and every other store, to whatever register, comes after the
/// reset has been awaited.
pub proof fn lemma_reset_comes_first(r: BringupReplies, base: u64, i: int)
    requires
        0 <= i < r.accesses(base).len(),
        r.accesses(base)[i].is_write(),
    ensures
        r.accesses(base)[r.reset_at()] == (Access::Write8 {
            addr: reg_at(base, EMMC_SW_RST_OFFSET),
            value: r.reset.seen | EMMC_SW_RST_ALL,
        }),
        i == r.reset_at() || i >= r.reset.accesses(base).len(),
        r.reset_at() < r.reset.accesses(base).len(),
{
    let t = r.accesses(base);
    let head = r.reset.accesses(base);
    assert(t.take(head.len() as int) =~= head);
    assert(head[1] == t.take(head.len() as int)[1]);
    if i < head.len() {
        assert(head[i] == t.take(head.len() as int)[i]);
    }
}

/// The clocks come in order, and no command before them. In a bring-up that
/// got as far as the card clock, the store that starts the internal clock
/// comes before the store that starts the card clock; between the two lie
/// the loads of the wait for the internal clock and the load for the second
/// store, and nothing else; no other store goes to the clock control
/// register; and every store to the argument register or to the command
/// register comes after the card clock was started.
pub proof fn lemma_clocks_in_order(r: BringupReplies, base: u64, i: int)
    requires
        base <= u64::MAX - EMMC_WINDOW_SPAN,
        r.reset.done(),
        r.setup.stable(),
        0 <= i < r.accesses(base).len(),
    ensures
        r.reset_at() < r.internal_clock_at(base) < r.card_clock_at(base) < r.accesses(base).len(),
        r.accesses(base)[r.internal_clock_at(base)] == (Access::Write16 {
            addr: reg_at(base, EMMC_CLK_CTRL_OFFSET),
            value: r.setup.clk | EMMC_INTERNAL_CLK_EN,
        }),
        r.accesses(base)[r.card_clock_at(base)] == (Access::Write16 {
            addr: reg_at(base, EMMC_CLK_CTRL_OFFSET),
            value: r.sd_clock.clk | EMMC_SD_CLK_EN,
        }),
        r.accesses(base).subrange(r.internal_clock_at(base) + 1, r.card_clock_at(base)) == spin16(
            reg_at(base, EMMC_CLK_CTRL_OFFSET),
            r.setup.stable_wait,
        ) + fetch16(reg_at(base, EMMC_CLK_CTRL_OFFSET), r.sd_clock.clk),
        r.accesses(base)[i].writes_to(reg_at(base, EMMC_CLK_CTRL_OFFSET)) ==> i
            == r.internal_clock_at(base) || i == r.card_clock_at(base),
        r.accesses(base)[i].writes_to(reg_at(base, EMMC_ARGUMENT_OFFSET)) || r.accesses(
            base,
        )[i].writes_to(reg_at(base, EMMC_CMD_OFFSET)) ==> i > r.card_clock_at(base),
{
    let t = r.accesses(base);
    let clk = reg_at(base, EMMC_CLK_CTRL_OFFSET);
    let arg = reg_at(base, EMMC_ARGUMENT_OFFSET);
    let cmd = reg_at(base, EMMC_CMD_OFFSET);
    let p = r.before_clocks(base);
    let start = set_bits16(clk, r.setup.clk, EMMC_INTERNAL_CLK_EN);
    let wait = spin16(clk, r.setup.stable_wait);
    let card = r.sd_clock.accesses(base);
    let idle = r.go_idle.accesses(base, 0, EMMC_CMD_TYPE_NORMAL, EMMC_RESP_TYPE_NONE, 0);
    let look = fetch32(reg_at(base, EMMC_RESP01_OFFSET), r.idle_response);
    let op = r.op_cond.accesses(
        base,
        1,
        EMMC_CMD_TYPE_NORMAL,
        EMMC_RESP_TYPE_LEN_48,
        EMMC_SEND_OP_COND_ARG,
    );
    let look2 = fetch32(reg_at(base, EMMC_RESP01_OFFSET), r.op_cond_response);
    let rest = if r.go_idle.outcome() is Err {
        idle
    } else if r.op_cond.outcome() is Err {
        idle + look + op
    } else {
        idle + look + op + look2
    };
    let front = p + start + wait + card;
    assert(r.until_stable(base) =~= p + start + wait);
    assert(t =~= front + rest);
    // nothing before the clocks touches them, the argument or the command
    let a = r.reset.accesses(base);
    let b = r.setup.power_on(base);
    let c = SetupReplies::mask_interrupts(base);
    let d = r.setup.one_bit_bus(base);
    let e = r.setup.bypass_dll(base);
    assert(quiet(a, clk) && quiet(a, arg) && quiet(a, cmd));
    assert(quiet(b, clk) && quiet(b, arg) && quiet(b, cmd));
    assert(quiet(c, clk) && quiet(c, arg) && quiet(c, cmd));
    assert(quiet(d, clk) && quiet(d, arg) && quiet(d, cmd));
    assert(quiet(e, clk) && quiet(e, arg) && quiet(e, cmd));
    lemma_quiet_add(a, b, clk);
    lemma_quiet_add(a + b, c, clk);
    lemma_quiet_add(a + b + c, d, clk);
    lemma_quiet_add(a + b + c + d, e, clk);
    lemma_quiet_add(a, b, arg);
    lemma_quiet_add(a + b, c, arg);
    lemma_quiet_add(a + b + c, d, arg);
    lemma_quiet_add(a + b + c + d, e, arg);
    lemma_quiet_add(a, b, cmd);
    lemma_quiet_add(a + b, c, cmd);
    lemma_quiet_add(a + b + c, d, cmd);
    lemma_quiet_add(a + b + c + d, e, cmd);
    assert(quiet(p, clk) && quiet(p, arg) && quiet(p, cmd));
    // nothing after the clocks touches them
    lemma_command_leaves_clock(r.go_idle, base, 0, EMMC_CMD_TYPE_NORMAL, EMMC_RESP_TYPE_NONE, 0);
    lemma_command_leaves_clock(
        r.op_cond,
        base,
        1,
        EMMC_CMD_TYPE_NORMAL,
        EMMC_RESP_TYPE_LEN_48,
        EMMC_SEND_OP_COND_ARG,
    );
    assert(quiet(look, clk));
    assert(quiet(look2, clk));
    lemma_quiet_add(idle, look, clk);
    lemma_quiet_add(idle + look, op, clk);
    lemma_quiet_add(idle + look + op, look2, clk);
    assert(quiet(rest, clk));
    // the places
    let n = p.len() as int;
    let k = r.setup.stable_wait.len() as int;
    assert(front.len() == n + 2 + k + 3);
    assert(t[n + 1] == front[n + 1]);
    assert(t[n + k + 3] == front[n + k + 3]);
    assert(t.subrange(n + 2, n + k + 3) =~= wait + fetch16(clk, r.sd_clock.clk));
    if i < n {
        assert(t[i] == p[i]);
    } else if i < front.len() {
        assert(t[i] == front[i]);
        if n + 2 <= i < n + 2 + k {
            assert(front[i] == wait[i - n - 2]);
        }
    } else {
        assert(t[i] == rest[i - front.len()]);
    }
}

/// The card clock is chosen in the clock tree before the controller's own
/// clocks are touched. In a bring-up whose reset finished, for a handle that
/// had issued `start` accesses before, the first side step is the selection
/// of the identification clock, the second the reading of the selector, the
/// third the report of what was read; all three are taken when the reset has
/// been awaited, and so after the store that started the reset and before
/// the store that starts the internal clock.
pub proof fn lemma_card_clock_selected_first(r: BringupReplies, base: u64, start: nat)
    requires
        r.reset.done(),
    ensures
        r.events(base, start).len() >= 3,
        r.events(base, start)[0].side == Side::Clock(
            ClockRequest::Select(CclkEmmc::Soc0Div375K),
        ),
        r.events(base, start)[1].side == Side::Clock(ClockRequest::Read(r.card_clock)),
        r.events(base, start)[2].side == Side::Report(
            Report { probe: Probe::CardClock, value: r.card_clock },
        ),
        r.events(base, start)[0].after == start + r.reset.accesses(base).len(),
        r.events(base, start)[1].after == r.events(base, start)[0].after,
        r.events(base, start)[2].after == r.events(base, start)[0].after,
        start + r.reset_at() < r.events(base, start)[0].after <= start + r.internal_clock_at(base),
{
    let first = clock_selected(start + r.reset.accesses(base).len(), r.card_clock);
    let e = r.events(base, start);
    assert(e.take(3) =~= first);
    assert(e[0] == e.take(3)[0]);
    assert(e[1] == e.take(3)[1]);
    assert(e[2] == e.take(3)[2]);
}

/// The card is left to settle between its two commands. In a bring-up that
/// got past its first command, for a handle that had issued `start` accesses
/// before: the first command ends with the store of its command word; the
/// next access is the look at response register 01; what was seen is
/// reported, and then the settling time is left to pass, before the first
/// access of the second command.
pub proof fn lemma_settled_between_commands(r: BringupReplies, base: u64, start: nat)
    requires
        r.reset.done(),
        r.setup.stable(),
        r.go_idle.outcome() is Ok,
    ensures
        r.events_of_commands(base, start).len() >= 2,
        r.events_of_commands(base, start)[0] == (Event {
            after: start + r.until_idle(base).len() + 1,
            side: Side::Report(Report { probe: Probe::Response01, value: r.idle_response }),
        }),
        r.events_of_commands(base, start)[1] == (Event {
            after: start + r.until_idle(base).len() + 1,
            side: Side::DelayUs(EMMC_IDLE_SETTLE_US),
        }),
        r.accesses(base).len() > r.until_idle(base).len(),
        r.accesses(base)[r.until_idle(base).len() as int] == (Access::Read32 {
            addr: reg_at(base, EMMC_RESP01_OFFSET),
            value: r.idle_response,
        }),
        r.until_idle(base).last() == (Access::Write16 {
            addr: reg_at(base, EMMC_CMD_OFFSET),
            value: command_word(0, EMMC_CMD_TYPE_NORMAL, EMMC_RESP_TYPE_NONE),
        }),
{
    let t = r.accesses(base);
    let n = r.until_idle(base).len() as int;
    assert(t.take(n + 1) =~= r.until_idle(base) + fetch32(
        reg_at(base, EMMC_RESP01_OFFSET),
        r.idle_response,
    ));
    assert(t[n] == t.take(n + 1)[n]);
    lemma_command_issued_last(r.go_idle, base, 0, EMMC_CMD_TYPE_NORMAL, EMMC_RESP_TYPE_NONE, 0);
    let e = r.events_of_commands(base, start);
    let two = reported(start + r.until_idle(base).len() + 1, Probe::Response01, r.idle_response)
        + settled(start + r.until_idle(base).len() + 1);
    assert(e.take(2) =~= two);
    assert(e[0] == e.take(2)[0]);
    assert(e[1] == e.take(2)[1]);
}

/// The wait for the internal clock takes as many looks as the hardware
/// needs, and not one more. Let the hardware be such that the stable bit is
/// clear in the first `n - 1` answers to the wait and set from the `n`th on.
/// Then a bring-up whose reset finished and whose poll limit is at least `n`
/// finds the clock stable and has taken exactly `n` looks, the last of which
/// is the first with the bit set; with a poll limit below `n` it gives up
/// after as many looks as the limit allows, none of which has the bit set.
pub proof fn lemma_polls_until_stable(r: BringupReplies, limit: u32, n: nat)
    requires
        r.bounded(limit),
        r.reset.done(),
        n >= 1,
        forall|k: int|
            0 <= k < r.setup.stable_wait.len() ==> ((#[trigger] r.setup.stable_wait[k])
                & EMMC_INTERNAL_CLK_STABLE == EMMC_INTERNAL_CLK_STABLE <==> k + 1 >= n),
    ensures
        n <= limit ==> r.setup.stable() && r.setup.stable_wait.len() == n,
        n > limit ==> !r.setup.stable() && r.setup.stable_wait.len() == limit,
        r.setup.stable() ==> r.outcome() != Err::<(), Timeout>(Timeout::InternalClock),
        !r.setup.stable() ==> r.outcome() == Err::<(), Timeout>(Timeout::InternalClock),
{
    let w = r.setup.stable_wait;
    if w.len() > 0 {
        let last = w.len() - 1;
        assert(w[last] == w.last());
        if w.len() > n {
            // the look before the last had the bit already
            assert(w[n as int - 1] & EMMC_INTERNAL_CLK_STABLE == EMMC_INTERNAL_CLK_STABLE);
        }
    }
}

} // verus!
