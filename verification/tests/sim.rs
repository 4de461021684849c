use rk3568_emmc::mmio::Access;
use rk3568_emmc::mmio::Mmio;
use rk3568_emmc::sdhci::CclkEmmc;
use rk3568_emmc::sdhci::ClockRequest;
use rk3568_emmc::sdhci::ClockTree;
use rk3568_emmc::sdhci::Delay;
use rk3568_emmc::sdhci::Diagnostics;
use rk3568_emmc::sdhci::Probe;
use rk3568_emmc::sdhci::Report;
use rk3568_emmc::sim::Kind;
use rk3568_emmc::sim::SimClockTree;
use rk3568_emmc::sim::SimDelay;
use rk3568_emmc::sim::SimLog;
use rk3568_emmc::sim::SimRegisters;

const BASE: u64 = 0x1000;

#[test]
fn a_new_window_holds_zero_everywhere() {
    let mut sim = SimRegisters::new(BASE, 16);
    for offset in 0..16 {
        assert_eq!(sim.peek(BASE + offset), 0);
        assert_eq!(sim.read32(BASE + offset), 0);
    }
    assert_eq!(sim.log().len(), 16);
}

#[test]
fn a_plain_register_keeps_what_is_stored() {
    let mut sim = SimRegisters::new(BASE, 16);
    sim.write32(BASE + 4, 0xdead_beef);
    assert_eq!(sim.read32(BASE + 4), 0xdead_beef);
    assert_eq!(sim.read16(BASE + 4), 0xbeef);
    assert_eq!(sim.read8(BASE + 4), 0xef);
    sim.write8(BASE + 4, 0x12);
    assert_eq!(sim.read32(BASE + 4), 0x12);
    sim.write16(BASE + 4, 0x3456);
    assert_eq!(sim.peek(BASE + 4), 0x3456);
    assert_eq!(
        sim.log(),
        &vec![
            Access::Write32 { addr: BASE + 4, value: 0xdead_beef },
            Access::Read32 { addr: BASE + 4, value: 0xdead_beef },
            Access::Read16 { addr: BASE + 4, value: 0xbeef },
            Access::Read8 { addr: BASE + 4, value: 0xef },
            Access::Write8 { addr: BASE + 4, value: 0x12 },
            Access::Read32 { addr: BASE + 4, value: 0x12 },
            Access::Write16 { addr: BASE + 4, value: 0x3456 },
        ]
    );
}

#[test]
fn outside_the_window_nothing_is_kept() {
    let mut sim = SimRegisters::new(BASE, 16);
    sim.write32(BASE + 16, 7);
    sim.write32(BASE - 1, 7);
    sim.write32(0, 7);
    sim.write32(u64::MAX, 7);
    sim.poke(BASE + 16, 9);
    sim.set_kind(BASE + 16, Kind::WriteOneToClear);
    assert_eq!(sim.read32(BASE + 16), 0);
    assert_eq!(sim.read32(BASE - 1), 0);
    assert_eq!(sim.read8(u64::MAX), 0);
    assert_eq!(sim.peek(BASE + 15), 0);
    assert_eq!(sim.log().len(), 7);
    let mut empty = SimRegisters::new(BASE, 0);
    empty.write8(BASE, 1);
    assert_eq!(empty.read8(BASE), 0);
}

#[test]
fn a_status_register_is_cleared_by_ones() {
    let mut sim = SimRegisters::new(BASE, 16);
    sim.set_kind(BASE + 2, Kind::WriteOneToClear);
    sim.poke(BASE + 2, 0b1111);
    sim.write16(BASE + 2, 0b0101);
    assert_eq!(sim.peek(BASE + 2), 0b1010);
    sim.write16(BASE + 2, 0);
    assert_eq!(sim.peek(BASE + 2), 0b1010);
    sim.write16(BASE + 2, 0xfff0);
    assert_eq!(sim.read16(BASE + 2), 0b1010);
    sim.set_kind(BASE + 2, Kind::Memory);
    sim.write16(BASE + 2, 0xfff0);
    assert_eq!(sim.read16(BASE + 2), 0xfff0);
}

#[test]
fn a_self_clearing_register_never_shows_what_was_stored() {
    let mut sim = SimRegisters::new(BASE, 16);
    sim.set_kind(BASE + 3, Kind::SelfClearing);
    sim.write8(BASE + 3, 0x07);
    assert_eq!(sim.read8(BASE + 3), 0);
    sim.poke(BASE + 3, 0x10);
    sim.write8(BASE + 3, 0x07);
    assert_eq!(sim.read8(BASE + 3), 0x10);
}

#[test]
fn the_script_is_taken_step_by_step() {
    let mut sim = SimRegisters::new(BASE, 16);
    sim.force(BASE + 1, 0x11);
    sim.force(BASE + 2, 0x22);
    sim.force(BASE + 1, 0x33);
    // the first step is for another register: this load sees the register
    assert_eq!(sim.read8(BASE + 2), 0);
    assert_eq!(sim.read8(BASE + 1), 0x11);
    assert_eq!(sim.peek(BASE + 1), 0x11);
    // the third step waits behind the second
    assert_eq!(sim.read8(BASE + 1), 0x11);
    assert_eq!(sim.read8(BASE + 2), 0x22);
    assert_eq!(sim.read8(BASE + 1), 0x33);
    assert_eq!(sim.read8(BASE + 1), 0x33);
    assert_eq!(sim.read8(BASE + 2), 0x22);
}

#[test]
fn a_step_of_the_script_is_cut_to_the_width_of_the_load() {
    let mut sim = SimRegisters::new(BASE, 16);
    sim.force(BASE, 0x1234_5678);
    assert_eq!(sim.read8(BASE), 0x78);
    assert_eq!(sim.read16(BASE), 0x5678);
    assert_eq!(sim.peek(BASE), 0x1234_5678);
    sim.force(BASE + 100, 0xabcd);
    assert_eq!(sim.read16(BASE + 100), 0xabcd);
    assert_eq!(sim.read16(BASE + 100), 0);
}

#[test]
fn the_controller_window_knows_its_special_registers() {
    let base = 0xfe31_0000;
    let mut sim = SimRegisters::controller(base);
    sim.write8(base + 0x2f, 0x07);
    assert_eq!(sim.read8(base + 0x2f), 0);
    sim.poke(base + 0x30, 0x00ff);
    sim.write16(base + 0x30, 0x000f);
    assert_eq!(sim.read16(base + 0x30), 0x00f0);
    sim.poke(base + 0x32, 0x00ff);
    sim.write16(base + 0x32, 0x00f0);
    assert_eq!(sim.read16(base + 0x32), 0x000f);
    sim.write16(base + 0x34, 0x00f0);
    assert_eq!(sim.read16(base + 0x34), 0x00f0);
    sim.write32(base + 0x844, 0xffff_ffff);
    assert_eq!(sim.read32(base + 0x844), 0xffff_ffff);
    sim.write32(base + 0x848, 0xffff_ffff);
    assert_eq!(sim.read32(base + 0x848), 0);
}

#[test]
fn a_controller_window_may_end_at_the_top_of_the_address_space() {
    let base = u64::MAX - 0x847;
    let mut sim = SimRegisters::controller(base);
    sim.write8(base + 0x2f, 0x07);
    assert_eq!(sim.read8(base + 0x2f), 0);
    sim.write32(u64::MAX - 3, 0x1234_5678);
    assert_eq!(sim.read32(u64::MAX - 3), 0x1234_5678);
}

#[test]
fn a_controller_window_that_does_not_fit_is_plain() {
    let base = u64::MAX - 0x846;
    let mut sim = SimRegisters::controller(base);
    sim.write8(base + 0x2f, 0x07);
    assert_eq!(sim.read8(base + 0x2f), 0x07);
}

#[test]
fn the_clock_tree_keeps_what_it_was_asked() {
    let mut clk = SimClockTree::new(5);
    assert!(clk.log().is_empty());
    assert_eq!(clk.cru_clksel_get_cclk_emmc(), 5);
    clk.cru_clksel_set_cclk_emmc(CclkEmmc::Soc0Div375K);
    assert_eq!(clk.cru_clksel_get_cclk_emmc(), 5);
    assert_eq!(
        clk.log(),
        &vec![
            ClockRequest::Read(5),
            ClockRequest::Select(CclkEmmc::Soc0Div375K),
            ClockRequest::Read(5),
        ]
    );
}

#[test]
fn the_timer_keeps_what_was_asked() {
    let mut timer = SimDelay::new();
    timer.delay_us(10);
    timer.delay_us(0);
    timer.delay_us(u64::MAX);
    assert_eq!(timer.log(), &vec![10, 0, u64::MAX]);
}

#[test]
fn the_sink_keeps_what_was_reported() {
    let mut sink = SimLog::new();
    sink.report(Probe::ClkCtrl, 7);
    sink.report(Probe::Response01, 0xffff_ffff);
    assert_eq!(
        sink.log(),
        &vec![
            Report { probe: Probe::ClkCtrl, value: 7 },
            Report { probe: Probe::Response01, value: 0xffff_ffff },
        ]
    );
}
