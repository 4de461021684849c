use rk3568_emmc::mmio::Access;
use rk3568_emmc::sdhci_reg::Reg;
use rk3568_emmc::sim::SimRegisters;

const BASE: u64 = 0x4000_0000;
const NORMAL_INT_STAT: u64 = BASE + 0x30;
const ERROR_INT_STAT: u64 = BASE + 0x32;

fn plain() -> Reg<SimRegisters> {
    Reg::new(BASE, SimRegisters::new(BASE, 0x848))
}

fn plain_holding(offset: u64, value: u32) -> Reg<SimRegisters> {
    let mut sim = SimRegisters::new(BASE, 0x848);
    sim.poke(BASE + offset, value);
    Reg::new(BASE, sim)
}

fn controller_holding(addr: u64, value: u32) -> Reg<SimRegisters> {
    let mut sim = SimRegisters::controller(BASE);
    sim.poke(addr, value);
    Reg::new(BASE, sim)
}

const WORDS: [u32; 6] = [0, 1, 0xffff_ffff, 0x8000_0000, 0x1234_5678, 0xdead_beef];
const HALVES: [u16; 6] = [0, 1, 0xffff, 0x8000, 0x1234, 0xbeef];
const BYTES: [u8; 6] = [0, 1, 0xff, 0x80, 0x12, 0xef];

#[test]
fn every_word_register_gives_back_what_was_stored() {
    for x in WORDS {
        let mut reg = plain();
        reg.emmc_set_argument(x);
        assert_eq!(reg.emmc_get_argument(), x);
        reg.emmc_set_adma_id(x);
        assert_eq!(reg.emmc_get_adma_id(), x);
        reg.emmc_set_dll_ctrl(x);
        assert_eq!(reg.emmc_get_dll_ctrl(), x);
        reg.emmc_set_dll_rxclk(x);
        assert_eq!(reg.emmc_get_dll_rxclk(), x);
        reg.emmc_set_dll_txclk(x);
        assert_eq!(reg.emmc_get_dll_txclk(), x);
        reg.emmc_set_dll_strbin(x);
        assert_eq!(reg.emmc_get_dll_strbin(), x);
    }
}

#[test]
fn every_half_word_register_gives_back_what_was_stored() {
    for x in HALVES {
        let mut reg = plain();
        reg.emmc_set_cmd(x);
        assert_eq!(reg.emmc_get_cmd(), x);
        reg.emmc_set_clk_ctrl(x);
        assert_eq!(reg.emmc_get_clk_ctrl(), x);
        reg.emmc_set_normal_int_stat(x);
        assert_eq!(reg.emmc_get_normal_int_stat(), x);
        reg.emmc_set_normal_int_en(x);
        assert_eq!(reg.emmc_get_normal_int_en(), x);
        reg.emmc_set_error_int_en(x);
        assert_eq!(reg.emmc_get_error_int_en(), x);
        reg.emmc_set_normal_int_sig_en(x);
        assert_eq!(reg.emmc_get_normal_int_sig_en(), x);
        reg.emmc_set_error_int_sig_en(x);
        assert_eq!(reg.emmc_get_error_int_sig_en(), x);
    }
}

#[test]
fn every_byte_register_gives_back_what_was_stored() {
    for x in BYTES {
        let mut reg = plain();
        reg.emmc_set_pwr_ctrl(x);
        assert_eq!(reg.emmc_get_pwr_ctrl(), x);
        reg.emmc_set_host_ctrl3(x);
        assert_eq!(reg.emmc_get_host_ctrl3(), x);
    }
}

#[test]
fn neighbours_do_not_disturb_each_other() {
    let mut reg = plain();
    reg.emmc_set_pwr_ctrl(0xaa);
    reg.emmc_set_clk_ctrl(0x1234);
    reg.emmc_set_normal_int_en(0x5678);
    reg.emmc_set_error_int_en(0x9abc);
    reg.emmc_set_argument(0xdead_beef);
    reg.emmc_set_cmd(0x0702);
    assert_eq!(reg.emmc_get_pwr_ctrl(), 0xaa);
    assert_eq!(reg.emmc_get_clk_ctrl(), 0x1234);
    assert_eq!(reg.emmc_get_normal_int_en(), 0x5678);
    assert_eq!(reg.emmc_get_error_int_en(), 0x9abc);
    assert_eq!(reg.emmc_get_argument(), 0xdead_beef);
    assert_eq!(reg.emmc_get_cmd(), 0x0702);
}

#[test]
fn the_three_upper_response_registers_are_one() {
    let mut reg = plain_holding(0x14, 0x0bad_cafe);
    assert_eq!(reg.emmc_get_resp23(), 0x0bad_cafe);
    assert_eq!(reg.emmc_get_resp45(), 0x0bad_cafe);
    assert_eq!(reg.emmc_get_resp67(), 0x0bad_cafe);
    assert_eq!(reg.emmc_get_resp01(), 0);
    let read = Access::Read32 { addr: BASE + 0x14, value: 0x0bad_cafe };
    assert_eq!(
        reg.into_io().log(),
        &vec![read, read, read, Access::Read32 { addr: BASE + 0x10, value: 0 }]
    );
}

#[test]
fn enabling_one_flag_leaves_the_others_as_they_were() {
    // the stable flag of the clock, with the internal clock enable beside it
    for before in [0x0000u32, 0x0002, 0xfffd, 0xffff] {
        let mut reg = plain_holding(0x2c, before);
        let was_stable = reg.emmc_internal_clk_is_stable();
        assert_eq!(was_stable, before & 0x0002 != 0);
        reg.emmc_enable_internal_clk();
        assert_eq!(reg.emmc_internal_clk_is_stable(), was_stable);
        reg.emmc_enable_sd_clk();
        assert_eq!(reg.emmc_internal_clk_is_stable(), was_stable);
        reg.emmc_disable_internal_clk();
        assert_eq!(reg.emmc_internal_clk_is_stable(), was_stable);
        reg.emmc_set_freq(0x3ff);
        assert_eq!(reg.emmc_internal_clk_is_stable(), was_stable);
        assert_eq!(reg.emmc_get_clk_ctrl() as u32 & 0x0032, before & 0x0032);
    }
    // the resets, each beside the two others
    for before in [0x00u32, 0x02, 0x04, 0x06, 0xf8] {
        let mut reg = plain_holding(0x2f, before);
        let cmd_done = reg.emmc_reset_cmd_is_finished();
        let data_done = reg.emmc_reset_data_is_finished();
        reg.emmc_reset_all();
        assert_eq!(reg.emmc_reset_cmd_is_finished(), cmd_done);
        assert_eq!(reg.emmc_reset_data_is_finished(), data_done);
        assert!(!reg.emmc_reset_all_is_finished());
    }
    // the soft reset of the loop beside its start and its bypass
    for before in [0x0000_0000u32, 0x0000_0002, 0xffff_fffd, 0xffff_ffff] {
        let mut reg = plain_holding(0x800, before);
        let was_done = reg.emmc_dll_reset_is_finished();
        reg.emmc_enable_dll_start();
        reg.emmc_enable_dll_bypass();
        reg.emmc_set_dll_incrment(0x5a);
        reg.emmc_set_dll_start_point(0xa5);
        assert_eq!(reg.emmc_dll_reset_is_finished(), was_done);
        reg.emmc_disable_dll_bypass();
        reg.emmc_disable_dll_start();
        assert_eq!(reg.emmc_dll_reset_is_finished(), was_done);
    }
}

#[test]
fn a_field_that_was_set_reads_back_cut_to_its_width() {
    let mut reg = plain_holding(0xe, 0xffff);
    reg.emmc_set_cmd_index(7);
    assert_eq!(reg.emmc_get_cmd(), 0xc7ff);
    reg.emmc_set_cmd_index(0x47);
    assert_eq!(reg.emmc_get_cmd(), 0xc7ff);
    reg.emmc_set_cmd_type(2);
    assert_eq!(reg.emmc_get_cmd(), 0xc7bf);
    reg.emmc_set_resp_type(4);
    assert_eq!(reg.emmc_get_cmd(), 0xc7bc);
    let mut reg = plain_holding(0x840, 0xffff_fcff);
    assert_eq!(reg.emmc_get_dll_lock_value(), 0xff);
    assert!(!reg.emmc_dll_is_locked());
    assert!(!reg.emmc_dll_lock_is_timeout());
}

#[test]
fn clearing_all_flags_leaves_no_flag_latched() {
    for latched in [0x0001u32, 0x0003, 0x00ff, 0x4000, 0x40ff] {
        let mut reg = controller_holding(NORMAL_INT_STAT, latched);
        assert_eq!(reg.emmc_get_normal_int_stat() as u32, latched);
        reg.emmc_clear_all_normal_int_flags();
        assert_eq!(reg.emmc_get_normal_int_stat(), 0);
    }
    for latched in [0x0001u32, 0x0011, 0x007f, 0x1f00, 0x1f7f] {
        let mut reg = controller_holding(ERROR_INT_STAT, latched);
        reg.emmc_clear_all_error_int_flags();
        assert_eq!(reg.into_io().peek(ERROR_INT_STAT), 0);
    }
}

#[test]
fn clearing_all_flags_is_one_store_of_the_flags() {
    let mut reg = controller_holding(NORMAL_INT_STAT, 0x0101);
    reg.emmc_clear_all_normal_int_flags();
    reg.emmc_clear_all_error_int_flags();
    let sim = reg.into_io();
    assert_eq!(
        sim.log(),
        &vec![
            Access::Write16 { addr: NORMAL_INT_STAT, value: 0x40ff },
            Access::Write16 { addr: ERROR_INT_STAT, value: 0x1f7f },
        ]
    );
}

#[test]
fn clearing_all_flags_leaves_the_bits_beside_them() {
    // the card interrupt, the re-tuning event, the FX event and the error
    // interrupt are no flags that software clears
    for beside in [0x0100u32, 0x1000, 0x2000, 0x8000, 0xb100] {
        for flags in [0x0000u32, 0x0001, 0x40ff] {
            let mut reg = controller_holding(NORMAL_INT_STAT, beside | flags);
            reg.emmc_clear_all_normal_int_flags();
            assert_eq!(reg.emmc_get_normal_int_stat() as u32, beside);
        }
    }
    for beside in [0x0080u32, 0x2000, 0x4000, 0x8000, 0xe080] {
        for flags in [0x0000u32, 0x0001, 0x1f7f] {
            let mut reg = controller_holding(ERROR_INT_STAT, beside | flags);
            reg.emmc_clear_all_error_int_flags();
            assert_eq!(reg.into_io().peek(ERROR_INT_STAT), beside);
        }
    }
}

#[test]
fn clearing_all_flags_does_not_touch_the_register_beside() {
    let mut sim = SimRegisters::controller(BASE);
    sim.poke(NORMAL_INT_STAT, 0x8101);
    sim.poke(ERROR_INT_STAT, 0x0002);
    sim.poke(BASE + 0x34, 0x003b);
    let mut reg = Reg::new(BASE, sim);
    reg.emmc_clear_all_normal_int_flags();
    assert_eq!(reg.emmc_get_normal_int_stat(), 0x8100);
    assert_eq!(reg.emmc_get_normal_int_en(), 0x003b);
    let sim = reg.into_io();
    assert_eq!(sim.peek(ERROR_INT_STAT), 0x0002);
}

#[test]
fn a_store_to_a_status_register_clears_the_ones_and_nothing_else() {
    let mut reg = controller_holding(NORMAL_INT_STAT, 0x40ff);
    reg.emmc_set_normal_int_stat(0x0005);
    assert_eq!(reg.emmc_get_normal_int_stat(), 0x40fa);
    reg.emmc_set_normal_int_stat(0x0000);
    assert_eq!(reg.emmc_get_normal_int_stat(), 0x40fa);
    reg.emmc_set_normal_int_stat(0xffff);
    assert_eq!(reg.emmc_get_normal_int_stat(), 0);
}

#[test]
fn a_named_value_is_set_by_its_number() {
    let mut reg = plain_holding(0x28, 0xff);
    reg.emmc_select_dma(rk3568_emmc::sdhci_reg::emmc_host_ctrl1_bits::EMMC_DMA_SEL_ADMA2_NUM);
    let sim = reg.into_io();
    assert_eq!(
        sim.peek(BASE + 0x28) as u8 & rk3568_emmc::sdhci_reg::emmc_host_ctrl1_bits::EMMC_DMA_SEL,
        rk3568_emmc::sdhci_reg::emmc_host_ctrl1_bits::EMMC_DMA_SEL_ADMA2
    );
    assert_eq!(sim.peek(BASE + 0x28), 0xf7);
    let mut reg = plain_holding(0x0e, 0x0000);
    reg.emmc_set_cmd_type(rk3568_emmc::sdhci_reg::emmc_cmd_bits::EMMC_CMD_TYPE_SUSPEND_NUM);
    assert_eq!(reg.emmc_get_cmd(), rk3568_emmc::sdhci_reg::emmc_cmd_bits::EMMC_CMD_TYPE_SUSPEND);
    reg.emmc_set_resp_type(rk3568_emmc::sdhci_reg::emmc_cmd_bits::EMMC_RESP_TYPE_LEN_48_NUM);
    assert_eq!(reg.emmc_get_cmd(), 0x0042);
    let mut reg = plain_holding(0x2c, 0x0000);
    reg.emmc_set_clk_gen_type(rk3568_emmc::sdhci_reg::emmc_clk_ctrl_bits::EMMC_CLK_GEN_TYPE_PROG_NUM);
    assert_eq!(
        reg.emmc_get_clk_ctrl(),
        rk3568_emmc::sdhci_reg::emmc_clk_ctrl_bits::EMMC_CLK_GEN_TYPE_PROG
    );
}

#[test]
fn the_window_may_end_at_the_top_of_the_address_space() {
    let base = u64::MAX - 0x847;
    let mut sim = SimRegisters::new(base, 0x848);
    sim.poke(base + 0x844, 0x00a5_1234);
    let mut reg = Reg::new(base, sim);
    assert_eq!(reg.emmc_get_strbin_delay_value(), 0xa5);
    assert_eq!(reg.emmc_get_rxclk_delay_value(), 0x12);
    assert_eq!(reg.emmc_get_txclk_delay_value(), 0x34);
    assert_eq!(
        reg.into_io().log().last(),
        Some(&Access::Read32 { addr: u64::MAX - 3, value: 0x00a5_1234 })
    );
}
