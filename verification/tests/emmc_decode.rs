use rknpu_drivers::emmc::freq::{freq_step, FreqEvent, FreqStep, WidthFor};
use rknpu_drivers::emmc::block::{data_error_of, dma_poll, BlockCommand, DmaPoll};
use rknpu_drivers::emmc::sdhci::{reset_poll, ResetPoll};
use rknpu_drivers::emmc::speed::{
    bus_speed_clock, bus_test_matches, bus_width_candidates, bus_width_outcome, hs200_tuning_allowed,
    speed_mode, timing_is_ddr, tuning_block_size, tuning_block_size_reg, tuning_poll, SpeedMode,
};
use rknpu_drivers::emmc::bringup::{ext_csd_acceptable, init_card_step, EmmcInitEvent, EmmcInitStep};
use rknpu_drivers::emmc::sdhci::clock_base_fits;
use rknpu_drivers::emmc::sdhci::host_init_config;
use rknpu_drivers::emmc::init::EXT_CSD_LEN;
use rknpu_drivers::emmc::config::EMmcChipConfig;
use rknpu_drivers::emmc::aux::{
    MMC_VERSION_1_2, MMC_VERSION_3, MMC_VERSION_4_1, MMC_VERSION_4_41, MMC_VERSION_5_1,
};
use rknpu_drivers::emmc::card::{CardType, EMmcCard};
use rknpu_drivers::emmc::err::SdError;
use rknpu_drivers::emmc::host::EMmcHost;
use rknpu_drivers::emmc::partition::{
    decode_csd_geometry, decode_ext_csd_sizes, mmc_version_of_ext_csd_rev, ExtCsdSizeFields,
};
use rknpu_drivers::emmc::pio::{
    buffer_store_received, buffer_words_to_send, pio_store_received, pio_words_to_send,
    port_words_for,
};

#[test]
fn port_access_count_rounds_up_to_words() {
    assert_eq!(port_words_for(0), 0);
    assert_eq!(port_words_for(1), 1);
    assert_eq!(port_words_for(8), 2);
    assert_eq!(port_words_for(9), 3);
}

#[test]
fn block_path_sends_only_whole_words() {
    let words = pio_words_to_send(&[1, 2, 3, 4, 5, 6]);
    assert_eq!(words, vec![0x0403_0201]);
    assert!(pio_words_to_send(&[7, 8, 9]).is_empty());
}

#[test]
fn block_path_keeps_a_trailing_partial_word() {
    let mut buffer = [0xeeu8; 6];
    pio_store_received(&mut buffer, &[0x4433_2211, 0x8877_6655]);
    assert_eq!(buffer, [0x11, 0x22, 0x33, 0x44, 0xee, 0xee]);
}

#[test]
fn buffer_path_pads_the_last_word_with_zeros() {
    let words = buffer_words_to_send(&[1, 2, 3, 4, 5, 6]);
    assert_eq!(words, vec![0x0403_0201, 0x0000_0605]);
    assert!(buffer_words_to_send(&[]).is_empty());
}

#[test]
fn buffer_path_fills_every_byte() {
    let mut buffer = [0xeeu8; 6];
    buffer_store_received(&mut buffer, &[0x4433_2211, 0x8877_6655]);
    assert_eq!(buffer, [0x11, 0x22, 0x33, 0x44, 0x55, 0x66]);
}

#[test]
fn buffer_path_round_trips_bytes() {
    let data = [9u8, 8, 7, 6, 5, 4, 3];
    let words = buffer_words_to_send(&data);
    let mut back = [0u8; 7];
    buffer_store_received(&mut back, &words);
    assert_eq!(back, data);
}

#[test]
fn ext_csd_revision_gives_mmc_version() {
    assert_eq!(mmc_version_of_ext_csd_rev(1), MMC_VERSION_4_1);
    assert_eq!(mmc_version_of_ext_csd_rev(5), MMC_VERSION_4_41);
    assert_eq!(mmc_version_of_ext_csd_rev(8), MMC_VERSION_5_1);
}

#[test]
fn unknown_version_is_taken_from_the_csd() {
    let mut card = EMmcCard::init(CardType::Mmc);
    card.csd = [3 << 26, 0, 0, 0];
    card.adopt_csd_version();
    assert_eq!(card.version, MMC_VERSION_3);

    let mut odd = EMmcCard::init(CardType::Mmc);
    odd.csd = [9 << 26, 0, 0, 0];
    odd.adopt_csd_version();
    assert_eq!(odd.version, MMC_VERSION_1_2);

    let mut known = EMmcCard::init(CardType::Mmc);
    known.version = MMC_VERSION_5_1;
    known.csd = [3 << 26, 0, 0, 0];
    known.adopt_csd_version();
    assert_eq!(known.version, MMC_VERSION_5_1);
}

#[test]
fn csd_geometry_of_a_high_capacity_card() {
    let csd = [0, (9 << 16) | (1 << 12) | 0x3, 0x1234_0000 | (0x1f << 10) | (0x1f << 5), 9 << 22];
    let g = decode_csd_geometry(&csd, true);
    assert_eq!(g.dsr_imp, 1);
    assert_eq!(g.read_bl_len, 9);
    assert_eq!(g.write_bl_len, 9);
    assert_eq!(g.csize, 0x3_1234);
    assert_eq!(g.cmult, 8);
    assert_eq!(g.capacity_user, 0x3_1235u64 * 1024 * 9);
    assert_eq!(g.erase_grp_size, 1024);
}

#[test]
fn csd_geometry_of_a_standard_capacity_card() {
    let csd = [0, (10 << 16) | 0x3ff, 0xc000_0000 | (0x7 << 15) | (1 << 10) | (2 << 5), 0];
    let g = decode_csd_geometry(&csd, false);
    assert_eq!(g.dsr_imp, 0);
    assert_eq!(g.csize, 0xfff);
    assert_eq!(g.cmult, 7);
    assert_eq!(g.capacity_user, 0x1000u64 * 512 * 10);
    assert_eq!(g.erase_grp_size, 2 * 3);
}

#[test]
fn ext_csd_sizes_scale_by_group_sizes() {
    let mut gp = [0u8; 12];
    gp[3] = 2;
    gp[5] = 1;
    let f = ExtCsdSizeFields {
        sec_cnt: [0x00, 0x00, 0xe9, 0x00],
        boot_mult: 0x20,
        rpmb_mult: 0x4,
        gp_size_mult: gp,
        enh_size_mult: [3, 0, 0],
        enh_start_addr: [0x10, 0, 0, 0],
        hc_erase_grp_size: 1,
        hc_wp_grp_size: 0x10,
    };
    let s = decode_ext_csd_sizes(&f, true);
    assert_eq!(s.sectors, 0xe9_0000);
    assert_eq!(s.capacity_boot, 0x20 << 17);
    assert_eq!(s.capacity_rpmb, 0x4 << 17);
    assert!(s.gp_defined);
    assert_eq!(s.capacity_gp, [0, (0x1_0002u64 * 0x10) << 19, 0, 0]);
    assert_eq!(s.enh_user_size, (3u64 * 0x10) << 19);
    assert_eq!(s.enh_user_start, 0x10 << 9);
    assert_eq!(s.hc_wp_grp_size, 1024 * 0x10);
    assert_eq!(s.hc_erase_grp_size, 1024);

    let byte_addressed = decode_ext_csd_sizes(&ExtCsdSizeFields { gp_size_mult: [0; 12], ..f }, false);
    assert!(!byte_addressed.gp_defined);
    assert_eq!(byte_addressed.enh_user_start, 0x10);
    assert_eq!(byte_addressed.capacity_gp, [0, 0, 0, 0]);
}

fn host_with_partitions() -> EMmcHost {
    let mut card = EMmcCard::init(CardType::MmcHc);
    card.capacity_user = 100;
    card.capacity_boot = 200;
    card.capacity_rpmb = 300;
    card.capacity_gp = [1, 2, 3, 4];
    card.read_bl_len = 9;
    let mut host = EMmcHost::new(0, 0);
    host.add_card(card);
    host
}

#[test]
fn set_capacity_selects_the_partition() {
    let mut host = host_with_partitions();
    assert_eq!(host.mmc_set_capacity(0), Ok(()));
    assert_eq!(host.capacity(), Some(100));
    assert_eq!(host.mmc_set_capacity(2), Ok(()));
    assert_eq!(host.capacity(), Some(200));
    assert_eq!(host.mmc_set_capacity(3), Ok(()));
    assert_eq!(host.capacity(), Some(300));
    assert_eq!(host.mmc_set_capacity(6), Ok(()));
    assert_eq!(host.capacity(), Some(3));
}

#[test]
fn set_capacity_rejects_unknown_partitions_and_missing_cards() {
    let mut host = host_with_partitions();
    assert_eq!(host.mmc_set_capacity(8), Err(SdError::InvalidArgument));
    assert_eq!(host.capacity(), Some(0));
    let mut bare = EMmcHost::new(0, 0);
    assert_eq!(bare.mmc_set_capacity(0), Err(SdError::InvalidArgument));
}

#[test]
fn host_setup_from_capabilities() {
    // version 3.00, 200 MHz base clock, 8-bit bus, 3.3 V and 1.8 V
    let caps1 = (200 << 8) | 0x0004_0000 | 0x0100_0000 | 0x0400_0000;
    let cfg = host_init_config(0x0002, caps1, 0, 0).unwrap();
    assert_eq!(cfg.clock_base, 200_000_000);
    assert_eq!(cfg.host_caps, 0x1 | 0x2 | 0x4 | 0x48);
    assert_eq!(cfg.voltages, 0x0030_0000);
    assert_eq!(cfg.power_level, 21);
    // a known clock stays; a clock multiplier applies only to a computed one
    assert_eq!(host_init_config(0x0002, 0x0200_0000, 0x0002_0000, 50).unwrap().clock_base, 50);
    let mul = host_init_config(0x0002, (10 << 8) | 0x0200_0000, 0x0002_0000, 0).unwrap();
    assert_eq!(mul.clock_base, 20_000_000);
    assert_eq!(mul.power_level, 18);
    // before 3.00 the base field is six bits wide
    let old = host_init_config(0x0001, (0xff << 8) | 0x0400_0000, 0, 0).unwrap();
    assert_eq!(old.clock_base, 63_000_000);
    assert_eq!(old.power_level, 7);
    assert_eq!(host_init_config(0x0002, 0x0100_0000, 0, 0), Err(SdError::UnsupportedCard));
    assert_eq!(host_init_config(0x0002, 200 << 8, 0, 0), Err(SdError::UnsupportedCard));
}

#[test]
fn card_takes_ocr_csd_and_ext_csd() {
    let mut card = EMmcCard::init(CardType::Mmc);
    card.apply_ocr(0xc0ff_8080);
    assert_eq!(card.rca, 1);
    assert!(card.high_capacity);

    card.csd = [4 << 26, 0, 0, 0];
    card.dsr = 0x1234;
    let csd = [4 << 26, (9 << 16) | (1 << 12), 0, 9 << 22];
    assert_eq!(card.apply_csd(&csd), Some(0x1234 << 16));
    assert_eq!(card.version, rknpu_drivers::emmc::aux::MMC_VERSION_4);
    assert_eq!(card.read_bl_len, 9);
    assert!(card.uses_ext_csd());

    card.apply_selected();
    assert_eq!(card.erase_grp_size, 1);
    assert_eq!(card.part_config, 0xff);

    let mut e = vec![0u8; EXT_CSD_LEN];
    e[192] = 8; // revision
    e[212..216].copy_from_slice(&0x0100_0000u32.to_le_bytes()); // sectors
    e[155] = 1; // partitioning completed
    e[160] = 3; // partition and enhanced support
    e[156] = 0x1; // attributes
    e[179] = 0x48; // partition configuration
    e[226] = 2; // boot multiplier
    e[168] = 1; // rpmb multiplier
    e[143] = 1; // gp0 multiplier
    e[224] = 2; // erase groups
    e[221] = 4; // write-protect groups
    e[167] = 0x1f;
    e[197] = 0x5;
    assert!(card.apply_ext_csd(&e));
    assert_eq!(card.version, MMC_VERSION_5_1);
    assert_eq!(card.capacity_user, 0x0100_0000u64 * 512);
    assert_eq!(card.part_config, 0x48);
    assert_eq!(card.part_attr, 0x1);
    assert_eq!(card.capacity_boot, 2 << 17);
    assert_eq!(card.capacity_rpmb, 1 << 17);
    assert_eq!(card.capacity_gp, [(2u64 * 4) << 19, 0, 0, 0]);

    card.apply_erase_groups(&e, true, 0);
    assert_eq!(card.erase_grp_size, 2 * 1024);
    assert_eq!(card.hc_wp_grp_size, 1024 * 2 * 4);
    assert_eq!(card.wr_rel_set, 0x1f);
    assert_eq!(card.raw_driver_strength, 0x5);

    let mut plain = EMmcCard::init(CardType::Mmc);
    plain.apply_erase_groups(&e, false, (1 << 10) | (2 << 5));
    assert_eq!(plain.erase_grp_size, 2 * 3);
}

#[test]
fn rk3568_settings() {
    let c = EMmcChipConfig::rk3568_config();
    assert_eq!(c.flags, 1 << 29);
    assert_eq!(c.hs200_tx_tap, 16);
    assert_eq!(c.hs400_strbin_tap, 3);
}

#[test]
fn host_setters_without_card_say_so() {
    let mut bare = EMmcHost::new(0, 0);
    assert_eq!(bare.set_cid([1, 2, 3, 4]), Err("No card present"));
    assert_eq!(bare.set_initialized(true), Err("No card present"));
}


#[test]
fn card_bring_up_walks_every_step() {
    let mut card = EMmcCard::init(CardType::Unknown);
    let s = init_card_step(&mut card, EmmcInitStep::GoIdle, EmmcInitEvent::Done);
    assert_eq!(s, Ok(EmmcInitStep::SendOpCond));
    let s = init_card_step(&mut card, EmmcInitStep::SendOpCond, EmmcInitEvent::Ocr(0xc0ff_8080));
    assert_eq!(s, Ok(EmmcInitStep::AllSendCid));
    assert_eq!(card.rca, 1);
    assert!(card.high_capacity);
    let s = init_card_step(&mut card, EmmcInitStep::AllSendCid, EmmcInitEvent::Cid([1, 2, 3, 4]));
    assert_eq!(s, Ok(EmmcInitStep::SetRelativeAddr));
    assert_eq!(card.cid, [1, 2, 3, 4]);
    let s = init_card_step(&mut card, EmmcInitStep::SetRelativeAddr, EmmcInitEvent::Done);
    assert_eq!(s, Ok(EmmcInitStep::SendCsd));
    let csd = [4 << 26, 9 << 16, 0x0000_0c60, 9 << 22];
    let s = init_card_step(&mut card, EmmcInitStep::SendCsd, EmmcInitEvent::Csd(csd));
    assert_eq!(s, Ok(EmmcInitStep::SelectCard(1 << 16)));
    assert_eq!(card.csd, csd);
    assert_eq!(card.version, rknpu_drivers::emmc::aux::MMC_VERSION_4);
    assert_eq!(card.read_bl_len, 9);
    let s = init_card_step(&mut card, EmmcInitStep::SelectCard(1 << 16), EmmcInitEvent::Done);
    assert_eq!(s, Ok(EmmcInitStep::SelectHighSpeed));
    assert_eq!(card.part_config, 0xff);
    let s = init_card_step(&mut card, EmmcInitStep::SelectHighSpeed, EmmcInitEvent::Done);
    assert_eq!(s, Ok(EmmcInitStep::SendExtCsd));
    let mut e = vec![0u8; EXT_CSD_LEN];
    e[192] = 8;
    e[224] = 2;
    e[221] = 4;
    e[167] = 0x1f;
    e[197] = 0x5;
    assert!(ext_csd_acceptable(&e));
    let s = init_card_step(&mut card, EmmcInitStep::SendExtCsd, EmmcInitEvent::ExtCsd(e));
    assert_eq!(s, Ok(EmmcInitStep::Finish));
    assert_eq!(card.version, MMC_VERSION_5_1);
    // No erase group definition: the CSD's groups, (3 + 1) * (3 + 1).
    assert_eq!(card.erase_grp_size, 16);
    assert_eq!(card.hc_wp_grp_size, 1024 * 2 * 4);
    assert_eq!(card.wr_rel_set, 0x1f);
    assert_eq!(card.raw_driver_strength, 0x5);
    assert!(!card.initialized);
    let s = init_card_step(&mut card, EmmcInitStep::Finish, EmmcInitEvent::Done);
    assert_eq!(s, Ok(EmmcInitStep::Complete));
    assert!(card.initialized);
}

#[test]
fn card_bring_up_switches_erase_groups_for_partitions() {
    let mut card = EMmcCard::init(CardType::Mmc);
    card.high_capacity = true;
    card.version = rknpu_drivers::emmc::aux::MMC_VERSION_4;
    let mut e = vec![0u8; EXT_CSD_LEN];
    e[192] = 8;
    e[155] = 1;
    e[224] = 2;
    e[221] = 4;
    e[212..216].copy_from_slice(&0x0100_0000u32.to_le_bytes());
    let s = init_card_step(&mut card, EmmcInitStep::SendExtCsd, EmmcInitEvent::ExtCsd(e.clone()));
    assert_eq!(s, Ok(EmmcInitStep::SwitchEraseGroupDef(e.clone())));
    let mut failed = card;
    let s = init_card_step(
        &mut failed,
        EmmcInitStep::SwitchEraseGroupDef(e.clone()),
        EmmcInitEvent::Failed(SdError::Timeout),
    );
    assert_eq!(s, Err(SdError::CommandError));
    let s = init_card_step(&mut card, EmmcInitStep::SwitchEraseGroupDef(e), EmmcInitEvent::Done);
    assert_eq!(s, Ok(EmmcInitStep::Finish));
    assert_eq!(card.erase_grp_size, 2 * 1024);
    assert_eq!(card.capacity_user, 0x0100_0000u64 * 512);
}

#[test]
fn card_bring_up_refuses_failures_and_stray_outcomes() {
    let mut card = EMmcCard::init(CardType::Mmc);
    let s = init_card_step(&mut card, EmmcInitStep::SendCsd, EmmcInitEvent::Failed(SdError::Timeout));
    assert_eq!(s, Err(SdError::Timeout));
    let s = init_card_step(&mut card, EmmcInitStep::GoIdle, EmmcInitEvent::Ocr(1));
    assert_eq!(s, Err(SdError::InvalidArgument));
    let s = init_card_step(&mut card, EmmcInitStep::Complete, EmmcInitEvent::Done);
    assert_eq!(s, Err(SdError::InvalidArgument));
    assert_eq!(card.rca, 0);
    let mut e = vec![0u8; EXT_CSD_LEN];
    e[192] = 4;
    assert!(!ext_csd_acceptable(&e));
    assert!(!ext_csd_acceptable(&e[..100]));
}

#[test]
fn base_clock_overflow_is_detected() {
    // Specification 3.00, 255 MHz times 255 does not fit in 32 bits.
    assert!(!clock_base_fits(2, 0xff00, 0x00ff_0000, 0));
    assert!(clock_base_fits(2, 0xff00, 0x0001_0000, 0));
    assert!(clock_base_fits(2, 0xff00, 0x00ff_0000, 50_000_000));
    assert!(clock_base_fits(1, 0x3f00, 0x00ff_0000, 0));
}

#[test]
fn shared_speed_modes_of_card_and_host() {
    let mut host = EMmcHost::new(0, 0);
    host.host_caps = 0x1 | 0x2 | 0x4 | 0x48;
    let mut e = vec![0u8; EXT_CSD_LEN];
    e[196] = 0x57; // 26, 52, DDR 1.8 V, HS200 1.8 V, HS400 1.8 V
    e[184] = 1;
    // HS, HS200 and 8 bit: 26 + 52 + HS200; no DDR, HS400 or strobe modes.
    assert_eq!(host.mmc_select_card_type(&e), 0x13);
    host.host_caps |= (1 << 5) | (1 << 7) | (1 << 8);
    assert_eq!(host.mmc_select_card_type(&e), 0x157);
    host.host_caps = 0;
    assert_eq!(host.mmc_select_card_type(&e), 0);
    assert_eq!(speed_mode(0x13), Ok(SpeedMode::Hs200));
    assert_eq!(speed_mode(0x02), Ok(SpeedMode::HighSpeed));
    assert_eq!(speed_mode(0x04), Err(SdError::InvalidArgument));
}

#[test]
fn bus_speed_and_width_decisions() {
    assert_eq!(bus_speed_clock(1, 0x2), 52_000_000);
    assert_eq!(bus_speed_clock(2, 0x1), 26_000_000);
    assert_eq!(bus_speed_clock(9, 0), 200_000_000);
    assert_eq!(bus_speed_clock(0, 0x2), 0);
    assert!(timing_is_ddr(8));
    assert!(!timing_is_ddr(9));
    assert_eq!(bus_width_candidates(0x8), vec![(2, 8), (1, 4)]);
    assert_eq!(bus_width_candidates(0x4), vec![(1, 4)]);
    assert_eq!(bus_width_outcome(4), Ok(()));
    assert_eq!(bus_width_outcome(0), Err(SdError::BusWidth));
    let mut a = vec![0u8; EXT_CSD_LEN];
    a[212] = 9;
    a[192] = 8;
    let mut b = a.clone();
    assert!(bus_test_matches(&a, &b));
    b[0] = 1;
    assert!(bus_test_matches(&a, &b));
    b[215] = 1;
    assert!(!bus_test_matches(&a, &b));
    let mut c = a.clone();
    c[192] = 7;
    assert!(!bus_test_matches(&a, &c));
}

#[test]
fn hs200_tuning_decisions() {
    assert_eq!(hs200_tuning_allowed(9), Ok(()));
    assert_eq!(hs200_tuning_allowed(10), Err(SdError::InvalidArgument));
    assert_eq!(tuning_block_size(21, 8), 128);
    assert_eq!(tuning_block_size(21, 4), 64);
    assert_eq!(tuning_block_size(19, 8), 64);
    assert_eq!(tuning_block_size_reg(128), 0x7080);
    assert_eq!(tuning_poll(0x0040), None);
    assert_eq!(tuning_poll(0x0080), Some(Ok(())));
    assert_eq!(tuning_poll(0x0000), Some(Err(SdError::Timeout)));
}

#[test]
fn reset_polls_until_clear_or_timeout() {
    assert_eq!(reset_poll(0x00, 0x01, 20), ResetPoll::Done);
    assert_eq!(reset_poll(0x06, 0x01, 0), ResetPoll::Done);
    assert_eq!(reset_poll(0x01, 0x01, 20), ResetPoll::Wait(19));
    assert_eq!(reset_poll(0x01, 0x01, 0), ResetPoll::TimedOut);
}

#[test]
fn status_request_needs_an_initialized_card() {
    let mut host = EMmcHost::new(0, 0);
    assert_eq!(host.status_request(), Err(SdError::NoCard));
    let mut card = EMmcCard::init(CardType::Mmc);
    card.rca = 7;
    host.add_card(card);
    assert_eq!(host.status_request(), Err(SdError::UnsupportedCard));
    let _ = host.set_initialized(true);
    assert_eq!(host.status_request(), Ok(7));
}

#[test]
fn block_transfers_pick_command_and_address() {
    let mut host = EMmcHost::new(0, 0);
    assert_eq!(host.plan_pio_transfer(3, 1, true, false), Err(SdError::NoCard));
    host.add_card(EMmcCard::init(CardType::Mmc));
    assert_eq!(
        host.plan_pio_transfer(3, 1, true, false),
        Ok(BlockCommand { opcode: 17, arg: 3 * 512, blocks: 1, read: true, stop_after: false })
    );
    assert_eq!(
        host.plan_pio_transfer(3, 4, false, false),
        Ok(BlockCommand { opcode: 25, arg: 3 * 512, blocks: 4, read: false, stop_after: true })
    );
    assert_eq!(host.plan_pio_transfer(3, 4, false, true), Err(SdError::IoError));
    assert_eq!(host.plan_dma_read(3, 2, 1000), Err(SdError::IoError));
    assert_eq!(
        host.plan_dma_read(3, 2, 1024),
        Ok(BlockCommand { opcode: 18, arg: 3 * 512, blocks: 2, read: true, stop_after: true })
    );
    assert_eq!(host.plan_dma_write(3, 1, 512, false), Err(SdError::UnsupportedCard));
    let _ = host.set_initialized(true);
    assert_eq!(host.plan_dma_write(3, 1, 512, true), Err(SdError::IoError));
    assert_eq!(
        host.plan_dma_write(3, 1, 512, false),
        Ok(BlockCommand { opcode: 24, arg: 3 * 512, blocks: 1, read: false, stop_after: false })
    );
    assert!(host.block_addr_fits(0x7f_ffff));
    assert!(!host.block_addr_fits(0x80_0000));
    let _ = host.set_state(1 << 3);
    assert!(host.block_addr_fits(0x80_0000));
    assert_eq!(host.plan_pio_transfer(0x80_0000, 1, true, false).map(|c| c.arg), Ok(0x80_0000));
}

#[test]
fn dma_status_polls() {
    assert_eq!(dma_poll(0x8002, 5), DmaPoll::Error);
    assert_eq!(dma_poll(0x0002, 5), DmaPoll::Done);
    assert_eq!(dma_poll(0x0000, 5), DmaPoll::Wait(4));
    assert_eq!(dma_poll(0x0000, 0), DmaPoll::TimedOut);
    assert_eq!(data_error_of(0x70), SdError::DataTimeout);
    assert_eq!(data_error_of(0x60), SdError::DataCrc);
    assert_eq!(data_error_of(0x40), SdError::DataEndBit);
    assert_eq!(data_error_of(0x01), SdError::DataError);
}

fn freq_card() -> EMmcCard {
    let mut c = EMmcCard::init(CardType::Mmc);
    c.version = rknpu_drivers::emmc::aux::MMC_VERSION_4;
    c
}

#[test]
fn frequency_change_high_speed_path() {
    let caps = 0x0f;
    let mut card = freq_card();
    let mut e = vec![0u8; EXT_CSD_LEN];
    e[196] = 0x03;
    let s = freq_step(&mut card, caps, FreqStep::Start, FreqEvent::Done);
    assert_eq!(s, Ok(FreqStep::ReadExtCsd));
    assert_eq!(card.card_caps, 0x0c);
    let s = freq_step(&mut card, caps, FreqStep::ReadExtCsd, FreqEvent::ExtCsd(e.clone()));
    assert_eq!(s, Ok(FreqStep::SwitchHs(0x03)));
    let s = freq_step(&mut card, caps, FreqStep::SwitchHs(0x03), FreqEvent::Done);
    assert_eq!(s, Ok(FreqStep::WidthRead(WidthFor::Final, 0x03)));
    assert_eq!(card.timing, 1);
    assert_eq!(card.clock, 52_000_000);
    let s = freq_step(&mut card, caps, FreqStep::WidthRead(WidthFor::Final, 0x03), FreqEvent::ExtCsd(e.clone()));
    assert_eq!(s, Ok(FreqStep::WidthSwitch(WidthFor::Final, 0x03, e.clone(), 0)));
    let s = freq_step(
        &mut card,
        caps,
        FreqStep::WidthSwitch(WidthFor::Final, 0x03, e.clone(), 0),
        FreqEvent::Failed(SdError::Timeout),
    );
    assert_eq!(s, Ok(FreqStep::WidthSwitch(WidthFor::Final, 0x03, e.clone(), 1)));
    let s = freq_step(&mut card, caps, FreqStep::WidthSwitch(WidthFor::Final, 0x03, e.clone(), 1), FreqEvent::Done);
    assert_eq!(s, Ok(FreqStep::WidthVerify(WidthFor::Final, 0x03, e.clone(), 1)));
    assert_eq!(card.bus_width, 4);
    let mut changed = e.clone();
    changed[192] = 9;
    let mut other = card;
    let s = freq_step(
        &mut other,
        caps,
        FreqStep::WidthVerify(WidthFor::Final, 0x03, e.clone(), 1),
        FreqEvent::ExtCsd(changed),
    );
    assert_eq!(s, Err(SdError::BadMessage));
    let s = freq_step(&mut card, caps, FreqStep::WidthVerify(WidthFor::Final, 0x03, e.clone(), 1), FreqEvent::ExtCsd(e));
    assert_eq!(s, Ok(FreqStep::Complete));
}

#[test]
fn frequency_change_hs200_path_with_tuning() {
    let caps = 0x4f;
    let mut card = freq_card();
    let mut e = vec![0u8; EXT_CSD_LEN];
    e[196] = 0x13;
    let s = freq_step(&mut card, caps, FreqStep::ReadExtCsd, FreqEvent::ExtCsd(e.clone()));
    assert_eq!(s, Ok(FreqStep::WidthRead(WidthFor::Hs200, 0x13)));
    let s = freq_step(&mut card, caps, FreqStep::WidthSwitch(WidthFor::Hs200, 0x13, e.clone(), 0), FreqEvent::Done);
    assert_eq!(s, Ok(FreqStep::WidthVerify(WidthFor::Hs200, 0x13, e.clone(), 0)));
    assert_eq!(card.bus_width, 8);
    let s = freq_step(&mut card, caps, FreqStep::WidthVerify(WidthFor::Hs200, 0x13, e.clone(), 0), FreqEvent::ExtCsd(e));
    assert_eq!(s, Ok(FreqStep::SwitchHs200(0x13)));
    let s = freq_step(&mut card, caps, FreqStep::SwitchHs200(0x13), FreqEvent::Done);
    assert_eq!(s, Ok(FreqStep::TuneStart(0x13)));
    assert_eq!(card.timing, 9);
    assert_eq!(card.clock, 200_000_000);
    let s = freq_step(&mut card, caps, FreqStep::TuneStart(0x13), FreqEvent::Done);
    assert_eq!(s, Ok(FreqStep::Tune(0x13, 40)));
    let s = freq_step(&mut card, caps, FreqStep::Tune(0x13, 40), FreqEvent::Ctrl2(0x40));
    assert_eq!(s, Ok(FreqStep::Tune(0x13, 39)));
    let s = freq_step(&mut card, caps, FreqStep::Tune(0x13, 1), FreqEvent::Ctrl2(0x40));
    assert_eq!(s, Err(SdError::Timeout));
    let s = freq_step(&mut card, caps, FreqStep::Tune(0x13, 39), FreqEvent::Ctrl2(0x80));
    assert_eq!(s, Ok(FreqStep::Complete));
    let s = freq_step(&mut card, caps, FreqStep::Tune(0x13, 39), FreqEvent::Failed(SdError::DataCrc));
    assert_eq!(s, Err(SdError::DataCrc));
}

#[test]
fn frequency_change_edges() {
    let mut old = EMmcCard::init(CardType::Mmc);
    old.card_caps = 5;
    let s = freq_step(&mut old, 0x0f, FreqStep::Start, FreqEvent::Done);
    assert_eq!(s, Ok(FreqStep::Complete));
    assert_eq!(old.card_caps, 0);
    let mut card = freq_card();
    let mut e = vec![0u8; EXT_CSD_LEN];
    e[196] = 0x04;
    let s = freq_step(&mut card, 0x2f, FreqStep::ReadExtCsd, FreqEvent::ExtCsd(e.clone()));
    assert_eq!(s, Err(SdError::InvalidArgument));
    e[196] = 0x07;
    let s = freq_step(&mut card, 0x2f, FreqStep::WidthVerify(WidthFor::Final, 0x07, e.clone(), 0), FreqEvent::ExtCsd(e));
    assert_eq!(s, Ok(FreqStep::HsDdrPending));
    let s = freq_step(&mut card, 0x2f, FreqStep::Complete, FreqEvent::Done);
    assert_eq!(s, Err(SdError::InvalidArgument));
}
