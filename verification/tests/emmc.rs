use rknpu_drivers::emmc::aux::{
    dll_lock_wo_tmout, generic_fls, lldiv, make_mmc_version, MMC_VERSION_4_41, MMC_VERSION_5_1,
    MMC_VERSION_UNKNOWN,
};
use rknpu_drivers::emmc::card::{CardType, EMmcCard, MMC_TIMING_LEGACY};
use rknpu_drivers::emmc::err::SdError;
use rknpu_drivers::emmc::host::EMmcHost;

fn initialized_card() -> EMmcCard {
    let mut card = EMmcCard::init(CardType::MmcHc);
    card.set_initialized(true);
    card
}

#[test]
fn fls_finds_highest_set_bit() {
    assert_eq!(generic_fls(0), 0);
    assert_eq!(generic_fls(1), 1);
    assert_eq!(generic_fls(0x10), 5);
    assert_eq!(generic_fls(0x8000_0000), 32);
    assert_eq!(generic_fls(0x0001_ffff), 17);
}

#[test]
fn lldiv_divides_rounding_down() {
    assert_eq!(lldiv(100, 7), 14);
    assert_eq!(lldiv(u64::MAX, 1), u64::MAX);
    assert_eq!(lldiv(0x1_0000_0000, 0x1_0000), 0x1_0000);
}

#[test]
fn dll_lock_needs_locked_and_no_timeout() {
    assert!(dll_lock_wo_tmout(0x100));
    assert!(!dll_lock_wo_tmout(0x300));
    assert!(!dll_lock_wo_tmout(0x0));
}

#[test]
fn mmc_versions_encode_major_minor_change() {
    assert_eq!(make_mmc_version(4, 4, 1), MMC_VERSION_4_41);
    assert_eq!(make_mmc_version(5, 1, 0), MMC_VERSION_5_1);
    assert_eq!(make_mmc_version(0, 0, 0), MMC_VERSION_UNKNOWN);
}

#[test]
fn new_card_has_unknown_version_and_default_dsr() {
    let card = EMmcCard::init(CardType::Mmc);
    assert_eq!(card.version(), MMC_VERSION_UNKNOWN);
    assert_eq!(card.dsr(), 0xffff_ffff);
    assert_eq!(card.timing(), MMC_TIMING_LEGACY);
    assert!(!card.initialized());
    assert_eq!(card.cid(), [0; 4]);
    assert_eq!(card.card_type(), CardType::Mmc);
}

#[test]
fn host_decodes_clock_base_from_capabilities() {
    let host = EMmcHost::new(0xfe31_0000, 0x0000_c800);
    assert_eq!(host.clock_base, 200_000_000);
    assert!(host.card().is_none());
}

#[test]
fn host_card_queries_need_an_initialized_card() {
    let mut host = EMmcHost::new(0, 0);
    assert_eq!(host.get_capacity(), Err(SdError::NoCard));
    assert_eq!(host.get_block_num(), 0);
    assert_eq!(host.get_block_size(), 0);
    assert!(host.rca().is_none());
    assert!(host.set_rca(3).is_err());
    host.add_card(EMmcCard::init(CardType::Mmc));
    assert_eq!(host.get_capacity(), Err(SdError::UnsupportedCard));
    assert!(host.get_card_info().is_err());
    assert_eq!(host.set_rca(3), Ok(()));
    assert_eq!(host.rca(), Some(3));
}

#[test]
fn card_info_decodes_cid() {
    let mut host = EMmcHost::new(0, 0);
    let mut card = initialized_card();
    card.set_cid([0x1501_0042, 0x3456_7819, 0x5a00_0000, 0]);
    card.set_capacity_blocks(1000);
    host.add_card(card);
    let info = host.get_card_info().unwrap();
    assert_eq!(info.manufacturer_id, 0x15);
    assert_eq!(info.application_id, 0x0100);
    assert_eq!(info.serial_number, 0x4234_5678);
    assert_eq!(info.manufacturing_year, 2000 + 0x95);
    assert_eq!(info.manufacturing_month, 0xa);
    assert_eq!(info.capacity_bytes, 512_000);
    assert_eq!(info.block_size, 512);
    assert_eq!(host.get_capacity(), Ok(512_000));
}

#[test]
fn block_geometry_comes_from_the_card() {
    let mut host = EMmcHost::new(0, 0);
    let mut card = initialized_card();
    card.set_capacity_user(1 << 20);
    card.set_read_bl_len(9);
    host.set_card(Some(card));
    assert_eq!(host.get_block_num(), 2048);
    assert_eq!(host.get_block_size(), 512);
    assert_eq!(host.set_enh_user_size(77), Ok(()));
    assert_eq!(host.enh_user_size(), Some(77));
    host.set_card(None);
    assert_eq!(host.set_enh_user_size(77), Err("No card present"));
}

#[test]
fn card_can_be_updated_in_place() {
    let mut host = EMmcHost::new(0, 0);
    assert!(host.card_mut().is_none());
    host.add_card(EMmcCard::init(CardType::SdHc));
    host.card_mut().unwrap().rca = 5;
    assert_eq!(host.rca(), Some(5));
    assert_eq!(host.card_type(), Some(CardType::SdHc));
}
