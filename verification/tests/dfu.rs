use zephyr::dfu::{
    running_version_slot, slot1_writer_slot, slot_index,
    confirm, confirm_state, request_upgrade, running_version, slot1_open_result, swap_type,
    ImageSlot, ImageVersion, SlotHeader, Slot1Writer, UpgradeAction, UpgradeMode, UpgradePhase,
};

#[test]
fn confirm_state_values() {
    assert_eq!(confirm_state(None), -1);
    assert_eq!(confirm_state(Some(true)), 1);
    assert_eq!(confirm_state(Some(false)), 0);
}

#[test]
fn swap_type_values() {
    assert_eq!(swap_type(None), -1);
    assert_eq!(swap_type(Some(1)), 1);
    assert_eq!(swap_type(Some(5)), 5);
}

#[test]
fn confirm_values() {
    assert_eq!(confirm(None), 1);
    assert_eq!(confirm(Some(0)), 0);
    assert_eq!(confirm(Some(-5)), -5);
}

#[test]
fn upgrade_without_image_manager_reports_minus_one() {
    let mut r = request_upgrade(true, false);
    assert_eq!(r.action(), UpgradeAction::Report(-1));
    r.advance(0);
    assert_eq!(r.action(), UpgradeAction::Report(-1));
}

#[test]
fn upgrade_requests_the_chosen_mode() {
    assert_eq!(request_upgrade(true, true).action(), UpgradeAction::Request(UpgradeMode::Permanent));
    assert_eq!(request_upgrade(false, true).action(), UpgradeAction::Request(UpgradeMode::Test));
}

#[test]
fn upgrade_refused_request_reports_minus_two_without_query() {
    let mut r = request_upgrade(false, true);
    r.advance(-22);
    assert_eq!(r.action(), UpgradeAction::Report(-2));
    assert_eq!(r.phase, UpgradePhase::Finished(-2));
}

#[test]
fn upgrade_pending_test_or_perm_reports_zero() {
    for swap in [2, 3] {
        let mut r = request_upgrade(false, true);
        r.advance(0);
        assert_eq!(r.action(), UpgradeAction::QuerySwapType);
        r.advance(swap);
        assert_eq!(r.action(), UpgradeAction::Report(0));
    }
}

#[test]
fn upgrade_not_pending_reports_minus_three() {
    for swap in [1, 4, 5, -1] {
        let mut r = request_upgrade(true, true);
        r.advance(0);
        r.advance(swap);
        assert_eq!(r.action(), UpgradeAction::Report(-3));
    }
}

#[test]
fn upgrade_finished_ignores_further_outcomes() {
    let mut r = request_upgrade(true, true);
    r.advance(0);
    r.advance(3);
    r.advance(-7);
    assert_eq!(r.action(), UpgradeAction::Report(0));
}

fn header(rc: i32, major: u8, minor: u8, revision: u16, build_num: u32) -> SlotHeader {
    SlotHeader { rc, version: ImageVersion { major, minor, revision, build_num } }
}

#[test]
fn running_version_without_mcuboot_writes_na() {
    let mut out = [0xAAu8; 8];
    assert_eq!(running_version(&mut out, None), -1);
    assert_eq!(&out[..4], b"n/a\0");
    assert_eq!(&out[4..], &[0xAA; 4]);
}

#[test]
fn running_version_without_mcuboot_short_buffer() {
    let mut out = [0xAAu8; 2];
    assert_eq!(running_version(&mut out, None), -1);
    assert_eq!(&out, b"n/");
    let mut empty: [u8; 0] = [];
    assert_eq!(running_version(&mut empty, None), -1);
}

#[test]
fn running_version_header_error_leaves_empty_string() {
    let mut out = [0xAAu8; 4];
    assert_eq!(running_version(&mut out, Some(header(-5, 1, 2, 3, 4))), -5);
    assert_eq!(out, [0, 0xAA, 0xAA, 0xAA]);
    let mut empty: [u8; 0] = [];
    assert_eq!(running_version(&mut empty, Some(header(-5, 1, 2, 3, 4))), -5);
}

#[test]
fn running_version_formats_header() {
    let mut out = [0xAAu8; 25];
    assert_eq!(running_version(&mut out, Some(header(0, 2, 1, 0, 77))), 0);
    assert_eq!(&out[..9], b"2.1.0+77\0");
    assert_eq!(out[9], 0xAA);
}

#[test]
fn slot1_writer_never_opens_without_mcuboot() {
    assert!(matches!(Slot1Writer::begin(), Err(1)));
}

#[test]
fn slot1_writer_calls_return_sentinel() {
    let mut w = Slot1Writer;
    assert_eq!(w.write(b"image bytes"), 1);
    assert_eq!(w.write(&[]), 1);
    assert_eq!(w.finish(), 1);
}

#[test]
fn slot1_open_result_maps_code() {
    assert_eq!(slot1_open_result(0), Ok(()));
    assert_eq!(slot1_open_result(-5), Err(-5));
}

#[test]
fn slot_choices() {
    assert_eq!(slot1_writer_slot(), ImageSlot::Secondary);
    assert_eq!(running_version_slot(), ImageSlot::Primary);
    assert_eq!(slot_index(slot1_writer_slot()), 1);
    assert_eq!(slot_index(running_version_slot()), 0);
}
