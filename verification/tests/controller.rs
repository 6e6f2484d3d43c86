use wooting_rgb::device::Device;
use wooting_rgb::keyboard::RgbKeyboard;
use wooting_rgb::keys::Key;
use wooting_rgb::BUFFER_SIZE;

fn open_connected() -> RgbKeyboard {
    RgbKeyboard::new(Device::new(vec![0u8; BUFFER_SIZE], true))
}

fn offset(row: usize, col: usize) -> usize {
    row * 63 + col * 3
}

#[test]
fn staged_q_and_w_then_flush_reach_the_device() {
    let mut kb = open_connected();
    assert!(kb.array_set_single(Key::Q, 255, 0, 0));
    assert!(kb.array_set_single(Key::W, 0, 255, 0));
    assert!(kb.array_update());
    let d = kb.device_state();
    assert_eq!(d.cell(2, 1), (255, 0, 0));
    assert_eq!(d.cell(2, 2), (0, 255, 0));
    let q = offset(2, 1);
    let w = offset(2, 2);
    for i in 0..BUFFER_SIZE {
        if i == q {
            assert_eq!(d.cell_byte(i), 255);
        } else if i == w + 1 {
            assert_eq!(d.cell_byte(i), 255);
        } else {
            assert_eq!(d.cell_byte(i), 0);
        }
    }
}

#[test]
fn direct_set_does_not_touch_the_staged_buffer() {
    let mut kb = open_connected();
    assert!(kb.direct_set_key(Key::A, 10, 20, 30));
    for i in 0..BUFFER_SIZE {
        assert_eq!(kb.staged_byte(i), 0);
    }
    assert_eq!(kb.device_state().cell(3, 1), (10, 20, 30));
}

#[test]
fn direct_reset_reverts_to_session_open_colors() {
    let mut original = vec![0u8; BUFFER_SIZE];
    original[offset(3, 1)] = 7;
    original[offset(3, 1) + 1] = 8;
    original[offset(3, 1) + 2] = 9;
    let mut kb = RgbKeyboard::new(Device::new(original, true));
    assert!(kb.direct_set_key(Key::A, 1, 2, 3));
    assert_eq!(kb.device_state().cell(3, 1), (1, 2, 3));
    assert!(kb.direct_reset_key(Key::A));
    assert_eq!(kb.device_state().cell(3, 1), (7, 8, 9));
}

#[test]
fn auto_flush_gives_exactly_one_flush_per_staged_write() {
    let mut kb = open_connected();
    kb.array_auto_update(true);
    assert!(kb.array_set_single(Key::Q, 1, 2, 3));
    assert_eq!(kb.device_state().flush_count(), 1);
    assert_eq!(kb.device_state().cell(2, 1), (1, 2, 3));
}

#[test]
fn no_flush_without_auto_flush_until_explicit_update() {
    let mut kb = open_connected();
    assert!(kb.array_set_single(Key::Q, 1, 2, 3));
    assert_eq!(kb.device_state().flush_count(), 0);
    assert_eq!(kb.device_state().cell(2, 1), (0, 0, 0));
    assert!(kb.array_update());
    assert_eq!(kb.device_state().flush_count(), 1);
    assert_eq!(kb.device_state().cell(2, 1), (1, 2, 3));
}

#[test]
fn staging_an_identical_triple_reports_no_change() {
    let mut kb = open_connected();
    assert!(kb.array_set_single(Key::Q, 1, 2, 3));
    assert!(!kb.array_set_single(Key::Q, 1, 2, 3));
}

#[test]
fn bulk_staging_last_write_wins_and_never_flushes() {
    let mut kb = open_connected();
    kb.array_auto_update(true);
    let entries = vec![(Key::Q, (1, 2, 3)), (Key::W, (4, 5, 6)), (Key::Q, (7, 8, 9))];
    assert!(kb.array_set_full(&entries));
    assert_eq!(kb.device_state().flush_count(), 0);
    assert_eq!(kb.staged_cell(Key::Q), (7, 8, 9));
    assert_eq!(kb.staged_cell(Key::W), (4, 5, 6));
    assert!(kb.array_update());
    assert_eq!(kb.device_state().cell(2, 1), (7, 8, 9));
    assert_eq!(kb.device_state().cell(2, 2), (4, 5, 6));
}

#[test]
fn bulk_staging_keeps_unmentioned_cells() {
    let mut kb = open_connected();
    assert!(kb.array_set_single(Key::E, 9, 9, 9));
    kb.array_set_full(&vec![(Key::Q, (1, 1, 1))]);
    assert_eq!(kb.staged_cell(Key::E), (9, 9, 9));
    assert_eq!(kb.staged_cell(Key::Q), (1, 1, 1));
}

#[test]
fn closing_restores_and_disables_auto_update_exactly_once() {
    let mut original = vec![0u8; BUFFER_SIZE];
    original[0] = 42;
    let mut kb = RgbKeyboard::new(Device::new(original, true));
    kb.array_auto_update(true);
    assert!(kb.array_set_single(Key::Escape, 1, 2, 3));
    let d = kb.close();
    assert_eq!(d.restore_count(), 1);
    assert_eq!(d.auto_update_calls(), 2);
    assert!(!d.auto_update_enabled());
    assert_eq!(d.cell_byte(0), 42);
}

#[test]
fn closing_after_failed_operations_still_restores() {
    let mut kb = RgbKeyboard::new(Device::new(vec![0u8; BUFFER_SIZE], false));
    assert!(!kb.direct_set_key(Key::A, 1, 2, 3));
    assert!(!kb.array_update());
    let d = kb.close();
    assert_eq!(d.restore_count(), 1);
    assert_eq!(d.auto_update_calls(), 1);
    assert!(!d.auto_update_enabled());
}

#[test]
fn failed_read_invokes_only_the_latest_callback() {
    let mut kb = open_connected();
    kb.set_disconnected_callback(7);
    kb.set_disconnected_callback(9);
    assert_eq!(kb.report_failed_read(), Some(9));
    assert!(!kb.is_device_connected());
    assert!(!kb.array_update());
}

#[test]
fn failed_read_without_callback_invokes_nothing() {
    let mut kb = open_connected();
    assert_eq!(kb.report_failed_read(), None);
    assert!(!kb.is_device_connected());
}

#[test]
fn out_of_bounds_matrix_coordinate_is_rejected() {
    let mut kb = open_connected();
    kb.array_auto_update(true);
    assert!(!kb.array_set_single_matrix((6, 0), 1, 2, 3));
    assert!(!kb.array_set_single_matrix((0, 21), 1, 2, 3));
    assert!(!kb.array_set_single_matrix((255, 255), 1, 2, 3));
    assert_eq!(kb.device_state().flush_count(), 0);
    for i in 0..BUFFER_SIZE {
        assert_eq!(kb.staged_byte(i), 0);
    }
}

#[test]
fn matrix_coordinate_path_matches_key_path() {
    let mut kb = open_connected();
    assert!(kb.array_set_single_matrix((2, 1), 5, 6, 7));
    assert_eq!(kb.staged_cell(Key::Q), (5, 6, 7));
}

#[test]
fn reset_all_reverts_device_but_not_buffer() {
    let mut kb = RgbKeyboard::new(Device::new(vec![1u8; BUFFER_SIZE], true));
    assert!(kb.array_set_single(Key::Q, 9, 9, 9));
    assert!(kb.array_update());
    assert_eq!(kb.device_state().cell(2, 1), (9, 9, 9));
    assert!(kb.reset_all());
    assert_eq!(kb.device_state().cell(2, 1), (1, 1, 1));
    assert_eq!(kb.staged_cell(Key::Q), (9, 9, 9));
    assert_eq!(kb.device_state().restore_count(), 1);
}

#[test]
fn disconnected_device_acknowledges_nothing_but_still_counts() {
    let mut kb = RgbKeyboard::new(Device::new(vec![0u8; BUFFER_SIZE], false));
    kb.array_auto_update(true);
    assert!(!kb.array_set_single(Key::Q, 1, 2, 3));
    assert_eq!(kb.staged_cell(Key::Q), (1, 2, 3));
    assert_eq!(kb.device_state().flush_count(), 1);
    assert_eq!(kb.device_state().cell(2, 1), (0, 0, 0));
}
