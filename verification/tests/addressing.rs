use wooting_rgb::error::WootingError;
use wooting_rgb::keys::FromScanIndex;
use wooting_rgb::keys::IntoMatrixRowColumn;
use wooting_rgb::keys::Key;
use wooting_rgb::COLUMNS;
use wooting_rgb::ROWS;

fn all_keys() -> Vec<Key> {
    vec![
        Key::Escape,
        Key::F1,
        Key::F2,
        Key::F3,
        Key::F4,
        Key::F5,
        Key::F6,
        Key::F7,
        Key::F8,
        Key::F9,
        Key::F10,
        Key::F11,
        Key::F12,
        Key::Mode,
        Key::PrintScreen,
        Key::Pause,
        Key::Tilde,
        Key::One,
        Key::Two,
        Key::Three,
        Key::Four,
        Key::Five,
        Key::Six,
        Key::Seven,
        Key::Eight,
        Key::Nine,
        Key::Zero,
        Key::Dash,
        Key::Equals,
        Key::Backspace,
        Key::Insert,
        Key::PageUp,
        Key::Tab,
        Key::Q,
        Key::W,
        Key::E,
        Key::R,
        Key::T,
        Key::Y,
        Key::U,
        Key::I,
        Key::O,
        Key::P,
        Key::LeftBracket,
        Key::RightBracket,
        Key::Backslash,
        Key::Delete,
        Key::PageDown,
        Key::CapsLock,
        Key::A,
        Key::S,
        Key::D,
        Key::F,
        Key::G,
        Key::H,
        Key::J,
        Key::K,
        Key::L,
        Key::SemiColon,
        Key::Apostrophe,
        Key::Return,
        Key::LeftShift,
        Key::Z,
        Key::X,
        Key::C,
        Key::V,
        Key::B,
        Key::N,
        Key::M,
        Key::Comma,
        Key::Period,
        Key::ForwardSlash,
        Key::RightShift,
        Key::UpArrow,
        Key::LeftControl,
        Key::LeftMod,
        Key::LeftAlt,
        Key::SpaceLed1,
        Key::SpaceLed2,
        Key::Space,
        Key::SpaceLed4,
        Key::SpaceLed5,
        Key::RightAlt,
        Key::Fn,
        Key::RightControl,
        Key::LeftArrow,
        Key::DownArrow,
        Key::RightArrow,
    ]
}

#[test]
fn coordinates_of_corner_keys() {
    assert_eq!(Key::Escape.get_matrix_row_and_column(), (0, 0));
    assert_eq!(Key::Pause.get_matrix_row_and_column(), (0, 16));
    assert_eq!(Key::LeftControl.get_matrix_row_and_column(), (5, 0));
    assert_eq!(Key::RightArrow.get_matrix_row_and_column(), (5, 16));
    assert_eq!(Key::Q.get_matrix_row_and_column(), (2, 1));
    assert_eq!(Key::Space.get_matrix_row_and_column(), (5, 6));
    assert_eq!(Key::SpaceLed1.get_matrix_row_and_column(), (5, 4));
}

#[test]
fn coordinates_are_within_bounds_for_every_key() {
    for k in all_keys() {
        let (row, col) = k.get_matrix_row_and_column();
        assert!((row as usize) < ROWS);
        assert!((col as usize) < COLUMNS);
    }
}

#[test]
fn coordinates_are_distinct_across_keys() {
    let mut seen: Vec<(u8, u8)> = Vec::new();
    for k in all_keys() {
        let rc = k.get_matrix_row_and_column();
        assert!(!seen.contains(&rc), "coordinate {:?} assigned twice", rc);
        seen.push(rc);
    }
}

#[test]
fn tuple_coordinates_pass_through() {
    assert_eq!((3u8, 7u8).get_matrix_row_and_column(), (3, 7));
    assert_eq!((200u8, 250u8).get_matrix_row_and_column(), (200, 250));
}

#[test]
fn scan_index_decodes_known_codes() {
    assert_eq!(Key::from_scan_index(0), Some(Key::Escape));
    assert_eq!(Key::from_scan_index(14), Some(Key::Pause));
    assert_eq!(Key::from_scan_index(33), Some(Key::Q));
    assert_eq!(Key::from_scan_index(83), Some(Key::Space));
    assert_eq!(Key::from_scan_index(86), Some(Key::Fn));
    assert_eq!(Key::from_scan_index(110), Some(Key::Mode));
}

#[test]
fn scan_index_decoding_is_deterministic() {
    for index in 0..=255u8 {
        assert_eq!(Key::from_scan_index(index), Key::from_scan_index(index));
    }
}

#[test]
fn undefined_scan_indices_decode_to_none() {
    for index in [15u8, 31, 45, 47, 85, 87, 88, 89, 109, 111, 200, 255] {
        assert_eq!(Key::from_scan_index(index), None);
    }
}

#[test]
fn colliding_scan_index_resolves_to_canonical_key() {
    // The hardware table reports the letter `i` key under both 40 and 55;
    // both resolve to the same canonical key.
    assert_eq!(Key::from_scan_index(40), Some(Key::I));
    assert_eq!(Key::from_scan_index(55), Some(Key::I));
    assert_eq!(Key::I.scan_index(), Some(40));
}

#[test]
fn round_trip_through_canonical_scan_index() {
    for k in all_keys() {
        match k.scan_index() {
            Some(index) => assert_eq!(Key::from_scan_index(index), Some(k)),
            None => assert!(matches!(
                k,
                Key::Backslash
                    | Key::Apostrophe
                    | Key::SpaceLed1
                    | Key::SpaceLed2
                    | Key::SpaceLed4
                    | Key::SpaceLed5
            )),
        }
    }
}

#[test]
fn display_names_are_stable_labels() {
    assert_eq!(Key::Escape.display_name(), "Esc");
    assert_eq!(Key::Tilde.display_name(), "~");
    assert_eq!(Key::Backslash.display_name(), "\\");
    assert_eq!(Key::PrintScreen.display_name(), "Print Screen");
    assert_eq!(Key::SpaceLed1.display_name(), "Space LED 1");
    assert_eq!(Key::RightControl.display_name(), "Right Control");
}

#[test]
fn error_messages() {
    assert_eq!(
        WootingError::Disconnected.message(),
        "Wooting keyboard is not connected"
    );
    assert_eq!(
        WootingError::InvalidBufferSize.message(),
        "Requested analog value of too many keys"
    );
}
