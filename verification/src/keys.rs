//! The key addressing table: a fixed bidirectional mapping between logical
//! key identities and (row, column) coordinates in the device's LED matrix,
//! plus a partial mapping from raw device scan indices back to logical keys.
//!
//! The tables are data-driven literal mappings: the physical layout is fixed
//! by the hardware and is not derivable from any formula.

use vstd::prelude::*;

use crate::COLUMNS;
use crate::ROWS;

verus! {

/// A key on the keyboard: one entry per physical key position, including the
/// individual LED zones of the multi-LED spacebar.
#[derive(Clone, Copy, Debug, Hash, Eq, PartialEq, Structural)]
pub enum Key {
    /// Escape key (`Esc`).
    Escape,
    /// Function key (`F1`).
    F1,
    /// Function key (`F2`).
    F2,
    /// Function key (`F3`).
    F3,
    /// Function key (`F4`).
    F4,
    /// Function key (`F5`).
    F5,
    /// Function key (`F6`).
    F6,
    /// Function key (`F7`).
    F7,
    /// Function key (`F8`).
    F8,
    /// Function key (`F9`).
    F9,
    /// Function key (`F10`).
    F10,
    /// Function key (`F11`).
    F11,
    /// Function key (`F12`).
    F12,
    /// Mode key. Toggles between digital and analog modes.
    Mode,
    /// Print screen key (`Prt Sc`).
    PrintScreen,
    /// Pause (or break) key.
    Pause,
    /// Tilde key (`~`).
    Tilde,
    /// Number one key (`1`).
    One,
    /// Number two key (`2`).
    Two,
    /// Number three key (`3`).
    Three,
    /// Number four key (`4`).
    Four,
    /// Number five key (`5`).
    Five,
    /// Number six key (`6`).
    Six,
    /// Number seven key (`7`).
    Seven,
    /// Number eight key (`8`).
    Eight,
    /// Number nine key (`9`).
    Nine,
    /// Number zero key (`0`).
    Zero,
    /// Dash or hyphen key (`-`).
    Dash,
    /// Equals key (`=`).
    Equals,
    /// Backspace key.
    Backspace,
    /// Insert key (`Ins`).
    Insert,
    /// Page up key (`Pg Up`).
    PageUp,
    /// Tab key.
    Tab,
    /// Letter `q` key.
    Q,
    /// Letter `w` key.
    W,
    /// Letter `e` key.
    E,
    /// Letter `r` key.
    R,
    /// Letter `t` key.
    T,
    /// Letter `y` key.
    Y,
    /// Letter `u` key.
    U,
    /// Letter `i` key.
    I,
    /// Letter `o` key.
    O,
    /// Letter `p` key.
    P,
    /// Left square bracket key (`[`).
    LeftBracket,
    /// Right square bracket key (`]`).
    RightBracket,
    /// Backslash key (`\`).
    Backslash,
    /// Delete key (`Del`).
    Delete,
    /// Page down key (`Pg Dn`).
    PageDown,
    /// Capitalization lock key.
    CapsLock,
    /// Letter `a` key.
    A,
    /// Letter `s` key.
    S,
    /// Letter `d` key.
    D,
    /// Letter `f` key.
    F,
    /// Letter `g` key.
    G,
    /// Letter `h` key.
    H,
    /// Letter `j` key.
    J,
    /// Letter `k` key.
    K,
    /// Letter `l` key.
    L,
    /// Semi-colon key (`;`).
    SemiColon,
    /// Apostrophe key (`'`).
    Apostrophe,
    /// Return (or enter) key.
    Return,
    /// Left shift modifier key.
    LeftShift,
    /// Letter `z` key.
    Z,
    /// Letter `x` key.
    X,
    /// Letter `c` key.
    C,
    /// Letter `v` key.
    V,
    /// Letter `b` key.
    B,
    /// Letter `n` key.
    N,
    /// Letter `m` key.
    M,
    /// Comma key (`,`).
    Comma,
    /// Period key (`.`).
    Period,
    /// Forward slash key (`/`).
    ForwardSlash,
    /// Right shift modifier key.
    RightShift,
    /// Up arrow key.
    UpArrow,
    /// Left control modifier key.
    LeftControl,
    /// Left mod (or Windows) modifier key.
    LeftMod,
    /// Left alt modifier key.
    LeftAlt,
    /// Space key LED 1 (starts from the left).
    SpaceLed1,
    /// Space key LED 2.
    SpaceLed2,
    /// Space key LED 3 (the actual space key).
    Space,
    /// Space key LED 4.
    SpaceLed4,
    /// Space key LED 5.
    SpaceLed5,
    /// Right alt modifier key.
    RightAlt,
    /// Function key (`Fn`).
    Fn,
    /// Right control modifier key.
    RightControl,
    /// Left arrow key.
    LeftArrow,
    /// Down arrow key.
    DownArrow,
    /// Right arrow key.
    RightArrow,
}

/// The (row, column) coordinate in the LED matrix that the hardware assigns
/// to each logical key. Total: every key has exactly one coordinate by
/// construction.
pub open spec fn key_coordinate(k: Key) -> (u8, u8) {
    match k {
        Key::Escape => (0, 0),
        Key::F1 => (0, 1),
        Key::F2 => (0, 2),
        Key::F3 => (0, 3),
        Key::F4 => (0, 4),
        Key::F5 => (0, 5),
        Key::F6 => (0, 6),
        Key::F7 => (0, 7),
        Key::F8 => (0, 8),
        Key::F9 => (0, 10),
        Key::F10 => (0, 11),
        Key::F11 => (0, 12),
        Key::F12 => (0, 13),
        Key::Mode => (0, 14),
        Key::PrintScreen => (0, 15),
        Key::Pause => (0, 16),
        Key::Tilde => (1, 0),
        Key::One => (1, 1),
        Key::Two => (1, 2),
        Key::Three => (1, 3),
        Key::Four => (1, 4),
        Key::Five => (1, 5),
        Key::Six => (1, 6),
        Key::Seven => (1, 7),
        Key::Eight => (1, 8),
        Key::Nine => (1, 9),
        Key::Zero => (1, 10),
        Key::Dash => (1, 11),
        Key::Equals => (1, 12),
        Key::Backspace => (1, 14),
        Key::Insert => (1, 15),
        Key::PageUp => (1, 16),
        Key::Tab => (2, 0),
        Key::Q => (2, 1),
        Key::W => (2, 2),
        Key::E => (2, 3),
        Key::R => (2, 4),
        Key::T => (2, 5),
        Key::Y => (2, 6),
        Key::U => (2, 7),
        Key::I => (2, 8),
        Key::O => (2, 9),
        Key::P => (2, 10),
        Key::LeftBracket => (2, 11),
        Key::RightBracket => (2, 12),
        Key::Backslash => (2, 14),
        Key::Delete => (2, 15),
        Key::PageDown => (2, 16),
        Key::CapsLock => (3, 0),
        Key::A => (3, 1),
        Key::S => (3, 2),
        Key::D => (3, 3),
        Key::F => (3, 4),
        Key::G => (3, 5),
        Key::H => (3, 6),
        Key::J => (3, 7),
        Key::K => (3, 8),
        Key::L => (3, 9),
        Key::SemiColon => (3, 10),
        Key::Apostrophe => (3, 11),
        Key::Return => (3, 14),
        Key::LeftShift => (4, 0),
        Key::Z => (4, 2),
        Key::X => (4, 3),
        Key::C => (4, 4),
        Key::V => (4, 5),
        Key::B => (4, 6),
        Key::N => (4, 7),
        Key::M => (4, 8),
        Key::Comma => (4, 9),
        Key::Period => (4, 10),
        Key::ForwardSlash => (4, 11),
        Key::RightShift => (4, 14),
        Key::UpArrow => (4, 15),
        Key::LeftControl => (5, 0),
        Key::LeftMod => (5, 1),
        Key::LeftAlt => (5, 2),
        Key::SpaceLed1 => (5, 4),
        Key::SpaceLed2 => (5, 5),
        Key::Space => (5, 6),
        Key::SpaceLed4 => (5, 7),
        Key::SpaceLed5 => (5, 8),
        Key::RightAlt => (5, 10),
        Key::Fn => (5, 11),
        Key::RightControl => (5, 12),
        Key::LeftArrow => (5, 14),
        Key::DownArrow => (5, 15),
        Key::RightArrow => (5, 16),
    }
}

/// Every logical key addresses a cell inside the fixed matrix bounds.
pub proof fn lemma_coordinate_in_bounds(k: Key)
    ensures
        key_coordinate(k).0 < ROWS,
        key_coordinate(k).1 < COLUMNS,
{
}

/// The logical key reported for each raw scan index, if any. Partial:
/// indices with no defined key (reserved gaps, and everything past the
/// device's sparse index space) map to `None`.
///
/// Two documented quirks of the hardware table are preserved as-is:
/// index 55 reports [`Key::I`] again (the canonical index for that key is
/// 40), and index 45, reported for the backslash key, has no defined
/// mapping here.
pub open spec fn key_for_scan_index(index: u8) -> Option<Key> {
    match index {
        0 => Some(Key::Escape),
        1 => Some(Key::F1),
        2 => Some(Key::F2),
        3 => Some(Key::F3),
        4 => Some(Key::F4),
        5 => Some(Key::F5),
        6 => Some(Key::F6),
        7 => Some(Key::F7),
        8 => Some(Key::F8),
        9 => Some(Key::F9),
        10 => Some(Key::F10),
        11 => Some(Key::F11),
        12 => Some(Key::F12),
        13 => Some(Key::PrintScreen),
        14 => Some(Key::Pause),
        16 => Some(Key::Tilde),
        17 => Some(Key::One),
        18 => Some(Key::Two),
        19 => Some(Key::Three),
        20 => Some(Key::Four),
        21 => Some(Key::Five),
        22 => Some(Key::Six),
        23 => Some(Key::Seven),
        24 => Some(Key::Eight),
        25 => Some(Key::Nine),
        26 => Some(Key::Zero),
        27 => Some(Key::Dash),
        28 => Some(Key::Equals),
        29 => Some(Key::Backspace),
        30 => Some(Key::Insert),
        32 => Some(Key::Tab),
        33 => Some(Key::Q),
        34 => Some(Key::W),
        35 => Some(Key::E),
        36 => Some(Key::R),
        37 => Some(Key::T),
        38 => Some(Key::Y),
        39 => Some(Key::U),
        40 => Some(Key::I),
        41 => Some(Key::O),
        42 => Some(Key::P),
        43 => Some(Key::LeftBracket),
        44 => Some(Key::RightBracket),
        46 => Some(Key::Delete),
        48 => Some(Key::CapsLock),
        49 => Some(Key::A),
        50 => Some(Key::S),
        51 => Some(Key::D),
        52 => Some(Key::F),
        53 => Some(Key::G),
        54 => Some(Key::H),
        55 => Some(Key::I),
        56 => Some(Key::J),
        57 => Some(Key::K),
        58 => Some(Key::L),
        59 => Some(Key::SemiColon),
        60 => Some(Key::Return),
        61 => Some(Key::PageUp),
        62 => Some(Key::PageDown),
        63 => Some(Key::UpArrow),
        64 => Some(Key::LeftShift),
        65 => Some(Key::Z),
        66 => Some(Key::X),
        67 => Some(Key::C),
        68 => Some(Key::V),
        69 => Some(Key::B),
        70 => Some(Key::N),
        71 => Some(Key::M),
        72 => Some(Key::Comma),
        73 => Some(Key::Period),
        74 => Some(Key::ForwardSlash),
        75 => Some(Key::RightShift),
        76 => Some(Key::LeftArrow),
        77 => Some(Key::DownArrow),
        78 => Some(Key::RightArrow),
        79 => Some(Key::RightControl),
        80 => Some(Key::LeftControl),
        81 => Some(Key::LeftMod),
        82 => Some(Key::LeftAlt),
        83 => Some(Key::Space),
        84 => Some(Key::RightAlt),
        86 => Some(Key::Fn),
        110 => Some(Key::Mode),
        _ => None,
    }
}

/// The canonical scan index that the hardware assigns to each logical key.
/// Partial: keys that the scanning table never reports under an index of
/// their own (the backslash and apostrophe keys, and the extra spacebar LED
/// zones) map to `None`. For [`Key::I`], which the hardware table reports
/// under two indices, the canonical index is 40.
pub open spec fn scan_index_of_key(k: Key) -> Option<u8> {
    match k {
        Key::Escape => Some(0),
        Key::F1 => Some(1),
        Key::F2 => Some(2),
        Key::F3 => Some(3),
        Key::F4 => Some(4),
        Key::F5 => Some(5),
        Key::F6 => Some(6),
        Key::F7 => Some(7),
        Key::F8 => Some(8),
        Key::F9 => Some(9),
        Key::F10 => Some(10),
        Key::F11 => Some(11),
        Key::F12 => Some(12),
        Key::Mode => Some(110),
        Key::PrintScreen => Some(13),
        Key::Pause => Some(14),
        Key::Tilde => Some(16),
        Key::One => Some(17),
        Key::Two => Some(18),
        Key::Three => Some(19),
        Key::Four => Some(20),
        Key::Five => Some(21),
        Key::Six => Some(22),
        Key::Seven => Some(23),
        Key::Eight => Some(24),
        Key::Nine => Some(25),
        Key::Zero => Some(26),
        Key::Dash => Some(27),
        Key::Equals => Some(28),
        Key::Backspace => Some(29),
        Key::Insert => Some(30),
        Key::PageUp => Some(61),
        Key::Tab => Some(32),
        Key::Q => Some(33),
        Key::W => Some(34),
        Key::E => Some(35),
        Key::R => Some(36),
        Key::T => Some(37),
        Key::Y => Some(38),
        Key::U => Some(39),
        Key::I => Some(40),
        Key::O => Some(41),
        Key::P => Some(42),
        Key::LeftBracket => Some(43),
        Key::RightBracket => Some(44),
        Key::Backslash => None,
        Key::Delete => Some(46),
        Key::PageDown => Some(62),
        Key::CapsLock => Some(48),
        Key::A => Some(49),
        Key::S => Some(50),
        Key::D => Some(51),
        Key::F => Some(52),
        Key::G => Some(53),
        Key::H => Some(54),
        Key::J => Some(56),
        Key::K => Some(57),
        Key::L => Some(58),
        Key::SemiColon => Some(59),
        Key::Apostrophe => None,
        Key::Return => Some(60),
        Key::LeftShift => Some(64),
        Key::Z => Some(65),
        Key::X => Some(66),
        Key::C => Some(67),
        Key::V => Some(68),
        Key::B => Some(69),
        Key::N => Some(70),
        Key::M => Some(71),
        Key::Comma => Some(72),
        Key::Period => Some(73),
        Key::ForwardSlash => Some(74),
        Key::RightShift => Some(75),
        Key::UpArrow => Some(63),
        Key::LeftControl => Some(80),
        Key::LeftMod => Some(81),
        Key::LeftAlt => Some(82),
        Key::SpaceLed1 => None,
        Key::SpaceLed2 => None,
        Key::Space => Some(83),
        Key::SpaceLed4 => None,
        Key::SpaceLed5 => None,
        Key::RightAlt => Some(84),
        Key::Fn => Some(86),
        Key::RightControl => Some(79),
        Key::LeftArrow => Some(76),
        Key::DownArrow => Some(77),
        Key::RightArrow => Some(78),
    }
}

/// Round trip on the defined subset: whenever the hardware assigns a
/// canonical scan index to a key and that index has a defined reverse
/// mapping, decoding the index yields the same key again.
pub proof fn lemma_scan_index_round_trip(k: Key)
    ensures
        scan_index_of_key(k) matches Some(index) ==> key_for_scan_index(index) == Some(k),
{
}

/// Types that can be associated with a scan index.
pub trait FromScanIndex: Sized {
    /// The value, if any, that the given scan index designates.
    spec fn spec_from_scan_index(index: u8) -> Option<Self>;

    /// Return the instance of this type for the given scan index, or `None`
    /// if the index has no defined mapping.
    fn from_scan_index(index: u8) -> (r: Option<Self>)
        ensures
            r == Self::spec_from_scan_index(index),
    ;
}

impl FromScanIndex for Key {
    open spec fn spec_from_scan_index(index: u8) -> Option<Key> {
        key_for_scan_index(index)
    }

    /// Return the key that corresponds to the provided scan index, if any.
    fn from_scan_index(index: u8) -> (r: Option<Key>) {
        match index {
            0 => Some(Key::Escape),
            1 => Some(Key::F1),
            2 => Some(Key::F2),
            3 => Some(Key::F3),
            4 => Some(Key::F4),
            5 => Some(Key::F5),
            6 => Some(Key::F6),
            7 => Some(Key::F7),
            8 => Some(Key::F8),
            9 => Some(Key::F9),
            10 => Some(Key::F10),
            11 => Some(Key::F11),
            12 => Some(Key::F12),
            13 => Some(Key::PrintScreen),
            14 => Some(Key::Pause),
            16 => Some(Key::Tilde),
            17 => Some(Key::One),
            18 => Some(Key::Two),
            19 => Some(Key::Three),
            20 => Some(Key::Four),
            21 => Some(Key::Five),
            22 => Some(Key::Six),
            23 => Some(Key::Seven),
            24 => Some(Key::Eight),
            25 => Some(Key::Nine),
            26 => Some(Key::Zero),
            27 => Some(Key::Dash),
            28 => Some(Key::Equals),
            29 => Some(Key::Backspace),
            30 => Some(Key::Insert),
            32 => Some(Key::Tab),
            33 => Some(Key::Q),
            34 => Some(Key::W),
            35 => Some(Key::E),
            36 => Some(Key::R),
            37 => Some(Key::T),
            38 => Some(Key::Y),
            39 => Some(Key::U),
            40 => Some(Key::I),
            41 => Some(Key::O),
            42 => Some(Key::P),
            43 => Some(Key::LeftBracket),
            44 => Some(Key::RightBracket),
            46 => Some(Key::Delete),
            48 => Some(Key::CapsLock),
            49 => Some(Key::A),
            50 => Some(Key::S),
            51 => Some(Key::D),
            52 => Some(Key::F),
            53 => Some(Key::G),
            54 => Some(Key::H),
            55 => Some(Key::I),
            56 => Some(Key::J),
            57 => Some(Key::K),
            58 => Some(Key::L),
            59 => Some(Key::SemiColon),
            60 => Some(Key::Return),
            61 => Some(Key::PageUp),
            62 => Some(Key::PageDown),
            63 => Some(Key::UpArrow),
            64 => Some(Key::LeftShift),
            65 => Some(Key::Z),
            66 => Some(Key::X),
            67 => Some(Key::C),
            68 => Some(Key::V),
            69 => Some(Key::B),
            70 => Some(Key::N),
            71 => Some(Key::M),
            72 => Some(Key::Comma),
            73 => Some(Key::Period),
            74 => Some(Key::ForwardSlash),
            75 => Some(Key::RightShift),
            76 => Some(Key::LeftArrow),
            77 => Some(Key::DownArrow),
            78 => Some(Key::RightArrow),
            79 => Some(Key::RightControl),
            80 => Some(Key::LeftControl),
            81 => Some(Key::LeftMod),
            82 => Some(Key::LeftAlt),
            83 => Some(Key::Space),
            84 => Some(Key::RightAlt),
            86 => Some(Key::Fn),
            110 => Some(Key::Mode),
            _ => None,
        }
    }
}

/// The stable human-readable label of each key, purely cosmetic and used
/// only for diagnostics.
pub open spec fn display_label(k: Key) -> Seq<char> {
    match k {
        Key::Escape => "Esc"@,
        Key::F1 => "F1"@,
        Key::F2 => "F2"@,
        Key::F3 => "F3"@,
        Key::F4 => "F4"@,
        Key::F5 => "F5"@,
        Key::F6 => "F6"@,
        Key::F7 => "F7"@,
        Key::F8 => "F8"@,
        Key::F9 => "F9"@,
        Key::F10 => "F10"@,
        Key::F11 => "F11"@,
        Key::F12 => "F12"@,
        Key::PrintScreen => "Print Screen"@,
        Key::Pause => "Pause"@,
        Key::Mode => "Mode"@,
        Key::Tilde => "~"@,
        Key::One => "1"@,
        Key::Two => "2"@,
        Key::Three => "3"@,
        Key::Four => "4"@,
        Key::Five => "5"@,
        Key::Six => "6"@,
        Key::Seven => "7"@,
        Key::Eight => "8"@,
        Key::Nine => "9"@,
        Key::Zero => "0"@,
        Key::Dash => "-"@,
        Key::Equals => "="@,
        Key::Backspace => "Backspace"@,
        Key::Insert => "Insert"@,
        Key::PageUp => "Page Up"@,
        Key::Tab => "Tab"@,
        Key::Q => "Q"@,
        Key::W => "W"@,
        Key::E => "E"@,
        Key::R => "R"@,
        Key::T => "T"@,
        Key::Y => "Y"@,
        Key::U => "U"@,
        Key::I => "I"@,
        Key::O => "O"@,
        Key::P => "P"@,
        Key::LeftBracket => "["@,
        Key::RightBracket => "]"@,
        Key::Backslash => "\\"@,
        Key::Delete => "Delete"@,
        Key::PageDown => "Page Down"@,
        Key::CapsLock => "Caps Lock"@,
        Key::A => "A"@,
        Key::S => "S"@,
        Key::D => "D"@,
        Key::F => "F"@,
        Key::G => "G"@,
        Key::H => "H"@,
        Key::J => "J"@,
        Key::K => "K"@,
        Key::L => "L"@,
        Key::SemiColon => ";"@,
        Key::Apostrophe => "'"@,
        Key::Return => "Return"@,
        Key::LeftShift => "Left Shift"@,
        Key::Z => "Z"@,
        Key::X => "X"@,
        Key::C => "C"@,
        Key::V => "V"@,
        Key::B => "B"@,
        Key::N => "N"@,
        Key::M => "M"@,
        Key::Comma => "Comma"@,
        Key::Period => "Period"@,
        Key::ForwardSlash => "/"@,
        Key::RightShift => "Right Shift"@,
        Key::UpArrow => "Up Arrow"@,
        Key::LeftControl => "Left Control"@,
        Key::LeftMod => "Left Mod"@,
        Key::LeftAlt => "Left Alt"@,
        Key::Space => "Space"@,
        Key::RightAlt => "Right Alt"@,
        Key::Fn => "Fn"@,
        Key::RightControl => "Right Control"@,
        Key::LeftArrow => "Left Arrow"@,
        Key::DownArrow => "Down Arrow"@,
        Key::RightArrow => "Right Arrow"@,
        Key::SpaceLed1 => "Space LED 1"@,
        Key::SpaceLed2 => "Space LED 2"@,
        Key::SpaceLed4 => "Space LED 4"@,
        Key::SpaceLed5 => "Space LED 5"@,
    }
}

impl Key {
    /// The stable human-readable label of this key.
    pub fn display_name(&self) -> (name: String)
        ensures
            name@ == display_label(*self),
    {
        match self {
            Key::Escape => "Esc".to_owned(),
            Key::F1 => "F1".to_owned(),
            Key::F2 => "F2".to_owned(),
            Key::F3 => "F3".to_owned(),
            Key::F4 => "F4".to_owned(),
            Key::F5 => "F5".to_owned(),
            Key::F6 => "F6".to_owned(),
            Key::F7 => "F7".to_owned(),
            Key::F8 => "F8".to_owned(),
            Key::F9 => "F9".to_owned(),
            Key::F10 => "F10".to_owned(),
            Key::F11 => "F11".to_owned(),
            Key::F12 => "F12".to_owned(),
            Key::PrintScreen => "Print Screen".to_owned(),
            Key::Pause => "Pause".to_owned(),
            Key::Mode => "Mode".to_owned(),
            Key::Tilde => "~".to_owned(),
            Key::One => "1".to_owned(),
            Key::Two => "2".to_owned(),
            Key::Three => "3".to_owned(),
            Key::Four => "4".to_owned(),
            Key::Five => "5".to_owned(),
            Key::Six => "6".to_owned(),
            Key::Seven => "7".to_owned(),
            Key::Eight => "8".to_owned(),
            Key::Nine => "9".to_owned(),
            Key::Zero => "0".to_owned(),
            Key::Dash => "-".to_owned(),
            Key::Equals => "=".to_owned(),
            Key::Backspace => "Backspace".to_owned(),
            Key::Insert => "Insert".to_owned(),
            Key::PageUp => "Page Up".to_owned(),
            Key::Tab => "Tab".to_owned(),
            Key::Q => "Q".to_owned(),
            Key::W => "W".to_owned(),
            Key::E => "E".to_owned(),
            Key::R => "R".to_owned(),
            Key::T => "T".to_owned(),
            Key::Y => "Y".to_owned(),
            Key::U => "U".to_owned(),
            Key::I => "I".to_owned(),
            Key::O => "O".to_owned(),
            Key::P => "P".to_owned(),
            Key::LeftBracket => "[".to_owned(),
            Key::RightBracket => "]".to_owned(),
            Key::Backslash => "\\".to_owned(),
            Key::Delete => "Delete".to_owned(),
            Key::PageDown => "Page Down".to_owned(),
            Key::CapsLock => "Caps Lock".to_owned(),
            Key::A => "A".to_owned(),
            Key::S => "S".to_owned(),
            Key::D => "D".to_owned(),
            Key::F => "F".to_owned(),
            Key::G => "G".to_owned(),
            Key::H => "H".to_owned(),
            Key::J => "J".to_owned(),
            Key::K => "K".to_owned(),
            Key::L => "L".to_owned(),
            Key::SemiColon => ";".to_owned(),
            Key::Apostrophe => "'".to_owned(),
            Key::Return => "Return".to_owned(),
            Key::LeftShift => "Left Shift".to_owned(),
            Key::Z => "Z".to_owned(),
            Key::X => "X".to_owned(),
            Key::C => "C".to_owned(),
            Key::V => "V".to_owned(),
            Key::B => "B".to_owned(),
            Key::N => "N".to_owned(),
            Key::M => "M".to_owned(),
            Key::Comma => "Comma".to_owned(),
            Key::Period => "Period".to_owned(),
            Key::ForwardSlash => "/".to_owned(),
            Key::RightShift => "Right Shift".to_owned(),
            Key::UpArrow => "Up Arrow".to_owned(),
            Key::LeftControl => "Left Control".to_owned(),
            Key::LeftMod => "Left Mod".to_owned(),
            Key::LeftAlt => "Left Alt".to_owned(),
            Key::Space => "Space".to_owned(),
            Key::RightAlt => "Right Alt".to_owned(),
            Key::Fn => "Fn".to_owned(),
            Key::RightControl => "Right Control".to_owned(),
            Key::LeftArrow => "Left Arrow".to_owned(),
            Key::DownArrow => "Down Arrow".to_owned(),
            Key::RightArrow => "Right Arrow".to_owned(),
            Key::SpaceLed1 => "Space LED 1".to_owned(),
            Key::SpaceLed2 => "Space LED 2".to_owned(),
            Key::SpaceLed4 => "Space LED 4".to_owned(),
            Key::SpaceLed5 => "Space LED 5".to_owned(),
        }
    }

    /// The canonical scan index that the hardware assigns to this key, or
    /// `None` for keys the scanning table never reports under an index of
    /// their own.
    pub fn scan_index(&self) -> (r: Option<u8>)
        ensures
            r == scan_index_of_key(*self),
    {
        match self {
            Key::Escape => Some(0),
            Key::F1 => Some(1),
            Key::F2 => Some(2),
            Key::F3 => Some(3),
            Key::F4 => Some(4),
            Key::F5 => Some(5),
            Key::F6 => Some(6),
            Key::F7 => Some(7),
            Key::F8 => Some(8),
            Key::F9 => Some(9),
            Key::F10 => Some(10),
            Key::F11 => Some(11),
            Key::F12 => Some(12),
            Key::Mode => Some(110),
            Key::PrintScreen => Some(13),
            Key::Pause => Some(14),
            Key::Tilde => Some(16),
            Key::One => Some(17),
            Key::Two => Some(18),
            Key::Three => Some(19),
            Key::Four => Some(20),
            Key::Five => Some(21),
            Key::Six => Some(22),
            Key::Seven => Some(23),
            Key::Eight => Some(24),
            Key::Nine => Some(25),
            Key::Zero => Some(26),
            Key::Dash => Some(27),
            Key::Equals => Some(28),
            Key::Backspace => Some(29),
            Key::Insert => Some(30),
            Key::PageUp => Some(61),
            Key::Tab => Some(32),
            Key::Q => Some(33),
            Key::W => Some(34),
            Key::E => Some(35),
            Key::R => Some(36),
            Key::T => Some(37),
            Key::Y => Some(38),
            Key::U => Some(39),
            Key::I => Some(40),
            Key::O => Some(41),
            Key::P => Some(42),
            Key::LeftBracket => Some(43),
            Key::RightBracket => Some(44),
            Key::Backslash => None,
            Key::Delete => Some(46),
            Key::PageDown => Some(62),
            Key::CapsLock => Some(48),
            Key::A => Some(49),
            Key::S => Some(50),
            Key::D => Some(51),
            Key::F => Some(52),
            Key::G => Some(53),
            Key::H => Some(54),
            Key::J => Some(56),
            Key::K => Some(57),
            Key::L => Some(58),
            Key::SemiColon => Some(59),
            Key::Apostrophe => None,
            Key::Return => Some(60),
            Key::LeftShift => Some(64),
            Key::Z => Some(65),
            Key::X => Some(66),
            Key::C => Some(67),
            Key::V => Some(68),
            Key::B => Some(69),
            Key::N => Some(70),
            Key::M => Some(71),
            Key::Comma => Some(72),
            Key::Period => Some(73),
            Key::ForwardSlash => Some(74),
            Key::RightShift => Some(75),
            Key::UpArrow => Some(63),
            Key::LeftControl => Some(80),
            Key::LeftMod => Some(81),
            Key::LeftAlt => Some(82),
            Key::SpaceLed1 => None,
            Key::SpaceLed2 => None,
            Key::Space => Some(83),
            Key::SpaceLed4 => None,
            Key::SpaceLed5 => None,
            Key::RightAlt => Some(84),
            Key::Fn => Some(86),
            Key::RightControl => Some(79),
            Key::LeftArrow => Some(76),
            Key::DownArrow => Some(77),
            Key::RightArrow => Some(78),
        }
    }
}

/// Types that can be transformed into a matrix row and column.
pub trait IntoMatrixRowColumn {
    /// The matrix row and column that this value designates.
    spec fn spec_matrix_row_and_column(&self) -> (u8, u8);

    /// Return a tuple `(row, column)` that represents the matrix row and
    /// column for this value.
    fn get_matrix_row_and_column(&self) -> (rc: (u8, u8))
        ensures
            rc == self.spec_matrix_row_and_column(),
    ;
}

impl IntoMatrixRowColumn for (u8, u8) {
    open spec fn spec_matrix_row_and_column(&self) -> (u8, u8) {
        *self
    }

    fn get_matrix_row_and_column(&self) -> (rc: (u8, u8)) {
        *self
    }
}

impl IntoMatrixRowColumn for Key {
    open spec fn spec_matrix_row_and_column(&self) -> (u8, u8) {
        key_coordinate(*self)
    }

    /// Returns the matrix row and column of the key, as listed in the
    /// hardware's layout table.
    fn get_matrix_row_and_column(&self) -> (rc: (u8, u8)) {
        match self {
            Key::Escape => (0, 0),
            Key::F1 => (0, 1),
            Key::F2 => (0, 2),
            Key::F3 => (0, 3),
            Key::F4 => (0, 4),
            Key::F5 => (0, 5),
            Key::F6 => (0, 6),
            Key::F7 => (0, 7),
            Key::F8 => (0, 8),
            Key::F9 => (0, 10),
            Key::F10 => (0, 11),
            Key::F11 => (0, 12),
            Key::F12 => (0, 13),
            Key::Mode => (0, 14),
            Key::PrintScreen => (0, 15),
            Key::Pause => (0, 16),
            Key::Tilde => (1, 0),
            Key::One => (1, 1),
            Key::Two => (1, 2),
            Key::Three => (1, 3),
            Key::Four => (1, 4),
            Key::Five => (1, 5),
            Key::Six => (1, 6),
            Key::Seven => (1, 7),
            Key::Eight => (1, 8),
            Key::Nine => (1, 9),
            Key::Zero => (1, 10),
            Key::Dash => (1, 11),
            Key::Equals => (1, 12),
            Key::Backspace => (1, 14),
            Key::Insert => (1, 15),
            Key::PageUp => (1, 16),
            Key::Tab => (2, 0),
            Key::Q => (2, 1),
            Key::W => (2, 2),
            Key::E => (2, 3),
            Key::R => (2, 4),
            Key::T => (2, 5),
            Key::Y => (2, 6),
            Key::U => (2, 7),
            Key::I => (2, 8),
            Key::O => (2, 9),
            Key::P => (2, 10),
            Key::LeftBracket => (2, 11),
            Key::RightBracket => (2, 12),
            Key::Backslash => (2, 14),
            Key::Delete => (2, 15),
            Key::PageDown => (2, 16),
            Key::CapsLock => (3, 0),
            Key::A => (3, 1),
            Key::S => (3, 2),
            Key::D => (3, 3),
            Key::F => (3, 4),
            Key::G => (3, 5),
            Key::H => (3, 6),
            Key::J => (3, 7),
            Key::K => (3, 8),
            Key::L => (3, 9),
            Key::SemiColon => (3, 10),
            Key::Apostrophe => (3, 11),
            Key::Return => (3, 14),
            Key::LeftShift => (4, 0),
            Key::Z => (4, 2),
            Key::X => (4, 3),
            Key::C => (4, 4),
            Key::V => (4, 5),
            Key::B => (4, 6),
            Key::N => (4, 7),
            Key::M => (4, 8),
            Key::Comma => (4, 9),
            Key::Period => (4, 10),
            Key::ForwardSlash => (4, 11),
            Key::RightShift => (4, 14),
            Key::UpArrow => (4, 15),
            Key::LeftControl => (5, 0),
            Key::LeftMod => (5, 1),
            Key::LeftAlt => (5, 2),
            Key::SpaceLed1 => (5, 4),
            Key::SpaceLed2 => (5, 5),
            Key::Space => (5, 6),
            Key::SpaceLed4 => (5, 7),
            Key::SpaceLed5 => (5, 8),
            Key::RightAlt => (5, 10),
            Key::Fn => (5, 11),
            Key::RightControl => (5, 12),
            Key::LeftArrow => (5, 14),
            Key::DownArrow => (5, 15),
            Key::RightArrow => (5, 16),
        }
    }
}

} // verus!
