use vstd::prelude::*;

verus! {

/// Lowest native key code that names a key.
pub const MIN_NATIVE_CODE: u32 = 0x01;

/// Highest native key code that names a key.
pub const MAX_NATIVE_CODE: u32 = 0xFE;

/// A physical key, one variant per native virtual-key code in `0x01..=0xFE`.
///
/// Codes that the host assigns no key of its own to are kept as
/// `Unassigned..` or `OemSpecific..` variants, so that the catalog stays a
/// bijection with the whole native range.
#[derive(Debug, Clone, Copy, PartialEq, Eq, Hash, Structural)]
pub enum KeyCode {
    LButton,
    RButton,
    Cancel,
    MButton,
    XButton1,
    XButton2,
    Unassigned07,
    Back,
    Tab,
    Unassigned0A,
    Unassigned0B,
    Clear,
    Return,
    Unassigned0E,
    Unassigned0F,
    Shift,
    Control,
    Menu,
    Pause,
    Capital,
    Kana,
    ImeOn,
    Junja,
    ImeFinal,
    Kanji,
    ImeOff,
    Escape,
    Convert,
    NonConvert,
    Accept,
    ModeChange,
    Space,
    Prior,
    Next,
    End,
    Home,
    Left,
    Up,
    Right,
    Down,
    Select,
    Print,
    Execute,
    Snapshot,
    Insert,
    Delete,
    Help,
    Key0,
    Key1,
    Key2,
    Key3,
    Key4,
    Key5,
    Key6,
    Key7,
    Key8,
    Key9,
    Unassigned3A,
    Unassigned3B,
    Unassigned3C,
    Unassigned3D,
    Unassigned3E,
    Unassigned3F,
    Unassigned40,
    KeyA,
    KeyB,
    KeyC,
    KeyD,
    KeyE,
    KeyF,
    KeyG,
    KeyH,
    KeyI,
    KeyJ,
    KeyK,
    KeyL,
    KeyM,
    KeyN,
    KeyO,
    KeyP,
    KeyQ,
    KeyR,
    KeyS,
    KeyT,
    KeyU,
    KeyV,
    KeyW,
    KeyX,
    KeyY,
    KeyZ,
    LWin,
    RWin,
    Apps,
    Unassigned5E,
    Sleep,
    Numpad0,
    Numpad1,
    Numpad2,
    Numpad3,
    Numpad4,
    Numpad5,
    Numpad6,
    Numpad7,
    Numpad8,
    Numpad9,
    NumpadMultiply,
    NumpadAdd,
    NumpadSeparator,
    NumpadSubtract,
    NumpadDecimal,
    NumpadDivide,
    F1,
    F2,
    F3,
    F4,
    F5,
    F6,
    F7,
    F8,
    F9,
    F10,
    F11,
    F12,
    F13,
    F14,
    F15,
    F16,
    F17,
    F18,
    F19,
    F20,
    F21,
    F22,
    F23,
    F24,
    Unassigned88,
    Unassigned89,
    Unassigned8A,
    Unassigned8B,
    Unassigned8C,
    Unassigned8D,
    Unassigned8E,
    Unassigned8F,
    NumLock,
    Scroll,
    OemSpecific92,
    OemSpecific93,
    OemSpecific94,
    OemSpecific95,
    OemSpecific96,
    Unassigned97,
    Unassigned98,
    Unassigned99,
    Unassigned9A,
    Unassigned9B,
    Unassigned9C,
    Unassigned9D,
    Unassigned9E,
    Unassigned9F,
    LShift,
    RShift,
    LControl,
    RControl,
    LMenu,
    RMenu,
    BrowserBack,
    BrowserForward,
    BrowserRefresh,
    BrowserStop,
    BrowserSearch,
    BrowserFavorites,
    BrowserHome,
    VolumeMute,
    VolumeDown,
    VolumeUp,
    MediaNextTrack,
    MediaPrevTrack,
    MediaStop,
    MediaPlayPause,
    LaunchMail,
    LaunchMediaSelect,
    LaunchApp1,
    LaunchApp2,
    UnassignedB8,
    UnassignedB9,
    Oem1,
    OemPlus,
    OemComma,
    OemMinus,
    OemPeriod,
    Oem2,
    Oem3,
    UnassignedC1,
    UnassignedC2,
    UnassignedC3,
    UnassignedC4,
    UnassignedC5,
    UnassignedC6,
    UnassignedC7,
    UnassignedC8,
    UnassignedC9,
    UnassignedCA,
    UnassignedCB,
    UnassignedCC,
    UnassignedCD,
    UnassignedCE,
    UnassignedCF,
    UnassignedD0,
    UnassignedD1,
    UnassignedD2,
    UnassignedD3,
    UnassignedD4,
    UnassignedD5,
    UnassignedD6,
    UnassignedD7,
    UnassignedD8,
    UnassignedD9,
    UnassignedDA,
    Oem4,
    Oem5,
    Oem6,
    Oem7,
    Oem8,
    UnassignedE0,
    OemSpecificE1,
    Oem102,
    OemSpecificE3,
    OemSpecificE4,
    ProcessKey,
    OemSpecificE6,
    Packet,
    UnassignedE8,
    OemSpecificE9,
    OemSpecificEA,
    OemSpecificEB,
    OemSpecificEC,
    OemSpecificED,
    OemSpecificEE,
    OemSpecificEF,
    OemSpecificF0,
    OemSpecificF1,
    OemSpecificF2,
    OemSpecificF3,
    OemSpecificF4,
    OemSpecificF5,
    Attn,
    CrSel,
    ExSel,
    EraseEof,
    Play,
    Zoom,
    NoName,
    Pa1,
    OemClear,
}

/// Whether `code` lies in the native range that the catalog covers.
pub open spec fn is_native_code(code: int) -> bool {
    MIN_NATIVE_CODE <= code <= MAX_NATIVE_CODE
}

/// The native code of a key.
pub open spec fn native_code(key: KeyCode) -> u8 {
    match key {
        KeyCode::LButton => 0x01,
        KeyCode::RButton => 0x02,
        KeyCode::Cancel => 0x03,
        KeyCode::MButton => 0x04,
        KeyCode::XButton1 => 0x05,
        KeyCode::XButton2 => 0x06,
        KeyCode::Unassigned07 => 0x07,
        KeyCode::Back => 0x08,
        KeyCode::Tab => 0x09,
        KeyCode::Unassigned0A => 0x0A,
        KeyCode::Unassigned0B => 0x0B,
        KeyCode::Clear => 0x0C,
        KeyCode::Return => 0x0D,
        KeyCode::Unassigned0E => 0x0E,
        KeyCode::Unassigned0F => 0x0F,
        KeyCode::Shift => 0x10,
        KeyCode::Control => 0x11,
        KeyCode::Menu => 0x12,
        KeyCode::Pause => 0x13,
        KeyCode::Capital => 0x14,
        KeyCode::Kana => 0x15,
        KeyCode::ImeOn => 0x16,
        KeyCode::Junja => 0x17,
        KeyCode::ImeFinal => 0x18,
        KeyCode::Kanji => 0x19,
        KeyCode::ImeOff => 0x1A,
        KeyCode::Escape => 0x1B,
        KeyCode::Convert => 0x1C,
        KeyCode::NonConvert => 0x1D,
        KeyCode::Accept => 0x1E,
        KeyCode::ModeChange => 0x1F,
        KeyCode::Space => 0x20,
        KeyCode::Prior => 0x21,
        KeyCode::Next => 0x22,
        KeyCode::End => 0x23,
        KeyCode::Home => 0x24,
        KeyCode::Left => 0x25,
        KeyCode::Up => 0x26,
        KeyCode::Right => 0x27,
        KeyCode::Down => 0x28,
        KeyCode::Select => 0x29,
        KeyCode::Print => 0x2A,
        KeyCode::Execute => 0x2B,
        KeyCode::Snapshot => 0x2C,
        KeyCode::Insert => 0x2D,
        KeyCode::Delete => 0x2E,
        KeyCode::Help => 0x2F,
        KeyCode::Key0 => 0x30,
        KeyCode::Key1 => 0x31,
        KeyCode::Key2 => 0x32,
        KeyCode::Key3 => 0x33,
        KeyCode::Key4 => 0x34,
        KeyCode::Key5 => 0x35,
        KeyCode::Key6 => 0x36,
        KeyCode::Key7 => 0x37,
        KeyCode::Key8 => 0x38,
        KeyCode::Key9 => 0x39,
        KeyCode::Unassigned3A => 0x3A,
        KeyCode::Unassigned3B => 0x3B,
        KeyCode::Unassigned3C => 0x3C,
        KeyCode::Unassigned3D => 0x3D,
        KeyCode::Unassigned3E => 0x3E,
        KeyCode::Unassigned3F => 0x3F,
        KeyCode::Unassigned40 => 0x40,
        KeyCode::KeyA => 0x41,
        KeyCode::KeyB => 0x42,
        KeyCode::KeyC => 0x43,
        KeyCode::KeyD => 0x44,
        KeyCode::KeyE => 0x45,
        KeyCode::KeyF => 0x46,
        KeyCode::KeyG => 0x47,
        KeyCode::KeyH => 0x48,
        KeyCode::KeyI => 0x49,
        KeyCode::KeyJ => 0x4A,
        KeyCode::KeyK => 0x4B,
        KeyCode::KeyL => 0x4C,
        KeyCode::KeyM => 0x4D,
        KeyCode::KeyN => 0x4E,
        KeyCode::KeyO => 0x4F,
        KeyCode::KeyP => 0x50,
        KeyCode::KeyQ => 0x51,
        KeyCode::KeyR => 0x52,
        KeyCode::KeyS => 0x53,
        KeyCode::KeyT => 0x54,
        KeyCode::KeyU => 0x55,
        KeyCode::KeyV => 0x56,
        KeyCode::KeyW => 0x57,
        KeyCode::KeyX => 0x58,
        KeyCode::KeyY => 0x59,
        KeyCode::KeyZ => 0x5A,
        KeyCode::LWin => 0x5B,
        KeyCode::RWin => 0x5C,
        KeyCode::Apps => 0x5D,
        KeyCode::Unassigned5E => 0x5E,
        KeyCode::Sleep => 0x5F,
        KeyCode::Numpad0 => 0x60,
        KeyCode::Numpad1 => 0x61,
        KeyCode::Numpad2 => 0x62,
        KeyCode::Numpad3 => 0x63,
        KeyCode::Numpad4 => 0x64,
        KeyCode::Numpad5 => 0x65,
        KeyCode::Numpad6 => 0x66,
        KeyCode::Numpad7 => 0x67,
        KeyCode::Numpad8 => 0x68,
        KeyCode::Numpad9 => 0x69,
        KeyCode::NumpadMultiply => 0x6A,
        KeyCode::NumpadAdd => 0x6B,
        KeyCode::NumpadSeparator => 0x6C,
        KeyCode::NumpadSubtract => 0x6D,
        KeyCode::NumpadDecimal => 0x6E,
        KeyCode::NumpadDivide => 0x6F,
        KeyCode::F1 => 0x70,
        KeyCode::F2 => 0x71,
        KeyCode::F3 => 0x72,
        KeyCode::F4 => 0x73,
        KeyCode::F5 => 0x74,
        KeyCode::F6 => 0x75,
        KeyCode::F7 => 0x76,
        KeyCode::F8 => 0x77,
        KeyCode::F9 => 0x78,
        KeyCode::F10 => 0x79,
        KeyCode::F11 => 0x7A,
        KeyCode::F12 => 0x7B,
        KeyCode::F13 => 0x7C,
        KeyCode::F14 => 0x7D,
        KeyCode::F15 => 0x7E,
        KeyCode::F16 => 0x7F,
        KeyCode::F17 => 0x80,
        KeyCode::F18 => 0x81,
        KeyCode::F19 => 0x82,
        KeyCode::F20 => 0x83,
        KeyCode::F21 => 0x84,
        KeyCode::F22 => 0x85,
        KeyCode::F23 => 0x86,
        KeyCode::F24 => 0x87,
        KeyCode::Unassigned88 => 0x88,
        KeyCode::Unassigned89 => 0x89,
        KeyCode::Unassigned8A => 0x8A,
        KeyCode::Unassigned8B => 0x8B,
        KeyCode::Unassigned8C => 0x8C,
        KeyCode::Unassigned8D => 0x8D,
        KeyCode::Unassigned8E => 0x8E,
        KeyCode::Unassigned8F => 0x8F,
        KeyCode::NumLock => 0x90,
        KeyCode::Scroll => 0x91,
        KeyCode::OemSpecific92 => 0x92,
        KeyCode::OemSpecific93 => 0x93,
        KeyCode::OemSpecific94 => 0x94,
        KeyCode::OemSpecific95 => 0x95,
        KeyCode::OemSpecific96 => 0x96,
        KeyCode::Unassigned97 => 0x97,
        KeyCode::Unassigned98 => 0x98,
        KeyCode::Unassigned99 => 0x99,
        KeyCode::Unassigned9A => 0x9A,
        KeyCode::Unassigned9B => 0x9B,
        KeyCode::Unassigned9C => 0x9C,
        KeyCode::Unassigned9D => 0x9D,
        KeyCode::Unassigned9E => 0x9E,
        KeyCode::Unassigned9F => 0x9F,
        KeyCode::LShift => 0xA0,
        KeyCode::RShift => 0xA1,
        KeyCode::LControl => 0xA2,
        KeyCode::RControl => 0xA3,
        KeyCode::LMenu => 0xA4,
        KeyCode::RMenu => 0xA5,
        KeyCode::BrowserBack => 0xA6,
        KeyCode::BrowserForward => 0xA7,
        KeyCode::BrowserRefresh => 0xA8,
        KeyCode::BrowserStop => 0xA9,
        KeyCode::BrowserSearch => 0xAA,
        KeyCode::BrowserFavorites => 0xAB,
        KeyCode::BrowserHome => 0xAC,
        KeyCode::VolumeMute => 0xAD,
        KeyCode::VolumeDown => 0xAE,
        KeyCode::VolumeUp => 0xAF,
        KeyCode::MediaNextTrack => 0xB0,
        KeyCode::MediaPrevTrack => 0xB1,
        KeyCode::MediaStop => 0xB2,
        KeyCode::MediaPlayPause => 0xB3,
        KeyCode::LaunchMail => 0xB4,
        KeyCode::LaunchMediaSelect => 0xB5,
        KeyCode::LaunchApp1 => 0xB6,
        KeyCode::LaunchApp2 => 0xB7,
        KeyCode::UnassignedB8 => 0xB8,
        KeyCode::UnassignedB9 => 0xB9,
        KeyCode::Oem1 => 0xBA,
        KeyCode::OemPlus => 0xBB,
        KeyCode::OemComma => 0xBC,
        KeyCode::OemMinus => 0xBD,
        KeyCode::OemPeriod => 0xBE,
        KeyCode::Oem2 => 0xBF,
        KeyCode::Oem3 => 0xC0,
        KeyCode::UnassignedC1 => 0xC1,
        KeyCode::UnassignedC2 => 0xC2,
        KeyCode::UnassignedC3 => 0xC3,
        KeyCode::UnassignedC4 => 0xC4,
        KeyCode::UnassignedC5 => 0xC5,
        KeyCode::UnassignedC6 => 0xC6,
        KeyCode::UnassignedC7 => 0xC7,
        KeyCode::UnassignedC8 => 0xC8,
        KeyCode::UnassignedC9 => 0xC9,
        KeyCode::UnassignedCA => 0xCA,
        KeyCode::UnassignedCB => 0xCB,
        KeyCode::UnassignedCC => 0xCC,
        KeyCode::UnassignedCD => 0xCD,
        KeyCode::UnassignedCE => 0xCE,
        KeyCode::UnassignedCF => 0xCF,
        KeyCode::UnassignedD0 => 0xD0,
        KeyCode::UnassignedD1 => 0xD1,
        KeyCode::UnassignedD2 => 0xD2,
        KeyCode::UnassignedD3 => 0xD3,
        KeyCode::UnassignedD4 => 0xD4,
        KeyCode::UnassignedD5 => 0xD5,
        KeyCode::UnassignedD6 => 0xD6,
        KeyCode::UnassignedD7 => 0xD7,
        KeyCode::UnassignedD8 => 0xD8,
        KeyCode::UnassignedD9 => 0xD9,
        KeyCode::UnassignedDA => 0xDA,
        KeyCode::Oem4 => 0xDB,
        KeyCode::Oem5 => 0xDC,
        KeyCode::Oem6 => 0xDD,
        KeyCode::Oem7 => 0xDE,
        KeyCode::Oem8 => 0xDF,
        KeyCode::UnassignedE0 => 0xE0,
        KeyCode::OemSpecificE1 => 0xE1,
        KeyCode::Oem102 => 0xE2,
        KeyCode::OemSpecificE3 => 0xE3,
        KeyCode::OemSpecificE4 => 0xE4,
        KeyCode::ProcessKey => 0xE5,
        KeyCode::OemSpecificE6 => 0xE6,
        KeyCode::Packet => 0xE7,
        KeyCode::UnassignedE8 => 0xE8,
        KeyCode::OemSpecificE9 => 0xE9,
        KeyCode::OemSpecificEA => 0xEA,
        KeyCode::OemSpecificEB => 0xEB,
        KeyCode::OemSpecificEC => 0xEC,
        KeyCode::OemSpecificED => 0xED,
        KeyCode::OemSpecificEE => 0xEE,
        KeyCode::OemSpecificEF => 0xEF,
        KeyCode::OemSpecificF0 => 0xF0,
        KeyCode::OemSpecificF1 => 0xF1,
        KeyCode::OemSpecificF2 => 0xF2,
        KeyCode::OemSpecificF3 => 0xF3,
        KeyCode::OemSpecificF4 => 0xF4,
        KeyCode::OemSpecificF5 => 0xF5,
        KeyCode::Attn => 0xF6,
        KeyCode::CrSel => 0xF7,
        KeyCode::ExSel => 0xF8,
        KeyCode::EraseEof => 0xF9,
        KeyCode::Play => 0xFA,
        KeyCode::Zoom => 0xFB,
        KeyCode::NoName => 0xFC,
        KeyCode::Pa1 => 0xFD,
        KeyCode::OemClear => 0xFE,
    }
}

/// The key that a native code names, if any.
pub open spec fn key_of_code(code: u8) -> Option<KeyCode> {
    match code {
        0x01 => Some(KeyCode::LButton),
        0x02 => Some(KeyCode::RButton),
        0x03 => Some(KeyCode::Cancel),
        0x04 => Some(KeyCode::MButton),
        0x05 => Some(KeyCode::XButton1),
        0x06 => Some(KeyCode::XButton2),
        0x07 => Some(KeyCode::Unassigned07),
        0x08 => Some(KeyCode::Back),
        0x09 => Some(KeyCode::Tab),
        0x0A => Some(KeyCode::Unassigned0A),
        0x0B => Some(KeyCode::Unassigned0B),
        0x0C => Some(KeyCode::Clear),
        0x0D => Some(KeyCode::Return),
        0x0E => Some(KeyCode::Unassigned0E),
        0x0F => Some(KeyCode::Unassigned0F),
        0x10 => Some(KeyCode::Shift),
        0x11 => Some(KeyCode::Control),
        0x12 => Some(KeyCode::Menu),
        0x13 => Some(KeyCode::Pause),
        0x14 => Some(KeyCode::Capital),
        0x15 => Some(KeyCode::Kana),
        0x16 => Some(KeyCode::ImeOn),
        0x17 => Some(KeyCode::Junja),
        0x18 => Some(KeyCode::ImeFinal),
        0x19 => Some(KeyCode::Kanji),
        0x1A => Some(KeyCode::ImeOff),
        0x1B => Some(KeyCode::Escape),
        0x1C => Some(KeyCode::Convert),
        0x1D => Some(KeyCode::NonConvert),
        0x1E => Some(KeyCode::Accept),
        0x1F => Some(KeyCode::ModeChange),
        0x20 => Some(KeyCode::Space),
        0x21 => Some(KeyCode::Prior),
        0x22 => Some(KeyCode::Next),
        0x23 => Some(KeyCode::End),
        0x24 => Some(KeyCode::Home),
        0x25 => Some(KeyCode::Left),
        0x26 => Some(KeyCode::Up),
        0x27 => Some(KeyCode::Right),
        0x28 => Some(KeyCode::Down),
        0x29 => Some(KeyCode::Select),
        0x2A => Some(KeyCode::Print),
        0x2B => Some(KeyCode::Execute),
        0x2C => Some(KeyCode::Snapshot),
        0x2D => Some(KeyCode::Insert),
        0x2E => Some(KeyCode::Delete),
        0x2F => Some(KeyCode::Help),
        0x30 => Some(KeyCode::Key0),
        0x31 => Some(KeyCode::Key1),
        0x32 => Some(KeyCode::Key2),
        0x33 => Some(KeyCode::Key3),
        0x34 => Some(KeyCode::Key4),
        0x35 => Some(KeyCode::Key5),
        0x36 => Some(KeyCode::Key6),
        0x37 => Some(KeyCode::Key7),
        0x38 => Some(KeyCode::Key8),
        0x39 => Some(KeyCode::Key9),
        0x3A => Some(KeyCode::Unassigned3A),
        0x3B => Some(KeyCode::Unassigned3B),
        0x3C => Some(KeyCode::Unassigned3C),
        0x3D => Some(KeyCode::Unassigned3D),
        0x3E => Some(KeyCode::Unassigned3E),
        0x3F => Some(KeyCode::Unassigned3F),
        0x40 => Some(KeyCode::Unassigned40),
        0x41 => Some(KeyCode::KeyA),
        0x42 => Some(KeyCode::KeyB),
        0x43 => Some(KeyCode::KeyC),
        0x44 => Some(KeyCode::KeyD),
        0x45 => Some(KeyCode::KeyE),
        0x46 => Some(KeyCode::KeyF),
        0x47 => Some(KeyCode::KeyG),
        0x48 => Some(KeyCode::KeyH),
        0x49 => Some(KeyCode::KeyI),
        0x4A => Some(KeyCode::KeyJ),
        0x4B => Some(KeyCode::KeyK),
        0x4C => Some(KeyCode::KeyL),
        0x4D => Some(KeyCode::KeyM),
        0x4E => Some(KeyCode::KeyN),
        0x4F => Some(KeyCode::KeyO),
        0x50 => Some(KeyCode::KeyP),
        0x51 => Some(KeyCode::KeyQ),
        0x52 => Some(KeyCode::KeyR),
        0x53 => Some(KeyCode::KeyS),
        0x54 => Some(KeyCode::KeyT),
        0x55 => Some(KeyCode::KeyU),
        0x56 => Some(KeyCode::KeyV),
        0x57 => Some(KeyCode::KeyW),
        0x58 => Some(KeyCode::KeyX),
        0x59 => Some(KeyCode::KeyY),
        0x5A => Some(KeyCode::KeyZ),
        0x5B => Some(KeyCode::LWin),
        0x5C => Some(KeyCode::RWin),
        0x5D => Some(KeyCode::Apps),
        0x5E => Some(KeyCode::Unassigned5E),
        0x5F => Some(KeyCode::Sleep),
        0x60 => Some(KeyCode::Numpad0),
        0x61 => Some(KeyCode::Numpad1),
        0x62 => Some(KeyCode::Numpad2),
        0x63 => Some(KeyCode::Numpad3),
        0x64 => Some(KeyCode::Numpad4),
        0x65 => Some(KeyCode::Numpad5),
        0x66 => Some(KeyCode::Numpad6),
        0x67 => Some(KeyCode::Numpad7),
        0x68 => Some(KeyCode::Numpad8),
        0x69 => Some(KeyCode::Numpad9),
        0x6A => Some(KeyCode::NumpadMultiply),
        0x6B => Some(KeyCode::NumpadAdd),
        0x6C => Some(KeyCode::NumpadSeparator),
        0x6D => Some(KeyCode::NumpadSubtract),
        0x6E => Some(KeyCode::NumpadDecimal),
        0x6F => Some(KeyCode::NumpadDivide),
        0x70 => Some(KeyCode::F1),
        0x71 => Some(KeyCode::F2),
        0x72 => Some(KeyCode::F3),
        0x73 => Some(KeyCode::F4),
        0x74 => Some(KeyCode::F5),
        0x75 => Some(KeyCode::F6),
        0x76 => Some(KeyCode::F7),
        0x77 => Some(KeyCode::F8),
        0x78 => Some(KeyCode::F9),
        0x79 => Some(KeyCode::F10),
        0x7A => Some(KeyCode::F11),
        0x7B => Some(KeyCode::F12),
        0x7C => Some(KeyCode::F13),
        0x7D => Some(KeyCode::F14),
        0x7E => Some(KeyCode::F15),
        0x7F => Some(KeyCode::F16),
        0x80 => Some(KeyCode::F17),
        0x81 => Some(KeyCode::F18),
        0x82 => Some(KeyCode::F19),
        0x83 => Some(KeyCode::F20),
        0x84 => Some(KeyCode::F21),
        0x85 => Some(KeyCode::F22),
        0x86 => Some(KeyCode::F23),
        0x87 => Some(KeyCode::F24),
        0x88 => Some(KeyCode::Unassigned88),
        0x89 => Some(KeyCode::Unassigned89),
        0x8A => Some(KeyCode::Unassigned8A),
        0x8B => Some(KeyCode::Unassigned8B),
        0x8C => Some(KeyCode::Unassigned8C),
        0x8D => Some(KeyCode::Unassigned8D),
        0x8E => Some(KeyCode::Unassigned8E),
        0x8F => Some(KeyCode::Unassigned8F),
        0x90 => Some(KeyCode::NumLock),
        0x91 => Some(KeyCode::Scroll),
        0x92 => Some(KeyCode::OemSpecific92),
        0x93 => Some(KeyCode::OemSpecific93),
        0x94 => Some(KeyCode::OemSpecific94),
        0x95 => Some(KeyCode::OemSpecific95),
        0x96 => Some(KeyCode::OemSpecific96),
        0x97 => Some(KeyCode::Unassigned97),
        0x98 => Some(KeyCode::Unassigned98),
        0x99 => Some(KeyCode::Unassigned99),
        0x9A => Some(KeyCode::Unassigned9A),
        0x9B => Some(KeyCode::Unassigned9B),
        0x9C => Some(KeyCode::Unassigned9C),
        0x9D => Some(KeyCode::Unassigned9D),
        0x9E => Some(KeyCode::Unassigned9E),
        0x9F => Some(KeyCode::Unassigned9F),
        0xA0 => Some(KeyCode::LShift),
        0xA1 => Some(KeyCode::RShift),
        0xA2 => Some(KeyCode::LControl),
        0xA3 => Some(KeyCode::RControl),
        0xA4 => Some(KeyCode::LMenu),
        0xA5 => Some(KeyCode::RMenu),
        0xA6 => Some(KeyCode::BrowserBack),
        0xA7 => Some(KeyCode::BrowserForward),
        0xA8 => Some(KeyCode::BrowserRefresh),
        0xA9 => Some(KeyCode::BrowserStop),
        0xAA => Some(KeyCode::BrowserSearch),
        0xAB => Some(KeyCode::BrowserFavorites),
        0xAC => Some(KeyCode::BrowserHome),
        0xAD => Some(KeyCode::VolumeMute),
        0xAE => Some(KeyCode::VolumeDown),
        0xAF => Some(KeyCode::VolumeUp),
        0xB0 => Some(KeyCode::MediaNextTrack),
        0xB1 => Some(KeyCode::MediaPrevTrack),
        0xB2 => Some(KeyCode::MediaStop),
        0xB3 => Some(KeyCode::MediaPlayPause),
        0xB4 => Some(KeyCode::LaunchMail),
        0xB5 => Some(KeyCode::LaunchMediaSelect),
        0xB6 => Some(KeyCode::LaunchApp1),
        0xB7 => Some(KeyCode::LaunchApp2),
        0xB8 => Some(KeyCode::UnassignedB8),
        0xB9 => Some(KeyCode::UnassignedB9),
        0xBA => Some(KeyCode::Oem1),
        0xBB => Some(KeyCode::OemPlus),
        0xBC => Some(KeyCode::OemComma),
        0xBD => Some(KeyCode::OemMinus),
        0xBE => Some(KeyCode::OemPeriod),
        0xBF => Some(KeyCode::Oem2),
        0xC0 => Some(KeyCode::Oem3),
        0xC1 => Some(KeyCode::UnassignedC1),
        0xC2 => Some(KeyCode::UnassignedC2),
        0xC3 => Some(KeyCode::UnassignedC3),
        0xC4 => Some(KeyCode::UnassignedC4),
        0xC5 => Some(KeyCode::UnassignedC5),
        0xC6 => Some(KeyCode::UnassignedC6),
        0xC7 => Some(KeyCode::UnassignedC7),
        0xC8 => Some(KeyCode::UnassignedC8),
        0xC9 => Some(KeyCode::UnassignedC9),
        0xCA => Some(KeyCode::UnassignedCA),
        0xCB => Some(KeyCode::UnassignedCB),
        0xCC => Some(KeyCode::UnassignedCC),
        0xCD => Some(KeyCode::UnassignedCD),
        0xCE => Some(KeyCode::UnassignedCE),
        0xCF => Some(KeyCode::UnassignedCF),
        0xD0 => Some(KeyCode::UnassignedD0),
        0xD1 => Some(KeyCode::UnassignedD1),
        0xD2 => Some(KeyCode::UnassignedD2),
        0xD3 => Some(KeyCode::UnassignedD3),
        0xD4 => Some(KeyCode::UnassignedD4),
        0xD5 => Some(KeyCode::UnassignedD5),
        0xD6 => Some(KeyCode::UnassignedD6),
        0xD7 => Some(KeyCode::UnassignedD7),
        0xD8 => Some(KeyCode::UnassignedD8),
        0xD9 => Some(KeyCode::UnassignedD9),
        0xDA => Some(KeyCode::UnassignedDA),
        0xDB => Some(KeyCode::Oem4),
        0xDC => Some(KeyCode::Oem5),
        0xDD => Some(KeyCode::Oem6),
        0xDE => Some(KeyCode::Oem7),
        0xDF => Some(KeyCode::Oem8),
        0xE0 => Some(KeyCode::UnassignedE0),
        0xE1 => Some(KeyCode::OemSpecificE1),
        0xE2 => Some(KeyCode::Oem102),
        0xE3 => Some(KeyCode::OemSpecificE3),
        0xE4 => Some(KeyCode::OemSpecificE4),
        0xE5 => Some(KeyCode::ProcessKey),
        0xE6 => Some(KeyCode::OemSpecificE6),
        0xE7 => Some(KeyCode::Packet),
        0xE8 => Some(KeyCode::UnassignedE8),
        0xE9 => Some(KeyCode::OemSpecificE9),
        0xEA => Some(KeyCode::OemSpecificEA),
        0xEB => Some(KeyCode::OemSpecificEB),
        0xEC => Some(KeyCode::OemSpecificEC),
        0xED => Some(KeyCode::OemSpecificED),
        0xEE => Some(KeyCode::OemSpecificEE),
        0xEF => Some(KeyCode::OemSpecificEF),
        0xF0 => Some(KeyCode::OemSpecificF0),
        0xF1 => Some(KeyCode::OemSpecificF1),
        0xF2 => Some(KeyCode::OemSpecificF2),
        0xF3 => Some(KeyCode::OemSpecificF3),
        0xF4 => Some(KeyCode::OemSpecificF4),
        0xF5 => Some(KeyCode::OemSpecificF5),
        0xF6 => Some(KeyCode::Attn),
        0xF7 => Some(KeyCode::CrSel),
        0xF8 => Some(KeyCode::ExSel),
        0xF9 => Some(KeyCode::EraseEof),
        0xFA => Some(KeyCode::Play),
        0xFB => Some(KeyCode::Zoom),
        0xFC => Some(KeyCode::NoName),
        0xFD => Some(KeyCode::Pa1),
        0xFE => Some(KeyCode::OemClear),
        _ => None,
    }
}

/// The key that a native code of any width names, if any.
pub open spec fn key_of_native(code: u32) -> Option<KeyCode> {
    if code <= 0xFF {
        key_of_code(code as u8)
    } else {
        None
    }
}

impl KeyCode {
    /// The key that the native code `code` names; `None` outside `0x01..=0xFE`.
    pub fn from_native_code(code: u32) -> (r: Option<KeyCode>)
        ensures
            r == key_of_native(code),
    {
        if code > 0xFF {
            return None;
        }
        let byte: u8 = code as u8;
        match byte {
            0x01 => Some(KeyCode::LButton),
            0x02 => Some(KeyCode::RButton),
            0x03 => Some(KeyCode::Cancel),
            0x04 => Some(KeyCode::MButton),
            0x05 => Some(KeyCode::XButton1),
            0x06 => Some(KeyCode::XButton2),
            0x07 => Some(KeyCode::Unassigned07),
            0x08 => Some(KeyCode::Back),
            0x09 => Some(KeyCode::Tab),
            0x0A => Some(KeyCode::Unassigned0A),
            0x0B => Some(KeyCode::Unassigned0B),
            0x0C => Some(KeyCode::Clear),
            0x0D => Some(KeyCode::Return),
            0x0E => Some(KeyCode::Unassigned0E),
            0x0F => Some(KeyCode::Unassigned0F),
            0x10 => Some(KeyCode::Shift),
            0x11 => Some(KeyCode::Control),
            0x12 => Some(KeyCode::Menu),
            0x13 => Some(KeyCode::Pause),
            0x14 => Some(KeyCode::Capital),
            0x15 => Some(KeyCode::Kana),
            0x16 => Some(KeyCode::ImeOn),
            0x17 => Some(KeyCode::Junja),
            0x18 => Some(KeyCode::ImeFinal),
            0x19 => Some(KeyCode::Kanji),
            0x1A => Some(KeyCode::ImeOff),
            0x1B => Some(KeyCode::Escape),
            0x1C => Some(KeyCode::Convert),
            0x1D => Some(KeyCode::NonConvert),
            0x1E => Some(KeyCode::Accept),
            0x1F => Some(KeyCode::ModeChange),
            0x20 => Some(KeyCode::Space),
            0x21 => Some(KeyCode::Prior),
            0x22 => Some(KeyCode::Next),
            0x23 => Some(KeyCode::End),
            0x24 => Some(KeyCode::Home),
            0x25 => Some(KeyCode::Left),
            0x26 => Some(KeyCode::Up),
            0x27 => Some(KeyCode::Right),
            0x28 => Some(KeyCode::Down),
            0x29 => Some(KeyCode::Select),
            0x2A => Some(KeyCode::Print),
            0x2B => Some(KeyCode::Execute),
            0x2C => Some(KeyCode::Snapshot),
            0x2D => Some(KeyCode::Insert),
            0x2E => Some(KeyCode::Delete),
            0x2F => Some(KeyCode::Help),
            0x30 => Some(KeyCode::Key0),
            0x31 => Some(KeyCode::Key1),
            0x32 => Some(KeyCode::Key2),
            0x33 => Some(KeyCode::Key3),
            0x34 => Some(KeyCode::Key4),
            0x35 => Some(KeyCode::Key5),
            0x36 => Some(KeyCode::Key6),
            0x37 => Some(KeyCode::Key7),
            0x38 => Some(KeyCode::Key8),
            0x39 => Some(KeyCode::Key9),
            0x3A => Some(KeyCode::Unassigned3A),
            0x3B => Some(KeyCode::Unassigned3B),
            0x3C => Some(KeyCode::Unassigned3C),
            0x3D => Some(KeyCode::Unassigned3D),
            0x3E => Some(KeyCode::Unassigned3E),
            0x3F => Some(KeyCode::Unassigned3F),
            0x40 => Some(KeyCode::Unassigned40),
            0x41 => Some(KeyCode::KeyA),
            0x42 => Some(KeyCode::KeyB),
            0x43 => Some(KeyCode::KeyC),
            0x44 => Some(KeyCode::KeyD),
            0x45 => Some(KeyCode::KeyE),
            0x46 => Some(KeyCode::KeyF),
            0x47 => Some(KeyCode::KeyG),
            0x48 => Some(KeyCode::KeyH),
            0x49 => Some(KeyCode::KeyI),
            0x4A => Some(KeyCode::KeyJ),
            0x4B => Some(KeyCode::KeyK),
            0x4C => Some(KeyCode::KeyL),
            0x4D => Some(KeyCode::KeyM),
            0x4E => Some(KeyCode::KeyN),
            0x4F => Some(KeyCode::KeyO),
            0x50 => Some(KeyCode::KeyP),
            0x51 => Some(KeyCode::KeyQ),
            0x52 => Some(KeyCode::KeyR),
            0x53 => Some(KeyCode::KeyS),
            0x54 => Some(KeyCode::KeyT),
            0x55 => Some(KeyCode::KeyU),
            0x56 => Some(KeyCode::KeyV),
            0x57 => Some(KeyCode::KeyW),
            0x58 => Some(KeyCode::KeyX),
            0x59 => Some(KeyCode::KeyY),
            0x5A => Some(KeyCode::KeyZ),
            0x5B => Some(KeyCode::LWin),
            0x5C => Some(KeyCode::RWin),
            0x5D => Some(KeyCode::Apps),
            0x5E => Some(KeyCode::Unassigned5E),
            0x5F => Some(KeyCode::Sleep),
            0x60 => Some(KeyCode::Numpad0),
            0x61 => Some(KeyCode::Numpad1),
            0x62 => Some(KeyCode::Numpad2),
            0x63 => Some(KeyCode::Numpad3),
            0x64 => Some(KeyCode::Numpad4),
            0x65 => Some(KeyCode::Numpad5),
            0x66 => Some(KeyCode::Numpad6),
            0x67 => Some(KeyCode::Numpad7),
            0x68 => Some(KeyCode::Numpad8),
            0x69 => Some(KeyCode::Numpad9),
            0x6A => Some(KeyCode::NumpadMultiply),
            0x6B => Some(KeyCode::NumpadAdd),
            0x6C => Some(KeyCode::NumpadSeparator),
            0x6D => Some(KeyCode::NumpadSubtract),
            0x6E => Some(KeyCode::NumpadDecimal),
            0x6F => Some(KeyCode::NumpadDivide),
            0x70 => Some(KeyCode::F1),
            0x71 => Some(KeyCode::F2),
            0x72 => Some(KeyCode::F3),
            0x73 => Some(KeyCode::F4),
            0x74 => Some(KeyCode::F5),
            0x75 => Some(KeyCode::F6),
            0x76 => Some(KeyCode::F7),
            0x77 => Some(KeyCode::F8),
            0x78 => Some(KeyCode::F9),
            0x79 => Some(KeyCode::F10),
            0x7A => Some(KeyCode::F11),
            0x7B => Some(KeyCode::F12),
            0x7C => Some(KeyCode::F13),
            0x7D => Some(KeyCode::F14),
            0x7E => Some(KeyCode::F15),
            0x7F => Some(KeyCode::F16),
            0x80 => Some(KeyCode::F17),
            0x81 => Some(KeyCode::F18),
            0x82 => Some(KeyCode::F19),
            0x83 => Some(KeyCode::F20),
            0x84 => Some(KeyCode::F21),
            0x85 => Some(KeyCode::F22),
            0x86 => Some(KeyCode::F23),
            0x87 => Some(KeyCode::F24),
            0x88 => Some(KeyCode::Unassigned88),
            0x89 => Some(KeyCode::Unassigned89),
            0x8A => Some(KeyCode::Unassigned8A),
            0x8B => Some(KeyCode::Unassigned8B),
            0x8C => Some(KeyCode::Unassigned8C),
            0x8D => Some(KeyCode::Unassigned8D),
            0x8E => Some(KeyCode::Unassigned8E),
            0x8F => Some(KeyCode::Unassigned8F),
            0x90 => Some(KeyCode::NumLock),
            0x91 => Some(KeyCode::Scroll),
            0x92 => Some(KeyCode::OemSpecific92),
            0x93 => Some(KeyCode::OemSpecific93),
            0x94 => Some(KeyCode::OemSpecific94),
            0x95 => Some(KeyCode::OemSpecific95),
            0x96 => Some(KeyCode::OemSpecific96),
            0x97 => Some(KeyCode::Unassigned97),
            0x98 => Some(KeyCode::Unassigned98),
            0x99 => Some(KeyCode::Unassigned99),
            0x9A => Some(KeyCode::Unassigned9A),
            0x9B => Some(KeyCode::Unassigned9B),
            0x9C => Some(KeyCode::Unassigned9C),
            0x9D => Some(KeyCode::Unassigned9D),
            0x9E => Some(KeyCode::Unassigned9E),
            0x9F => Some(KeyCode::Unassigned9F),
            0xA0 => Some(KeyCode::LShift),
            0xA1 => Some(KeyCode::RShift),
            0xA2 => Some(KeyCode::LControl),
            0xA3 => Some(KeyCode::RControl),
            0xA4 => Some(KeyCode::LMenu),
            0xA5 => Some(KeyCode::RMenu),
            0xA6 => Some(KeyCode::BrowserBack),
            0xA7 => Some(KeyCode::BrowserForward),
            0xA8 => Some(KeyCode::BrowserRefresh),
            0xA9 => Some(KeyCode::BrowserStop),
            0xAA => Some(KeyCode::BrowserSearch),
            0xAB => Some(KeyCode::BrowserFavorites),
            0xAC => Some(KeyCode::BrowserHome),
            0xAD => Some(KeyCode::VolumeMute),
            0xAE => Some(KeyCode::VolumeDown),
            0xAF => Some(KeyCode::VolumeUp),
            0xB0 => Some(KeyCode::MediaNextTrack),
            0xB1 => Some(KeyCode::MediaPrevTrack),
            0xB2 => Some(KeyCode::MediaStop),
            0xB3 => Some(KeyCode::MediaPlayPause),
            0xB4 => Some(KeyCode::LaunchMail),
            0xB5 => Some(KeyCode::LaunchMediaSelect),
            0xB6 => Some(KeyCode::LaunchApp1),
            0xB7 => Some(KeyCode::LaunchApp2),
            0xB8 => Some(KeyCode::UnassignedB8),
            0xB9 => Some(KeyCode::UnassignedB9),
            0xBA => Some(KeyCode::Oem1),
            0xBB => Some(KeyCode::OemPlus),
            0xBC => Some(KeyCode::OemComma),
            0xBD => Some(KeyCode::OemMinus),
            0xBE => Some(KeyCode::OemPeriod),
            0xBF => Some(KeyCode::Oem2),
            0xC0 => Some(KeyCode::Oem3),
            0xC1 => Some(KeyCode::UnassignedC1),
            0xC2 => Some(KeyCode::UnassignedC2),
            0xC3 => Some(KeyCode::UnassignedC3),
            0xC4 => Some(KeyCode::UnassignedC4),
            0xC5 => Some(KeyCode::UnassignedC5),
            0xC6 => Some(KeyCode::UnassignedC6),
            0xC7 => Some(KeyCode::UnassignedC7),
            0xC8 => Some(KeyCode::UnassignedC8),
            0xC9 => Some(KeyCode::UnassignedC9),
            0xCA => Some(KeyCode::UnassignedCA),
            0xCB => Some(KeyCode::UnassignedCB),
            0xCC => Some(KeyCode::UnassignedCC),
            0xCD => Some(KeyCode::UnassignedCD),
            0xCE => Some(KeyCode::UnassignedCE),
            0xCF => Some(KeyCode::UnassignedCF),
            0xD0 => Some(KeyCode::UnassignedD0),
            0xD1 => Some(KeyCode::UnassignedD1),
            0xD2 => Some(KeyCode::UnassignedD2),
            0xD3 => Some(KeyCode::UnassignedD3),
            0xD4 => Some(KeyCode::UnassignedD4),
            0xD5 => Some(KeyCode::UnassignedD5),
            0xD6 => Some(KeyCode::UnassignedD6),
            0xD7 => Some(KeyCode::UnassignedD7),
            0xD8 => Some(KeyCode::UnassignedD8),
            0xD9 => Some(KeyCode::UnassignedD9),
            0xDA => Some(KeyCode::UnassignedDA),
            0xDB => Some(KeyCode::Oem4),
            0xDC => Some(KeyCode::Oem5),
            0xDD => Some(KeyCode::Oem6),
            0xDE => Some(KeyCode::Oem7),
            0xDF => Some(KeyCode::Oem8),
            0xE0 => Some(KeyCode::UnassignedE0),
            0xE1 => Some(KeyCode::OemSpecificE1),
            0xE2 => Some(KeyCode::Oem102),
            0xE3 => Some(KeyCode::OemSpecificE3),
            0xE4 => Some(KeyCode::OemSpecificE4),
            0xE5 => Some(KeyCode::ProcessKey),
            0xE6 => Some(KeyCode::OemSpecificE6),
            0xE7 => Some(KeyCode::Packet),
            0xE8 => Some(KeyCode::UnassignedE8),
            0xE9 => Some(KeyCode::OemSpecificE9),
            0xEA => Some(KeyCode::OemSpecificEA),
            0xEB => Some(KeyCode::OemSpecificEB),
            0xEC => Some(KeyCode::OemSpecificEC),
            0xED => Some(KeyCode::OemSpecificED),
            0xEE => Some(KeyCode::OemSpecificEE),
            0xEF => Some(KeyCode::OemSpecificEF),
            0xF0 => Some(KeyCode::OemSpecificF0),
            0xF1 => Some(KeyCode::OemSpecificF1),
            0xF2 => Some(KeyCode::OemSpecificF2),
            0xF3 => Some(KeyCode::OemSpecificF3),
            0xF4 => Some(KeyCode::OemSpecificF4),
            0xF5 => Some(KeyCode::OemSpecificF5),
            0xF6 => Some(KeyCode::Attn),
            0xF7 => Some(KeyCode::CrSel),
            0xF8 => Some(KeyCode::ExSel),
            0xF9 => Some(KeyCode::EraseEof),
            0xFA => Some(KeyCode::Play),
            0xFB => Some(KeyCode::Zoom),
            0xFC => Some(KeyCode::NoName),
            0xFD => Some(KeyCode::Pa1),
            0xFE => Some(KeyCode::OemClear),
            _ => None,
        }
    }

    /// The native code of this key.
    pub fn to_native_code(self) -> (r: u8)
        ensures
            r == native_code(self),
    {
        match self {
            KeyCode::LButton => 0x01,
            KeyCode::RButton => 0x02,
            KeyCode::Cancel => 0x03,
            KeyCode::MButton => 0x04,
            KeyCode::XButton1 => 0x05,
            KeyCode::XButton2 => 0x06,
            KeyCode::Unassigned07 => 0x07,
            KeyCode::Back => 0x08,
            KeyCode::Tab => 0x09,
            KeyCode::Unassigned0A => 0x0A,
            KeyCode::Unassigned0B => 0x0B,
            KeyCode::Clear => 0x0C,
            KeyCode::Return => 0x0D,
            KeyCode::Unassigned0E => 0x0E,
            KeyCode::Unassigned0F => 0x0F,
            KeyCode::Shift => 0x10,
            KeyCode::Control => 0x11,
            KeyCode::Menu => 0x12,
            KeyCode::Pause => 0x13,
            KeyCode::Capital => 0x14,
            KeyCode::Kana => 0x15,
            KeyCode::ImeOn => 0x16,
            KeyCode::Junja => 0x17,
            KeyCode::ImeFinal => 0x18,
            KeyCode::Kanji => 0x19,
            KeyCode::ImeOff => 0x1A,
            KeyCode::Escape => 0x1B,
            KeyCode::Convert => 0x1C,
            KeyCode::NonConvert => 0x1D,
            KeyCode::Accept => 0x1E,
            KeyCode::ModeChange => 0x1F,
            KeyCode::Space => 0x20,
            KeyCode::Prior => 0x21,
            KeyCode::Next => 0x22,
            KeyCode::End => 0x23,
            KeyCode::Home => 0x24,
            KeyCode::Left => 0x25,
            KeyCode::Up => 0x26,
            KeyCode::Right => 0x27,
            KeyCode::Down => 0x28,
            KeyCode::Select => 0x29,
            KeyCode::Print => 0x2A,
            KeyCode::Execute => 0x2B,
            KeyCode::Snapshot => 0x2C,
            KeyCode::Insert => 0x2D,
            KeyCode::Delete => 0x2E,
            KeyCode::Help => 0x2F,
            KeyCode::Key0 => 0x30,
            KeyCode::Key1 => 0x31,
            KeyCode::Key2 => 0x32,
            KeyCode::Key3 => 0x33,
            KeyCode::Key4 => 0x34,
            KeyCode::Key5 => 0x35,
            KeyCode::Key6 => 0x36,
            KeyCode::Key7 => 0x37,
            KeyCode::Key8 => 0x38,
            KeyCode::Key9 => 0x39,
            KeyCode::Unassigned3A => 0x3A,
            KeyCode::Unassigned3B => 0x3B,
            KeyCode::Unassigned3C => 0x3C,
            KeyCode::Unassigned3D => 0x3D,
            KeyCode::Unassigned3E => 0x3E,
            KeyCode::Unassigned3F => 0x3F,
            KeyCode::Unassigned40 => 0x40,
            KeyCode::KeyA => 0x41,
            KeyCode::KeyB => 0x42,
            KeyCode::KeyC => 0x43,
            KeyCode::KeyD => 0x44,
            KeyCode::KeyE => 0x45,
            KeyCode::KeyF => 0x46,
            KeyCode::KeyG => 0x47,
            KeyCode::KeyH => 0x48,
            KeyCode::KeyI => 0x49,
            KeyCode::KeyJ => 0x4A,
            KeyCode::KeyK => 0x4B,
            KeyCode::KeyL => 0x4C,
            KeyCode::KeyM => 0x4D,
            KeyCode::KeyN => 0x4E,
            KeyCode::KeyO => 0x4F,
            KeyCode::KeyP => 0x50,
            KeyCode::KeyQ => 0x51,
            KeyCode::KeyR => 0x52,
            KeyCode::KeyS => 0x53,
            KeyCode::KeyT => 0x54,
            KeyCode::KeyU => 0x55,
            KeyCode::KeyV => 0x56,
            KeyCode::KeyW => 0x57,
            KeyCode::KeyX => 0x58,
            KeyCode::KeyY => 0x59,
            KeyCode::KeyZ => 0x5A,
            KeyCode::LWin => 0x5B,
            KeyCode::RWin => 0x5C,
            KeyCode::Apps => 0x5D,
            KeyCode::Unassigned5E => 0x5E,
            KeyCode::Sleep => 0x5F,
            KeyCode::Numpad0 => 0x60,
            KeyCode::Numpad1 => 0x61,
            KeyCode::Numpad2 => 0x62,
            KeyCode::Numpad3 => 0x63,
            KeyCode::Numpad4 => 0x64,
            KeyCode::Numpad5 => 0x65,
            KeyCode::Numpad6 => 0x66,
            KeyCode::Numpad7 => 0x67,
            KeyCode::Numpad8 => 0x68,
            KeyCode::Numpad9 => 0x69,
            KeyCode::NumpadMultiply => 0x6A,
            KeyCode::NumpadAdd => 0x6B,
            KeyCode::NumpadSeparator => 0x6C,
            KeyCode::NumpadSubtract => 0x6D,
            KeyCode::NumpadDecimal => 0x6E,
            KeyCode::NumpadDivide => 0x6F,
            KeyCode::F1 => 0x70,
            KeyCode::F2 => 0x71,
            KeyCode::F3 => 0x72,
            KeyCode::F4 => 0x73,
            KeyCode::F5 => 0x74,
            KeyCode::F6 => 0x75,
            KeyCode::F7 => 0x76,
            KeyCode::F8 => 0x77,
            KeyCode::F9 => 0x78,
            KeyCode::F10 => 0x79,
            KeyCode::F11 => 0x7A,
            KeyCode::F12 => 0x7B,
            KeyCode::F13 => 0x7C,
            KeyCode::F14 => 0x7D,
            KeyCode::F15 => 0x7E,
            KeyCode::F16 => 0x7F,
            KeyCode::F17 => 0x80,
            KeyCode::F18 => 0x81,
            KeyCode::F19 => 0x82,
            KeyCode::F20 => 0x83,
            KeyCode::F21 => 0x84,
            KeyCode::F22 => 0x85,
            KeyCode::F23 => 0x86,
            KeyCode::F24 => 0x87,
            KeyCode::Unassigned88 => 0x88,
            KeyCode::Unassigned89 => 0x89,
            KeyCode::Unassigned8A => 0x8A,
            KeyCode::Unassigned8B => 0x8B,
            KeyCode::Unassigned8C => 0x8C,
            KeyCode::Unassigned8D => 0x8D,
            KeyCode::Unassigned8E => 0x8E,
            KeyCode::Unassigned8F => 0x8F,
            KeyCode::NumLock => 0x90,
            KeyCode::Scroll => 0x91,
            KeyCode::OemSpecific92 => 0x92,
            KeyCode::OemSpecific93 => 0x93,
            KeyCode::OemSpecific94 => 0x94,
            KeyCode::OemSpecific95 => 0x95,
            KeyCode::OemSpecific96 => 0x96,
            KeyCode::Unassigned97 => 0x97,
            KeyCode::Unassigned98 => 0x98,
            KeyCode::Unassigned99 => 0x99,
            KeyCode::Unassigned9A => 0x9A,
            KeyCode::Unassigned9B => 0x9B,
            KeyCode::Unassigned9C => 0x9C,
            KeyCode::Unassigned9D => 0x9D,
            KeyCode::Unassigned9E => 0x9E,
            KeyCode::Unassigned9F => 0x9F,
            KeyCode::LShift => 0xA0,
            KeyCode::RShift => 0xA1,
            KeyCode::LControl => 0xA2,
            KeyCode::RControl => 0xA3,
            KeyCode::LMenu => 0xA4,
            KeyCode::RMenu => 0xA5,
            KeyCode::BrowserBack => 0xA6,
            KeyCode::BrowserForward => 0xA7,
            KeyCode::BrowserRefresh => 0xA8,
            KeyCode::BrowserStop => 0xA9,
            KeyCode::BrowserSearch => 0xAA,
            KeyCode::BrowserFavorites => 0xAB,
            KeyCode::BrowserHome => 0xAC,
            KeyCode::VolumeMute => 0xAD,
            KeyCode::VolumeDown => 0xAE,
            KeyCode::VolumeUp => 0xAF,
            KeyCode::MediaNextTrack => 0xB0,
            KeyCode::MediaPrevTrack => 0xB1,
            KeyCode::MediaStop => 0xB2,
            KeyCode::MediaPlayPause => 0xB3,
            KeyCode::LaunchMail => 0xB4,
            KeyCode::LaunchMediaSelect => 0xB5,
            KeyCode::LaunchApp1 => 0xB6,
            KeyCode::LaunchApp2 => 0xB7,
            KeyCode::UnassignedB8 => 0xB8,
            KeyCode::UnassignedB9 => 0xB9,
            KeyCode::Oem1 => 0xBA,
            KeyCode::OemPlus => 0xBB,
            KeyCode::OemComma => 0xBC,
            KeyCode::OemMinus => 0xBD,
            KeyCode::OemPeriod => 0xBE,
            KeyCode::Oem2 => 0xBF,
            KeyCode::Oem3 => 0xC0,
            KeyCode::UnassignedC1 => 0xC1,
            KeyCode::UnassignedC2 => 0xC2,
            KeyCode::UnassignedC3 => 0xC3,
            KeyCode::UnassignedC4 => 0xC4,
            KeyCode::UnassignedC5 => 0xC5,
            KeyCode::UnassignedC6 => 0xC6,
            KeyCode::UnassignedC7 => 0xC7,
            KeyCode::UnassignedC8 => 0xC8,
            KeyCode::UnassignedC9 => 0xC9,
            KeyCode::UnassignedCA => 0xCA,
            KeyCode::UnassignedCB => 0xCB,
            KeyCode::UnassignedCC => 0xCC,
            KeyCode::UnassignedCD => 0xCD,
            KeyCode::UnassignedCE => 0xCE,
            KeyCode::UnassignedCF => 0xCF,
            KeyCode::UnassignedD0 => 0xD0,
            KeyCode::UnassignedD1 => 0xD1,
            KeyCode::UnassignedD2 => 0xD2,
            KeyCode::UnassignedD3 => 0xD3,
            KeyCode::UnassignedD4 => 0xD4,
            KeyCode::UnassignedD5 => 0xD5,
            KeyCode::UnassignedD6 => 0xD6,
            KeyCode::UnassignedD7 => 0xD7,
            KeyCode::UnassignedD8 => 0xD8,
            KeyCode::UnassignedD9 => 0xD9,
            KeyCode::UnassignedDA => 0xDA,
            KeyCode::Oem4 => 0xDB,
            KeyCode::Oem5 => 0xDC,
            KeyCode::Oem6 => 0xDD,
            KeyCode::Oem7 => 0xDE,
            KeyCode::Oem8 => 0xDF,
            KeyCode::UnassignedE0 => 0xE0,
            KeyCode::OemSpecificE1 => 0xE1,
            KeyCode::Oem102 => 0xE2,
            KeyCode::OemSpecificE3 => 0xE3,
            KeyCode::OemSpecificE4 => 0xE4,
            KeyCode::ProcessKey => 0xE5,
            KeyCode::OemSpecificE6 => 0xE6,
            KeyCode::Packet => 0xE7,
            KeyCode::UnassignedE8 => 0xE8,
            KeyCode::OemSpecificE9 => 0xE9,
            KeyCode::OemSpecificEA => 0xEA,
            KeyCode::OemSpecificEB => 0xEB,
            KeyCode::OemSpecificEC => 0xEC,
            KeyCode::OemSpecificED => 0xED,
            KeyCode::OemSpecificEE => 0xEE,
            KeyCode::OemSpecificEF => 0xEF,
            KeyCode::OemSpecificF0 => 0xF0,
            KeyCode::OemSpecificF1 => 0xF1,
            KeyCode::OemSpecificF2 => 0xF2,
            KeyCode::OemSpecificF3 => 0xF3,
            KeyCode::OemSpecificF4 => 0xF4,
            KeyCode::OemSpecificF5 => 0xF5,
            KeyCode::Attn => 0xF6,
            KeyCode::CrSel => 0xF7,
            KeyCode::ExSel => 0xF8,
            KeyCode::EraseEof => 0xF9,
            KeyCode::Play => 0xFA,
            KeyCode::Zoom => 0xFB,
            KeyCode::NoName => 0xFC,
            KeyCode::Pa1 => 0xFD,
            KeyCode::OemClear => 0xFE,
        }
    }
}
/// Every key has a native code in the supported range, and that code names
/// the key again.
pub proof fn lemma_key_round_trip(key: KeyCode)
    ensures
        is_native_code(native_code(key) as int),
        key_of_code(native_code(key)) == Some(key),
{
}

/// A native code names a key exactly when it lies in the supported range,
/// and the key it names has that code.
pub proof fn lemma_code_round_trip(code: u8)
    ensures
        key_of_code(code).is_some() <==> is_native_code(code as int),
        key_of_code(code) matches Some(key) ==> native_code(key) == code,
{
}

/// Distinct keys have distinct native codes.
pub proof fn lemma_native_code_injective(a: KeyCode, b: KeyCode)
    ensures
        native_code(a) == native_code(b) ==> a == b,
{
    lemma_key_round_trip(a);
    lemma_key_round_trip(b);
}

} // verus!
