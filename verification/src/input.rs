//! Keyboard, mouse and touch input: the key codes, what a shortcut shows of
//! them, when a shortcut counts as pressed, and when a pointer went down or up.
use bevy::input::touch::Touches;
use bevy::input::Input;
use vstd::prelude::*;

verus! {

/// bevy's record of which inputs are pressed, just pressed and just released.
#[verifier::external_type_specification]
#[verifier::external_body]
#[verifier::reject_recursive_types(T)]
pub struct ExInput<T: Copy + Eq + std::hash::Hash + Send + Sync + 'static>(Input<T>);

/// bevy's record of the touches that are pressed, just pressed, just released
/// and just canceled, by touch id.
#[verifier::external_type_specification]
#[verifier::external_body]
pub struct ExTouches(Touches);

/// A button of the mouse.
#[derive(Clone, Copy, Debug, PartialEq, Eq, Structural, Hash)]
pub enum MouseButton {
    Left,
    Right,
    Middle,
    Other(u16),
}

/// A key of the keyboard, by its place on a US layout.
#[derive(Clone, Copy, Debug, PartialEq, Eq, Structural, Hash)]
pub enum KeyCode {
    Key1,
    Key2,
    Key3,
    Key4,
    Key5,
    Key6,
    Key7,
    Key8,
    Key9,
    Key0,
    A,
    B,
    C,
    D,
    E,
    F,
    G,
    H,
    I,
    J,
    K,
    L,
    M,
    N,
    O,
    P,
    Q,
    R,
    S,
    T,
    U,
    V,
    W,
    X,
    Y,
    Z,
    Escape,
    F1,
    F2,
    F3,
    F4,
    F5,
    F6,
    F7,
    F8,
    F9,
    F10,
    F11,
    F12,
    F13,
    F14,
    F15,
    F16,
    F17,
    F18,
    F19,
    F20,
    F21,
    F22,
    F23,
    F24,
    Snapshot,
    Scroll,
    Pause,
    Insert,
    Home,
    Delete,
    End,
    PageDown,
    PageUp,
    Left,
    Up,
    Right,
    Down,
    Back,
    Return,
    Space,
    Compose,
    Caret,
    Numlock,
    Numpad0,
    Numpad1,
    Numpad2,
    Numpad3,
    Numpad4,
    Numpad5,
    Numpad6,
    Numpad7,
    Numpad8,
    Numpad9,
    AbntC1,
    AbntC2,
    NumpadAdd,
    Apostrophe,
    Apps,
    Asterisk,
    Plus,
    At,
    Ax,
    Backslash,
    Calculator,
    Capital,
    Colon,
    Comma,
    Convert,
    NumpadDecimal,
    NumpadDivide,
    Equals,
    Grave,
    Kana,
    Kanji,
    AltLeft,
    BracketLeft,
    ControlLeft,
    ShiftLeft,
    SuperLeft,
    Mail,
    MediaSelect,
    MediaStop,
    Minus,
    NumpadMultiply,
    Mute,
    MyComputer,
    NavigateForward,
    NavigateBackward,
    NextTrack,
    NoConvert,
    NumpadComma,
    NumpadEnter,
    NumpadEquals,
    Oem102,
    Period,
    PlayPause,
    Power,
    PrevTrack,
    AltRight,
    BracketRight,
    ControlRight,
    ShiftRight,
    SuperRight,
    Semicolon,
    Slash,
    Sleep,
    Stop,
    NumpadSubtract,
    Sysrq,
    Tab,
    Underline,
    Unlabeled,
    VolumeDown,
    VolumeUp,
    Wake,
    WebBack,
    WebFavorites,
    WebForward,
    WebHome,
    WebRefresh,
    WebSearch,
    WebStop,
    Yen,
    Copy,
    Paste,
    Cut,
}

/// The name of the key as `{:?}` prints it: the name of its variant.
pub open spec fn key_debug_name(key: KeyCode) -> Seq<char> {
    match key {
        KeyCode::Key1 => "Key1"@,
        KeyCode::Key2 => "Key2"@,
        KeyCode::Key3 => "Key3"@,
        KeyCode::Key4 => "Key4"@,
        KeyCode::Key5 => "Key5"@,
        KeyCode::Key6 => "Key6"@,
        KeyCode::Key7 => "Key7"@,
        KeyCode::Key8 => "Key8"@,
        KeyCode::Key9 => "Key9"@,
        KeyCode::Key0 => "Key0"@,
        KeyCode::A => "A"@,
        KeyCode::B => "B"@,
        KeyCode::C => "C"@,
        KeyCode::D => "D"@,
        KeyCode::E => "E"@,
        KeyCode::F => "F"@,
        KeyCode::G => "G"@,
        KeyCode::H => "H"@,
        KeyCode::I => "I"@,
        KeyCode::J => "J"@,
        KeyCode::K => "K"@,
        KeyCode::L => "L"@,
        KeyCode::M => "M"@,
        KeyCode::N => "N"@,
        KeyCode::O => "O"@,
        KeyCode::P => "P"@,
        KeyCode::Q => "Q"@,
        KeyCode::R => "R"@,
        KeyCode::S => "S"@,
        KeyCode::T => "T"@,
        KeyCode::U => "U"@,
        KeyCode::V => "V"@,
        KeyCode::W => "W"@,
        KeyCode::X => "X"@,
        KeyCode::Y => "Y"@,
        KeyCode::Z => "Z"@,
        KeyCode::Escape => "Escape"@,
        KeyCode::F1 => "F1"@,
        KeyCode::F2 => "F2"@,
        KeyCode::F3 => "F3"@,
        KeyCode::F4 => "F4"@,
        KeyCode::F5 => "F5"@,
        KeyCode::F6 => "F6"@,
        KeyCode::F7 => "F7"@,
        KeyCode::F8 => "F8"@,
        KeyCode::F9 => "F9"@,
        KeyCode::F10 => "F10"@,
        KeyCode::F11 => "F11"@,
        KeyCode::F12 => "F12"@,
        KeyCode::F13 => "F13"@,
        KeyCode::F14 => "F14"@,
        KeyCode::F15 => "F15"@,
        KeyCode::F16 => "F16"@,
        KeyCode::F17 => "F17"@,
        KeyCode::F18 => "F18"@,
        KeyCode::F19 => "F19"@,
        KeyCode::F20 => "F20"@,
        KeyCode::F21 => "F21"@,
        KeyCode::F22 => "F22"@,
        KeyCode::F23 => "F23"@,
        KeyCode::F24 => "F24"@,
        KeyCode::Snapshot => "Snapshot"@,
        KeyCode::Scroll => "Scroll"@,
        KeyCode::Pause => "Pause"@,
        KeyCode::Insert => "Insert"@,
        KeyCode::Home => "Home"@,
        KeyCode::Delete => "Delete"@,
        KeyCode::End => "End"@,
        KeyCode::PageDown => "PageDown"@,
        KeyCode::PageUp => "PageUp"@,
        KeyCode::Left => "Left"@,
        KeyCode::Up => "Up"@,
        KeyCode::Right => "Right"@,
        KeyCode::Down => "Down"@,
        KeyCode::Back => "Back"@,
        KeyCode::Return => "Return"@,
        KeyCode::Space => "Space"@,
        KeyCode::Compose => "Compose"@,
        KeyCode::Caret => "Caret"@,
        KeyCode::Numlock => "Numlock"@,
        KeyCode::Numpad0 => "Numpad0"@,
        KeyCode::Numpad1 => "Numpad1"@,
        KeyCode::Numpad2 => "Numpad2"@,
        KeyCode::Numpad3 => "Numpad3"@,
        KeyCode::Numpad4 => "Numpad4"@,
        KeyCode::Numpad5 => "Numpad5"@,
        KeyCode::Numpad6 => "Numpad6"@,
        KeyCode::Numpad7 => "Numpad7"@,
        KeyCode::Numpad8 => "Numpad8"@,
        KeyCode::Numpad9 => "Numpad9"@,
        KeyCode::AbntC1 => "AbntC1"@,
        KeyCode::AbntC2 => "AbntC2"@,
        KeyCode::NumpadAdd => "NumpadAdd"@,
        KeyCode::Apostrophe => "Apostrophe"@,
        KeyCode::Apps => "Apps"@,
        KeyCode::Asterisk => "Asterisk"@,
        KeyCode::Plus => "Plus"@,
        KeyCode::At => "At"@,
        KeyCode::Ax => "Ax"@,
        KeyCode::Backslash => "Backslash"@,
        KeyCode::Calculator => "Calculator"@,
        KeyCode::Capital => "Capital"@,
        KeyCode::Colon => "Colon"@,
        KeyCode::Comma => "Comma"@,
        KeyCode::Convert => "Convert"@,
        KeyCode::NumpadDecimal => "NumpadDecimal"@,
        KeyCode::NumpadDivide => "NumpadDivide"@,
        KeyCode::Equals => "Equals"@,
        KeyCode::Grave => "Grave"@,
        KeyCode::Kana => "Kana"@,
        KeyCode::Kanji => "Kanji"@,
        KeyCode::AltLeft => "AltLeft"@,
        KeyCode::BracketLeft => "BracketLeft"@,
        KeyCode::ControlLeft => "ControlLeft"@,
        KeyCode::ShiftLeft => "ShiftLeft"@,
        KeyCode::SuperLeft => "SuperLeft"@,
        KeyCode::Mail => "Mail"@,
        KeyCode::MediaSelect => "MediaSelect"@,
        KeyCode::MediaStop => "MediaStop"@,
        KeyCode::Minus => "Minus"@,
        KeyCode::NumpadMultiply => "NumpadMultiply"@,
        KeyCode::Mute => "Mute"@,
        KeyCode::MyComputer => "MyComputer"@,
        KeyCode::NavigateForward => "NavigateForward"@,
        KeyCode::NavigateBackward => "NavigateBackward"@,
        KeyCode::NextTrack => "NextTrack"@,
        KeyCode::NoConvert => "NoConvert"@,
        KeyCode::NumpadComma => "NumpadComma"@,
        KeyCode::NumpadEnter => "NumpadEnter"@,
        KeyCode::NumpadEquals => "NumpadEquals"@,
        KeyCode::Oem102 => "Oem102"@,
        KeyCode::Period => "Period"@,
        KeyCode::PlayPause => "PlayPause"@,
        KeyCode::Power => "Power"@,
        KeyCode::PrevTrack => "PrevTrack"@,
        KeyCode::AltRight => "AltRight"@,
        KeyCode::BracketRight => "BracketRight"@,
        KeyCode::ControlRight => "ControlRight"@,
        KeyCode::ShiftRight => "ShiftRight"@,
        KeyCode::SuperRight => "SuperRight"@,
        KeyCode::Semicolon => "Semicolon"@,
        KeyCode::Slash => "Slash"@,
        KeyCode::Sleep => "Sleep"@,
        KeyCode::Stop => "Stop"@,
        KeyCode::NumpadSubtract => "NumpadSubtract"@,
        KeyCode::Sysrq => "Sysrq"@,
        KeyCode::Tab => "Tab"@,
        KeyCode::Underline => "Underline"@,
        KeyCode::Unlabeled => "Unlabeled"@,
        KeyCode::VolumeDown => "VolumeDown"@,
        KeyCode::VolumeUp => "VolumeUp"@,
        KeyCode::Wake => "Wake"@,
        KeyCode::WebBack => "WebBack"@,
        KeyCode::WebFavorites => "WebFavorites"@,
        KeyCode::WebForward => "WebForward"@,
        KeyCode::WebHome => "WebHome"@,
        KeyCode::WebRefresh => "WebRefresh"@,
        KeyCode::WebSearch => "WebSearch"@,
        KeyCode::WebStop => "WebStop"@,
        KeyCode::Yen => "Yen"@,
        KeyCode::Copy => "Copy"@,
        KeyCode::Paste => "Paste"@,
        KeyCode::Cut => "Cut"@,
    }
}

impl KeyCode {
    /// The name of the key as `{:?}` prints it.
    pub fn debug_name(&self) -> (name: &'static str)
        ensures
            name@ == key_debug_name(*self),
    {
        match self {
            KeyCode::Key1 => "Key1",
            KeyCode::Key2 => "Key2",
            KeyCode::Key3 => "Key3",
            KeyCode::Key4 => "Key4",
            KeyCode::Key5 => "Key5",
            KeyCode::Key6 => "Key6",
            KeyCode::Key7 => "Key7",
            KeyCode::Key8 => "Key8",
            KeyCode::Key9 => "Key9",
            KeyCode::Key0 => "Key0",
            KeyCode::A => "A",
            KeyCode::B => "B",
            KeyCode::C => "C",
            KeyCode::D => "D",
            KeyCode::E => "E",
            KeyCode::F => "F",
            KeyCode::G => "G",
            KeyCode::H => "H",
            KeyCode::I => "I",
            KeyCode::J => "J",
            KeyCode::K => "K",
            KeyCode::L => "L",
            KeyCode::M => "M",
            KeyCode::N => "N",
            KeyCode::O => "O",
            KeyCode::P => "P",
            KeyCode::Q => "Q",
            KeyCode::R => "R",
            KeyCode::S => "S",
            KeyCode::T => "T",
            KeyCode::U => "U",
            KeyCode::V => "V",
            KeyCode::W => "W",
            KeyCode::X => "X",
            KeyCode::Y => "Y",
            KeyCode::Z => "Z",
            KeyCode::Escape => "Escape",
            KeyCode::F1 => "F1",
            KeyCode::F2 => "F2",
            KeyCode::F3 => "F3",
            KeyCode::F4 => "F4",
            KeyCode::F5 => "F5",
            KeyCode::F6 => "F6",
            KeyCode::F7 => "F7",
            KeyCode::F8 => "F8",
            KeyCode::F9 => "F9",
            KeyCode::F10 => "F10",
            KeyCode::F11 => "F11",
            KeyCode::F12 => "F12",
            KeyCode::F13 => "F13",
            KeyCode::F14 => "F14",
            KeyCode::F15 => "F15",
            KeyCode::F16 => "F16",
            KeyCode::F17 => "F17",
            KeyCode::F18 => "F18",
            KeyCode::F19 => "F19",
            KeyCode::F20 => "F20",
            KeyCode::F21 => "F21",
            KeyCode::F22 => "F22",
            KeyCode::F23 => "F23",
            KeyCode::F24 => "F24",
            KeyCode::Snapshot => "Snapshot",
            KeyCode::Scroll => "Scroll",
            KeyCode::Pause => "Pause",
            KeyCode::Insert => "Insert",
            KeyCode::Home => "Home",
            KeyCode::Delete => "Delete",
            KeyCode::End => "End",
            KeyCode::PageDown => "PageDown",
            KeyCode::PageUp => "PageUp",
            KeyCode::Left => "Left",
            KeyCode::Up => "Up",
            KeyCode::Right => "Right",
            KeyCode::Down => "Down",
            KeyCode::Back => "Back",
            KeyCode::Return => "Return",
            KeyCode::Space => "Space",
            KeyCode::Compose => "Compose",
            KeyCode::Caret => "Caret",
            KeyCode::Numlock => "Numlock",
            KeyCode::Numpad0 => "Numpad0",
            KeyCode::Numpad1 => "Numpad1",
            KeyCode::Numpad2 => "Numpad2",
            KeyCode::Numpad3 => "Numpad3",
            KeyCode::Numpad4 => "Numpad4",
            KeyCode::Numpad5 => "Numpad5",
            KeyCode::Numpad6 => "Numpad6",
            KeyCode::Numpad7 => "Numpad7",
            KeyCode::Numpad8 => "Numpad8",
            KeyCode::Numpad9 => "Numpad9",
            KeyCode::AbntC1 => "AbntC1",
            KeyCode::AbntC2 => "AbntC2",
            KeyCode::NumpadAdd => "NumpadAdd",
            KeyCode::Apostrophe => "Apostrophe",
            KeyCode::Apps => "Apps",
            KeyCode::Asterisk => "Asterisk",
            KeyCode::Plus => "Plus",
            KeyCode::At => "At",
            KeyCode::Ax => "Ax",
            KeyCode::Backslash => "Backslash",
            KeyCode::Calculator => "Calculator",
            KeyCode::Capital => "Capital",
            KeyCode::Colon => "Colon",
            KeyCode::Comma => "Comma",
            KeyCode::Convert => "Convert",
            KeyCode::NumpadDecimal => "NumpadDecimal",
            KeyCode::NumpadDivide => "NumpadDivide",
            KeyCode::Equals => "Equals",
            KeyCode::Grave => "Grave",
            KeyCode::Kana => "Kana",
            KeyCode::Kanji => "Kanji",
            KeyCode::AltLeft => "AltLeft",
            KeyCode::BracketLeft => "BracketLeft",
            KeyCode::ControlLeft => "ControlLeft",
            KeyCode::ShiftLeft => "ShiftLeft",
            KeyCode::SuperLeft => "SuperLeft",
            KeyCode::Mail => "Mail",
            KeyCode::MediaSelect => "MediaSelect",
            KeyCode::MediaStop => "MediaStop",
            KeyCode::Minus => "Minus",
            KeyCode::NumpadMultiply => "NumpadMultiply",
            KeyCode::Mute => "Mute",
            KeyCode::MyComputer => "MyComputer",
            KeyCode::NavigateForward => "NavigateForward",
            KeyCode::NavigateBackward => "NavigateBackward",
            KeyCode::NextTrack => "NextTrack",
            KeyCode::NoConvert => "NoConvert",
            KeyCode::NumpadComma => "NumpadComma",
            KeyCode::NumpadEnter => "NumpadEnter",
            KeyCode::NumpadEquals => "NumpadEquals",
            KeyCode::Oem102 => "Oem102",
            KeyCode::Period => "Period",
            KeyCode::PlayPause => "PlayPause",
            KeyCode::Power => "Power",
            KeyCode::PrevTrack => "PrevTrack",
            KeyCode::AltRight => "AltRight",
            KeyCode::BracketRight => "BracketRight",
            KeyCode::ControlRight => "ControlRight",
            KeyCode::ShiftRight => "ShiftRight",
            KeyCode::SuperRight => "SuperRight",
            KeyCode::Semicolon => "Semicolon",
            KeyCode::Slash => "Slash",
            KeyCode::Sleep => "Sleep",
            KeyCode::Stop => "Stop",
            KeyCode::NumpadSubtract => "NumpadSubtract",
            KeyCode::Sysrq => "Sysrq",
            KeyCode::Tab => "Tab",
            KeyCode::Underline => "Underline",
            KeyCode::Unlabeled => "Unlabeled",
            KeyCode::VolumeDown => "VolumeDown",
            KeyCode::VolumeUp => "VolumeUp",
            KeyCode::Wake => "Wake",
            KeyCode::WebBack => "WebBack",
            KeyCode::WebFavorites => "WebFavorites",
            KeyCode::WebForward => "WebForward",
            KeyCode::WebHome => "WebHome",
            KeyCode::WebRefresh => "WebRefresh",
            KeyCode::WebSearch => "WebSearch",
            KeyCode::WebStop => "WebStop",
            KeyCode::Yen => "Yen",
            KeyCode::Copy => "Copy",
            KeyCode::Paste => "Paste",
            KeyCode::Cut => "Cut",
        }
    }
}


/// What a shortcut shows of a key: a short symbol for the digits, the
/// punctuation and the modifiers, and the variant's name for every other key.
pub open spec fn key_label(key: KeyCode) -> Seq<char> {
    match key {
        KeyCode::Key1 => "1"@,
        KeyCode::Key2 => "2"@,
        KeyCode::Key3 => "3"@,
        KeyCode::Key4 => "4"@,
        KeyCode::Key5 => "5"@,
        KeyCode::Key6 => "6"@,
        KeyCode::Key7 => "7"@,
        KeyCode::Key8 => "8"@,
        KeyCode::Key9 => "9"@,
        KeyCode::Key0 => "0"@,
        KeyCode::Escape => "ESC"@,
        KeyCode::Insert => "Ins"@,
        KeyCode::Delete => "Del"@,
        KeyCode::Apostrophe => "'"@,
        KeyCode::Asterisk => "*"@,
        KeyCode::Plus => "+"@,
        KeyCode::At => "@"@,
        KeyCode::Backslash => "\\"@,
        KeyCode::Colon => ":"@,
        KeyCode::Comma => ","@,
        KeyCode::NumpadDecimal => "."@,
        KeyCode::NumpadDivide => "/"@,
        KeyCode::Equals => "="@,
        KeyCode::Grave => "`"@,
        KeyCode::AltLeft => "Alt"@,
        KeyCode::BracketLeft => "["@,
        KeyCode::ControlLeft => "Ctrl"@,
        KeyCode::ShiftLeft => "Shift"@,
        KeyCode::Minus => "-"@,
        KeyCode::NumpadMultiply => "*"@,
        KeyCode::NumpadComma => ","@,
        KeyCode::NumpadEquals => "="@,
        KeyCode::Period => ","@,
        KeyCode::AltRight => "Alt"@,
        KeyCode::BracketRight => "]"@,
        KeyCode::ControlRight => "Ctrl"@,
        KeyCode::ShiftRight => "Shift"@,
        KeyCode::Semicolon => ";"@,
        KeyCode::Slash => "/"@,
        KeyCode::NumpadSubtract => "-"@,
        KeyCode::Underline => "_"@,
        _ => key_debug_name(key),
    }
}

/// What a shortcut shows of a sequence of keys: their labels joined by `+`.
pub open spec fn shortcut_label(keys: Seq<KeyCode>) -> Seq<char>
    decreases keys.len(),
{
    if keys.len() == 0 {
        seq![]
    } else if keys.len() == 1 {
        key_label(keys[0])
    } else {
        shortcut_label(keys.drop_last()) + "+"@ + key_label(keys.last())
    }
}

/// The label of a key, as `key_label` states it.
pub fn key_label_str(key: &KeyCode) -> (label: &'static str)
    ensures
        label@ == key_label(*key),
{
    match key {
        KeyCode::Key1 => "1",
        KeyCode::Key2 => "2",
        KeyCode::Key3 => "3",
        KeyCode::Key4 => "4",
        KeyCode::Key5 => "5",
        KeyCode::Key6 => "6",
        KeyCode::Key7 => "7",
        KeyCode::Key8 => "8",
        KeyCode::Key9 => "9",
        KeyCode::Key0 => "0",
        KeyCode::Escape => "ESC",
        KeyCode::Insert => "Ins",
        KeyCode::Delete => "Del",
        KeyCode::Apostrophe => "'",
        KeyCode::Asterisk => "*",
        KeyCode::Plus => "+",
        KeyCode::At => "@",
        KeyCode::Backslash => "\\",
        KeyCode::Colon => ":",
        KeyCode::Comma => ",",
        KeyCode::NumpadDecimal => ".",
        KeyCode::NumpadDivide => "/",
        KeyCode::Equals => "=",
        KeyCode::Grave => "`",
        KeyCode::AltLeft => "Alt",
        KeyCode::BracketLeft => "[",
        KeyCode::ControlLeft => "Ctrl",
        KeyCode::ShiftLeft => "Shift",
        KeyCode::Minus => "-",
        KeyCode::NumpadMultiply => "*",
        KeyCode::NumpadComma => ",",
        KeyCode::NumpadEquals => "=",
        KeyCode::Period => ",",
        KeyCode::AltRight => "Alt",
        KeyCode::BracketRight => "]",
        KeyCode::ControlRight => "Ctrl",
        KeyCode::ShiftRight => "Shift",
        KeyCode::Semicolon => ";",
        KeyCode::Slash => "/",
        KeyCode::NumpadSubtract => "-",
        KeyCode::Underline => "_",
        _ => key.debug_name(),
    }
}

/// Whether `key` is one of the two keys of a modifier that has a left and a
/// right key (Alt, Ctrl, Shift, Super), and whether its twin is `other`.
pub open spec fn same_modifier(key: KeyCode, other: KeyCode) -> bool {
    match key {
        KeyCode::AltLeft | KeyCode::AltRight => other == KeyCode::AltLeft || other == KeyCode::AltRight,
        KeyCode::ControlLeft | KeyCode::ControlRight => other == KeyCode::ControlLeft || other
            == KeyCode::ControlRight,
        KeyCode::ShiftLeft | KeyCode::ShiftRight => other == KeyCode::ShiftLeft || other
            == KeyCode::ShiftRight,
        KeyCode::SuperLeft | KeyCode::SuperRight => other == KeyCode::SuperLeft || other
            == KeyCode::SuperRight,
        _ => other == key,
    }
}

/// Whether `key` is held down among `pressed`, where either key of a
/// two-sided modifier counts for the other.
pub open spec fn held(pressed: Set<KeyCode>, key: KeyCode) -> bool {
    exists|k: KeyCode| #[trigger] pressed.contains(k) && same_modifier(key, k)
}

/// The keys that an `Input<KeyCode>` holds as pressed (between a press and a
/// release).
pub uninterp spec fn keys_held(keys: Input<KeyCode>) -> Set<KeyCode>;

/// The keys that an `Input<KeyCode>` holds as just pressed (pressed since the
/// last clear).
pub uninterp spec fn keys_just_pressed(keys: Input<KeyCode>) -> Set<KeyCode>;

/// `Input::pressed`: bevy answers whether `key` is in its set of pressed keys.
#[verifier::external_body]
fn input_pressed(keys: &Input<KeyCode>, key: KeyCode) -> (r: bool)
    ensures
        r == keys_held(*keys).contains(key),
{
    keys.pressed(key)
}

/// `Input::just_pressed`: bevy answers whether `key` is in its set of keys
/// pressed since the last clear.
#[verifier::external_body]
fn input_just_pressed(keys: &Input<KeyCode>, key: KeyCode) -> (r: bool)
    ensures
        r == keys_just_pressed(*keys).contains(key),
{
    keys.just_pressed(key)
}

/// `Input::any_pressed`: bevy answers whether any of the given keys is in its
/// set of pressed keys.
#[verifier::external_body]
pub(crate) fn input_any_pressed(keys: &Input<KeyCode>, first: KeyCode, second: KeyCode) -> (r: bool)
    ensures
        r == (keys_held(*keys).contains(first) || keys_held(*keys).contains(second)),
{
    keys.any_pressed([first, second])
}

/// Whether either Ctrl key is held down.
pub open spec fn ctrl_held(keys: Input<KeyCode>) -> bool {
    keys_held(keys).contains(KeyCode::ControlLeft) || keys_held(keys).contains(KeyCode::ControlRight)
}

/// Whether `key` is held down, where either key of a two-sided modifier
/// (Alt, Ctrl, Shift, Super) counts for the other.
pub fn symmetry_pressed(keys: &Input<KeyCode>, key: KeyCode) -> (r: bool)
    ensures
        r == held(keys_held(*keys), key),
{
    let r = match key {
        KeyCode::AltLeft | KeyCode::AltRight => input_any_pressed(
            keys,
            KeyCode::AltLeft,
            KeyCode::AltRight,
        ),
        KeyCode::ControlLeft | KeyCode::ControlRight => input_any_pressed(
            keys,
            KeyCode::ControlLeft,
            KeyCode::ControlRight,
        ),
        KeyCode::ShiftLeft | KeyCode::ShiftRight => input_any_pressed(
            keys,
            KeyCode::ShiftLeft,
            KeyCode::ShiftRight,
        ),
        KeyCode::SuperLeft | KeyCode::SuperRight => input_any_pressed(
            keys,
            KeyCode::SuperLeft,
            KeyCode::SuperRight,
        ),
        _ => input_pressed(keys, key),
    };
    r
}

/// Whether a shortcut fires: it has a key, its last key went down this frame,
/// and each of its other keys is held down (either side of a modifier counts).
pub open spec fn shortcut_fires(shortcut: Seq<KeyCode>, keys: Input<KeyCode>) -> bool {
    &&& shortcut.len() > 0
    &&& keys_just_pressed(keys).contains(shortcut.last())
    &&& forall|i: int| 0 <= i < shortcut.len() - 1 ==> held(keys_held(keys), #[trigger] shortcut[i])
}

/// The other key of a two-sided modifier (Alt, Ctrl, Shift, Super); any
/// other key is its own twin.
pub open spec fn twin(key: KeyCode) -> KeyCode {
    match key {
        KeyCode::AltLeft => KeyCode::AltRight,
        KeyCode::AltRight => KeyCode::AltLeft,
        KeyCode::ControlLeft => KeyCode::ControlRight,
        KeyCode::ControlRight => KeyCode::ControlLeft,
        KeyCode::ShiftLeft => KeyCode::ShiftRight,
        KeyCode::ShiftRight => KeyCode::ShiftLeft,
        KeyCode::SuperLeft => KeyCode::SuperRight,
        KeyCode::SuperRight => KeyCode::SuperLeft,
        _ => key,
    }
}

/// A shortcut does not care which side of a modifier it names: naming the
/// other key of a held modifier fires it on the same keys.
pub proof fn shortcut_modifier_side_is_free(shortcut: Seq<KeyCode>, keys: Input<KeyCode>, i: int)
    requires
        0 <= i < shortcut.len() - 1,
    ensures
        shortcut_fires(shortcut.update(i, twin(shortcut[i])), keys) == shortcut_fires(shortcut, keys),
{
    let other = shortcut.update(i, twin(shortcut[i]));
    let held_keys = keys_held(keys);
    assert(other.last() == shortcut.last());
    assert forall|k: KeyCode| #[trigger] same_modifier(twin(shortcut[i]), k) == same_modifier(
        shortcut[i],
        k,
    ) by {}
    assert(held(held_keys, other[i]) == held(held_keys, shortcut[i])) by {
        if held(held_keys, shortcut[i]) {
            let k = choose|k: KeyCode| #[trigger] held_keys.contains(k) && same_modifier(shortcut[i], k);
            assert(same_modifier(twin(shortcut[i]), k));
        }
        if held(held_keys, other[i]) {
            let k = choose|k: KeyCode| #[trigger] held_keys.contains(k) && same_modifier(other[i], k);
            assert(same_modifier(shortcut[i], k));
        }
    }
    assert forall|j: int| 0 <= j < shortcut.len() - 1 implies held(held_keys, #[trigger] other[j])
        == held(held_keys, shortcut[j]) by {
        if j != i {
            assert(other[j] == shortcut[j]);
        }
    }
    if shortcut_fires(shortcut, keys) {
        assert forall|j: int| 0 <= j < other.len() - 1 implies held(held_keys, #[trigger] other[j]) by {
            assert(held(held_keys, shortcut[j]));
        }
    }
    if shortcut_fires(other, keys) {
        assert forall|j: int| 0 <= j < shortcut.len() - 1 implies held(
            held_keys,
            #[trigger] shortcut[j],
        ) by {
            assert(held(held_keys, other[j]));
        }
    }
}

/// Whether `shortcut` fires on `keys`.
pub fn shortcut_pressed(shortcut: &Vec<KeyCode>, keys: &Input<KeyCode>) -> (r: bool)
    ensures
        r == shortcut_fires(shortcut@, *keys),
{
    let n = shortcut.len();
    if n == 0 {
        return false;
    }
    if !input_just_pressed(keys, shortcut[n - 1]) {
        return false;
    }
    let mut i: usize = 0;
    while i < n - 1
        invariant
            n == shortcut.len(),
            n > 0,
            i <= n - 1,
            keys_just_pressed(*keys).contains(shortcut@[n - 1]),
            forall|j: int| 0 <= j < i ==> held(keys_held(*keys), #[trigger] shortcut@[j]),
        decreases n - 1 - i,
    {
        if !symmetry_pressed(keys, shortcut[i]) {
            return false;
        }
        i = i + 1;
    }
    assert(shortcut@.last() == shortcut@[n - 1]);
    true
}

/// The mouse buttons that an `Input<MouseButton>` holds as just pressed.
pub uninterp spec fn buttons_just_pressed(buttons: Input<MouseButton>) -> Set<MouseButton>;

/// The mouse buttons that an `Input<MouseButton>` holds as just released.
pub uninterp spec fn buttons_just_released(buttons: Input<MouseButton>) -> Set<MouseButton>;

/// The ids of the touches that `Touches` holds as just pressed.
pub uninterp spec fn touches_just_pressed(touches: Touches) -> Set<u64>;

/// The ids of the touches that `Touches` holds as just released.
pub uninterp spec fn touches_just_released(touches: Touches) -> Set<u64>;

/// `Input::any_just_pressed`: bevy answers whether any of the given buttons is
/// in its set of buttons pressed since the last clear.
#[verifier::external_body]
fn buttons_any_just_pressed(
    buttons: &Input<MouseButton>,
    first: MouseButton,
    second: MouseButton,
    third: MouseButton,
) -> (r: bool)
    ensures
        r == (buttons_just_pressed(*buttons).contains(first) || buttons_just_pressed(
            *buttons,
        ).contains(second) || buttons_just_pressed(*buttons).contains(third)),
{
    buttons.any_just_pressed([first, second, third])
}

/// `Input::any_just_released`: bevy answers whether any of the given buttons
/// is in its set of buttons released since the last clear.
#[verifier::external_body]
fn buttons_any_just_released(
    buttons: &Input<MouseButton>,
    first: MouseButton,
    second: MouseButton,
    third: MouseButton,
) -> (r: bool)
    ensures
        r == (buttons_just_released(*buttons).contains(first) || buttons_just_released(
            *buttons,
        ).contains(second) || buttons_just_released(*buttons).contains(third)),
{
    buttons.any_just_released([first, second, third])
}

/// `Touches::any_just_pressed`: bevy answers whether its map of just pressed
/// touches is not empty.
#[verifier::external_body]
fn touches_any_just_pressed(touches: &Touches) -> (r: bool)
    ensures
        r == (touches_just_pressed(*touches) != Set::<u64>::empty()),
{
    touches.any_just_pressed()
}

/// `Touches::any_just_released`: bevy answers whether its map of just
/// released touches is not empty.
#[verifier::external_body]
fn touches_any_just_released(touches: &Touches) -> (r: bool)
    ensures
        r == (touches_just_released(*touches) != Set::<u64>::empty()),
{
    touches.any_just_released()
}

/// Whether a pointer went down this frame: the left, middle or right mouse
/// button, or a touch.
pub open spec fn pointer_went_down(buttons: Input<MouseButton>, touches: Touches) -> bool {
    ||| buttons_just_pressed(buttons).contains(MouseButton::Left)
    ||| buttons_just_pressed(buttons).contains(MouseButton::Middle)
    ||| buttons_just_pressed(buttons).contains(MouseButton::Right)
    ||| touches_just_pressed(touches) != Set::<u64>::empty()
}

/// Whether a pointer went up this frame: the left, middle or right mouse
/// button, or a touch.
pub open spec fn pointer_went_up(buttons: Input<MouseButton>, touches: Touches) -> bool {
    ||| buttons_just_released(buttons).contains(MouseButton::Left)
    ||| buttons_just_released(buttons).contains(MouseButton::Middle)
    ||| buttons_just_released(buttons).contains(MouseButton::Right)
    ||| touches_just_released(touches) != Set::<u64>::empty()
}

/// Whether a pointer went down this frame (see `pointer_went_down`).
pub fn pointer_pressed(buttons: &Input<MouseButton>, touches: &Touches) -> (r: bool)
    ensures
        r == pointer_went_down(*buttons, *touches),
{
    buttons_any_just_pressed(buttons, MouseButton::Left, MouseButton::Middle, MouseButton::Right)
        || touches_any_just_pressed(touches)
}

/// Whether a pointer went up this frame (see `pointer_went_up`).
pub fn pointer_released(buttons: &Input<MouseButton>, touches: &Touches) -> (r: bool)
    ensures
        r == pointer_went_up(*buttons, *touches),
{
    buttons_any_just_released(buttons, MouseButton::Left, MouseButton::Middle, MouseButton::Right)
        || touches_any_just_released(touches)
}

} // verus!
