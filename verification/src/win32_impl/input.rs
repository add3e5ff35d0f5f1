//! The logical keys and mouse buttons of the overlay, the Win32 codes they are
//! read from, and the plain-value model of the GUI library's input state.

use vstd::prelude::*;

verus! {

// Window message identifiers.
pub const WM_SETFOCUS: u32 = 0x0007;
pub const WM_KILLFOCUS: u32 = 0x0008;
pub const WM_PAINT: u32 = 0x000F;
pub const WM_NCMOUSEMOVE: u32 = 0x00A0;
pub const WM_KEYDOWN: u32 = 0x0100;
pub const WM_KEYUP: u32 = 0x0101;
pub const WM_CHAR: u32 = 0x0102;
pub const WM_SYSKEYDOWN: u32 = 0x0104;
pub const WM_SYSKEYUP: u32 = 0x0105;
pub const WM_MOUSEMOVE: u32 = 0x0200;
pub const WM_LBUTTONDOWN: u32 = 0x0201;
pub const WM_LBUTTONUP: u32 = 0x0202;
pub const WM_LBUTTONDBLCLK: u32 = 0x0203;
pub const WM_RBUTTONDOWN: u32 = 0x0204;
pub const WM_RBUTTONUP: u32 = 0x0205;
pub const WM_RBUTTONDBLCLK: u32 = 0x0206;
pub const WM_MBUTTONDOWN: u32 = 0x0207;
pub const WM_MBUTTONUP: u32 = 0x0208;
pub const WM_MBUTTONDBLCLK: u32 = 0x0209;
pub const WM_MOUSEWHEEL: u32 = 0x020A;
pub const WM_XBUTTONDOWN: u32 = 0x020B;
pub const WM_XBUTTONUP: u32 = 0x020C;
pub const WM_XBUTTONDBLCLK: u32 = 0x020D;
pub const WM_MOUSEHWHEEL: u32 = 0x020E;

/// The value of the high word of `wparam` that names the first extended mouse
/// button.
pub const XBUTTON1: u16 = 0x0001;

/// How many wheel units make one notch.
pub const WHEEL_DELTA: i32 = 120;

// Virtual-key codes.
pub const VK_BACK: u16 = 0x08;
pub const VK_TAB: u16 = 0x09;
pub const VK_RETURN: u16 = 0x0D;
pub const VK_PAUSE: u16 = 0x13;
pub const VK_CAPITAL: u16 = 0x14;
pub const VK_ESCAPE: u16 = 0x1B;
pub const VK_SPACE: u16 = 0x20;
pub const VK_PRIOR: u16 = 0x21;
pub const VK_NEXT: u16 = 0x22;
pub const VK_END: u16 = 0x23;
pub const VK_HOME: u16 = 0x24;
pub const VK_LEFT: u16 = 0x25;
pub const VK_UP: u16 = 0x26;
pub const VK_RIGHT: u16 = 0x27;
pub const VK_DOWN: u16 = 0x28;
pub const VK_SNAPSHOT: u16 = 0x2C;
pub const VK_INSERT: u16 = 0x2D;
pub const VK_DELETE: u16 = 0x2E;
pub const VK_0: u16 = 0x30;
pub const VK_1: u16 = 0x31;
pub const VK_2: u16 = 0x32;
pub const VK_3: u16 = 0x33;
pub const VK_4: u16 = 0x34;
pub const VK_5: u16 = 0x35;
pub const VK_6: u16 = 0x36;
pub const VK_7: u16 = 0x37;
pub const VK_8: u16 = 0x38;
pub const VK_9: u16 = 0x39;
pub const VK_A: u16 = 0x41;
pub const VK_B: u16 = 0x42;
pub const VK_C: u16 = 0x43;
pub const VK_D: u16 = 0x44;
pub const VK_E: u16 = 0x45;
pub const VK_F: u16 = 0x46;
pub const VK_G: u16 = 0x47;
pub const VK_H: u16 = 0x48;
pub const VK_I: u16 = 0x49;
pub const VK_J: u16 = 0x4A;
pub const VK_K: u16 = 0x4B;
pub const VK_L: u16 = 0x4C;
pub const VK_M: u16 = 0x4D;
pub const VK_N: u16 = 0x4E;
pub const VK_O: u16 = 0x4F;
pub const VK_P: u16 = 0x50;
pub const VK_Q: u16 = 0x51;
pub const VK_R: u16 = 0x52;
pub const VK_S: u16 = 0x53;
pub const VK_T: u16 = 0x54;
pub const VK_U: u16 = 0x55;
pub const VK_V: u16 = 0x56;
pub const VK_W: u16 = 0x57;
pub const VK_X: u16 = 0x58;
pub const VK_Y: u16 = 0x59;
pub const VK_Z: u16 = 0x5A;
pub const VK_LWIN: u16 = 0x5B;
pub const VK_RWIN: u16 = 0x5C;
pub const VK_APPS: u16 = 0x5D;
pub const VK_NUMPAD0: u16 = 0x60;
pub const VK_NUMPAD1: u16 = 0x61;
pub const VK_NUMPAD2: u16 = 0x62;
pub const VK_NUMPAD3: u16 = 0x63;
pub const VK_NUMPAD4: u16 = 0x64;
pub const VK_NUMPAD5: u16 = 0x65;
pub const VK_NUMPAD6: u16 = 0x66;
pub const VK_NUMPAD7: u16 = 0x67;
pub const VK_NUMPAD8: u16 = 0x68;
pub const VK_NUMPAD9: u16 = 0x69;
pub const VK_MULTIPLY: u16 = 0x6A;
pub const VK_ADD: u16 = 0x6B;
pub const VK_SUBTRACT: u16 = 0x6D;
pub const VK_DECIMAL: u16 = 0x6E;
pub const VK_DIVIDE: u16 = 0x6F;
pub const VK_F1: u16 = 0x70;
pub const VK_F2: u16 = 0x71;
pub const VK_F3: u16 = 0x72;
pub const VK_F4: u16 = 0x73;
pub const VK_F5: u16 = 0x74;
pub const VK_F6: u16 = 0x75;
pub const VK_F7: u16 = 0x76;
pub const VK_F8: u16 = 0x77;
pub const VK_F9: u16 = 0x78;
pub const VK_F10: u16 = 0x79;
pub const VK_F11: u16 = 0x7A;
pub const VK_F12: u16 = 0x7B;
pub const VK_NUMLOCK: u16 = 0x90;
pub const VK_SCROLL: u16 = 0x91;
pub const VK_LSHIFT: u16 = 0xA0;
pub const VK_RSHIFT: u16 = 0xA1;
pub const VK_LCONTROL: u16 = 0xA2;
pub const VK_RCONTROL: u16 = 0xA3;
pub const VK_LMENU: u16 = 0xA4;
pub const VK_RMENU: u16 = 0xA5;
pub const VK_OEM_COMMA: u16 = 0xBC;
pub const VK_OEM_PERIOD: u16 = 0xBE;

/// A key of the keyboard, named by what it means rather than by where it sits.
#[derive(Debug, Clone, Copy, PartialEq, Eq, Structural)]
pub enum Key {
    Tab,
    LeftArrow,
    RightArrow,
    UpArrow,
    DownArrow,
    PageUp,
    PageDown,
    Home,
    End,
    Insert,
    Delete,
    Backspace,
    Space,
    Enter,
    Escape,
    Comma,
    Period,
    CapsLock,
    ScrollLock,
    NumLock,
    PrintScreen,
    Pause,
    Keypad0,
    Keypad1,
    Keypad2,
    Keypad3,
    Keypad4,
    Keypad5,
    Keypad6,
    Keypad7,
    Keypad8,
    Keypad9,
    KeypadDecimal,
    KeypadDivide,
    KeypadMultiply,
    KeypadSubtract,
    KeypadAdd,
    LeftShift,
    LeftCtrl,
    LeftAlt,
    LeftSuper,
    RightShift,
    RightCtrl,
    RightAlt,
    RightSuper,
    Menu,
    Alpha0,
    Alpha1,
    Alpha2,
    Alpha3,
    Alpha4,
    Alpha5,
    Alpha6,
    Alpha7,
    Alpha8,
    Alpha9,
    A,
    B,
    C,
    D,
    E,
    F,
    G,
    H,
    I,
    J,
    K,
    L,
    M,
    N,
    O,
    P,
    Q,
    R,
    S,
    T,
    U,
    V,
    W,
    X,
    Y,
    Z,
    F1,
    F2,
    F3,
    F4,
    F5,
    F6,
    F7,
    F8,
    F9,
    F10,
    F11,
    F12,
    GraveAccent,
    Minus,
    Equal,
    LeftBracket,
    RightBracket,
    Backslash,
    Semicolon,
    Apostrophe,
    Slash,
}

/// A button of the mouse.
#[derive(Debug, Clone, Copy, PartialEq, Eq, Structural)]
pub enum MouseButton {
    Left,
    Right,
    Middle,
    Extra1,
    Extra2,
}

/// The key that a virtual-key code stands for, if it stands for one whatever
/// the keyboard layout is.
pub open spec fn key_of_virtual_key(vk: u16) -> Option<Key> {
    if vk == 0x08 {
        Some(Key::Backspace)
    }     else if vk == 0x09 {
        Some(Key::Tab)
    }     else if vk == 0x0D {
        Some(Key::Enter)
    }     else if vk == 0x13 {
        Some(Key::Pause)
    }     else if vk == 0x14 {
        Some(Key::CapsLock)
    }     else if vk == 0x1B {
        Some(Key::Escape)
    }     else if vk == 0x20 {
        Some(Key::Space)
    }     else if vk == 0x21 {
        Some(Key::PageUp)
    }     else if vk == 0x22 {
        Some(Key::PageDown)
    }     else if vk == 0x23 {
        Some(Key::End)
    }     else if vk == 0x24 {
        Some(Key::Home)
    }     else if vk == 0x25 {
        Some(Key::LeftArrow)
    }     else if vk == 0x26 {
        Some(Key::UpArrow)
    }     else if vk == 0x27 {
        Some(Key::RightArrow)
    }     else if vk == 0x28 {
        Some(Key::DownArrow)
    }     else if vk == 0x2C {
        Some(Key::PrintScreen)
    }     else if vk == 0x2D {
        Some(Key::Insert)
    }     else if vk == 0x2E {
        Some(Key::Delete)
    }     else if vk == 0x30 {
        Some(Key::Alpha0)
    }     else if vk == 0x31 {
        Some(Key::Alpha1)
    }     else if vk == 0x32 {
        Some(Key::Alpha2)
    }     else if vk == 0x33 {
        Some(Key::Alpha3)
    }     else if vk == 0x34 {
        Some(Key::Alpha4)
    }     else if vk == 0x35 {
        Some(Key::Alpha5)
    }     else if vk == 0x36 {
        Some(Key::Alpha6)
    }     else if vk == 0x37 {
        Some(Key::Alpha7)
    }     else if vk == 0x38 {
        Some(Key::Alpha8)
    }     else if vk == 0x39 {
        Some(Key::Alpha9)
    }     else if vk == 0x41 {
        Some(Key::A)
    }     else if vk == 0x42 {
        Some(Key::B)
    }     else if vk == 0x43 {
        Some(Key::C)
    }     else if vk == 0x44 {
        Some(Key::D)
    }     else if vk == 0x45 {
        Some(Key::E)
    }     else if vk == 0x46 {
        Some(Key::F)
    }     else if vk == 0x47 {
        Some(Key::G)
    }     else if vk == 0x48 {
        Some(Key::H)
    }     else if vk == 0x49 {
        Some(Key::I)
    }     else if vk == 0x4A {
        Some(Key::J)
    }     else if vk == 0x4B {
        Some(Key::K)
    }     else if vk == 0x4C {
        Some(Key::L)
    }     else if vk == 0x4D {
        Some(Key::M)
    }     else if vk == 0x4E {
        Some(Key::N)
    }     else if vk == 0x4F {
        Some(Key::O)
    }     else if vk == 0x50 {
        Some(Key::P)
    }     else if vk == 0x51 {
        Some(Key::Q)
    }     else if vk == 0x52 {
        Some(Key::R)
    }     else if vk == 0x53 {
        Some(Key::S)
    }     else if vk == 0x54 {
        Some(Key::T)
    }     else if vk == 0x55 {
        Some(Key::U)
    }     else if vk == 0x56 {
        Some(Key::V)
    }     else if vk == 0x57 {
        Some(Key::W)
    }     else if vk == 0x58 {
        Some(Key::X)
    }     else if vk == 0x59 {
        Some(Key::Y)
    }     else if vk == 0x5A {
        Some(Key::Z)
    }     else if vk == 0x5B {
        Some(Key::LeftSuper)
    }     else if vk == 0x5C {
        Some(Key::RightSuper)
    }     else if vk == 0x5D {
        Some(Key::Menu)
    }     else if vk == 0x60 {
        Some(Key::Keypad0)
    }     else if vk == 0x61 {
        Some(Key::Keypad1)
    }     else if vk == 0x62 {
        Some(Key::Keypad2)
    }     else if vk == 0x63 {
        Some(Key::Keypad3)
    }     else if vk == 0x64 {
        Some(Key::Keypad4)
    }     else if vk == 0x65 {
        Some(Key::Keypad5)
    }     else if vk == 0x66 {
        Some(Key::Keypad6)
    }     else if vk == 0x67 {
        Some(Key::Keypad7)
    }     else if vk == 0x68 {
        Some(Key::Keypad8)
    }     else if vk == 0x69 {
        Some(Key::Keypad9)
    }     else if vk == 0x6A {
        Some(Key::KeypadMultiply)
    }     else if vk == 0x6B {
        Some(Key::KeypadAdd)
    }     else if vk == 0x6D {
        Some(Key::KeypadSubtract)
    }     else if vk == 0x6E {
        Some(Key::KeypadDecimal)
    }     else if vk == 0x6F {
        Some(Key::KeypadDivide)
    }     else if vk == 0x70 {
        Some(Key::F1)
    }     else if vk == 0x71 {
        Some(Key::F2)
    }     else if vk == 0x72 {
        Some(Key::F3)
    }     else if vk == 0x73 {
        Some(Key::F4)
    }     else if vk == 0x74 {
        Some(Key::F5)
    }     else if vk == 0x75 {
        Some(Key::F6)
    }     else if vk == 0x76 {
        Some(Key::F7)
    }     else if vk == 0x77 {
        Some(Key::F8)
    }     else if vk == 0x78 {
        Some(Key::F9)
    }     else if vk == 0x79 {
        Some(Key::F10)
    }     else if vk == 0x7A {
        Some(Key::F11)
    }     else if vk == 0x7B {
        Some(Key::F12)
    }     else if vk == 0x90 {
        Some(Key::NumLock)
    }     else if vk == 0x91 {
        Some(Key::ScrollLock)
    }     else if vk == 0xA0 {
        Some(Key::LeftShift)
    }     else if vk == 0xA1 {
        Some(Key::RightShift)
    }     else if vk == 0xA2 {
        Some(Key::LeftCtrl)
    }     else if vk == 0xA3 {
        Some(Key::RightCtrl)
    }     else if vk == 0xA4 {
        Some(Key::LeftAlt)
    }     else if vk == 0xA5 {
        Some(Key::RightAlt)
    }     else if vk == 0xBC {
        Some(Key::Comma)
    }     else if vk == 0xBE {
        Some(Key::Period)
    } else {
        None
    }
}

/// The key at a hardware scan code, for the punctuation keys whose virtual-key
/// code depends on the keyboard layout.
pub open spec fn key_of_scancode(scancode: u8) -> Option<Key> {
    if scancode == 12 {
        Some(Key::Minus)
    }     else if scancode == 13 {
        Some(Key::Equal)
    }     else if scancode == 26 {
        Some(Key::LeftBracket)
    }     else if scancode == 27 {
        Some(Key::RightBracket)
    }     else if scancode == 39 {
        Some(Key::Semicolon)
    }     else if scancode == 40 {
        Some(Key::Apostrophe)
    }     else if scancode == 41 {
        Some(Key::GraveAccent)
    }     else if scancode == 43 {
        Some(Key::Backslash)
    }     else if scancode == 51 {
        Some(Key::Comma)
    }     else if scancode == 52 {
        Some(Key::Period)
    }     else if scancode == 53 {
        Some(Key::Slash)
    } else {
        None
    }
}

/// Looks a virtual-key code up.
pub fn virtual_key_to_key(vk: u16) -> (key: Option<Key>)
    ensures
        key == key_of_virtual_key(vk),
{
    match vk {
        VK_TAB => Some(Key::Tab),
        VK_LEFT => Some(Key::LeftArrow),
        VK_RIGHT => Some(Key::RightArrow),
        VK_UP => Some(Key::UpArrow),
        VK_DOWN => Some(Key::DownArrow),
        VK_PRIOR => Some(Key::PageUp),
        VK_NEXT => Some(Key::PageDown),
        VK_HOME => Some(Key::Home),
        VK_END => Some(Key::End),
        VK_INSERT => Some(Key::Insert),
        VK_DELETE => Some(Key::Delete),
        VK_BACK => Some(Key::Backspace),
        VK_SPACE => Some(Key::Space),
        VK_RETURN => Some(Key::Enter),
        VK_ESCAPE => Some(Key::Escape),
        VK_OEM_COMMA => Some(Key::Comma),
        VK_OEM_PERIOD => Some(Key::Period),
        VK_CAPITAL => Some(Key::CapsLock),
        VK_SCROLL => Some(Key::ScrollLock),
        VK_NUMLOCK => Some(Key::NumLock),
        VK_SNAPSHOT => Some(Key::PrintScreen),
        VK_PAUSE => Some(Key::Pause),
        VK_NUMPAD0 => Some(Key::Keypad0),
        VK_NUMPAD1 => Some(Key::Keypad1),
        VK_NUMPAD2 => Some(Key::Keypad2),
        VK_NUMPAD3 => Some(Key::Keypad3),
        VK_NUMPAD4 => Some(Key::Keypad4),
        VK_NUMPAD5 => Some(Key::Keypad5),
        VK_NUMPAD6 => Some(Key::Keypad6),
        VK_NUMPAD7 => Some(Key::Keypad7),
        VK_NUMPAD8 => Some(Key::Keypad8),
        VK_NUMPAD9 => Some(Key::Keypad9),
        VK_DECIMAL => Some(Key::KeypadDecimal),
        VK_DIVIDE => Some(Key::KeypadDivide),
        VK_MULTIPLY => Some(Key::KeypadMultiply),
        VK_SUBTRACT => Some(Key::KeypadSubtract),
        VK_ADD => Some(Key::KeypadAdd),
        VK_LSHIFT => Some(Key::LeftShift),
        VK_LCONTROL => Some(Key::LeftCtrl),
        VK_LMENU => Some(Key::LeftAlt),
        VK_LWIN => Some(Key::LeftSuper),
        VK_RSHIFT => Some(Key::RightShift),
        VK_RCONTROL => Some(Key::RightCtrl),
        VK_RMENU => Some(Key::RightAlt),
        VK_RWIN => Some(Key::RightSuper),
        VK_APPS => Some(Key::Menu),
        VK_0 => Some(Key::Alpha0),
        VK_1 => Some(Key::Alpha1),
        VK_2 => Some(Key::Alpha2),
        VK_3 => Some(Key::Alpha3),
        VK_4 => Some(Key::Alpha4),
        VK_5 => Some(Key::Alpha5),
        VK_6 => Some(Key::Alpha6),
        VK_7 => Some(Key::Alpha7),
        VK_8 => Some(Key::Alpha8),
        VK_9 => Some(Key::Alpha9),
        VK_A => Some(Key::A),
        VK_B => Some(Key::B),
        VK_C => Some(Key::C),
        VK_D => Some(Key::D),
        VK_E => Some(Key::E),
        VK_F => Some(Key::F),
        VK_G => Some(Key::G),
        VK_H => Some(Key::H),
        VK_I => Some(Key::I),
        VK_J => Some(Key::J),
        VK_K => Some(Key::K),
        VK_L => Some(Key::L),
        VK_M => Some(Key::M),
        VK_N => Some(Key::N),
        VK_O => Some(Key::O),
        VK_P => Some(Key::P),
        VK_Q => Some(Key::Q),
        VK_R => Some(Key::R),
        VK_S => Some(Key::S),
        VK_T => Some(Key::T),
        VK_U => Some(Key::U),
        VK_V => Some(Key::V),
        VK_W => Some(Key::W),
        VK_X => Some(Key::X),
        VK_Y => Some(Key::Y),
        VK_Z => Some(Key::Z),
        VK_F1 => Some(Key::F1),
        VK_F2 => Some(Key::F2),
        VK_F3 => Some(Key::F3),
        VK_F4 => Some(Key::F4),
        VK_F5 => Some(Key::F5),
        VK_F6 => Some(Key::F6),
        VK_F7 => Some(Key::F7),
        VK_F8 => Some(Key::F8),
        VK_F9 => Some(Key::F9),
        VK_F10 => Some(Key::F10),
        VK_F11 => Some(Key::F11),
        VK_F12 => Some(Key::F12),
        _ => None,
    }
}

/// Looks a scan code up.
pub fn scancode_to_key(scancode: u8) -> (key: Option<Key>)
    ensures
        key == key_of_scancode(scancode),
{
    match scancode {
        41 => Some(Key::GraveAccent),
        12 => Some(Key::Minus),
        13 => Some(Key::Equal),
        26 => Some(Key::LeftBracket),
        27 => Some(Key::RightBracket),
        43 => Some(Key::Backslash),
        39 => Some(Key::Semicolon),
        40 => Some(Key::Apostrophe),
        51 => Some(Key::Comma),
        52 => Some(Key::Period),
        53 => Some(Key::Slash),
        _ => None,
    }
}

} // verus!
