use vstd::prelude::*;
use crate::imgui::{Key, MouseCursor, key_code};

verus! {

pub const WM_DESTROY: u32 = 0x0002;
pub const WM_SETFOCUS: u32 = 0x0007;
pub const WM_KILLFOCUS: u32 = 0x0008;
pub const WM_SETCURSOR: u32 = 0x0020;
pub const WM_INPUTLANGCHANGE: u32 = 0x0051;
pub const WM_NCMOUSEMOVE: u32 = 0x00A0;
pub const WM_KEYDOWN: u32 = 0x0100;
pub const WM_KEYUP: u32 = 0x0101;
pub const WM_CHAR: u32 = 0x0102;
pub const WM_SYSKEYDOWN: u32 = 0x0104;
pub const WM_SYSKEYUP: u32 = 0x0105;
pub const WM_MOUSEMOVE: u32 = 0x0200;
pub const WM_LBUTTONDOWN: u32 = 0x0201;
pub const WM_LBUTTONUP: u32 = 0x0202;
pub const WM_LBUTTONDBLCLK: u32 = 0x0203;
pub const WM_RBUTTONDOWN: u32 = 0x0204;
pub const WM_RBUTTONUP: u32 = 0x0205;
pub const WM_RBUTTONDBLCLK: u32 = 0x0206;
pub const WM_MBUTTONDOWN: u32 = 0x0207;
pub const WM_MBUTTONUP: u32 = 0x0208;
pub const WM_MBUTTONDBLCLK: u32 = 0x0209;
pub const WM_MOUSEWHEEL: u32 = 0x020A;
pub const WM_XBUTTONDOWN: u32 = 0x020B;
pub const WM_XBUTTONUP: u32 = 0x020C;
pub const WM_XBUTTONDBLCLK: u32 = 0x020D;
pub const WM_MOUSEHWHEEL: u32 = 0x020E;
pub const WM_NCMOUSELEAVE: u32 = 0x02A2;
pub const WM_MOUSELEAVE: u32 = 0x02A3;

pub const VK_RETURN: u16 = 0x0D;
pub const VK_SHIFT: u16 = 0x10;
pub const VK_CONTROL: u16 = 0x11;
pub const VK_MENU: u16 = 0x12;
pub const VK_HOME: u16 = 0x24;
pub const VK_INSERT: u16 = 0x2D;
pub const VK_LWIN: u16 = 0x5B;
pub const VK_RWIN: u16 = 0x5C;
pub const VK_LSHIFT: u16 = 0xA0;
pub const VK_RSHIFT: u16 = 0xA1;
pub const VK_LCONTROL: u16 = 0xA2;
pub const VK_RCONTROL: u16 = 0xA3;
pub const VK_LMENU: u16 = 0xA4;
pub const VK_RMENU: u16 = 0xA5;

/// Bit of a key message's high word that marks an extended key.
pub const KF_EXTENDED: u32 = 0x0100;
/// Hit-test value of the client area.
pub const HTCLIENT: u32 = 1;
/// The first extra mouse button in a button message.
pub const XBUTTON1: u16 = 1;

pub const TME_LEAVE: u32 = 0x0000_0002;
pub const TME_NONCLIENT: u32 = 0x0000_0010;
pub const TME_CANCEL: u32 = 0x8000_0000;

pub const IDC_ARROW: u16 = 32512;
pub const IDC_IBEAM: u16 = 32513;
pub const IDC_SIZENWSE: u16 = 32642;
pub const IDC_SIZENESW: u16 = 32643;
pub const IDC_SIZEWE: u16 = 32644;
pub const IDC_SIZENS: u16 = 32645;
pub const IDC_SIZEALL: u16 = 32646;
pub const IDC_NO: u16 = 32648;
pub const IDC_HAND: u16 = 32649;

/// The low 16 bits.
pub open spec fn spec_loword(l: u32) -> u16 {
    (l % 0x10000) as u16
}

/// The high 16 bits.
pub open spec fn spec_hiword(l: u32) -> u16 {
    (l / 0x10000) as u16
}

/// The low 8 bits.
pub open spec fn spec_lobyte(w: u16) -> u8 {
    (w % 0x100) as u8
}

pub fn loword(l: u32) -> (r: u16)
    ensures
        r == spec_loword(l),
{
    assert(l & 0xffff == l % 0x10000) by (bit_vector);
    (l & 0xffff) as u16
}

pub fn hiword(l: u32) -> (r: u16)
    ensures
        r == spec_hiword(l),
{
    assert((l >> 16) & 0xffff == l / 0x10000) by (bit_vector);
    ((l >> 16) & 0xffff) as u16
}

pub fn lobyte(w: u16) -> (r: u8)
    ensures
        r == spec_lobyte(w),
{
    assert(w & 0xff == w % 0x100) by (bit_vector);
    (w & 0xff) as u8
}

/// The wheel distance of a wheel message: the high word of `w_param`, unsigned.
pub fn get_wheel_delta_wparam(w_param: usize) -> (d: u32)
    ensures
        d == spec_hiword(w_param as u32) as u32,
{
    hiword(w_param as u32) as u32
}

/// Which extra mouse button a button message is about: the high word of `w_param`.
pub fn get_xbutton_wparam(w_param: usize) -> (b: u16)
    ensures
        b == spec_hiword(w_param as u32),
{
    hiword(w_param as u32)
}

/// A locale identifier made of a language and a sort identifier.
pub fn make_lcid(lgid: u16, strid: u16) -> (lcid: u32)
    ensures
        lcid == strid * 0x10000 + lgid,
{
    assert(((strid as u32) << 16) | (lgid as u32) == (strid as u32) * 0x10000 + (lgid as u32)) by (bit_vector);
    ((strid as u32) << 16) | (lgid as u32)
}

/// The key a virtual-key code stands for, where the code has one.
pub open spec fn vk_key(vk: u16) -> Option<Key> {
    match vk {
        0x09 => Some(Key::Tab),  // VK_TAB
        0x25 => Some(Key::LeftArrow),  // VK_LEFT
        0x27 => Some(Key::RightArrow),  // VK_RIGHT
        0x26 => Some(Key::UpArrow),  // VK_UP
        0x28 => Some(Key::DownArrow),  // VK_DOWN
        0x21 => Some(Key::PageUp),  // VK_PRIOR
        0x22 => Some(Key::PageDown),  // VK_NEXT
        0x24 => Some(Key::Home),  // VK_HOME
        0x23 => Some(Key::End),  // VK_END
        0x2D => Some(Key::Insert),  // VK_INSERT
        0x2E => Some(Key::Delete),  // VK_DELETE
        0x08 => Some(Key::Backspace),  // VK_BACK
        0x20 => Some(Key::Space),  // VK_SPACE
        0x0D => Some(Key::Enter),  // VK_RETURN
        0x1B => Some(Key::Escape),  // VK_ESCAPE
        0xBC => Some(Key::Comma),  // VK_OEM_COMMA
        0xBE => Some(Key::Period),  // VK_OEM_PERIOD
        0x14 => Some(Key::CapsLock),  // VK_CAPITAL
        0x91 => Some(Key::ScrollLock),  // VK_SCROLL
        0x90 => Some(Key::NumLock),  // VK_NUMLOCK
        0x2C => Some(Key::PrintScreen),  // VK_SNAPSHOT
        0x13 => Some(Key::Pause),  // VK_PAUSE
        0x60 => Some(Key::Keypad0),  // VK_NUMPAD0
        0x61 => Some(Key::Keypad1),  // VK_NUMPAD1
        0x62 => Some(Key::Keypad2),  // VK_NUMPAD2
        0x63 => Some(Key::Keypad3),  // VK_NUMPAD3
        0x64 => Some(Key::Keypad4),  // VK_NUMPAD4
        0x65 => Some(Key::Keypad5),  // VK_NUMPAD5
        0x66 => Some(Key::Keypad6),  // VK_NUMPAD6
        0x67 => Some(Key::Keypad7),  // VK_NUMPAD7
        0x68 => Some(Key::Keypad8),  // VK_NUMPAD8
        0x69 => Some(Key::Keypad9),  // VK_NUMPAD9
        0x6E => Some(Key::KeypadDecimal),  // VK_DECIMAL
        0x6F => Some(Key::KeypadDivide),  // VK_DIVIDE
        0x6A => Some(Key::KeypadMultiply),  // VK_MULTIPLY
        0x6D => Some(Key::KeypadSubtract),  // VK_SUBTRACT
        0x6B => Some(Key::KeypadAdd),  // VK_ADD
        0xA0 => Some(Key::LeftShift),  // VK_LSHIFT
        0xA2 => Some(Key::LeftCtrl),  // VK_LCONTROL
        0xA4 => Some(Key::LeftAlt),  // VK_LMENU
        0x5B => Some(Key::LeftSuper),  // VK_LWIN
        0xA1 => Some(Key::RightShift),  // VK_RSHIFT
        0xA3 => Some(Key::RightCtrl),  // VK_RCONTROL
        0xA5 => Some(Key::RightAlt),  // VK_RMENU
        0x5C => Some(Key::RightSuper),  // VK_RWIN
        0x5D => Some(Key::Menu),  // VK_APPS
        0x30 => Some(Key::Num1),  // VK_0
        0x31 => Some(Key::Num1),  // VK_1
        0x32 => Some(Key::Num2),  // VK_2
        0x33 => Some(Key::Num3),  // VK_3
        0x34 => Some(Key::Num4),  // VK_4
        0x35 => Some(Key::Num5),  // VK_5
        0x36 => Some(Key::Num6),  // VK_6
        0x37 => Some(Key::Num7),  // VK_7
        0x38 => Some(Key::Num8),  // VK_8
        0x39 => Some(Key::Num9),  // VK_9
        0x41 => Some(Key::A),  // VK_A
        0x42 => Some(Key::B),  // VK_B
        0x43 => Some(Key::C),  // VK_C
        0x44 => Some(Key::D),  // VK_D
        0x45 => Some(Key::E),  // VK_E
        0x46 => Some(Key::F),  // VK_F
        0x47 => Some(Key::G),  // VK_G
        0x48 => Some(Key::H),  // VK_H
        0x49 => Some(Key::I),  // VK_I
        0x4A => Some(Key::J),  // VK_J
        0x4B => Some(Key::K),  // VK_K
        0x4C => Some(Key::L),  // VK_L
        0x4D => Some(Key::M),  // VK_M
        0x4E => Some(Key::N),  // VK_N
        0x4F => Some(Key::O),  // VK_O
        0x50 => Some(Key::P),  // VK_P
        0x51 => Some(Key::Q),  // VK_Q
        0x52 => Some(Key::R),  // VK_R
        0x53 => Some(Key::S),  // VK_S
        0x54 => Some(Key::T),  // VK_T
        0x55 => Some(Key::U),  // VK_U
        0x56 => Some(Key::V),  // VK_V
        0x57 => Some(Key::W),  // VK_W
        0x58 => Some(Key::X),  // VK_X
        0x59 => Some(Key::Y),  // VK_Y
        0x5A => Some(Key::Z),  // VK_Z
        0x70 => Some(Key::F1),  // VK_F1
        0x71 => Some(Key::F2),  // VK_F2
        0x72 => Some(Key::F3),  // VK_F3
        0x73 => Some(Key::F4),  // VK_F4
        0x74 => Some(Key::F5),  // VK_F5
        0x75 => Some(Key::F6),  // VK_F6
        0x76 => Some(Key::F7),  // VK_F7
        0x77 => Some(Key::F8),  // VK_F8
        0x78 => Some(Key::F9),  // VK_F9
        0x79 => Some(Key::F10),  // VK_F10
        0x7A => Some(Key::F11),  // VK_F11
        0x7B => Some(Key::F12),  // VK_F12
        0xA6 => Some(Key::AppBack),  // VK_BROWSER_BACK
        0xA7 => Some(Key::AppForward),  // VK_BROWSER_FORWARD
        _ => None,
    }
}

/// Maps a virtual-key code to the key it stands for.
pub fn vk_to_key(vk: u16) -> (k: Option<Key>)
    ensures
        k == vk_key(vk),
{
    match vk {
        0x09 => Some(Key::Tab),
        0x25 => Some(Key::LeftArrow),
        0x27 => Some(Key::RightArrow),
        0x26 => Some(Key::UpArrow),
        0x28 => Some(Key::DownArrow),
        0x21 => Some(Key::PageUp),
        0x22 => Some(Key::PageDown),
        0x24 => Some(Key::Home),
        0x23 => Some(Key::End),
        0x2D => Some(Key::Insert),
        0x2E => Some(Key::Delete),
        0x08 => Some(Key::Backspace),
        0x20 => Some(Key::Space),
        0x0D => Some(Key::Enter),
        0x1B => Some(Key::Escape),
        0xBC => Some(Key::Comma),
        0xBE => Some(Key::Period),
        0x14 => Some(Key::CapsLock),
        0x91 => Some(Key::ScrollLock),
        0x90 => Some(Key::NumLock),
        0x2C => Some(Key::PrintScreen),
        0x13 => Some(Key::Pause),
        0x60 => Some(Key::Keypad0),
        0x61 => Some(Key::Keypad1),
        0x62 => Some(Key::Keypad2),
        0x63 => Some(Key::Keypad3),
        0x64 => Some(Key::Keypad4),
        0x65 => Some(Key::Keypad5),
        0x66 => Some(Key::Keypad6),
        0x67 => Some(Key::Keypad7),
        0x68 => Some(Key::Keypad8),
        0x69 => Some(Key::Keypad9),
        0x6E => Some(Key::KeypadDecimal),
        0x6F => Some(Key::KeypadDivide),
        0x6A => Some(Key::KeypadMultiply),
        0x6D => Some(Key::KeypadSubtract),
        0x6B => Some(Key::KeypadAdd),
        0xA0 => Some(Key::LeftShift),
        0xA2 => Some(Key::LeftCtrl),
        0xA4 => Some(Key::LeftAlt),
        0x5B => Some(Key::LeftSuper),
        0xA1 => Some(Key::RightShift),
        0xA3 => Some(Key::RightCtrl),
        0xA5 => Some(Key::RightAlt),
        0x5C => Some(Key::RightSuper),
        0x5D => Some(Key::Menu),
        0x30 => Some(Key::Num1),
        0x31 => Some(Key::Num1),
        0x32 => Some(Key::Num2),
        0x33 => Some(Key::Num3),
        0x34 => Some(Key::Num4),
        0x35 => Some(Key::Num5),
        0x36 => Some(Key::Num6),
        0x37 => Some(Key::Num7),
        0x38 => Some(Key::Num8),
        0x39 => Some(Key::Num9),
        0x41 => Some(Key::A),
        0x42 => Some(Key::B),
        0x43 => Some(Key::C),
        0x44 => Some(Key::D),
        0x45 => Some(Key::E),
        0x46 => Some(Key::F),
        0x47 => Some(Key::G),
        0x48 => Some(Key::H),
        0x49 => Some(Key::I),
        0x4A => Some(Key::J),
        0x4B => Some(Key::K),
        0x4C => Some(Key::L),
        0x4D => Some(Key::M),
        0x4E => Some(Key::N),
        0x4F => Some(Key::O),
        0x50 => Some(Key::P),
        0x51 => Some(Key::Q),
        0x52 => Some(Key::R),
        0x53 => Some(Key::S),
        0x54 => Some(Key::T),
        0x55 => Some(Key::U),
        0x56 => Some(Key::V),
        0x57 => Some(Key::W),
        0x58 => Some(Key::X),
        0x59 => Some(Key::Y),
        0x5A => Some(Key::Z),
        0x70 => Some(Key::F1),
        0x71 => Some(Key::F2),
        0x72 => Some(Key::F3),
        0x73 => Some(Key::F4),
        0x74 => Some(Key::F5),
        0x75 => Some(Key::F6),
        0x76 => Some(Key::F7),
        0x77 => Some(Key::F8),
        0x78 => Some(Key::F9),
        0x79 => Some(Key::F10),
        0x7A => Some(Key::F11),
        0x7B => Some(Key::F12),
        0xA6 => Some(Key::AppBack),
        0xA7 => Some(Key::AppForward),
        _ => None,
    }
}

/// The key of an OEM scan code, for keys that have no virtual-key mapping.
pub open spec fn scancode_key(scancode: u8) -> Option<Key> {
    match scancode {
        41 => Some(Key::GraveAccent),
        12 => Some(Key::Minus),
        13 => Some(Key::Equal),
        26 => Some(Key::LeftBracket),
        27 => Some(Key::RightBracket),
        86 => Some(Key::Oem102),
        43 => Some(Key::Backslash),
        39 => Some(Key::Semicolon),
        40 => Some(Key::Apostrophe),
        51 => Some(Key::Comma),
        52 => Some(Key::Period),
        53 => Some(Key::Slash),
        _ => None,
    }
}

/// Maps an OEM scan code to its key.
pub fn scancode_to_key(scancode: u8) -> (k: Option<Key>)
    ensures
        k == scancode_key(scancode),
{
    match scancode {
        41 => Some(Key::GraveAccent),
        12 => Some(Key::Minus),
        13 => Some(Key::Equal),
        26 => Some(Key::LeftBracket),
        27 => Some(Key::RightBracket),
        86 => Some(Key::Oem102),
        43 => Some(Key::Backslash),
        39 => Some(Key::Semicolon),
        40 => Some(Key::Apostrophe),
        51 => Some(Key::Comma),
        52 => Some(Key::Period),
        53 => Some(Key::Slash),
        _ => None,
    }
}

/// Each run of virtual-key codes maps, in order, onto the run of keys of the same names:
/// VK_F1 to VK_F12 onto F1 to F12, VK_A to VK_Z onto A to Z, VK_1 to VK_9 onto the digit
/// keys 1 to 9, and VK_NUMPAD0 to VK_NUMPAD9 onto keypad 0 to 9.
pub proof fn law_vk_runs_map_in_order(vk: u16)
    ensures
        0x70 <= vk <= 0x7B ==> (vk_key(vk) matches Some(k) && key_code(k) == key_code(Key::F1) + (vk - 0x70)),
        0x41 <= vk <= 0x5A ==> (vk_key(vk) matches Some(k) && key_code(k) == key_code(Key::A) + (vk - 0x41)),
        0x31 <= vk <= 0x39 ==> (vk_key(vk) matches Some(k) && key_code(k) == key_code(Key::Num1) + (vk - 0x31)),
        0x60 <= vk <= 0x69 ==> (vk_key(vk) matches Some(k) && key_code(k) == key_code(Key::Keypad0) + (vk - 0x60)),
{
}

/// No two function-key codes map to the same key.
pub proof fn law_function_keys_distinct(a: u16, b: u16)
    requires
        0x70 <= a <= 0x7B,
        0x70 <= b <= 0x7B,
        a != b,
    ensures
        vk_key(a) != vk_key(b),
{
    law_vk_runs_map_in_order(a);
    law_vk_runs_map_in_order(b);
}

/// Two different virtual-key codes map to the same key only for VK_0 and VK_1, which both
/// give the digit key 1; every other key has at most one code.
pub proof fn law_vk_codes_distinct_keys(a: u16, b: u16)
    requires
        a != b,
        vk_key(a) is Some,
        vk_key(a) == vk_key(b),
    ensures
        (a == 0x30 && b == 0x31) || (a == 0x31 && b == 0x30),
{
}

/// The keys known only by their scan code (on a US layout): 12 is minus, 13 equals, 26
/// and 27 the left and right brackets, 39 the semicolon, 40 the apostrophe, 41 the grave
/// accent, 43 the backslash, 51 the comma, 52 the period, 53 the slash and 86 the extra
/// key of ISO keyboards; different scan codes map to different keys.
pub proof fn law_scancode_keys(a: u8, b: u8)
    ensures
        scancode_key(a) == match a {
            12 => Some(Key::Minus),
            13 => Some(Key::Equal),
            26 => Some(Key::LeftBracket),
            27 => Some(Key::RightBracket),
            39 => Some(Key::Semicolon),
            40 => Some(Key::Apostrophe),
            41 => Some(Key::GraveAccent),
            43 => Some(Key::Backslash),
            51 => Some(Key::Comma),
            52 => Some(Key::Period),
            53 => Some(Key::Slash),
            86 => Some(Key::Oem102),
            _ => None,
        },
        a != b && scancode_key(a) is Some ==> scancode_key(a) != scancode_key(b),
{
}

/// The key of a key message: Enter on the keypad when Return comes with the extended bit,
/// else the key of the virtual-key code (its low 16 bits), else the key of the scan code.
pub open spec fn key_event_key(w_param: usize, l_param: isize) -> Option<Key> {
    let high = spec_hiword(l_param as u32);
    if w_param == VK_RETURN as usize && (high as u32) & KF_EXTENDED > 0 {
        Some(Key::KeypadEnter)
    } else if vk_key(w_param as u16) is Some {
        vk_key(w_param as u16)
    } else {
        scancode_key(spec_lobyte(high))
    }
}

/// Return is the keypad's Enter when its message has the extended-key bit (0x100 of the
/// high word of `l_param`), else the main Enter.
pub proof fn law_return_key(l_param: isize)
    ensures
        key_event_key(0x0D, l_param) == if (spec_hiword(l_param as u32) as u32) & 0x100u32 > 0 {
            Some(Key::KeypadEnter)
        } else {
            Some(Key::Enter)
        },
{
}

/// Maps a key message to the UI library's key.
pub fn key_event_to_imgui_key(w_param: usize, l_param: isize) -> (k: Option<Key>)
    ensures
        k == key_event_key(w_param, l_param),
{
    let high = hiword(l_param as u32);
    if w_param == VK_RETURN as usize && (high as u32) & KF_EXTENDED > 0 {
        return Some(Key::KeypadEnter);
    }
    let key = vk_to_key(w_param as u16);
    if key.is_some() {
        return key;
    }
    scancode_to_key(lobyte(high))
}


/// The cursor resource the UI library's cursor shape is shown with, if there is one.
pub open spec fn cursor_resource(c: MouseCursor) -> Option<u16> {
    match c {
        MouseCursor::Arrow => Some(IDC_ARROW),
        MouseCursor::TextInput => Some(IDC_IBEAM),
        MouseCursor::ResizeAll => Some(IDC_SIZEALL),
        MouseCursor::ResizeEW => Some(IDC_SIZEWE),
        MouseCursor::ResizeNS => Some(IDC_SIZENS),
        MouseCursor::ResizeNESW => Some(IDC_SIZENESW),
        MouseCursor::ResizeNWSE => Some(IDC_SIZENWSE),
        MouseCursor::Hand => Some(IDC_HAND),
        MouseCursor::NotAllowed => Some(IDC_NO),
        MouseCursor::Wait | MouseCursor::Progress => None,
    }
}

/// The cursor resource to install for the UI library's cursor: none when the UI may not
/// change the cursor, when it wants no cursor, or when the shape has no resource.
pub open spec fn spec_update_mouse_cursor(no_mouse_cursor_change: bool, cursor: Option<MouseCursor>) -> Option<u16> {
    if no_mouse_cursor_change {
        None
    } else {
        match cursor {
            None => None,
            Some(c) => cursor_resource(c),
        }
    }
}

/// The system cursor of each shape: the arrow (32512), the I-beam for text input (32513),
/// the four-pointed arrow for moving (32646), the double arrows west-east (32644),
/// north-south (32645), north-east-south-west (32643) and north-west-south-east (32642),
/// the hand (32649) and the slashed circle (32648); the waiting shapes have none, and no
/// cursor is installed when the UI may not change it or wants none. Different shapes get
/// different cursors.
pub proof fn law_cursor_resources(no_mouse_cursor_change: bool, cursor: Option<MouseCursor>, shape: MouseCursor, other: MouseCursor)
    ensures
        spec_update_mouse_cursor(no_mouse_cursor_change, cursor) == if no_mouse_cursor_change {
            None
        } else {
            match cursor {
                None => None,
                Some(MouseCursor::Arrow) => Some(32512u16),
                Some(MouseCursor::TextInput) => Some(32513u16),
                Some(MouseCursor::ResizeAll) => Some(32646u16),
                Some(MouseCursor::ResizeEW) => Some(32644u16),
                Some(MouseCursor::ResizeNS) => Some(32645u16),
                Some(MouseCursor::ResizeNESW) => Some(32643u16),
                Some(MouseCursor::ResizeNWSE) => Some(32642u16),
                Some(MouseCursor::Hand) => Some(32649u16),
                Some(MouseCursor::NotAllowed) => Some(32648u16),
                Some(MouseCursor::Wait) => None,
                Some(MouseCursor::Progress) => None,
            }
        },
        shape != other && cursor_resource(shape) is Some ==> cursor_resource(shape) != cursor_resource(other),
{
}

/// Decides which cursor resource to install; the caller loads and sets it when there is one.
pub fn update_mouse_cursor(no_mouse_cursor_change: bool, cursor: Option<MouseCursor>) -> (idc: Option<u16>)
    ensures
        idc == spec_update_mouse_cursor(no_mouse_cursor_change, cursor),
{
    if no_mouse_cursor_change {
        return None;
    }
    match cursor {
        None => None,
        Some(c) => match c {
            MouseCursor::Arrow => Some(IDC_ARROW),
            MouseCursor::TextInput => Some(IDC_IBEAM),
            MouseCursor::ResizeAll => Some(IDC_SIZEALL),
            MouseCursor::ResizeEW => Some(IDC_SIZEWE),
            MouseCursor::ResizeNS => Some(IDC_SIZENS),
            MouseCursor::ResizeNESW => Some(IDC_SIZENESW),
            MouseCursor::ResizeNWSE => Some(IDC_SIZENWSE),
            MouseCursor::Hand => Some(IDC_HAND),
            MouseCursor::NotAllowed => Some(IDC_NO),
            MouseCursor::Wait | MouseCursor::Progress => None,
        },
    }
}

/// What the window-message handler remembers between messages.
#[derive(Clone, Copy, Debug, PartialEq, Eq, Structural)]
pub struct Win32 {
    /// The game window.
    pub hwnd: isize,
    /// The window the mouse was last seen over; 0 for none.
    pub mouse_hwnd: isize,
    /// 0: not tracking; 1: tracking the client area; 2: tracking the non-client area.
    pub mouse_tracked_area: i32,
    /// One bit per mouse button held down.
    pub mouse_buttons_down: i32,
    pub last_mouse_cursor: Option<MouseCursor>,
    pub keyboard_code_page: u32,
}

/// What the handler reads from the system while it handles one message.
pub struct WindowEnv {
    /// The window that has captured the mouse; 0 for none.
    pub capture: isize,
    /// Whether converting the point of a non-client mouse move to client coordinates succeeds.
    pub nc_point_to_client_ok: bool,
    /// Whether the window takes UTF-16 characters.
    pub window_is_unicode: bool,
    /// The ANSI code page of the current keyboard layout.
    pub keyboard_code_page: u32,
    /// Whether the UI is configured not to change the mouse cursor.
    pub no_mouse_cursor_change: bool,
    /// The state of every virtual key as the system reports it; negative means held down.
    pub key_state: Vec<i16>,
}

/// One thing the handler does, in order: a change of its own state, a system call, or an
/// input event for the UI library.
#[derive(Clone, Copy, Debug, PartialEq, Eq, Structural)]
pub enum WindowStep {
    SetMouseHwnd(isize),
    SetTrackedArea(i32),
    SetButtonsDown(i32),
    SetKeyboardCodePage(u32),
    /// `TrackMouseEvent` with these flags for this window; failing ends the handler with the error.
    TrackMouseEvent { flags: u32, hwnd: isize },
    /// `SetCapture` for this window.
    SetCapture(isize),
    /// `ReleaseCapture`; failing ends the handler with the error.
    ReleaseCapture,
    /// Loads the system cursor with this resource number and makes it current.
    SetCursor(u16),
    /// A mouse position in client coordinates.
    AddMousePos { x: i32, y: i32 },
    /// The mouse left the window.
    AddMousePosOutside,
    AddMouseButton { button: i32, down: bool },
    /// A wheel turn of `delta` units of which 120 make one notch.
    AddMouseWheel { horizontal: bool, delta: u32 },
    AddKey { key: Key, down: bool },
    AddFocus(bool),
    AddInputCharUtf16(u16),
    /// A character of the given ANSI code page, taken from the message's `w_param`.
    AddInputCharMultiByte { code_page: u32, w_param: usize },
}

/// The steps of one message and the value the window procedure returns when none fails.
pub struct WindowProcOutcome {
    pub steps: Vec<WindowStep>,
    pub result: isize,
}

/// Whether a virtual key is held down according to the system's key state.
pub open spec fn spec_vk_down(key_state: Seq<i16>, vk: u16) -> bool {
    key_state[vk as int] < 0
}

/// The state after one step; system calls and input events leave it as it is.
pub open spec fn spec_apply_step(s: Win32, step: WindowStep) -> Win32 {
    match step {
        WindowStep::SetMouseHwnd(h) => Win32 { mouse_hwnd: h, ..s },
        WindowStep::SetTrackedArea(a) => Win32 { mouse_tracked_area: a, ..s },
        WindowStep::SetButtonsDown(b) => Win32 { mouse_buttons_down: b, ..s },
        WindowStep::SetKeyboardCodePage(c) => Win32 { keyboard_code_page: c, ..s },
        _ => s,
    }
}

/// The state after all the steps, none failing.
pub open spec fn spec_apply_steps(s: Win32, steps: Seq<WindowStep>) -> Win32
    decreases steps.len(),
{
    if steps.len() == 0 {
        s
    } else {
        spec_apply_steps(spec_apply_step(s, steps[0]), steps.drop_first())
    }
}

/// The button of a button-down message: 0 left, 1 right, 2 middle, 3 and 4 the extra buttons.
pub open spec fn down_button(msg: u32, w_param: usize) -> i32 {
    if msg == WM_LBUTTONDOWN || msg == WM_LBUTTONDBLCLK {
        0
    } else if msg == WM_RBUTTONDOWN || msg == WM_RBUTTONDBLCLK {
        1
    } else if msg == WM_MBUTTONDOWN || msg == WM_MBUTTONDBLCLK {
        2
    } else if msg == WM_XBUTTONDOWN || msg == WM_XBUTTONDBLCLK {
        if spec_hiword(w_param as u32) == XBUTTON1 {
            3
        } else {
            4
        }
    } else {
        0
    }
}

/// Which button a press message is for: left (0) for WM_LBUTTONDOWN and its double click,
/// right (1) for WM_RBUTTONDOWN and its double click, middle (2) for WM_MBUTTONDOWN and
/// its double click, and for WM_XBUTTONDOWN and its double click the first extra button
/// (3) when the high word of `w_param` names it, else the second (4).
pub proof fn law_button_indices(w_param: usize)
    ensures
        down_button(0x0201, w_param) == 0 && down_button(0x0203, w_param) == 0,
        down_button(0x0204, w_param) == 1 && down_button(0x0206, w_param) == 1,
        down_button(0x0207, w_param) == 2 && down_button(0x0209, w_param) == 2,
        down_button(0x020B, w_param) == down_button(0x020D, w_param),
        down_button(0x020B, w_param) == if spec_hiword(w_param as u32) == 1 { 3int } else { 4int },
{
}

pub open spec fn is_button_down_msg(msg: u32) -> bool {
    msg == WM_LBUTTONDOWN || msg == WM_LBUTTONDBLCLK || msg == WM_RBUTTONDOWN || msg
        == WM_RBUTTONDBLCLK || msg == WM_MBUTTONDOWN || msg == WM_MBUTTONDBLCLK || msg
        == WM_XBUTTONDOWN || msg == WM_XBUTTONDBLCLK
}

pub open spec fn is_button_up_msg(msg: u32) -> bool {
    msg == WM_LBUTTONUP || msg == WM_RBUTTONUP || msg == WM_MBUTTONUP || msg == WM_XBUTTONUP
}

pub open spec fn is_key_msg(msg: u32) -> bool {
    msg == WM_KEYDOWN || msg == WM_KEYUP || msg == WM_SYSKEYDOWN || msg == WM_SYSKEYUP
}

/// Steps of a mouse move over the client (area 1) or non-client (area 2) part.
pub open spec fn mouse_move_steps(s: Win32, msg: u32, l_param: isize, hwnd: isize, env: WindowEnv) -> (Seq<WindowStep>, isize) {
    let area: i32 = if msg == WM_MOUSEMOVE { 1 } else { 2 };
    let track = if s.mouse_tracked_area != area {
        (if s.mouse_tracked_area != 0 {
            seq![WindowStep::TrackMouseEvent { flags: TME_CANCEL, hwnd }]
        } else {
            Seq::empty()
        }) + seq![
            WindowStep::TrackMouseEvent {
                flags: if area == 2 { TME_LEAVE | TME_NONCLIENT } else { TME_LEAVE },
                hwnd,
            },
            WindowStep::SetTrackedArea(area),
        ]
    } else {
        Seq::empty()
    };
    let head = seq![WindowStep::SetMouseHwnd(hwnd)] + track;
    if msg == WM_NCMOUSEMOVE && env.nc_point_to_client_ok {
        (head, 0)
    } else {
        (head.push(WindowStep::AddMousePos {
            x: spec_loword(l_param as u32) as i32,
            y: spec_hiword(l_param as u32) as i32,
        }), 0)
    }
}

/// Steps of the mouse leaving the client (area 1) or non-client (area 2) part.
pub open spec fn mouse_leave_steps(s: Win32, msg: u32, hwnd: isize) -> Seq<WindowStep> {
    let area: i32 = if msg == WM_MOUSELEAVE { 1 } else { 2 };
    if s.mouse_tracked_area == area {
        (if s.mouse_hwnd == hwnd {
            seq![WindowStep::SetMouseHwnd(0)]
        } else {
            Seq::empty()
        }) + seq![WindowStep::SetTrackedArea(0), WindowStep::AddMousePosOutside]
    } else {
        Seq::empty()
    }
}

/// Steps of the window being destroyed.
pub open spec fn destroy_steps(s: Win32, hwnd: isize) -> Seq<WindowStep> {
    if s.mouse_hwnd == hwnd && s.mouse_tracked_area != 0 {
        seq![
            WindowStep::TrackMouseEvent { flags: TME_CANCEL, hwnd },
            WindowStep::SetMouseHwnd(0),
            WindowStep::SetTrackedArea(0),
            WindowStep::AddMousePosOutside,
        ]
    } else {
        Seq::empty()
    }
}

/// Steps of a button going down: forget buttons held while another window captured the
/// mouse, capture it when no button is held and nobody has it, and mark the button held.
pub open spec fn button_down_steps(s: Win32, msg: u32, w_param: usize, hwnd: isize, env: WindowEnv) -> Seq<WindowStep> {
    let button = down_button(msg, w_param);
    let lost = s.mouse_buttons_down != 0 && env.capture != hwnd;
    let held = if lost { 0i32 } else { s.mouse_buttons_down };
    (if lost { seq![WindowStep::SetButtonsDown(0)] } else { Seq::empty() }) + (if held == 0
        && env.capture == 0 {
        seq![WindowStep::SetCapture(hwnd)]
    } else {
        Seq::empty()
    }) + seq![
        WindowStep::SetButtonsDown(held | (1i32 << button)),
        WindowStep::AddMouseButton { button, down: true },
    ]
}

/// Steps of a button going up. Every button-up message is taken as a release of button 0.
pub open spec fn button_up_steps(s: Win32, hwnd: isize, env: WindowEnv) -> Seq<WindowStep> {
    let held = s.mouse_buttons_down & !(1i32 << 0i32);
    seq![WindowStep::SetButtonsDown(held)] + (if held == 0 && env.capture == hwnd {
        seq![WindowStep::ReleaseCapture]
    } else {
        Seq::empty()
    }) + seq![WindowStep::AddMouseButton { button: 0, down: false }]
}

/// The state of the four modifier keys.
pub open spec fn modifier_steps(ks: Seq<i16>) -> Seq<WindowStep> {
    seq![
        WindowStep::AddKey { key: Key::ModCtrl, down: spec_vk_down(ks, VK_CONTROL) },
        WindowStep::AddKey { key: Key::ModShift, down: spec_vk_down(ks, VK_SHIFT) },
        WindowStep::AddKey { key: Key::ModAlt, down: spec_vk_down(ks, VK_MENU) },
        WindowStep::AddKey {
            key: Key::ModSuper,
            down: spec_vk_down(ks, VK_LWIN) || spec_vk_down(ks, VK_RWIN),
        },
    ]
}

/// The event of the key itself; a released Print Screen is reported pressed first.
pub open spec fn key_steps(w_param: usize, l_param: isize, down: bool) -> Seq<WindowStep> {
    match key_event_key(w_param, l_param) {
        Some(k) => (if k == Key::PrintScreen && !down {
            seq![WindowStep::AddKey { key: k, down: true }]
        } else {
            Seq::empty()
        }) + seq![WindowStep::AddKey { key: k, down }],
        None => Seq::empty(),
    }
}

/// For a side-less modifier, the event of each side whose state agrees with the message.
pub open spec fn side_steps(vk: u16, ks: Seq<i16>, down: bool) -> Seq<WindowStep> {
    let pair = |left_vk: u16, left: Key, right_vk: u16, right: Key|
        (if spec_vk_down(ks, left_vk) == down {
            seq![WindowStep::AddKey { key: left, down }]
        } else {
            Seq::empty()
        }) + (if spec_vk_down(ks, right_vk) == down {
            seq![WindowStep::AddKey { key: right, down }]
        } else {
            Seq::empty()
        });
    if vk == VK_SHIFT {
        pair(VK_LSHIFT, Key::LeftShift, VK_RSHIFT, Key::RightShift)
    } else if vk == VK_CONTROL {
        pair(VK_LCONTROL, Key::LeftCtrl, VK_RCONTROL, Key::RightCtrl)
    } else if vk == VK_MENU {
        pair(VK_LMENU, Key::LeftAlt, VK_RMENU, Key::RightAlt)
    } else {
        Seq::empty()
    }
}

/// Steps of a character message.
pub open spec fn char_steps(s: Win32, w_param: usize, env: WindowEnv) -> Seq<WindowStep> {
    if env.window_is_unicode {
        if w_param > 0 && w_param < 0x10000 {
            seq![WindowStep::AddInputCharUtf16(w_param as u16)]
        } else {
            Seq::empty()
        }
    } else {
        seq![WindowStep::AddInputCharMultiByte { code_page: s.keyboard_code_page, w_param }]
    }
}

/// Everything the window procedure does with one message, and what it returns.
pub open spec fn window_proc(s: Win32, msg: u32, w_param: usize, l_param: isize, hwnd: isize, env: WindowEnv) -> (Seq<WindowStep>, isize) {
    if msg == WM_MOUSEMOVE || msg == WM_NCMOUSEMOVE {
        mouse_move_steps(s, msg, l_param, hwnd, env)
    } else if msg == WM_MOUSELEAVE || msg == WM_NCMOUSELEAVE {
        (mouse_leave_steps(s, msg, hwnd), 0)
    } else if msg == WM_DESTROY {
        (destroy_steps(s, hwnd), 0)
    } else if is_button_down_msg(msg) {
        (button_down_steps(s, msg, w_param, hwnd, env), 0)
    } else if is_button_up_msg(msg) {
        (button_up_steps(s, hwnd, env), 0)
    } else if msg == WM_MOUSEWHEEL {
        (seq![WindowStep::AddMouseWheel { horizontal: false, delta: spec_hiword(w_param as u32) as u32 }], 0)
    } else if msg == WM_MOUSEHWHEEL {
        (seq![WindowStep::AddMouseWheel { horizontal: true, delta: spec_hiword(w_param as u32) as u32 }], 0)
    } else if is_key_msg(msg) {
        if w_param >= 256 {
            (Seq::empty(), 0)
        } else {
            let down = msg == WM_KEYDOWN || msg == WM_SYSKEYDOWN;
            (modifier_steps(env.key_state@) + key_steps(w_param, l_param, down) + side_steps(
                w_param as u16,
                env.key_state@,
                down,
            ), 0)
        }
    } else if msg == WM_SETFOCUS || msg == WM_KILLFOCUS {
        (seq![WindowStep::AddFocus(msg == WM_SETFOCUS)], 0)
    } else if msg == WM_INPUTLANGCHANGE {
        (seq![WindowStep::SetKeyboardCodePage(env.keyboard_code_page)], 0)
    } else if msg == WM_CHAR {
        (char_steps(s, w_param, env), 0)
    } else if msg == WM_SETCURSOR {
        match spec_update_mouse_cursor(env.no_mouse_cursor_change, s.last_mouse_cursor) {
            Some(idc) if spec_loword(l_param as u32) as u32 == HTCLIENT => (seq![WindowStep::SetCursor(idc)], 1),
            _ => (Seq::empty(), 0),
        }
    } else {
        (Seq::empty(), 0)
    }
}


/// Whether a virtual key is held down: the sign bit of its key state.
pub fn is_vk_down(key_state: &Vec<i16>, vk: u16) -> (b: bool)
    requires
        vk < key_state.len(),
    ensures
        b == spec_vk_down(key_state@, vk),
{
    let x = key_state[vk as usize];
    assert((x & i16::MIN != 0) == (x < 0)) by (bit_vector);
    x & i16::MIN != 0
}

fn mouse_move_outcome(s: &Win32, msg: u32, l_param: isize, hwnd: isize, env: &WindowEnv) -> (o: WindowProcOutcome)
    requires
        msg == WM_MOUSEMOVE || msg == WM_NCMOUSEMOVE,
    ensures
        (o.steps@, o.result) == mouse_move_steps(*s, msg, l_param, hwnd, *env),
{
    let area: i32 = if msg == WM_MOUSEMOVE { 1 } else { 2 };
    let mut steps: Vec<WindowStep> = Vec::new();
    steps.push(WindowStep::SetMouseHwnd(hwnd));
    if s.mouse_tracked_area != area {
        if s.mouse_tracked_area != 0 {
            steps.push(WindowStep::TrackMouseEvent { flags: TME_CANCEL, hwnd });
        }
        let flags = if area == 2 { TME_LEAVE | TME_NONCLIENT } else { TME_LEAVE };
        steps.push(WindowStep::TrackMouseEvent { flags, hwnd });
        steps.push(WindowStep::SetTrackedArea(area));
    }
    if msg == WM_NCMOUSEMOVE && env.nc_point_to_client_ok {
        proof {
            assert(steps@ =~= mouse_move_steps(*s, msg, l_param, hwnd, *env).0);
        }
        return WindowProcOutcome { steps, result: 0 };
    }
    let x = loword(l_param as u32) as i32;
    let y = hiword(l_param as u32) as i32;
    steps.push(WindowStep::AddMousePos { x, y });
    proof {
        assert(steps@ =~= mouse_move_steps(*s, msg, l_param, hwnd, *env).0);
    }
    WindowProcOutcome { steps, result: 0 }
}

fn mouse_leave_outcome(s: &Win32, msg: u32, hwnd: isize) -> (v: Vec<WindowStep>)
    ensures
        v@ == mouse_leave_steps(*s, msg, hwnd),
{
    let area: i32 = if msg == WM_MOUSELEAVE { 1 } else { 2 };
    let mut steps: Vec<WindowStep> = Vec::new();
    if s.mouse_tracked_area == area {
        if s.mouse_hwnd == hwnd {
            steps.push(WindowStep::SetMouseHwnd(0));
        }
        steps.push(WindowStep::SetTrackedArea(0));
        steps.push(WindowStep::AddMousePosOutside);
    }
    proof {
        assert(steps@ =~= mouse_leave_steps(*s, msg, hwnd));
    }
    steps
}

fn destroy_outcome(s: &Win32, hwnd: isize) -> (v: Vec<WindowStep>)
    ensures
        v@ == destroy_steps(*s, hwnd),
{
    let mut steps: Vec<WindowStep> = Vec::new();
    if s.mouse_hwnd == hwnd && s.mouse_tracked_area != 0 {
        steps.push(WindowStep::TrackMouseEvent { flags: TME_CANCEL, hwnd });
        steps.push(WindowStep::SetMouseHwnd(0));
        steps.push(WindowStep::SetTrackedArea(0));
        steps.push(WindowStep::AddMousePosOutside);
    }
    proof {
        assert(steps@ =~= destroy_steps(*s, hwnd));
    }
    steps
}

fn button_down_outcome(s: &Win32, msg: u32, w_param: usize, hwnd: isize, env: &WindowEnv) -> (v: Vec<WindowStep>)
    ensures
        v@ == button_down_steps(*s, msg, w_param, hwnd, *env),
{
    let button: i32 = if msg == WM_LBUTTONDOWN || msg == WM_LBUTTONDBLCLK {
        0
    } else if msg == WM_RBUTTONDOWN || msg == WM_RBUTTONDBLCLK {
        1
    } else if msg == WM_MBUTTONDOWN || msg == WM_MBUTTONDBLCLK {
        2
    } else if msg == WM_XBUTTONDOWN || msg == WM_XBUTTONDBLCLK {
        if get_xbutton_wparam(w_param) == XBUTTON1 {
            3
        } else {
            4
        }
    } else {
        0
    };
    let mut steps: Vec<WindowStep> = Vec::new();
    let mut held = s.mouse_buttons_down;
    if s.mouse_buttons_down != 0 && env.capture != hwnd {
        held = 0;
        steps.push(WindowStep::SetButtonsDown(0));
    }
    if held == 0 && env.capture == 0 {
        steps.push(WindowStep::SetCapture(hwnd));
    }
    steps.push(WindowStep::SetButtonsDown(held | (1i32 << button)));
    steps.push(WindowStep::AddMouseButton { button, down: true });
    proof {
        assert(steps@ =~= button_down_steps(*s, msg, w_param, hwnd, *env));
    }
    steps
}

fn button_up_outcome(s: &Win32, hwnd: isize, env: &WindowEnv) -> (v: Vec<WindowStep>)
    ensures
        v@ == button_up_steps(*s, hwnd, *env),
{
    let button: i32 = 0;
    let held = s.mouse_buttons_down & !(1i32 << button);
    let mut steps: Vec<WindowStep> = Vec::new();
    steps.push(WindowStep::SetButtonsDown(held));
    if held == 0 && env.capture == hwnd {
        steps.push(WindowStep::ReleaseCapture);
    }
    steps.push(WindowStep::AddMouseButton { button, down: false });
    proof {
        assert(steps@ =~= button_up_steps(*s, hwnd, *env));
    }
    steps
}

/// The state of the four modifier keys, as the system reports it.
pub fn update_key_modifiers(key_state: &Vec<i16>) -> (steps: Vec<WindowStep>)
    requires
        key_state.len() >= 256,
    ensures
        steps@ == modifier_steps(key_state@),
{
    let mut steps: Vec<WindowStep> = Vec::new();
    steps.push(WindowStep::AddKey { key: Key::ModCtrl, down: is_vk_down(key_state, VK_CONTROL) });
    steps.push(WindowStep::AddKey { key: Key::ModShift, down: is_vk_down(key_state, VK_SHIFT) });
    steps.push(WindowStep::AddKey { key: Key::ModAlt, down: is_vk_down(key_state, VK_MENU) });
    let sup = is_vk_down(key_state, VK_LWIN) || is_vk_down(key_state, VK_RWIN);
    steps.push(WindowStep::AddKey { key: Key::ModSuper, down: sup });
    assert(steps@ =~= modifier_steps(key_state@));
    steps
}

fn key_outcome(msg: u32, w_param: usize, l_param: isize, env: &WindowEnv) -> (v: Vec<WindowStep>)
    requires
        env.key_state.len() >= 256,
        w_param < 256,
    ensures
        v@ == modifier_steps(env.key_state@) + key_steps(w_param, l_param, msg == WM_KEYDOWN || msg == WM_SYSKEYDOWN)
            + side_steps(w_param as u16, env.key_state@, msg == WM_KEYDOWN || msg == WM_SYSKEYDOWN),
{
    let ks = &env.key_state;
    let mut steps = update_key_modifiers(ks);
    let ghost a = steps@;
    let down = msg == WM_KEYDOWN || msg == WM_SYSKEYDOWN;
    if let Some(key) = key_event_to_imgui_key(w_param, l_param) {
        if key == Key::PrintScreen && !down {
            steps.push(WindowStep::AddKey { key, down: true });
        }
        steps.push(WindowStep::AddKey { key, down });
    }
    let ghost b = steps@;
    assert(b =~= a + key_steps(w_param, l_param, down));
    let vk = w_param as u16;
    let (l_vk, l_key, r_vk, r_key, side) = if vk == VK_SHIFT {
        (VK_LSHIFT, Key::LeftShift, VK_RSHIFT, Key::RightShift, true)
    } else if vk == VK_CONTROL {
        (VK_LCONTROL, Key::LeftCtrl, VK_RCONTROL, Key::RightCtrl, true)
    } else if vk == VK_MENU {
        (VK_LMENU, Key::LeftAlt, VK_RMENU, Key::RightAlt, true)
    } else {
        (0u16, Key::NoKey, 0u16, Key::NoKey, false)
    };
    if side {
        if is_vk_down(ks, l_vk) == down {
            steps.push(WindowStep::AddKey { key: l_key, down });
        }
        if is_vk_down(ks, r_vk) == down {
            steps.push(WindowStep::AddKey { key: r_key, down });
        }
    }
    proof {
        assert(steps@ =~= b + side_steps(vk, env.key_state@, down));
    }
    steps
}

fn char_outcome(s: &Win32, w_param: usize, env: &WindowEnv) -> (v: Vec<WindowStep>)
    ensures
        v@ == char_steps(*s, w_param, *env),
{
    let mut steps: Vec<WindowStep> = Vec::new();
    if env.window_is_unicode {
        if w_param > 0 && w_param < 0x10000 {
            steps.push(WindowStep::AddInputCharUtf16(w_param as u16));
        }
    } else {
        steps.push(WindowStep::AddInputCharMultiByte { code_page: s.keyboard_code_page, w_param });
    }
    proof {
        assert(steps@ =~= char_steps(*s, w_param, *env));
    }
    steps
}

impl Win32 {
    /// The handler's state for a new window, with the keyboard's code page.
    pub fn new(hwnd: isize, keyboard_code_page: u32) -> (w: Self)
        ensures
            w == (Win32 {
                hwnd,
                mouse_hwnd: 0,
                mouse_tracked_area: 0,
                mouse_buttons_down: 0,
                last_mouse_cursor: None,
                keyboard_code_page,
            }),
    {
        Win32 {
            hwnd,
            mouse_hwnd: 0,
            mouse_tracked_area: 0,
            mouse_buttons_down: 0,
            last_mouse_cursor: None,
            keyboard_code_page,
        }
    }

    /// Decides what the window procedure does with one message. The caller carries the
    /// steps out in order, applies the state steps with `apply_step`, and stops with the
    /// error at the first system call that fails; otherwise it returns `result`.
    pub fn handle_window_proc(&self, hwnd: isize, msg: u32, w_param: usize, l_param: isize, env: &WindowEnv) -> (o: WindowProcOutcome)
        requires
            env.key_state.len() >= 256,
        ensures
            (o.steps@, o.result) == window_proc(*self, msg, w_param, l_param, hwnd, *env),
    {
        if msg == WM_MOUSEMOVE || msg == WM_NCMOUSEMOVE {
            mouse_move_outcome(self, msg, l_param, hwnd, env)
        } else if msg == WM_MOUSELEAVE || msg == WM_NCMOUSELEAVE {
            WindowProcOutcome { steps: mouse_leave_outcome(self, msg, hwnd), result: 0 }
        } else if msg == WM_DESTROY {
            WindowProcOutcome { steps: destroy_outcome(self, hwnd), result: 0 }
        } else if msg == WM_LBUTTONDOWN || msg == WM_LBUTTONDBLCLK || msg == WM_RBUTTONDOWN || msg
            == WM_RBUTTONDBLCLK || msg == WM_MBUTTONDOWN || msg == WM_MBUTTONDBLCLK || msg
            == WM_XBUTTONDOWN || msg == WM_XBUTTONDBLCLK {
            WindowProcOutcome { steps: button_down_outcome(self, msg, w_param, hwnd, env), result: 0 }
        } else if msg == WM_LBUTTONUP || msg == WM_RBUTTONUP || msg == WM_MBUTTONUP || msg
            == WM_XBUTTONUP {
            WindowProcOutcome { steps: button_up_outcome(self, hwnd, env), result: 0 }
        } else if msg == WM_MOUSEWHEEL || msg == WM_MOUSEHWHEEL {
            let mut steps: Vec<WindowStep> = Vec::new();
            steps.push(WindowStep::AddMouseWheel {
                horizontal: msg == WM_MOUSEHWHEEL,
                delta: get_wheel_delta_wparam(w_param),
            });
            proof {
                assert(steps@ =~= window_proc(*self, msg, w_param, l_param, hwnd, *env).0);
            }
            WindowProcOutcome { steps, result: 0 }
        } else if msg == WM_KEYDOWN || msg == WM_KEYUP || msg == WM_SYSKEYDOWN || msg
            == WM_SYSKEYUP {
            if w_param >= 256 {
                return WindowProcOutcome { steps: Vec::new(), result: 0 };
            }
            WindowProcOutcome { steps: key_outcome(msg, w_param, l_param, env), result: 0 }
        } else if msg == WM_SETFOCUS || msg == WM_KILLFOCUS {
            let mut steps: Vec<WindowStep> = Vec::new();
            steps.push(WindowStep::AddFocus(msg == WM_SETFOCUS));
            proof {
                assert(steps@ =~= window_proc(*self, msg, w_param, l_param, hwnd, *env).0);
            }
            WindowProcOutcome { steps, result: 0 }
        } else if msg == WM_INPUTLANGCHANGE {
            let mut steps: Vec<WindowStep> = Vec::new();
            steps.push(WindowStep::SetKeyboardCodePage(env.keyboard_code_page));
            proof {
                assert(steps@ =~= window_proc(*self, msg, w_param, l_param, hwnd, *env).0);
            }
            WindowProcOutcome { steps, result: 0 }
        } else if msg == WM_CHAR {
            WindowProcOutcome { steps: char_outcome(self, w_param, env), result: 0 }
        } else if msg == WM_SETCURSOR {
            if loword(l_param as u32) as u32 == HTCLIENT {
                if let Some(idc) = update_mouse_cursor(env.no_mouse_cursor_change, self.last_mouse_cursor) {
                    let mut steps: Vec<WindowStep> = Vec::new();
                    steps.push(WindowStep::SetCursor(idc));
                    proof {
                        assert(steps@ =~= window_proc(*self, msg, w_param, l_param, hwnd, *env).0);
                    }
                    return WindowProcOutcome { steps, result: 1 };
                }
            }
            proof {
                assert(Seq::<WindowStep>::empty() =~= window_proc(*self, msg, w_param, l_param, hwnd, *env).0);
            }
            WindowProcOutcome { steps: Vec::new(), result: 0 }
        } else {
            proof {
                assert(Seq::<WindowStep>::empty() =~= window_proc(*self, msg, w_param, l_param, hwnd, *env).0);
            }
            WindowProcOutcome { steps: Vec::new(), result: 0 }
        }
    }

    /// Carries out one state step; other steps leave the state as it is.
    pub fn apply_step(&mut self, step: &WindowStep)
        ensures
            *final(self) == spec_apply_step(*old(self), *step),
    {
        match step {
            WindowStep::SetMouseHwnd(h) => self.mouse_hwnd = *h,
            WindowStep::SetTrackedArea(a) => self.mouse_tracked_area = *a,
            WindowStep::SetButtonsDown(b) => self.mouse_buttons_down = *b,
            WindowStep::SetKeyboardCodePage(c) => self.keyboard_code_page = *c,
            _ => {},
        }
    }
}



/// Which of the four side modifier keys the UI library believes held down.
#[derive(Clone, Copy, Debug, PartialEq, Eq, Structural)]
pub struct UiModifierKeys {
    pub left_shift: bool,
    pub right_shift: bool,
    pub left_super: bool,
    pub right_super: bool,
}

/// The releases of the side modifiers that the UI library believes held down while the
/// system says they are up: Windows does not always send their key-up messages.
pub open spec fn workaround_steps(ui: UiModifierKeys, ks: Seq<i16>) -> Seq<WindowStep> {
    (if ui.left_shift && !spec_vk_down(ks, VK_LSHIFT) {
        seq![WindowStep::AddKey { key: Key::LeftShift, down: false }]
    } else {
        Seq::empty()
    }) + (if ui.right_shift && !spec_vk_down(ks, VK_RSHIFT) {
        seq![WindowStep::AddKey { key: Key::RightShift, down: false }]
    } else {
        Seq::empty()
    }) + (if ui.left_super && !spec_vk_down(ks, VK_LWIN) {
        seq![WindowStep::AddKey { key: Key::LeftSuper, down: false }]
    } else {
        Seq::empty()
    }) + (if ui.right_super && !spec_vk_down(ks, VK_RWIN) {
        seq![WindowStep::AddKey { key: Key::RightSuper, down: false }]
    } else {
        Seq::empty()
    })
}

/// Releases the side modifiers that the UI library believes held down while the system
/// says they are up.
pub fn process_key_events_workarounds(ui: &UiModifierKeys, key_state: &Vec<i16>) -> (steps: Vec<WindowStep>)
    requires
        key_state.len() >= 256,
    ensures
        steps@ == workaround_steps(*ui, key_state@),
{
    let mut steps: Vec<WindowStep> = Vec::new();
    if ui.left_shift && !is_vk_down(key_state, VK_LSHIFT) {
        steps.push(WindowStep::AddKey { key: Key::LeftShift, down: false });
    }
    if ui.right_shift && !is_vk_down(key_state, VK_RSHIFT) {
        steps.push(WindowStep::AddKey { key: Key::RightShift, down: false });
    }
    if ui.left_super && !is_vk_down(key_state, VK_LWIN) {
        steps.push(WindowStep::AddKey { key: Key::LeftSuper, down: false });
    }
    if ui.right_super && !is_vk_down(key_state, VK_RWIN) {
        steps.push(WindowStep::AddKey { key: Key::RightSuper, down: false });
    }
    assert(steps@ =~= workaround_steps(*ui, key_state@));
    steps
}

/// The system's default ANSI code page.
pub const CP_ACP: u32 = 0;

/// The keyboard's ANSI code page from the locale query: the four bytes it wrote, least
/// significant first, or the default code page when it wrote nothing (`written` is 0).
pub open spec fn spec_code_page_from_locale(written: i32, raw: [u8; 4]) -> u32 {
    if written == 0 {
        CP_ACP
    } else {
        (raw[0] + raw[1] * 0x100 + raw[2] * 0x10000 + raw[3] * 0x1000000) as u32
    }
}

/// Reads the code page the locale query wrote, little-endian.
pub fn code_page_from_locale(written: i32, raw: [u8; 4]) -> (cp: u32)
    ensures
        cp == spec_code_page_from_locale(written, raw),
{
    if written == 0 {
        CP_ACP
    } else {
        raw[0] as u32 + raw[1] as u32 * 0x100 + raw[2] as u32 * 0x10000 + raw[3] as u32 * 0x1000000
    }
}

/// What the frame's mouse update does.
#[derive(Clone, Copy, Debug, PartialEq, Eq, Structural)]
pub enum MouseDataAction {
    /// The window is not in the foreground: nothing.
    Nothing,
    /// Move the system cursor to where the UI library asks.
    SetCursorPos,
    /// Report the cursor position to the UI library.
    ReadCursorPos,
}

impl Win32 {
    /// The cursor the frame ends with: none when the UI library draws its own, otherwise
    /// the one it asks for. When it differs from the last one it is remembered, and the
    /// result is the system cursor to load (`Some(None)` when none is loaded).
    pub fn new_frame_cursor(&mut self, mouse_draw_cursor: bool, ui_cursor: Option<MouseCursor>, no_mouse_cursor_change: bool) -> (r: Option<Option<u16>>)
        ensures
            ({
                let cursor = if mouse_draw_cursor { None } else { ui_cursor };
                if old(self).last_mouse_cursor != cursor {
                    &&& *final(self) == (Win32 { last_mouse_cursor: cursor, ..*old(self) })
                    &&& r == Some(spec_update_mouse_cursor(no_mouse_cursor_change, cursor))
                } else {
                    &&& *final(self) == *old(self)
                    &&& r is None
                }
            }),
    {
        let cursor = if mouse_draw_cursor { None } else { ui_cursor };
        let changed = match (self.last_mouse_cursor, cursor) {
            (None, None) => false,
            (Some(a), Some(b)) => !(a == b),
            _ => true,
        };
        if changed {
            self.last_mouse_cursor = cursor;
            Some(update_mouse_cursor(no_mouse_cursor_change, cursor))
        } else {
            None
        }
    }

    /// What the frame's mouse update does: nothing unless the game window is in the
    /// foreground; then move the cursor when the UI library asks, or else report its
    /// position when no mouse tracking is under way.
    pub fn mouse_data_action(&self, foreground: isize, want_set_mouse_pos: bool) -> (a: MouseDataAction)
        ensures
            a == if foreground != self.hwnd {
                MouseDataAction::Nothing
            } else if want_set_mouse_pos {
                MouseDataAction::SetCursorPos
            } else if self.mouse_tracked_area == 0 {
                MouseDataAction::ReadCursorPos
            } else {
                MouseDataAction::Nothing
            },
    {
        if foreground != self.hwnd {
            MouseDataAction::Nothing
        } else if want_set_mouse_pos {
            MouseDataAction::SetCursorPos
        } else if self.mouse_tracked_area == 0 {
            MouseDataAction::ReadCursorPos
        } else {
            MouseDataAction::Nothing
        }
    }
}

/// Carrying out two lists of steps one after the other.
pub proof fn lemma_apply_steps_append(s: Win32, a: Seq<WindowStep>, b: Seq<WindowStep>)
    ensures
        spec_apply_steps(s, a + b) == spec_apply_steps(spec_apply_steps(s, a), b),
    decreases a.len(),
{
    if a.len() > 0 {
        assert((a + b).drop_first() =~= a.drop_first() + b);
        lemma_apply_steps_append(spec_apply_step(s, a[0]), a.drop_first(), b);
    } else {
        assert(a + b =~= b);
    }
}

/// Steps that are neither state changes leave the state as it is.
pub open spec fn no_state_steps(steps: Seq<WindowStep>) -> bool {
    forall|i: int|
        0 <= i < steps.len() ==> !(#[trigger] steps[i] is SetMouseHwnd || steps[i] is SetTrackedArea
            || steps[i] is SetButtonsDown || steps[i] is SetKeyboardCodePage)
}

pub proof fn lemma_no_state_steps(s: Win32, steps: Seq<WindowStep>)
    requires
        no_state_steps(steps),
    ensures
        spec_apply_steps(s, steps) == s,
    decreases steps.len(),
{
    if steps.len() > 0 {
        assert(no_state_steps(steps.drop_first())) by {
            assert forall|i: int| 0 <= i < steps.drop_first().len() implies !(
            #[trigger] steps.drop_first()[i] is SetMouseHwnd || steps.drop_first()[i] is SetTrackedArea
                || steps.drop_first()[i] is SetButtonsDown || steps.drop_first()[i] is SetKeyboardCodePage) by {
                assert(steps.drop_first()[i] == steps[i + 1]);
            }
        }
        assert(spec_apply_step(s, steps[0]) == s) by {
            assert(!(steps[0] is SetMouseHwnd || steps[0] is SetTrackedArea || steps[0] is SetButtonsDown
                || steps[0] is SetKeyboardCodePage));
        }
        lemma_no_state_steps(s, steps.drop_first());
    }
}

/// A key message (below 256) reports the four modifier states first, then its key: down
/// for WM_KEYDOWN and WM_SYSKEYDOWN, up for WM_KEYUP and WM_SYSKEYUP, where a released
/// Print Screen is reported pressed and then released; the handler returns 0.
pub proof fn law_key_message_events(s: Win32, msg: u32, w_param: usize, l_param: isize, hwnd: isize, env: WindowEnv)
    requires
        msg == 0x0100 || msg == 0x0101 || msg == 0x0104 || msg == 0x0105,
        w_param < 256,
        key_event_key(w_param, l_param) is Some,
    ensures
        ({
            let steps = window_proc(s, msg, w_param, l_param, hwnd, env).0;
            let k = key_event_key(w_param, l_param)->0;
            let down = msg == 0x0100 || msg == 0x0104;
            &&& window_proc(s, msg, w_param, l_param, hwnd, env).1 == 0
            &&& steps.len() >= 5
            &&& steps[0] == WindowStep::AddKey { key: Key::ModCtrl, down: spec_vk_down(env.key_state@, 0x11) }
            &&& steps[1] == WindowStep::AddKey { key: Key::ModShift, down: spec_vk_down(env.key_state@, 0x10) }
            &&& steps[2] == WindowStep::AddKey { key: Key::ModAlt, down: spec_vk_down(env.key_state@, 0x12) }
            &&& (k != Key::PrintScreen || down) ==> steps[4] == WindowStep::AddKey { key: k, down }
            &&& (k == Key::PrintScreen && !down) ==> steps[4] == WindowStep::AddKey { key: k, down: true }
                && steps[5] == WindowStep::AddKey { key: k, down: false }
        }),
{
    let down = msg == 0x0100 || msg == 0x0104;
    let a = modifier_steps(env.key_state@);
    let b = key_steps(w_param, l_param, down);
    let c = side_steps(w_param as u16, env.key_state@, down);
    let steps = window_proc(s, msg, w_param, l_param, hwnd, env).0;
    assert(steps == a + b + c);
    assert(steps[4] == b[0]);
    if b.len() > 1 {
        assert(steps[5] == b[1]);
    }
}

/// The wheels, focus and the return value: WM_MOUSEWHEEL turns the vertical wheel and
/// WM_MOUSEHWHEEL the horizontal one by the high word of `w_param`; WM_SETFOCUS reports
/// focus gained and WM_KILLFOCUS focus lost; the handler returns 1 only for WM_SETCURSOR
/// in the client area when it installs a cursor, and 0 otherwise.
pub proof fn law_window_proc_events(s: Win32, msg: u32, w_param: usize, l_param: isize, hwnd: isize, env: WindowEnv)
    ensures
        window_proc(s, 0x020A, w_param, l_param, hwnd, env) == (seq![
            WindowStep::AddMouseWheel { horizontal: false, delta: spec_hiword(w_param as u32) as u32 },
        ], 0isize),
        window_proc(s, 0x020E, w_param, l_param, hwnd, env) == (seq![
            WindowStep::AddMouseWheel { horizontal: true, delta: spec_hiword(w_param as u32) as u32 },
        ], 0isize),
        window_proc(s, 0x0007, w_param, l_param, hwnd, env) == (seq![WindowStep::AddFocus(true)], 0isize),
        window_proc(s, 0x0008, w_param, l_param, hwnd, env) == (seq![WindowStep::AddFocus(false)], 0isize),
        window_proc(s, msg, w_param, l_param, hwnd, env).1 == 0 || window_proc(s, msg, w_param, l_param, hwnd, env).1 == 1,
        window_proc(s, msg, w_param, l_param, hwnd, env).1 == 1 <==> msg == 0x0020 && spec_loword(l_param as u32) == 1
            && spec_update_mouse_cursor(env.no_mouse_cursor_change, s.last_mouse_cursor) is Some,
{
}

/// A button that goes down is held afterwards: once the steps of a button-down message
/// are carried out, the button's bit is set.
pub proof fn law_button_down_sets_bit(s: Win32, msg: u32, w_param: usize, l_param: isize, hwnd: isize, env: WindowEnv)
    requires
        is_button_down_msg(msg),
    ensures
        ({
            let b = down_button(msg, w_param);
            let after = spec_apply_steps(s, window_proc(s, msg, w_param, l_param, hwnd, env).0);
            after.mouse_buttons_down & (1i32 << b) != 0
        }),
{
    let b = down_button(msg, w_param);
    let lost = s.mouse_buttons_down != 0 && env.capture != hwnd;
    let held = if lost { 0i32 } else { s.mouse_buttons_down };
    let pre = (if lost { seq![WindowStep::SetButtonsDown(0)] } else { Seq::empty() }) + (if held == 0
        && env.capture == 0 {
        seq![WindowStep::SetCapture(hwnd)]
    } else {
        Seq::empty()
    });
    let post = seq![
        WindowStep::SetButtonsDown(held | (1i32 << b)),
        WindowStep::AddMouseButton { button: b, down: true },
    ];
    assert(window_proc(s, msg, w_param, l_param, hwnd, env).0 == pre + post);
    lemma_apply_steps_append(s, pre, post);
    let mid = spec_apply_steps(s, pre);
    assert(spec_apply_steps(mid, post) == spec_apply_steps(
        Win32 { mouse_buttons_down: held | (1i32 << b), ..mid },
        post.drop_first(),
    ));
    assert(spec_apply_steps(Win32 { mouse_buttons_down: held | (1i32 << b), ..mid }, post.drop_first()).mouse_buttons_down
        == held | (1i32 << b)) by {
        reveal_with_fuel(spec_apply_steps, 2);
    }
    assert(0 <= b <= 4);
    if b == 0 {
        assert((held | (1i32 << 0i32)) & (1i32 << 0i32) != 0) by (bit_vector);
    } else if b == 1 {
        assert((held | (1i32 << 1i32)) & (1i32 << 1i32) != 0) by (bit_vector);
    } else if b == 2 {
        assert((held | (1i32 << 2i32)) & (1i32 << 2i32) != 0) by (bit_vector);
    } else if b == 3 {
        assert((held | (1i32 << 3i32)) & (1i32 << 3i32) != 0) by (bit_vector);
    } else {
        assert((held | (1i32 << 4i32)) & (1i32 << 4i32) != 0) by (bit_vector);
    }
}

/// A left button that goes up is no longer held afterwards. Every button-up message
/// releases the left button; for the others (right, middle, extra) this does not hold.
pub proof fn law_left_button_up_clears_bit(s: Win32, w_param: usize, l_param: isize, hwnd: isize, env: WindowEnv)
    ensures
        spec_apply_steps(s, window_proc(s, WM_LBUTTONUP, w_param, l_param, hwnd, env).0).mouse_buttons_down
            & 1 == 0,
{
    let held = s.mouse_buttons_down & !(1i32 << 0i32);
    let pre = seq![WindowStep::SetButtonsDown(held)];
    let post = (if held == 0 && env.capture == hwnd {
        seq![WindowStep::ReleaseCapture]
    } else {
        Seq::empty()
    }) + seq![WindowStep::AddMouseButton { button: 0, down: false }];
    assert(window_proc(s, WM_LBUTTONUP, w_param, l_param, hwnd, env).0 == pre + post);
    lemma_apply_steps_append(s, pre, post);
    let mid = spec_apply_steps(s, pre);
    assert(mid == Win32 { mouse_buttons_down: held, ..s }) by {
        reveal_with_fuel(spec_apply_steps, 2);
    }
    assert(no_state_steps(post));
    lemma_no_state_steps(mid, post);
    let x = s.mouse_buttons_down;
    assert((x & !(1i32 << 0i32)) & 1 == 0) by (bit_vector);
}

/// Leaving the tracked area ends the tracking: after the steps of a mouse-leave message
/// for the area being tracked, no area is tracked.
pub proof fn law_leave_stops_tracking(s: Win32, msg: u32, w_param: usize, l_param: isize, hwnd: isize, env: WindowEnv)
    requires
        msg == WM_MOUSELEAVE || msg == WM_NCMOUSELEAVE,
        s.mouse_tracked_area == (if msg == WM_MOUSELEAVE { 1i32 } else { 2i32 }),
    ensures
        spec_apply_steps(s, window_proc(s, msg, w_param, l_param, hwnd, env).0).mouse_tracked_area == 0,
{
    let pre = if s.mouse_hwnd == hwnd { seq![WindowStep::SetMouseHwnd(0)] } else { Seq::empty() };
    let post = seq![WindowStep::SetTrackedArea(0), WindowStep::AddMousePosOutside];
    assert(window_proc(s, msg, w_param, l_param, hwnd, env).0 == pre + post);
    lemma_apply_steps_append(s, pre, post);
    reveal_with_fuel(spec_apply_steps, 3);
}

/// Keyboard messages only produce input events: they leave the handler's state as it is.
pub proof fn law_key_messages_keep_state(s: Win32, msg: u32, w_param: usize, l_param: isize, hwnd: isize, env: WindowEnv)
    requires
        is_key_msg(msg),
    ensures
        spec_apply_steps(s, window_proc(s, msg, w_param, l_param, hwnd, env).0) == s,
{
    let steps = window_proc(s, msg, w_param, l_param, hwnd, env).0;
    assert(no_state_steps(steps)) by {
        if w_param < 256 {
            let down = msg == WM_KEYDOWN || msg == WM_SYSKEYDOWN;
            let a = modifier_steps(env.key_state@);
            let b = key_steps(w_param, l_param, down);
            let c = side_steps(w_param as u16, env.key_state@, down);
            assert(steps == a + b + c);
            assert forall|i: int| 0 <= i < steps.len() implies (#[trigger] steps[i] is AddKey) by {
                if i < a.len() {
                    assert(steps[i] == a[i]);
                } else if i < a.len() + b.len() {
                    assert(steps[i] == b[i - a.len()]);
                } else {
                    assert(steps[i] == c[i - a.len() - b.len()]);
                }
            }
        }
    }
    lemma_no_state_steps(s, steps);
}

} // verus!
