use vstd::prelude::*;

verus! {

/// Keys and key modifiers as the immediate-mode UI library numbers them.
#[derive(Clone, Copy, Debug, PartialEq, Eq, Structural)]
pub enum Key {
    NoKey,
    Tab,
    LeftArrow,
    RightArrow,
    UpArrow,
    DownArrow,
    PageUp,
    PageDown,
    Home,
    End,
    Insert,
    Delete,
    Backspace,
    Space,
    Enter,
    Escape,
    LeftCtrl,
    LeftShift,
    LeftAlt,
    LeftSuper,
    RightCtrl,
    RightShift,
    RightAlt,
    RightSuper,
    Menu,
    Num0,
    Num1,
    Num2,
    Num3,
    Num4,
    Num5,
    Num6,
    Num7,
    Num8,
    Num9,
    A,
    B,
    C,
    D,
    E,
    F,
    G,
    H,
    I,
    J,
    K,
    L,
    M,
    N,
    O,
    P,
    Q,
    R,
    S,
    T,
    U,
    V,
    W,
    X,
    Y,
    Z,
    F1,
    F2,
    F3,
    F4,
    F5,
    F6,
    F7,
    F8,
    F9,
    F10,
    F11,
    F12,
    Apostrophe,
    Comma,
    Minus,
    Period,
    Slash,
    Semicolon,
    Equal,
    LeftBracket,
    Backslash,
    RightBracket,
    GraveAccent,
    CapsLock,
    ScrollLock,
    NumLock,
    PrintScreen,
    Pause,
    Keypad0,
    Keypad1,
    Keypad2,
    Keypad3,
    Keypad4,
    Keypad5,
    Keypad6,
    Keypad7,
    Keypad8,
    Keypad9,
    KeypadDecimal,
    KeypadDivide,
    KeypadMultiply,
    KeypadSubtract,
    KeypadAdd,
    KeypadEnter,
    KeypadEqual,
    AppBack,
    AppForward,
    Oem102,
    MouseLeft,
    MouseRight,
    MouseMiddle,
    MouseX1,
    MouseX2,
    MouseWheelX,
    MouseWheelY,
    ModCtrl,
    ModShift,
    ModAlt,
    ModSuper,
}

/// The UI library's number for each key.
pub open spec fn key_code(k: Key) -> i32 {
    match k {
        Key::NoKey => 0,
        Key::Tab => 512,
        Key::LeftArrow => 513,
        Key::RightArrow => 514,
        Key::UpArrow => 515,
        Key::DownArrow => 516,
        Key::PageUp => 517,
        Key::PageDown => 518,
        Key::Home => 519,
        Key::End => 520,
        Key::Insert => 521,
        Key::Delete => 522,
        Key::Backspace => 523,
        Key::Space => 524,
        Key::Enter => 525,
        Key::Escape => 526,
        Key::LeftCtrl => 527,
        Key::LeftShift => 528,
        Key::LeftAlt => 529,
        Key::LeftSuper => 530,
        Key::RightCtrl => 531,
        Key::RightShift => 532,
        Key::RightAlt => 533,
        Key::RightSuper => 534,
        Key::Menu => 535,
        Key::Num0 => 536,
        Key::Num1 => 537,
        Key::Num2 => 538,
        Key::Num3 => 539,
        Key::Num4 => 540,
        Key::Num5 => 541,
        Key::Num6 => 542,
        Key::Num7 => 543,
        Key::Num8 => 544,
        Key::Num9 => 545,
        Key::A => 546,
        Key::B => 547,
        Key::C => 548,
        Key::D => 549,
        Key::E => 550,
        Key::F => 551,
        Key::G => 552,
        Key::H => 553,
        Key::I => 554,
        Key::J => 555,
        Key::K => 556,
        Key::L => 557,
        Key::M => 558,
        Key::N => 559,
        Key::O => 560,
        Key::P => 561,
        Key::Q => 562,
        Key::R => 563,
        Key::S => 564,
        Key::T => 565,
        Key::U => 566,
        Key::V => 567,
        Key::W => 568,
        Key::X => 569,
        Key::Y => 570,
        Key::Z => 571,
        Key::F1 => 572,
        Key::F2 => 573,
        Key::F3 => 574,
        Key::F4 => 575,
        Key::F5 => 576,
        Key::F6 => 577,
        Key::F7 => 578,
        Key::F8 => 579,
        Key::F9 => 580,
        Key::F10 => 581,
        Key::F11 => 582,
        Key::F12 => 583,
        Key::Apostrophe => 596,
        Key::Comma => 597,
        Key::Minus => 598,
        Key::Period => 599,
        Key::Slash => 600,
        Key::Semicolon => 601,
        Key::Equal => 602,
        Key::LeftBracket => 603,
        Key::Backslash => 604,
        Key::RightBracket => 605,
        Key::GraveAccent => 606,
        Key::CapsLock => 607,
        Key::ScrollLock => 608,
        Key::NumLock => 609,
        Key::PrintScreen => 610,
        Key::Pause => 611,
        Key::Keypad0 => 612,
        Key::Keypad1 => 613,
        Key::Keypad2 => 614,
        Key::Keypad3 => 615,
        Key::Keypad4 => 616,
        Key::Keypad5 => 617,
        Key::Keypad6 => 618,
        Key::Keypad7 => 619,
        Key::Keypad8 => 620,
        Key::Keypad9 => 621,
        Key::KeypadDecimal => 622,
        Key::KeypadDivide => 623,
        Key::KeypadMultiply => 624,
        Key::KeypadSubtract => 625,
        Key::KeypadAdd => 626,
        Key::KeypadEnter => 627,
        Key::KeypadEqual => 628,
        Key::AppBack => 629,
        Key::AppForward => 630,
        Key::Oem102 => 631,
        Key::MouseLeft => 656,
        Key::MouseRight => 657,
        Key::MouseMiddle => 658,
        Key::MouseX1 => 659,
        Key::MouseX2 => 660,
        Key::MouseWheelX => 661,
        Key::MouseWheelY => 662,
        Key::ModCtrl => 4096,
        Key::ModShift => 8192,
        Key::ModAlt => 16384,
        Key::ModSuper => 32768,
    }
}

impl Key {
    /// The UI library's number for this key.
    pub fn code(&self) -> (c: i32)
        ensures
            c == key_code(*self),
    {
        match self {
            Key::NoKey => 0,
            Key::Tab => 512,
            Key::LeftArrow => 513,
            Key::RightArrow => 514,
            Key::UpArrow => 515,
            Key::DownArrow => 516,
            Key::PageUp => 517,
            Key::PageDown => 518,
            Key::Home => 519,
            Key::End => 520,
            Key::Insert => 521,
            Key::Delete => 522,
            Key::Backspace => 523,
            Key::Space => 524,
            Key::Enter => 525,
            Key::Escape => 526,
            Key::LeftCtrl => 527,
            Key::LeftShift => 528,
            Key::LeftAlt => 529,
            Key::LeftSuper => 530,
            Key::RightCtrl => 531,
            Key::RightShift => 532,
            Key::RightAlt => 533,
            Key::RightSuper => 534,
            Key::Menu => 535,
            Key::Num0 => 536,
            Key::Num1 => 537,
            Key::Num2 => 538,
            Key::Num3 => 539,
            Key::Num4 => 540,
            Key::Num5 => 541,
            Key::Num6 => 542,
            Key::Num7 => 543,
            Key::Num8 => 544,
            Key::Num9 => 545,
            Key::A => 546,
            Key::B => 547,
            Key::C => 548,
            Key::D => 549,
            Key::E => 550,
            Key::F => 551,
            Key::G => 552,
            Key::H => 553,
            Key::I => 554,
            Key::J => 555,
            Key::K => 556,
            Key::L => 557,
            Key::M => 558,
            Key::N => 559,
            Key::O => 560,
            Key::P => 561,
            Key::Q => 562,
            Key::R => 563,
            Key::S => 564,
            Key::T => 565,
            Key::U => 566,
            Key::V => 567,
            Key::W => 568,
            Key::X => 569,
            Key::Y => 570,
            Key::Z => 571,
            Key::F1 => 572,
            Key::F2 => 573,
            Key::F3 => 574,
            Key::F4 => 575,
            Key::F5 => 576,
            Key::F6 => 577,
            Key::F7 => 578,
            Key::F8 => 579,
            Key::F9 => 580,
            Key::F10 => 581,
            Key::F11 => 582,
            Key::F12 => 583,
            Key::Apostrophe => 596,
            Key::Comma => 597,
            Key::Minus => 598,
            Key::Period => 599,
            Key::Slash => 600,
            Key::Semicolon => 601,
            Key::Equal => 602,
            Key::LeftBracket => 603,
            Key::Backslash => 604,
            Key::RightBracket => 605,
            Key::GraveAccent => 606,
            Key::CapsLock => 607,
            Key::ScrollLock => 608,
            Key::NumLock => 609,
            Key::PrintScreen => 610,
            Key::Pause => 611,
            Key::Keypad0 => 612,
            Key::Keypad1 => 613,
            Key::Keypad2 => 614,
            Key::Keypad3 => 615,
            Key::Keypad4 => 616,
            Key::Keypad5 => 617,
            Key::Keypad6 => 618,
            Key::Keypad7 => 619,
            Key::Keypad8 => 620,
            Key::Keypad9 => 621,
            Key::KeypadDecimal => 622,
            Key::KeypadDivide => 623,
            Key::KeypadMultiply => 624,
            Key::KeypadSubtract => 625,
            Key::KeypadAdd => 626,
            Key::KeypadEnter => 627,
            Key::KeypadEqual => 628,
            Key::AppBack => 629,
            Key::AppForward => 630,
            Key::Oem102 => 631,
            Key::MouseLeft => 656,
            Key::MouseRight => 657,
            Key::MouseMiddle => 658,
            Key::MouseX1 => 659,
            Key::MouseX2 => 660,
            Key::MouseWheelX => 661,
            Key::MouseWheelY => 662,
            Key::ModCtrl => 4096,
            Key::ModShift => 8192,
            Key::ModAlt => 16384,
            Key::ModSuper => 32768,
        }
    }
}
/// Each key has its own number in the UI library: the named keys run from Tab at 512, and
/// the modifier flags are the bits 12 to 15.
pub proof fn law_key_codes(a: Key, b: Key)
    ensures
        a != b ==> key_code(a) != key_code(b),
        key_code(Key::Tab) == 512,
        key_code(Key::ModCtrl) == 0x1000 && key_code(Key::ModShift) == 0x2000,
        key_code(Key::ModAlt) == 0x4000 && key_code(Key::ModSuper) == 0x8000,
{
}

/// Mouse cursor shapes the UI library asks for.
#[derive(Clone, Copy, Debug, PartialEq, Eq, Structural)]
pub enum MouseCursor {
    Arrow,
    TextInput,
    ResizeAll,
    ResizeNS,
    ResizeEW,
    ResizeNESW,
    ResizeNWSE,
    Hand,
    Wait,
    Progress,
    NotAllowed,
}

/// The UI library's number for each cursor shape.
pub open spec fn mouse_cursor_code(c: MouseCursor) -> i32 {
    match c {
        MouseCursor::Arrow => 0,
        MouseCursor::TextInput => 1,
        MouseCursor::ResizeAll => 2,
        MouseCursor::ResizeNS => 3,
        MouseCursor::ResizeEW => 4,
        MouseCursor::ResizeNESW => 5,
        MouseCursor::ResizeNWSE => 6,
        MouseCursor::Hand => 7,
        MouseCursor::Wait => 8,
        MouseCursor::Progress => 9,
        MouseCursor::NotAllowed => 10,
    }
}

/// Decodes the cursor number the UI library reports; `-1` means it wants no cursor.
pub fn mouse_cursor_from_code(code: i32) -> (c: Option<MouseCursor>)
    requires
        -1 <= code <= 10,
    ensures
        code == -1 <==> c is None,
        c matches Some(m) ==> mouse_cursor_code(m) == code,
{
    if code == -1 {
        None
    } else if code == 0 {
        Some(MouseCursor::Arrow)
    } else if code == 1 {
        Some(MouseCursor::TextInput)
    } else if code == 2 {
        Some(MouseCursor::ResizeAll)
    } else if code == 3 {
        Some(MouseCursor::ResizeNS)
    } else if code == 4 {
        Some(MouseCursor::ResizeEW)
    } else if code == 5 {
        Some(MouseCursor::ResizeNESW)
    } else if code == 6 {
        Some(MouseCursor::ResizeNWSE)
    } else if code == 7 {
        Some(MouseCursor::Hand)
    } else if code == 8 {
        Some(MouseCursor::Wait)
    } else if code == 9 {
        Some(MouseCursor::Progress)
    } else {
        Some(MouseCursor::NotAllowed)
    }
}

} // verus!
