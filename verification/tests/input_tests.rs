use dopamine::imgui::{mouse_cursor_from_code, Key, MouseCursor};
use dopamine::win32::{
    code_page_from_locale, get_wheel_delta_wparam, get_xbutton_wparam, hiword, is_vk_down, key_event_to_imgui_key,
    lobyte, loword, make_lcid, process_key_events_workarounds, update_key_modifiers, scancode_to_key, update_mouse_cursor, vk_to_key,
    MouseDataAction, UiModifierKeys, Win32, WindowEnv, WindowStep, CP_ACP, IDC_ARROW, IDC_HAND, TME_CANCEL,
    TME_LEAVE, TME_NONCLIENT, VK_CONTROL, VK_LSHIFT, VK_RSHIFT, VK_SHIFT, WM_CHAR, WM_DESTROY, WM_INPUTLANGCHANGE,
    WM_KEYDOWN, WM_KEYUP, WM_KILLFOCUS, WM_LBUTTONDOWN, WM_LBUTTONUP, WM_MOUSEHWHEEL, WM_MOUSELEAVE, WM_MOUSEMOVE,
    WM_NCMOUSEMOVE, WM_RBUTTONDOWN, WM_RBUTTONUP, WM_SETCURSOR, WM_SETFOCUS, WM_XBUTTONDOWN,
};

const HWND: isize = 0x1234;

fn env() -> WindowEnv {
    WindowEnv {
        capture: 0,
        nc_point_to_client_ok: false,
        window_is_unicode: true,
        keyboard_code_page: 1252,
        no_mouse_cursor_change: false,
        key_state: vec![0i16; 256],
    }
}

fn run(s: &mut Win32, msg: u32, w: usize, l: isize, e: &WindowEnv) -> (Vec<WindowStep>, isize) {
    let o = s.handle_window_proc(HWND, msg, w, l, e);
    for step in &o.steps {
        s.apply_step(step);
    }
    (o.steps, o.result)
}

#[test]
fn word_and_byte_helpers() {
    assert_eq!(loword(0x1234_5678), 0x5678);
    assert_eq!(hiword(0x1234_5678), 0x1234);
    assert_eq!(lobyte(0xABCD), 0xCD);
    assert_eq!(get_wheel_delta_wparam(0x0078_0000), 0x78);
    assert_eq!(get_xbutton_wparam(0x0002_0000), 2);
    assert_eq!(make_lcid(0x0409, 0), 0x0409);
    assert_eq!(make_lcid(0x0409, 1), 0x0001_0409);
}

#[test]
fn virtual_keys_and_scan_codes() {
    assert_eq!(vk_to_key(0x41), Some(Key::A));
    assert_eq!(vk_to_key(0x70), Some(Key::F1));
    assert_eq!(vk_to_key(0x31), Some(Key::Num1));
    assert_eq!(vk_to_key(0x30), Some(Key::Num1));
    assert_eq!(vk_to_key(0xFF), None);
    assert_eq!(scancode_to_key(41), Some(Key::GraveAccent));
    assert_eq!(scancode_to_key(2), None);
    assert_eq!(Key::LeftShift.code(), 528);
    assert_eq!(Key::A.code(), 546);
}

#[test]
fn key_events_prefer_keypad_enter_then_vk_then_scan_code() {
    assert_eq!(key_event_to_imgui_key(0x0D, 0x0100_0000), Some(Key::KeypadEnter));
    assert_eq!(key_event_to_imgui_key(0x0D, 0), Some(Key::Enter));
    assert_eq!(key_event_to_imgui_key(0xBA, 39 << 16), Some(Key::Semicolon));
    assert_eq!(key_event_to_imgui_key(0xBA, 0), None);
}

#[test]
fn cursor_shapes() {
    assert_eq!(update_mouse_cursor(false, Some(MouseCursor::Arrow)), Some(IDC_ARROW));
    assert_eq!(update_mouse_cursor(false, Some(MouseCursor::Hand)), Some(IDC_HAND));
    assert_eq!(update_mouse_cursor(false, Some(MouseCursor::Wait)), None);
    assert_eq!(update_mouse_cursor(true, Some(MouseCursor::Arrow)), None);
    assert_eq!(update_mouse_cursor(false, None), None);
    assert_eq!(mouse_cursor_from_code(-1), None);
    assert_eq!(mouse_cursor_from_code(7), Some(MouseCursor::Hand));
    assert_eq!(mouse_cursor_from_code(10), Some(MouseCursor::NotAllowed));
}

#[test]
fn mouse_move_starts_tracking_and_reports_position() {
    let mut s = Win32::new(HWND, 1252);
    let (steps, r) = run(&mut s, WM_MOUSEMOVE, 0, (20 << 16) | 10, &env());
    assert_eq!(r, 0);
    assert_eq!(
        steps,
        vec![
            WindowStep::SetMouseHwnd(HWND),
            WindowStep::TrackMouseEvent { flags: TME_LEAVE, hwnd: HWND },
            WindowStep::SetTrackedArea(1),
            WindowStep::AddMousePos { x: 10, y: 20 },
        ]
    );
    assert_eq!(s.mouse_tracked_area, 1);
    let (steps, _) = run(&mut s, WM_NCMOUSEMOVE, 0, 0, &env());
    assert_eq!(
        steps,
        vec![
            WindowStep::SetMouseHwnd(HWND),
            WindowStep::TrackMouseEvent { flags: TME_CANCEL, hwnd: HWND },
            WindowStep::TrackMouseEvent { flags: TME_LEAVE | TME_NONCLIENT, hwnd: HWND },
            WindowStep::SetTrackedArea(2),
            WindowStep::AddMousePos { x: 0, y: 0 },
        ]
    );
}

#[test]
fn mouse_leave_stops_tracking() {
    let mut s = Win32::new(HWND, 1252);
    run(&mut s, WM_MOUSEMOVE, 0, 0, &env());
    let (steps, _) = run(&mut s, WM_MOUSELEAVE, 0, 0, &env());
    assert_eq!(
        steps,
        vec![WindowStep::SetMouseHwnd(0), WindowStep::SetTrackedArea(0), WindowStep::AddMousePosOutside]
    );
    assert_eq!(s.mouse_tracked_area, 0);
    let (steps, _) = run(&mut s, WM_MOUSELEAVE, 0, 0, &env());
    assert!(steps.is_empty());
}

#[test]
fn buttons_capture_and_release() {
    let mut s = Win32::new(HWND, 1252);
    let (steps, _) = run(&mut s, WM_LBUTTONDOWN, 0, 0, &env());
    assert_eq!(
        steps,
        vec![
            WindowStep::SetCapture(HWND),
            WindowStep::SetButtonsDown(1),
            WindowStep::AddMouseButton { button: 0, down: true },
        ]
    );
    let mut captured = env();
    captured.capture = HWND;
    let (steps, _) = run(&mut s, WM_RBUTTONDOWN, 0, 0, &captured);
    assert_eq!(steps, vec![WindowStep::SetButtonsDown(3), WindowStep::AddMouseButton { button: 1, down: true }]);
    // Every button-up message releases button 0.
    let (steps, _) = run(&mut s, WM_RBUTTONUP, 0, 0, &captured);
    assert_eq!(steps, vec![WindowStep::SetButtonsDown(2), WindowStep::AddMouseButton { button: 0, down: false }]);
    let (steps, _) = run(&mut s, WM_LBUTTONUP, 0, 0, &captured);
    assert_eq!(steps, vec![WindowStep::SetButtonsDown(2), WindowStep::AddMouseButton { button: 0, down: false }]);
    let mut s2 = Win32::new(HWND, 1252);
    let (steps, _) = run(&mut s2, WM_XBUTTONDOWN, 0x0002_0000, 0, &env());
    assert_eq!(steps.last(), Some(&WindowStep::AddMouseButton { button: 4, down: true }));
    let (steps, _) = run(&mut s2, WM_LBUTTONUP, 0, 0, &captured);
    assert_eq!(steps, vec![WindowStep::SetButtonsDown(16), WindowStep::AddMouseButton { button: 0, down: false }]);
}

#[test]
fn key_messages_report_modifiers_key_and_sides() {
    let s = Win32::new(HWND, 1252);
    let mut e = env();
    e.key_state[VK_SHIFT as usize] = -128;
    e.key_state[VK_LSHIFT as usize] = -128;
    let o = s.handle_window_proc(HWND, WM_KEYDOWN, VK_SHIFT as usize, 0, &e);
    assert_eq!(
        o.steps,
        vec![
            WindowStep::AddKey { key: Key::ModCtrl, down: false },
            WindowStep::AddKey { key: Key::ModShift, down: true },
            WindowStep::AddKey { key: Key::ModAlt, down: false },
            WindowStep::AddKey { key: Key::ModSuper, down: false },
            WindowStep::AddKey { key: Key::LeftShift, down: true },
        ]
    );
    let o = s.handle_window_proc(HWND, WM_KEYUP, 0x2C, 0, &env());
    assert_eq!(
        &o.steps[4..],
        &[WindowStep::AddKey { key: Key::PrintScreen, down: true }, WindowStep::AddKey { key: Key::PrintScreen, down: false }]
    );
    let o = s.handle_window_proc(HWND, WM_KEYDOWN, 300, 0, &env());
    assert!(o.steps.is_empty());
    assert!(!is_vk_down(&env().key_state, VK_CONTROL));
}

#[test]
fn focus_wheel_chars_and_layout() {
    let mut s = Win32::new(HWND, 1252);
    assert_eq!(run(&mut s, WM_SETFOCUS, 0, 0, &env()).0, vec![WindowStep::AddFocus(true)]);
    assert_eq!(run(&mut s, WM_KILLFOCUS, 0, 0, &env()).0, vec![WindowStep::AddFocus(false)]);
    assert_eq!(
        run(&mut s, WM_MOUSEHWHEEL, 0xFF88_0000, 0, &env()).0,
        vec![WindowStep::AddMouseWheel { horizontal: true, delta: 0xFF88 }]
    );
    assert_eq!(run(&mut s, WM_CHAR, 0x41, 0, &env()).0, vec![WindowStep::AddInputCharUtf16(0x41)]);
    assert!(run(&mut s, WM_CHAR, 0, 0, &env()).0.is_empty());
    let mut ansi = env();
    ansi.window_is_unicode = false;
    assert_eq!(
        run(&mut s, WM_CHAR, 0xE9, 0, &ansi).0,
        vec![WindowStep::AddInputCharMultiByte { code_page: 1252, w_param: 0xE9 }]
    );
    let mut layout = env();
    layout.keyboard_code_page = 1251;
    run(&mut s, WM_INPUTLANGCHANGE, 0, 0, &layout);
    assert_eq!(s.keyboard_code_page, 1251);
}

#[test]
fn set_cursor_only_in_client_area_with_a_shape() {
    let mut s = Win32::new(HWND, 1252);
    assert_eq!(run(&mut s, WM_SETCURSOR, 0, 1, &env()), (vec![], 0));
    s.last_mouse_cursor = Some(MouseCursor::Arrow);
    assert_eq!(run(&mut s, WM_SETCURSOR, 0, 1, &env()), (vec![WindowStep::SetCursor(IDC_ARROW)], 1));
    assert_eq!(run(&mut s, WM_SETCURSOR, 0, 2, &env()), (vec![], 0));
}

#[test]
fn destroy_cancels_tracking() {
    let mut s = Win32::new(HWND, 1252);
    run(&mut s, WM_MOUSEMOVE, 0, 0, &env());
    let (steps, _) = run(&mut s, WM_DESTROY, 0, 0, &env());
    assert_eq!(
        steps,
        vec![
            WindowStep::TrackMouseEvent { flags: TME_CANCEL, hwnd: HWND },
            WindowStep::SetMouseHwnd(0),
            WindowStep::SetTrackedArea(0),
            WindowStep::AddMousePosOutside,
        ]
    );
}

#[test]
fn side_modifier_workarounds_release_stuck_keys() {
    let mut ks = vec![0i16; 256];
    ks[VK_RSHIFT as usize] = -1;
    let ui = UiModifierKeys { left_shift: true, right_shift: true, left_super: false, right_super: false };
    assert_eq!(process_key_events_workarounds(&ui, &ks), vec![WindowStep::AddKey { key: Key::LeftShift, down: false }]);
}

#[test]
fn code_page_from_locale_bytes() {
    assert_eq!(code_page_from_locale(0, [1, 2, 3, 4]), CP_ACP);
    assert_eq!(code_page_from_locale(4, [0xE4, 0x04, 0, 0]), 1252);
}

#[test]
fn frame_cursor_changes_only_on_difference() {
    let mut s = Win32::new(HWND, 1252);
    assert_eq!(s.new_frame_cursor(false, Some(MouseCursor::Hand), false), Some(Some(IDC_HAND)));
    assert_eq!(s.last_mouse_cursor, Some(MouseCursor::Hand));
    assert_eq!(s.new_frame_cursor(false, Some(MouseCursor::Hand), false), None);
    assert_eq!(s.new_frame_cursor(true, Some(MouseCursor::Hand), false), Some(None));
    assert_eq!(s.last_mouse_cursor, None);
}

#[test]
fn mouse_data_needs_focus() {
    let mut s = Win32::new(HWND, 1252);
    assert_eq!(s.mouse_data_action(0x9999, true), MouseDataAction::Nothing);
    assert_eq!(s.mouse_data_action(HWND, true), MouseDataAction::SetCursorPos);
    assert_eq!(s.mouse_data_action(HWND, false), MouseDataAction::ReadCursorPos);
    s.mouse_tracked_area = 1;
    assert_eq!(s.mouse_data_action(HWND, false), MouseDataAction::Nothing);
}

#[test]
fn modifier_state_from_the_system() {
    let mut ks = vec![0i16; 256];
    ks[VK_CONTROL as usize] = -1;
    ks[0x5C] = -1;
    assert_eq!(
        update_key_modifiers(&ks),
        vec![
            WindowStep::AddKey { key: Key::ModCtrl, down: true },
            WindowStep::AddKey { key: Key::ModShift, down: false },
            WindowStep::AddKey { key: Key::ModAlt, down: false },
            WindowStep::AddKey { key: Key::ModSuper, down: true },
        ]
    );
}
