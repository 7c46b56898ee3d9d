use evdev::KeyCode as Evdev;
use phantom_server::display_ccd::Rect;
use phantom_server::input::cursor_shape::{
    add_light_cursor_contrast_outline, cursor_bitmap_size, finish_shape, read_cursor_mask, recolour,
    shape_size, windows_capture_cursor_shape, BitmapSize,
};
use phantom_server::input::events::{coalesce_mouse_moves, InputEvent, MouseButton, Scroll};
use phantom_server::input::inject::{
    check_sent, inject_enigo, normalize_abs, release_modifiers, virtual_screen, windows_inject,
    windows_key, windows_mouse_move, windows_type_text, EvdevKey, Keyboards, SymbolInput,
    VirtualScreen, WindowsInput,
};
use phantom_server::input::keys::{
    keycode_to_enigo, keycode_to_evdev, keycode_to_windows_vk, supported_keys, KeyCode, SymbolKey,
};
use phantom_server::input::nudge::{
    nudge_windows_capture_target, windows_cursor_snapshot, windows_nudge_cursor_for_capture,
    windows_nudge_cursor_in_rect, CursorReport, Point,
};
use std::collections::hash_map::DefaultHasher;
use std::hash::{Hash, Hasher};

#[test]
fn keys_have_the_numbers_of_the_input_layer() {
    let pairs = [
        (KeyCode::A, Evdev::KEY_A),
        (KeyCode::M, Evdev::KEY_M),
        (KeyCode::Z, Evdev::KEY_Z),
        (KeyCode::Key0, Evdev::KEY_0),
        (KeyCode::Key9, Evdev::KEY_9),
        (KeyCode::F1, Evdev::KEY_F1),
        (KeyCode::F10, Evdev::KEY_F10),
        (KeyCode::F11, Evdev::KEY_F11),
        (KeyCode::F12, Evdev::KEY_F12),
        (KeyCode::LeftShift, Evdev::KEY_LEFTSHIFT),
        (KeyCode::RightCtrl, Evdev::KEY_RIGHTCTRL),
        (KeyCode::LeftMeta, Evdev::KEY_LEFTMETA),
        (KeyCode::RightMeta, Evdev::KEY_RIGHTMETA),
        (KeyCode::Up, Evdev::KEY_UP),
        (KeyCode::PageDown, Evdev::KEY_PAGEDOWN),
        (KeyCode::Enter, Evdev::KEY_ENTER),
        (KeyCode::Escape, Evdev::KEY_ESC),
        (KeyCode::Grave, Evdev::KEY_GRAVE),
        (KeyCode::Period, Evdev::KEY_DOT),
        (KeyCode::LeftBracket, Evdev::KEY_LEFTBRACE),
        (KeyCode::NumLock, Evdev::KEY_NUMLOCK),
        (KeyCode::ScrollLock, Evdev::KEY_SCROLLLOCK),
        (KeyCode::PrintScreen, Evdev::KEY_PRINT),
        (KeyCode::Pause, Evdev::KEY_PAUSE),
    ];
    let registered = supported_keys();
    for (key, code) in pairs {
        assert_eq!(keycode_to_evdev(key), code.code());
        assert!(registered.contains(&code.code()));
    }
    assert_eq!(registered.len(), 87);
    let mut distinct = registered.clone();
    distinct.sort();
    distinct.dedup();
    assert_eq!(distinct.len(), 87);
}

#[test]
fn keys_have_the_numbers_of_windows() {
    assert_eq!(keycode_to_windows_vk(KeyCode::A), Some((0x41, false)));
    assert_eq!(keycode_to_windows_vk(KeyCode::Key5), Some((0x35, false)));
    assert_eq!(keycode_to_windows_vk(KeyCode::F12), Some((0x7b, false)));
    assert_eq!(keycode_to_windows_vk(KeyCode::RightCtrl), Some((0xa3, true)));
    assert_eq!(keycode_to_windows_vk(KeyCode::LeftCtrl), Some((0xa2, false)));
    assert_eq!(keycode_to_windows_vk(KeyCode::Delete), Some((0x2e, true)));
    assert_eq!(keycode_to_windows_vk(KeyCode::Semicolon), Some((0xba, false)));
    assert_eq!(keycode_to_windows_vk(KeyCode::NumLock), Some((0x90, false)));
    assert_eq!(keycode_to_windows_vk(KeyCode::ScrollLock), None);
    assert_eq!(keycode_to_windows_vk(KeyCode::Pause), None);
}

#[test]
fn keys_have_symbols() {
    assert_eq!(keycode_to_enigo(KeyCode::Q), Some(SymbolKey::Unicode('q')));
    assert_eq!(keycode_to_enigo(KeyCode::Backslash), Some(SymbolKey::Unicode('\\')));
    assert_eq!(keycode_to_enigo(KeyCode::RightAlt), Some(SymbolKey::Alt));
    assert_eq!(keycode_to_enigo(KeyCode::Enter), Some(SymbolKey::Return));
    assert_eq!(keycode_to_enigo(KeyCode::Insert), None);
    assert_eq!(keycode_to_enigo(KeyCode::NumLock), None);
}

fn moved(x: i32) -> InputEvent {
    InputEvent::MouseMove { x, y: 0 }
}

fn button(pressed: bool) -> InputEvent {
    InputEvent::MouseButton {
        button: MouseButton::Left,
        pressed,
    }
}

#[test]
fn moves_are_coalesced_up_to_the_next_click() {
    let out = coalesce_mouse_moves(vec![moved(1), moved(2), button(true), moved(3), moved(4), button(false), moved(5), moved(6)]);
    assert_eq!(
        out,
        vec![moved(2), button(true), moved(3), moved(4), button(false), moved(6)]
    );
    assert_eq!(coalesce_mouse_moves(vec![]), vec![]);
    // A release without a press holds nothing down.
    assert_eq!(
        coalesce_mouse_moves(vec![button(false), moved(1), moved(2)]),
        vec![button(false), moved(2)]
    );
}

fn screen() -> VirtualScreen {
    virtual_screen(-100, 0, 1001, 501)
}

#[test]
fn absolute_places_span_the_screen() {
    assert_eq!(normalize_abs(-100, -100, 1001), 0);
    assert_eq!(normalize_abs(900, -100, 1001), 65_535);
    assert_eq!(normalize_abs(400, -100, 1001), 32_767);
    assert_eq!(normalize_abs(-5000, -100, 1001), 0);
    assert_eq!(normalize_abs(5000, -100, 1001), 65_535);
    assert_eq!(normalize_abs(7, 7, 0), 0);
    assert_eq!(virtual_screen(1, 2, 0, -3), VirtualScreen { x: 1, y: 2, width: 1, height: 1 });
    assert_eq!(
        windows_mouse_move(screen(), 900, 500),
        WindowsInput::Mouse { dx: 65_535, dy: 65_535, data: 0, flags: 0xc001 }
    );
}

#[test]
fn windows_is_told_of_each_event() {
    assert_eq!(
        windows_inject(&button(true), screen(), 0),
        vec![WindowsInput::Mouse { dx: 0, dy: 0, data: 0, flags: 2 }]
    );
    let middle = InputEvent::MouseButton { button: MouseButton::Middle, pressed: false };
    assert_eq!(
        windows_inject(&middle, screen(), 0),
        vec![WindowsInput::Mouse { dx: 0, dy: 0, data: 0, flags: 0x40 }]
    );
    let still = Scroll { moved: false, lines: 0, notches: 0 };
    let down = Scroll { moved: true, lines: -1, notches: -2 };
    assert_eq!(
        windows_inject(&InputEvent::MouseScroll { dx: still, dy: down }, screen(), 0),
        vec![WindowsInput::Mouse { dx: 0, dy: 0, data: (-240i32) as u32, flags: 0x800 }]
    );
    assert_eq!(
        windows_inject(&InputEvent::MouseScroll { dx: down, dy: down }, screen(), 0).len(),
        2
    );
    assert!(windows_inject(&InputEvent::MouseScroll { dx: still, dy: still }, screen(), 0).is_empty());
    let key = InputEvent::Key { key: KeyCode::Home, pressed: false };
    assert_eq!(
        windows_inject(&key, screen(), 0xe047),
        vec![WindowsInput::Key { vk: 0x24, scan: 0xe047, flags: 3 }]
    );
    let unknown = InputEvent::Key { key: KeyCode::Pause, pressed: true };
    assert!(windows_inject(&unknown, screen(), 0).is_empty());
    assert_eq!(
        windows_key(0x41, 0x1e, true, false),
        WindowsInput::Key { vk: 0x41, scan: 0x1e, flags: 0 }
    );
}

#[test]
fn text_is_typed_in_units_of_utf16() {
    let text = "aé😀";
    let inputs = windows_type_text(text);
    let units: Vec<u16> = text.encode_utf16().collect();
    assert_eq!(inputs.len(), units.len() * 2);
    for (i, unit) in units.iter().enumerate() {
        assert_eq!(inputs[2 * i], WindowsInput::Key { vk: 0, scan: *unit, flags: 4 });
        assert_eq!(inputs[2 * i + 1], WindowsInput::Key { vk: 0, scan: *unit, flags: 6 });
    }
    assert!(windows_type_text("").is_empty());
}

#[test]
fn modifiers_are_released_first() {
    let keys = release_modifiers();
    assert_eq!(keys.len(), 8);
    assert_eq!(keys[0], keycode_to_windows_vk(KeyCode::LeftShift).unwrap());
    assert_eq!(keys[7], keycode_to_windows_vk(KeyCode::RightMeta).unwrap());
}

#[test]
fn all_inputs_have_to_be_sent() {
    assert_eq!(check_sent(2, 2, ""), Ok(()));
    assert_eq!(
        check_sent(1, 2, "denied"),
        Err("SendInput sent 1/2 events: denied".to_string())
    );
}

#[test]
fn symbols_are_asked_in_order() {
    let turn = Scroll { moved: true, lines: 3, notches: 3 };
    assert_eq!(
        inject_enigo(&InputEvent::MouseScroll { dx: turn, dy: turn }),
        vec![
            SymbolInput::ScrollVertical { lines: 3 },
            SymbolInput::ScrollHorizontal { lines: 3 }
        ]
    );
    assert_eq!(inject_enigo(&moved(4)), vec![SymbolInput::MoveTo { x: 4, y: 0 }]);
    assert!(inject_enigo(&InputEvent::Key { key: KeyCode::Insert, pressed: true }).is_empty());
}

#[test]
fn a_virtual_keyboard_that_fails_is_given_up() {
    let mut keyboards = Keyboards { uinput: true };
    let key = InputEvent::Key { key: KeyCode::A, pressed: true };
    assert_eq!(keyboards.inject_key(&key), Some(EvdevKey { code: 30, value: 1 }));
    assert_eq!(keyboards.inject_key(&moved(1)), None);
    assert!(!keyboards.on_emitted(true));
    assert!(keyboards.on_emitted(false));
    assert_eq!(keyboards.inject_key(&key), None);
}

#[test]
fn pointer_is_known_from_a_report_or_its_place() {
    let report = CursorReport { x: 5, y: 6, flags: 1, handle: 77 };
    let full = windows_cursor_snapshot(Some(report), None, screen()).unwrap();
    assert!(full.visible);
    assert_eq!(full.handle, 77);
    let hidden = CursorReport { flags: 0, ..report };
    assert!(!windows_cursor_snapshot(Some(hidden), None, screen()).unwrap().visible);
    let bare = windows_cursor_snapshot(None, Some(Point { x: 1, y: 2 }), screen()).unwrap();
    assert!(bare.visible);
    assert_eq!(bare.handle, 0);
    assert!(windows_cursor_snapshot(None, None, screen()).is_none());
}

fn at(x: i32, y: i32) -> phantom_server::input::nudge::WindowsCursorSnapshot {
    windows_cursor_snapshot(None, Some(Point { x, y }), screen()).unwrap()
}

#[test]
fn nudges_come_back() {
    assert_eq!(
        windows_nudge_cursor_for_capture(&at(10, 5)),
        vec![Point { x: 11, y: 5 }, Point { x: 10, y: 5 }]
    );
    assert_eq!(
        windows_nudge_cursor_for_capture(&at(900, 5))[0],
        Point { x: 899, y: 5 }
    );
    let origin = Point { x: 0, y: 0 };
    assert_eq!(
        windows_nudge_cursor_in_rect(&at(99, 5), origin, 100, 50),
        Some(vec![Point { x: 98, y: 5 }, Point { x: 99, y: 5 }])
    );
    assert_eq!(
        windows_nudge_cursor_in_rect(&at(500, 5), origin, 100, 50),
        Some(vec![
            Point { x: 50, y: 25 },
            Point { x: 51, y: 25 },
            Point { x: 50, y: 25 }
        ])
    );
    assert_eq!(windows_nudge_cursor_in_rect(&at(1, 1), origin, 0, 50), None);
    let rect = Rect { x: 1, y: 2, width: 3, height: 4 };
    assert_eq!(nudge_windows_capture_target(None, Some(rect)), Some(rect));
    assert_eq!(nudge_windows_capture_target(None, None), None);
}

#[test]
fn pointer_sizes_come_from_the_bitmap() {
    let bitmap = Some(BitmapSize { width: 32, height: -64 });
    assert_eq!(cursor_bitmap_size(bitmap, true), Some((32, 64)));
    assert_eq!(cursor_bitmap_size(bitmap, false), Some((32, 32)));
    assert_eq!(cursor_bitmap_size(None, true), None);
    assert_eq!(shape_size(Some((32, 32)), (0, 0)), Some((32, 32)));
    assert_eq!(shape_size(Some((257, 32)), (0, 0)), None);
    assert_eq!(shape_size(Some((0, 32)), (0, 0)), None);
    assert_eq!(shape_size(None, (48, 0)), Some((48, 1)));
}

#[test]
fn masks_cut_out_what_is_white() {
    // Stored from the bottom: the last row is the top one.
    let white = [255, 255, 255, 0];
    let black = [0, 0, 0, 0];
    let with_color: Vec<u8> = [black, white].concat();
    assert_eq!(read_cursor_mask(&with_color, 1, 2, 2, true), vec![true, false]);
    // One row of each mask: the upper half cuts out, the lower half inverts.
    let inverting: Vec<u8> = [white, white].concat();
    assert_eq!(read_cursor_mask(&inverting, 1, 1, 2, false), vec![false]);
    let cutting: Vec<u8> = [black, white].concat();
    assert_eq!(read_cursor_mask(&cutting, 1, 1, 2, false), vec![true]);
}

#[test]
fn pictures_are_sent_with_red_first() {
    assert_eq!(recolour(&[1, 2, 3, 4], &None), vec![3, 2, 1, 4]);
    assert_eq!(recolour(&[1, 2, 3, 0], &None), vec![3, 2, 1, 255]);
    assert_eq!(
        recolour(&[1, 2, 3, 0, 4, 5, 6, 0], &Some(vec![true, false])),
        vec![3, 2, 1, 0, 6, 5, 4, 255]
    );
}

#[test]
fn white_pointers_get_a_dark_edge() {
    let mut rgba = vec![0u8; 5 * 3 * 4];
    let centre = (5 + 2) * 4;
    rgba[centre..centre + 4].copy_from_slice(&[255, 255, 255, 255]);
    let out = add_light_cursor_contrast_outline(rgba.clone(), 5, 3);
    for y in 0..3 {
        for x in 0..5 {
            let i = (y * 5 + x) * 4;
            let want: [u8; 4] = if (x, y) == (2, 1) {
                [255, 255, 255, 255]
            } else if (1..=3).contains(&x) {
                [0, 0, 0, 220]
            } else {
                [0, 0, 0, 0]
            };
            assert_eq!(out[i..i + 4], want);
        }
    }
    // A pointer with a dark stroke of its own stays as it is.
    let mut arrow = rgba.clone();
    arrow[0..4].copy_from_slice(&[0, 0, 0, 255]);
    assert_eq!(add_light_cursor_contrast_outline(arrow.clone(), 5, 3), arrow);
    assert_eq!(add_light_cursor_contrast_outline(rgba.clone(), 4, 3), rgba);
}

#[test]
fn shapes_are_known_by_their_hash() {
    let bgra = vec![10, 20, 30, 255];
    let shape = windows_capture_cursor_shape(&bgra, &None, 1, 1, 0, u32::MAX);
    assert_eq!(shape.rgba, vec![30, 20, 10, 255]);
    assert_eq!((shape.hotspot_x, shape.hotspot_y), (0, -1));
    let mut hasher = DefaultHasher::new();
    1u32.hash(&mut hasher);
    1u32.hash(&mut hasher);
    0u32.hash(&mut hasher);
    u32::MAX.hash(&mut hasher);
    shape.rgba.hash(&mut hasher);
    assert_eq!(shape.shape_id, hasher.finish());
    assert_eq!(finish_shape(vec![], 1, 1, 0, 0, 0).shape_id, 1);
    assert_eq!(finish_shape(vec![], 1, 1, 0, 0, 9).shape_id, 9);
}
