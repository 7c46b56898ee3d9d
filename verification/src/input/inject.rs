//! How a system is told what the viewer did.
//!
//! Windows takes a list of inputs in one call. Linux has two ways for a key: a
//! virtual keyboard that knows places, and a keyboard of symbols that stands in
//! when the first is missing or fails. The mouse goes the second way.

use crate::input::events::{InputEvent, MouseButton, Scroll};
use crate::input::keys::{self, KeyCode, SymbolKey};
use crate::text;
use vstd::prelude::*;
use vstd::string::StringExecFns;

verus! {

/// What one notch of a wheel is worth.
pub const WHEEL_DELTA: i32 = 120;

pub const MOUSE_MOVE: u32 = 0x0001;

pub const MOUSE_LEFT_DOWN: u32 = 0x0002;

pub const MOUSE_LEFT_UP: u32 = 0x0004;

pub const MOUSE_RIGHT_DOWN: u32 = 0x0008;

pub const MOUSE_RIGHT_UP: u32 = 0x0010;

pub const MOUSE_MIDDLE_DOWN: u32 = 0x0020;

pub const MOUSE_MIDDLE_UP: u32 = 0x0040;

pub const MOUSE_WHEEL: u32 = 0x0800;

pub const MOUSE_HWHEEL: u32 = 0x1000;

pub const MOUSE_VIRTUAL_DESK: u32 = 0x4000;

pub const MOUSE_ABSOLUTE: u32 = 0x8000;

pub const KEY_EXTENDED: u32 = 0x0001;

pub const KEY_UP: u32 = 0x0002;

pub const KEY_UNICODE: u32 = 0x0004;

/// One input as Windows takes it.
#[derive(Debug, Clone, Copy, PartialEq, Eq, Structural)]
pub enum WindowsInput {
    Mouse { dx: i32, dy: i32, data: u32, flags: u32 },
    Key { vk: u16, scan: u16, flags: u32 },
}

/// The rectangle around all displays.
#[derive(Debug, Clone, Copy, PartialEq, Eq, Structural)]
pub struct VirtualScreen {
    pub x: i32,
    pub y: i32,
    pub width: i32,
    pub height: i32,
}

/// The largest coordinate of an absolute position.
pub const ABSOLUTE_MAX: i32 = 65_535;

/// Where a pixel lies on an axis that starts at `origin`, is `size` pixels long
/// and is measured from 0 to [`ABSOLUTE_MAX`]. What lies outside is drawn in.
pub open spec fn absolute(value: int, origin: int, size: int) -> int {
    let last = if size > 2 {
        size - 1
    } else {
        1
    };
    if value <= origin {
        0
    } else if (value - origin) * 65_535 / last > 65_535 {
        65_535
    } else {
        (value - origin) * 65_535 / last
    }
}

/// `value` lies near enough to `origin` for the distance to be an `i32`.
pub open spec fn near(value: i32, origin: i32) -> bool {
    i32::MIN <= value - origin <= i32::MAX
}

/// The 32 bits that say how far a wheel was turned.
pub open spec fn wheel_data(notches: i32) -> u32 {
    ((notches * 120) % 0x1_0000_0000) as u32
}

pub open spec fn button_flag(button: MouseButton, pressed: bool) -> u32 {
    match button {
        MouseButton::Left => if pressed {
            MOUSE_LEFT_DOWN
        } else {
            MOUSE_LEFT_UP
        },
        MouseButton::Right => if pressed {
            MOUSE_RIGHT_DOWN
        } else {
            MOUSE_RIGHT_UP
        },
        MouseButton::Middle => if pressed {
            MOUSE_MIDDLE_DOWN
        } else {
            MOUSE_MIDDLE_UP
        },
    }
}

/// The flags of a key event; no flag shares a bit with another.
pub open spec fn key_flags(pressed: bool, extended: bool) -> u32 {
    ((if pressed {
        0
    } else {
        KEY_UP as int
    }) + (if extended {
        KEY_EXTENDED as int
    } else {
        0
    })) as u32
}

pub open spec fn move_input(screen: VirtualScreen, x: int, y: int) -> WindowsInput {
    WindowsInput::Mouse {
        dx: absolute(x, screen.x as int, screen.width as int) as i32,
        dy: absolute(y, screen.y as int, screen.height as int) as i32,
        data: 0,
        flags: 0xc001,
    }
}

pub open spec fn wheel_inputs(turn: Scroll, flag: u32) -> Seq<WindowsInput> {
    if turn.moved {
        seq![WindowsInput::Mouse { dx: 0, dy: 0, data: wheel_data(turn.notches), flags: flag }]
    } else {
        Seq::empty()
    }
}

/// The inputs that stand for `event`. `scan` is the place of the key that the
/// system has for its virtual key.
pub open spec fn windows_inputs(
    event: InputEvent,
    screen: VirtualScreen,
    scan: u16,
) -> Seq<WindowsInput> {
    match event {
        InputEvent::MouseMove { x, y } => seq![move_input(screen, x as int, y as int)],
        InputEvent::MouseButton { button, pressed } => seq![
            WindowsInput::Mouse { dx: 0, dy: 0, data: 0, flags: button_flag(button, pressed) },
        ],
        InputEvent::MouseScroll { dx, dy } => wheel_inputs(dy, MOUSE_WHEEL) + wheel_inputs(
            dx,
            MOUSE_HWHEEL,
        ),
        InputEvent::Key { key, pressed } => match keys::windows_vk(key) {
            Some(vk) => seq![
                WindowsInput::Key { vk, scan, flags: key_flags(pressed, keys::is_extended(key)) },
            ],
            None => Seq::empty(),
        },
    }
}

/// Where `value` lies between 0 and [`ABSOLUTE_MAX`].
pub fn normalize_abs(value: i32, origin: i32, size: i32) -> (at: i32)
    requires
        size > i32::MIN,
        near(value, origin),
    ensures
        at == absolute(value as int, origin as int, size as int),
        0 <= at <= ABSOLUTE_MAX,
{
    let mut last: i64 = (size - 1) as i64;
    if last < 1 {
        last = 1;
    }
    let distance: i64 = value as i64 - origin as i64;
    if distance <= 0 {
        return 0;
    }
    let scaled: i64 = distance * 65_535;
    let at: i64 = scaled / last;
    assert(scaled / last >= 0 && scaled / last <= scaled) by (nonlinear_arith)
        requires
            scaled >= 0,
            last >= 1,
    ;
    if at > 65_535 {
        65_535
    } else {
        at as i32
    }
}

/// The size of the rectangle around all displays, of which the system may say 0.
pub fn virtual_screen(x: i32, y: i32, width: i32, height: i32) -> (screen: VirtualScreen)
    ensures
        screen.x == x,
        screen.y == y,
        screen.width == if width > 1 {
            width
        } else {
            1
        },
        screen.height == if height > 1 {
            height
        } else {
            1
        },
{
    VirtualScreen {
        x,
        y,
        width: if width > 1 {
            width
        } else {
            1
        },
        height: if height > 1 {
            height
        } else {
            1
        },
    }
}

/// The input that moves the pointer to a pixel.
pub fn windows_mouse_move(screen: VirtualScreen, x: i32, y: i32) -> (input: WindowsInput)
    requires
        screen.width > i32::MIN,
        screen.height > i32::MIN,
        near(x, screen.x),
        near(y, screen.y),
    ensures
        input == move_input(screen, x as int, y as int),
{
    let dx: i32 = normalize_abs(x, screen.x, screen.width);
    let dy: i32 = normalize_abs(y, screen.y, screen.height);
    assert(0x0001u32 | 0x8000u32 | 0x4000u32 == 0xc001u32) by (bit_vector);
    WindowsInput::Mouse { dx, dy, data: 0, flags: MOUSE_MOVE | MOUSE_ABSOLUTE | MOUSE_VIRTUAL_DESK }
}

fn wheel(notches: i32) -> (data: u32)
    ensures
        data == wheel_data(notches),
{
    let turn: i64 = notches as i64 * WHEEL_DELTA as i64;
    let lifted: i64 = turn + 120 * 0x1_0000_0000;
    (lifted % 0x1_0000_0000) as u32
}

/// The input for one key.
pub fn windows_key(vk: u16, scan: u16, pressed: bool, extended: bool) -> (input: WindowsInput)
    ensures
        input == (WindowsInput::Key { vk, scan, flags: key_flags(pressed, extended) }),
{
    let up: u32 = if pressed {
        0
    } else {
        KEY_UP
    };
    let far: u32 = if extended {
        KEY_EXTENDED
    } else {
        0
    };
    WindowsInput::Key { vk, scan, flags: up + far }
}

/// The inputs to send for `event`, in one call.
pub fn windows_inject(event: &InputEvent, screen: VirtualScreen, scan: u16) -> (inputs: Vec<
    WindowsInput,
>)
    requires
        *event matches InputEvent::MouseMove { x, y } ==> {
            &&& screen.width > i32::MIN
            &&& screen.height > i32::MIN
            &&& near(x, screen.x)
            &&& near(y, screen.y)
        },
    ensures
        inputs@ == windows_inputs(*event, screen, scan),
{
    let mut inputs: Vec<WindowsInput> = Vec::new();
    match *event {
        InputEvent::MouseMove { x, y } => {
            inputs.push(windows_mouse_move(screen, x, y));
        },
        InputEvent::MouseButton { button, pressed } => {
            let flags: u32 = match (button, pressed) {
                (MouseButton::Left, true) => MOUSE_LEFT_DOWN,
                (MouseButton::Left, false) => MOUSE_LEFT_UP,
                (MouseButton::Right, true) => MOUSE_RIGHT_DOWN,
                (MouseButton::Right, false) => MOUSE_RIGHT_UP,
                (MouseButton::Middle, true) => MOUSE_MIDDLE_DOWN,
                (MouseButton::Middle, false) => MOUSE_MIDDLE_UP,
            };
            inputs.push(WindowsInput::Mouse { dx: 0, dy: 0, data: 0, flags });
        },
        InputEvent::MouseScroll { dx, dy } => {
            if dy.moved {
                inputs.push(
                    WindowsInput::Mouse { dx: 0, dy: 0, data: wheel(dy.notches), flags: MOUSE_WHEEL },
                );
            }
            if dx.moved {
                inputs.push(
                    WindowsInput::Mouse {
                        dx: 0,
                        dy: 0,
                        data: wheel(dx.notches),
                        flags: MOUSE_HWHEEL,
                    },
                );
            }
        },
        InputEvent::Key { key, pressed } => {
            if let Some((vk, extended)) = keys::keycode_to_windows_vk(key) {
                inputs.push(windows_key(vk, scan, pressed, extended));
            }
        },
    }
    inputs
}

/// The UTF-16 units of a character.
pub open spec fn utf16(c: char) -> Seq<u16> {
    if (c as int) < 0x1_0000 {
        seq![c as u16]
    } else {
        seq![
            (0xd800 + (c as int - 0x1_0000) / 0x400) as u16,
            (0xdc00 + (c as int - 0x1_0000) % 0x400) as u16,
        ]
    }
}

/// A UTF-16 unit typed: pressed and released.
pub open spec fn typed_unit(unit: u16) -> Seq<WindowsInput> {
    seq![
        WindowsInput::Key { vk: 0, scan: unit, flags: KEY_UNICODE },
        WindowsInput::Key { vk: 0, scan: unit, flags: 6 },
    ]
}

pub open spec fn typed_units(units: Seq<u16>) -> Seq<WindowsInput>
    decreases units.len(),
{
    if units.len() == 0 {
        Seq::empty()
    } else {
        typed_units(units.drop_last()) + typed_unit(units.last())
    }
}

/// A text typed out, character by character.
pub open spec fn typed(text: Seq<char>) -> Seq<WindowsInput>
    decreases text.len(),
{
    if text.len() == 0 {
        Seq::empty()
    } else {
        typed(text.drop_last()) + typed_units(utf16(text.last()))
    }
}

fn push_unit(inputs: &mut Vec<WindowsInput>, unit: u16)
    ensures
        final(inputs)@ == old(inputs)@ + typed_unit(unit),
{
    assert(0x0004u32 | 0x0002u32 == 6u32) by (bit_vector);
    inputs.push(WindowsInput::Key { vk: 0, scan: unit, flags: KEY_UNICODE });
    inputs.push(WindowsInput::Key { vk: 0, scan: unit, flags: KEY_UNICODE | KEY_UP });
}

fn push_char(inputs: &mut Vec<WindowsInput>, c: char)
    ensures
        final(inputs)@ == old(inputs)@ + typed_units(utf16(c)),
{
    let code: u32 = c as u32;
    proof {
        reveal_with_fuel(typed_units, 3);
    }
    if code < 0x1_0000 {
        push_unit(inputs, code as u16);
        assert(utf16(c).drop_last() == Seq::<u16>::empty());
    } else {
        let over: u32 = code - 0x1_0000;
        let high: u16 = (0xd800 + over / 0x400) as u16;
        let low: u16 = (0xdc00 + over % 0x400) as u16;
        push_unit(inputs, high);
        push_unit(inputs, low);
        assert(utf16(c).drop_last() == seq![high]);
        assert(seq![high].drop_last() == Seq::<u16>::empty());
    }
}

/// The inputs that type `text`. Each unit is a key of its own that the system
/// takes for the character itself, whatever the layout of the keyboard.
pub fn windows_type_text(text: &str) -> (inputs: Vec<WindowsInput>)
    ensures
        inputs@ == typed(text@),
{
    let mut inputs: Vec<WindowsInput> = Vec::new();
    let chars: Vec<char> = text::chars_of(text);
    let total: usize = chars.len();
    let mut i: usize = 0;
    assert(text@.take(0) == Seq::<char>::empty());
    while i < total
        invariant
            i <= total == chars@.len(),
            chars@ == text@,
            inputs@ == typed(text@.take(i as int)),
        decreases total - i,
    {
        assert(text@.take(i + 1).drop_last() == text@.take(i as int));
        push_char(&mut inputs, chars[i]);
        i = i + 1;
    }
    assert(text@.take(text@.len() as int) == text@);
    inputs
}

/// The modifier keys with their extended flags, each of which is released before
/// anything else so that none is left held from an earlier session.
pub open spec fn modifiers() -> Seq<(u16, bool)> {
    seq![
        (0xa0u16, false),
        (0xa1u16, false),
        (0xa2u16, false),
        (0xa3u16, true),
        (0xa4u16, false),
        (0xa5u16, true),
        (0x5bu16, true),
        (0x5cu16, true),
    ]
}

/// The keys to release at the start.
pub fn release_modifiers() -> (keys: Vec<(u16, bool)>)
    ensures
        keys@ == modifiers(),
{
    vec![
        (0xa0u16, false),
        (0xa1u16, false),
        (0xa2u16, false),
        (0xa3u16, true),
        (0xa4u16, false),
        (0xa5u16, true),
        (0x5bu16, true),
        (0x5cu16, true),
    ]
}

/// Judges a call that was to send `total` inputs and says that it sent `sent`.
pub fn check_sent(sent: u32, total: u32, cause: &str) -> (r: Result<(), String>)
    ensures
        r is Ok <==> sent == total,
        r matches Err(message) ==> message@ == "SendInput sent "@ + text::decimal(sent as nat) + "/"@
            + text::decimal(total as nat) + " events: "@ + cause@,
{
    if sent == total {
        return Ok(());
    }
    let mut message: String = String::from_str("SendInput sent ");
    text::push_decimal(&mut message, sent as u64);
    message.append("/");
    text::push_decimal(&mut message, total as u64);
    message.append(" events: ");
    message.append(cause);
    Err(message)
}

/// What to ask of the keyboard of symbols and its mouse.
#[derive(Debug, Clone, Copy, PartialEq, Eq, Structural)]
pub enum SymbolInput {
    MoveTo { x: i32, y: i32 },
    Button { button: MouseButton, pressed: bool },
    ScrollVertical { lines: i32 },
    ScrollHorizontal { lines: i32 },
    Key { key: SymbolKey, pressed: bool },
}

/// What stands for `event` where no virtual keyboard takes it.
pub open spec fn symbol_inputs(event: InputEvent) -> Seq<SymbolInput> {
    match event {
        InputEvent::MouseMove { x, y } => seq![SymbolInput::MoveTo { x, y }],
        InputEvent::MouseButton { button, pressed } => seq![SymbolInput::Button { button, pressed }],
        InputEvent::MouseScroll { dx, dy } => (if dy.moved {
            seq![SymbolInput::ScrollVertical { lines: dy.lines }]
        } else {
            Seq::empty()
        }) + (if dx.moved {
            seq![SymbolInput::ScrollHorizontal { lines: dx.lines }]
        } else {
            Seq::empty()
        }),
        InputEvent::Key { key, pressed } => match keys::symbol_key(key) {
            Some(key) => seq![SymbolInput::Key { key, pressed }],
            None => Seq::empty(),
        },
    }
}

/// What to ask of the keyboard of symbols and its mouse for `event`, in order; the
/// first that fails ends it.
pub fn inject_enigo(event: &InputEvent) -> (inputs: Vec<SymbolInput>)
    ensures
        inputs@ == symbol_inputs(*event),
{
    let mut inputs: Vec<SymbolInput> = Vec::new();
    match *event {
        InputEvent::MouseMove { x, y } => {
            inputs.push(SymbolInput::MoveTo { x, y });
        },
        InputEvent::MouseButton { button, pressed } => {
            inputs.push(SymbolInput::Button { button, pressed });
        },
        InputEvent::MouseScroll { dx, dy } => {
            if dy.moved {
                inputs.push(SymbolInput::ScrollVertical { lines: dy.lines });
            }
            if dx.moved {
                inputs.push(SymbolInput::ScrollHorizontal { lines: dx.lines });
            }
        },
        InputEvent::Key { key, pressed } => {
            if let Some(symbol) = keys::keycode_to_enigo(key) {
                inputs.push(SymbolInput::Key { key: symbol, pressed });
            }
        },
    }
    inputs
}

/// A key event as the virtual keyboard takes it.
#[derive(Debug, Clone, Copy, PartialEq, Eq, Structural)]
pub struct EvdevKey {
    pub code: u16,
    /// 1 for a press and 0 for a release; repeating is left to the system.
    pub value: i32,
}

/// Which keyboards there are.
#[derive(Debug, Clone, Copy, PartialEq, Eq, Structural)]
pub struct Keyboards {
    /// The virtual keyboard could be made and has not failed since.
    pub uinput: bool,
}

impl Keyboards {
    /// What the virtual keyboard is asked for `event`, where there is one and the
    /// event is a key.
    pub open spec fn on_uinput(self, event: InputEvent) -> Option<EvdevKey> {
        match event {
            InputEvent::Key { key, pressed } => if self.uinput {
                Some(
                    EvdevKey {
                        code: keys::evdev_code(key),
                        value: if pressed {
                            1
                        } else {
                            0
                        },
                    },
                )
            } else {
                None
            },
            _ => None,
        }
    }

    /// What to ask of the virtual keyboard first. Where this is nothing, the event
    /// goes to the keyboard of symbols.
    pub fn inject_key(&self, event: &InputEvent) -> (ask: Option<EvdevKey>)
        ensures
            ask == self.on_uinput(*event),
    {
        match *event {
            InputEvent::Key { key, pressed } => {
                if !self.uinput {
                    return None;
                }
                let value: i32 = if pressed {
                    1
                } else {
                    0
                };
                Some(EvdevKey { code: keys::keycode_to_evdev(key), value })
            },
            _ => None,
        }
    }

    /// The virtual keyboard answered. One that failed is given up, and the event
    /// that it failed on goes to the keyboard of symbols: says whether it does.
    pub fn on_emitted(&mut self, taken: bool) -> (send_symbol: bool)
        ensures
            send_symbol == !taken,
            final(self).uinput == (old(self).uinput && taken),
    {
        if !taken {
            self.uinput = false;
        }
        !taken
    }
}

/// The edges of the screen are the ends of the scale, and a pixel further on is
/// never measured less.
pub proof fn law_absolute_spans_the_screen(origin: int, size: int, a: int, b: int)
    requires
        size >= 2,
        a <= b,
    ensures
        absolute(origin, origin, size) == 0,
        absolute(origin + size - 1, origin, size) == ABSOLUTE_MAX,
        absolute(a, origin, size) <= absolute(b, origin, size),
        0 <= absolute(a, origin, size) <= ABSOLUTE_MAX,
{
    let last = if size > 2 {
        size - 1
    } else {
        1
    };
    assert((last * 65_535) / last == 65_535) by (nonlinear_arith)
        requires
            last >= 1,
    ;
    assert(last * 65_535 == 65_535 * last) by (nonlinear_arith);
    if a > origin {
        let x = (a - origin) * 65_535;
        let y = (b - origin) * 65_535;
        assert(0 <= x / last <= y / last) by (nonlinear_arith)
            requires
                0 <= x <= y,
                last >= 1,
        ;
    } else if b > origin {
        let y = (b - origin) * 65_535;
        assert(0 <= y / last) by (nonlinear_arith)
            requires
                0 <= y,
                last >= 1,
        ;
    }
}

/// A text is typed by pressing and releasing one unit after the other: nothing
/// stays held, and two texts after each other are typed as their joint text is.
pub proof fn law_typing_goes_on(a: Seq<char>, b: Seq<char>)
    ensures
        typed(a + b) == typed(a) + typed(b),
    decreases b.len(),
{
    if b.len() == 0 {
        assert(a + b == a);
        assert(typed(a) + typed(b) == typed(a));
    } else {
        law_typing_goes_on(a, b.drop_last());
        assert((a + b).drop_last() == a + b.drop_last());
    }
}

/// Every modifier that is released at the start is a key that Windows has, with
/// the flag it is pressed with later.
pub proof fn law_modifiers_are_keys(i: int)
    requires
        0 <= i < modifiers().len(),
    ensures
        exists|key: KeyCode|
            keys::windows_vk(key) == Some(modifiers()[i].0) && #[trigger] keys::is_extended(key)
                == modifiers()[i].1,
{
    assert(keys::is_extended(KeyCode::LeftShift) == false);
    assert(keys::is_extended(KeyCode::RightShift) == false);
    assert(keys::is_extended(KeyCode::LeftCtrl) == false);
    assert(keys::is_extended(KeyCode::RightCtrl));
    assert(keys::is_extended(KeyCode::LeftAlt) == false);
    assert(keys::is_extended(KeyCode::RightAlt));
    assert(keys::is_extended(KeyCode::LeftMeta));
    assert(keys::is_extended(KeyCode::RightMeta));
}

/// A key goes to the virtual keyboard exactly if there is one, a press with 1 and a
/// release with 0, and both with the same code.
pub proof fn law_release_lets_go_of_the_key(
    boards: Keyboards,
    key: KeyCode,
    press: Option<EvdevKey>,
    release: Option<EvdevKey>,
)
    requires
        call_ensures(
            Keyboards::inject_key,
            (&boards, &InputEvent::Key { key, pressed: true }),
            press,
        ),
        call_ensures(
            Keyboards::inject_key,
            (&boards, &InputEvent::Key { key, pressed: false }),
            release,
        ),
    ensures
        press is Some <==> boards.uinput,
        release is Some <==> boards.uinput,
        boards.uinput ==> {
            &&& press->0.value == 1
            &&& release->0.value == 0
            &&& press->0.code == release->0.code
            &&& press->0.code == keys::evdev_code(key)
        },
{
}

/// What is not a key never goes to the virtual keyboard.
pub proof fn law_mouse_skips_the_keyboard(
    boards: Keyboards,
    event: InputEvent,
    ask: Option<EvdevKey>,
)
    requires
        call_ensures(Keyboards::inject_key, (&boards, &event), ask),
        !(event is Key),
    ensures
        ask is None,
{
}

/// A virtual keyboard that failed once is never asked again, and the event that it failed
/// on is not lost; one that works stays.
pub proof fn law_failed_keyboard_is_given_up(taken: bool)
    ensures
        forall|boards: &mut Keyboards, send_symbol: bool| #[trigger]
            call_ensures(Keyboards::on_emitted, (boards, taken), send_symbol) ==> {
                &&& send_symbol == !taken
                &&& !taken ==> !(*final(boards)).uinput
                &&& taken ==> (*final(boards)).uinput == (*boards).uinput
            },
{
}

/// On Windows a press and a release of a key differ in one bit, the one that says up; the
/// place and the virtual key are the same, and the bit for extended keys follows the key.
pub proof fn law_windows_release_differs_in_one_bit(
    key: KeyCode,
    screen: VirtualScreen,
    scan: u16,
    press: Vec<WindowsInput>,
    release: Vec<WindowsInput>,
)
    requires
        call_ensures(
            windows_inject,
            (&InputEvent::Key { key, pressed: true }, screen, scan),
            press,
        ),
        call_ensures(
            windows_inject,
            (&InputEvent::Key { key, pressed: false }, screen, scan),
            release,
        ),
    ensures
        press@.len() == release@.len(),
        press@.len() <= 1,
        press@.len() == 1 <==> keys::windows_vk(key) is Some,
        press@.len() == 1 ==> {
            &&& press@[0] matches WindowsInput::Key { vk: a, scan: b, flags: down }
            &&& release@[0] matches WindowsInput::Key { vk: c, scan: d, flags: up }
            &&& a == c && Some(a) == keys::windows_vk(key)
            &&& b == scan && d == scan
            &&& up == down + 2
            &&& down == if keys::is_extended(key) {
                1u32
            } else {
                0u32
            }
        },
{
}

/// Each mouse button has a flag for down and twice that for up, and no two buttons share
/// one. A button moves neither the pointer nor the wheel.
pub proof fn law_buttons_go_down_and_up(
    button: MouseButton,
    other: MouseButton,
    screen: VirtualScreen,
    scan: u16,
    press: Vec<WindowsInput>,
    release: Vec<WindowsInput>,
)
    requires
        call_ensures(
            windows_inject,
            (&InputEvent::MouseButton { button, pressed: true }, screen, scan),
            press,
        ),
        call_ensures(
            windows_inject,
            (&InputEvent::MouseButton { button: other, pressed: false }, screen, scan),
            release,
        ),
    ensures
        press@.len() == 1,
        release@.len() == 1,
        press@[0] matches WindowsInput::Mouse { dx, dy, data, flags: down } && dx == 0 && dy == 0
            && data == 0 && (release@[0] matches WindowsInput::Mouse { flags: up, .. } && (up == 2
            * down <==> button == other)) && (match button {
            MouseButton::Left => down == 2,
            MouseButton::Right => down == 8,
            MouseButton::Middle => down == 32,
        }),
{
}

/// Inside the screen the scale is even: what is measured is the distance from the edge in
/// 65535ths of the screen, rounded down.
pub proof fn law_absolute_is_even(value: int, origin: int, size: int)
    requires
        size >= 2,
        origin <= value <= origin + size - 1,
    ensures
        ({
            let at = absolute(value, origin, size);
            at * (size - 1) <= (value - origin) * 65_535 < (at + 1) * (size - 1)
        }),
{
    let last = size - 1;
    let x = (value - origin) * 65_535;
    assert(x / last * last <= x < (x / last + 1) * last) by (nonlinear_arith)
        requires
            last >= 1,
            x >= 0,
    ;
    assert(x / last <= 65_535) by (nonlinear_arith)
        requires
            last >= 1,
            x <= last * 65_535,
    ;
    if value == origin {
        assert(0int / last == 0) by (nonlinear_arith)
            requires
                last >= 1,
        ;
    }
}

/// The pointer goes where the viewer points: the corners of the screen are the corners of
/// the scale, across and down, and across has nothing to do with down.
pub proof fn law_pointer_goes_where_pointed(
    screen: VirtualScreen,
    x: i32,
    y: i32,
    elsewhere: i32,
    input: WindowsInput,
    moved: WindowsInput,
)
    requires
        call_ensures(windows_mouse_move, (screen, x, y), input),
        call_ensures(windows_mouse_move, (screen, x, elsewhere), moved),
        screen.width >= 2,
        screen.height >= 2,
    ensures
        input matches WindowsInput::Mouse { dx, dy, data, flags } && {
            &&& data == 0
            &&& flags == 0x8000 + 0x4000 + 0x0001
            &&& x <= screen.x ==> dx == 0
            &&& y <= screen.y ==> dy == 0
            &&& x == screen.x + screen.width - 1 ==> dx == 65_535
            &&& y == screen.y + screen.height - 1 ==> dy == 65_535
            &&& screen.x <= x < screen.x + screen.width ==> dx * (screen.width - 1) <= (x
                - screen.x) * 65_535 < (dx + 1) * (screen.width - 1)
            &&& screen.y <= y < screen.y + screen.height ==> dy * (screen.height - 1) <= (y
                - screen.y) * 65_535 < (dy + 1) * (screen.height - 1)
            &&& moved matches WindowsInput::Mouse { dx: same, .. } && same == dx
        },
{
    let (ox, w) = (screen.x as int, screen.width as int);
    let (oy, h) = (screen.y as int, screen.height as int);
    law_absolute_spans_the_screen(ox, w, x as int, x as int);
    law_absolute_spans_the_screen(oy, h, y as int, y as int);
    if ox <= x < ox + w {
        law_absolute_is_even(x as int, ox, w);
    }
    if oy <= y < oy + h {
        law_absolute_is_even(y as int, oy, h);
    }
}

/// A notch of the wheel is worth 120, and turning back undoes turning on.
pub proof fn law_wheel_turns_both_ways(notches: i32)
    requires
        -1000 <= notches <= 1000,
    ensures
        notches >= 0 ==> wheel_data(notches) == 120 * notches,
        notches < 0 ==> wheel_data(notches) == 0x1_0000_0000 + 120 * notches,
{
}

/// Scrolling turns the wheels that moved and no others, the upright one first.
pub proof fn law_scrolling_turns_what_moved(
    dx: Scroll,
    dy: Scroll,
    screen: VirtualScreen,
    scan: u16,
    inputs: Vec<WindowsInput>,
    lines: Vec<SymbolInput>,
)
    requires
        call_ensures(windows_inject, (&InputEvent::MouseScroll { dx, dy }, screen, scan), inputs),
        call_ensures(inject_enigo, (&InputEvent::MouseScroll { dx, dy },), lines),
    ensures
        inputs@.len() == lines@.len(),
        inputs@.len() == (if dx.moved {
            1int
        } else {
            0
        }) + (if dy.moved {
            1int
        } else {
            0
        }),
        dy.moved ==> {
            &&& inputs@[0] == (WindowsInput::Mouse {
                dx: 0,
                dy: 0,
                data: wheel_data(dy.notches),
                flags: 0x0800,
            })
            &&& lines@[0] == (SymbolInput::ScrollVertical { lines: dy.lines })
        },
        dx.moved ==> {
            &&& inputs@.last() == (WindowsInput::Mouse {
                dx: 0,
                dy: 0,
                data: wheel_data(dx.notches),
                flags: 0x1000,
            })
            &&& lines@.last() == (SymbolInput::ScrollHorizontal { lines: dx.lines })
        },
{
}

/// Where there is no virtual keyboard everything is handed on as it came: the pointer to
/// the pixel, buttons and keys pressed or released as the viewer did.
pub proof fn law_symbols_follow_the_viewer(event: InputEvent, inputs: Vec<SymbolInput>)
    requires
        call_ensures(inject_enigo, (&event,), inputs),
    ensures
        match event {
            InputEvent::MouseMove { x, y } => inputs@ == seq![SymbolInput::MoveTo { x, y }],
            InputEvent::MouseButton { button, pressed } => inputs@.len() == 1 && inputs@[0]
                == (SymbolInput::Button { button, pressed }),
            InputEvent::Key { key, pressed } => {
                &&& inputs@.len() == 1 <==> keys::symbol_key(key) is Some
                &&& forall|i: int|
                    0 <= i < inputs@.len() ==> (#[trigger] inputs@[i] matches SymbolInput::Key {
                        key: symbol,
                        pressed: down,
                    } && down == pressed && keys::symbol_key(key) == Some(symbol))
            },
            InputEvent::MouseScroll { .. } => true,
        },
{
}

/// A character is typed by pressing and releasing each of its units at once, and the units
/// are the character: one below 0x10000, else a pair of which the character can be read.
pub proof fn law_typed_character_can_be_read(c: char)
    ensures
        ({
            let inputs = typed(seq![c]);
            &&& (c as int) < 0x1_0000 ==> inputs == seq![
                WindowsInput::Key { vk: 0, scan: c as u16, flags: 4 },
                WindowsInput::Key { vk: 0, scan: c as u16, flags: 6 },
            ]
            &&& (c as int) >= 0x1_0000 ==> {
                &&& inputs.len() == 4
                &&& inputs[0] matches WindowsInput::Key { vk: 0, scan: high, flags: 4 }
                &&& inputs[1] == (WindowsInput::Key { vk: 0, scan: high, flags: 6 })
                &&& inputs[2] matches WindowsInput::Key { vk: 0, scan: low, flags: 4 }
                &&& inputs[3] == (WindowsInput::Key { vk: 0, scan: low, flags: 6 })
                &&& 0xd800 <= high < 0xdc00
                &&& 0xdc00 <= low < 0xe000
                &&& c as int == 0x1_0000 + (high - 0xd800) * 0x400 + (low - 0xdc00)
            }
        }),
{
    reveal_with_fuel(typed, 2);
    reveal_with_fuel(typed_units, 3);
    let units = utf16(c);
    assert(seq![c].drop_last() =~= Seq::<char>::empty());
    if (c as int) < 0x1_0000 {
        assert(units.drop_last() =~= Seq::<u16>::empty());
        assert(typed(seq![c]) =~= typed_unit(c as u16));
    } else {
        let (high, low) = (units[0], units[1]);
        assert(units.drop_last() =~= seq![high]);
        assert(seq![high].drop_last() =~= Seq::<u16>::empty());
        assert(typed(seq![c]) =~= typed_unit(high) + typed_unit(low));
    }
}

/// All shift, control, alt and meta keys, left and right, are released at the start.
pub proof fn law_every_modifier_is_released(key: KeyCode, keys: Vec<(u16, bool)>)
    requires
        call_ensures(release_modifiers, (), keys),
        key == KeyCode::LeftShift || key == KeyCode::RightShift || key == KeyCode::LeftCtrl || key
            == KeyCode::RightCtrl || key == KeyCode::LeftAlt || key == KeyCode::RightAlt || key
            == KeyCode::LeftMeta || key == KeyCode::RightMeta,
    ensures
        crate::input::keys::windows_vk(key) is Some,
        keys@.contains((
            crate::input::keys::windows_vk(key)->0,
            crate::input::keys::is_extended(key),
        )),
{
    let all = modifiers();
    assert(all[0] == (0xa0u16, false) && all[1] == (0xa1u16, false) && all[2] == (0xa2u16, false)
        && all[3] == (0xa3u16, true) && all[4] == (0xa4u16, false) && all[5] == (0xa5u16, true)
        && all[6] == (0x5bu16, true) && all[7] == (0x5cu16, true));
}

/// The inputs of a call were sent exactly if as many were sent as there are.
pub proof fn law_short_send_is_an_error(
    sent: u32,
    total: u32,
    cause: &str,
    r: Result<(), String>,
)
    requires
        call_ensures(check_sent, (sent, total, cause), r),
    ensures
        r is Err <==> sent < total || sent > total,
{
}

} // verus!
