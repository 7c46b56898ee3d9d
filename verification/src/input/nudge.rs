//! Small moves of the pointer that make the screen change and a capture start.

use crate::bytes;
use crate::display_ccd::Rect;
use crate::input::inject::VirtualScreen;
use vstd::prelude::*;

verus! {

/// A place that the pointer is sent to.
#[derive(Debug, Clone, Copy, PartialEq, Eq, Structural)]
pub struct Point {
    pub x: i32,
    pub y: i32,
}

/// The pointer as the system shows it, and the rectangle around all displays.
#[derive(Debug, Clone, Copy, PartialEq, Eq, Structural)]
pub struct WindowsCursorSnapshot {
    pub x: i32,
    pub y: i32,
    pub visible: bool,
    pub handle: usize,
    pub virtual_screen: VirtualScreen,
}

/// What the system says of the pointer, where it says anything.
#[derive(Debug, Clone, Copy, PartialEq, Eq, Structural)]
pub struct CursorReport {
    pub x: i32,
    pub y: i32,
    pub flags: u32,
    pub handle: usize,
}

/// The flags of a pointer that is shown.
pub const CURSOR_SHOWING: u32 = 1;

/// The pointer from the full report or, failing that, from its position alone:
/// then it is taken to be shown, with a shape that cannot be read.
pub fn windows_cursor_snapshot(
    report: Option<CursorReport>,
    position: Option<Point>,
    virtual_screen: VirtualScreen,
) -> (snapshot: Option<WindowsCursorSnapshot>)
    ensures
        snapshot == match report {
            Some(r) => Some(
                WindowsCursorSnapshot {
                    x: r.x,
                    y: r.y,
                    visible: r.flags == CURSOR_SHOWING,
                    handle: r.handle,
                    virtual_screen,
                },
            ),
            None => match position {
                Some(p) => Some(
                    WindowsCursorSnapshot { x: p.x, y: p.y, visible: true, handle: 0, virtual_screen },
                ),
                None => None,
            },
        },
{
    match report {
        Some(r) => Some(
            WindowsCursorSnapshot {
                x: r.x,
                y: r.y,
                visible: r.flags == CURSOR_SHOWING,
                handle: r.handle,
                virtual_screen,
            },
        ),
        None => match position {
            Some(p) => Some(
                WindowsCursorSnapshot { x: p.x, y: p.y, visible: true, handle: 0, virtual_screen },
            ),
            None => None,
        },
    }
}

/// One pixel to the right, or to the left where the displays end.
pub open spec fn beside(x: int, end: int) -> int {
    if x + 1 < end {
        x + 1
    } else {
        x - 1
    }
}

/// Where the pointer goes, one place after the other: a pixel aside and back.
pub fn windows_nudge_cursor_for_capture(snapshot: &WindowsCursorSnapshot) -> (path: Vec<Point>)
    requires
        i32::MIN < snapshot.x < i32::MAX,
        i32::MIN <= snapshot.virtual_screen.x + snapshot.virtual_screen.width <= i32::MAX,
    ensures
        path@ == seq![
            Point {
                x: beside(
                    snapshot.x as int,
                    snapshot.virtual_screen.x + snapshot.virtual_screen.width,
                ) as i32,
                y: snapshot.y,
            },
            Point { x: snapshot.x, y: snapshot.y },
        ],
{
    let end: i32 = snapshot.virtual_screen.x + snapshot.virtual_screen.width;
    let aside: i32 = if snapshot.x + 1 < end {
        snapshot.x + 1
    } else {
        snapshot.x - 1
    };
    vec![Point { x: aside, y: snapshot.y }, Point { x: snapshot.x, y: snapshot.y }]
}

/// `a + b`, held within an `i32`.
pub open spec fn saturated(n: int) -> int {
    if n > i32::MAX {
        i32::MAX as int
    } else if n < i32::MIN {
        i32::MIN as int
    } else {
        n
    }
}

/// The last coordinate of a span of pixels.
pub open spec fn last_of(origin: i32, size: u32) -> int {
    saturated(origin + bytes::signed_of((size - 1) as u32))
}

/// The middle of a span of pixels.
pub open spec fn middle_of(origin: i32, size: u32) -> int {
    saturated(origin + size / 2)
}

/// One pixel on, or back at the last one.
pub open spec fn step(x: int, last: int) -> int {
    if x < last {
        x + 1
    } else {
        saturated(x - 1)
    }
}

/// Where the pointer goes to wake up a display: a pixel aside and back if it is
/// there, and otherwise to the middle of the display with a pixel aside and back.
pub open spec fn rect_path(at: Point, origin: Point, width: u32, height: u32) -> Seq<Point> {
    let right = last_of(origin.x, width);
    let bottom = last_of(origin.y, height);
    if origin.x <= at.x <= right && origin.y <= at.y <= bottom {
        seq![Point { x: step(at.x as int, right) as i32, y: at.y }, at]
    } else {
        let center = Point {
            x: middle_of(origin.x, width) as i32,
            y: middle_of(origin.y, height) as i32,
        };
        seq![center, Point { x: step(center.x as int, right) as i32, y: center.y }, center]
    }
}

fn saturating_sum(a: i32, b: i32) -> (sum: i32)
    ensures
        sum == saturated(a + b),
{
    let wide: i64 = a as i64 + b as i64;
    if wide > 0x7fff_ffff {
        0x7fff_ffff
    } else if wide < -0x8000_0000 {
        -0x8000_0000
    } else {
        wide as i32
    }
}

fn next_pixel(x: i32, last: i32) -> (next: i32)
    ensures
        next == step(x as int, last as int),
{
    if x < last {
        x + 1
    } else {
        saturating_sum(x, -1)
    }
}

/// Where the pointer goes to wake up the display at `origin`. A display without
/// a size is none: then the path is that of [`windows_nudge_cursor_for_capture`],
/// which is what an answer of nothing asks for.
pub fn windows_nudge_cursor_in_rect(
    snapshot: &WindowsCursorSnapshot,
    origin: Point,
    width: u32,
    height: u32,
) -> (path: Option<Vec<Point>>)
    ensures
        path is None <==> width == 0 || height == 0,
        path matches Some(p) ==> p@ == rect_path(
            Point { x: snapshot.x, y: snapshot.y },
            origin,
            width,
            height,
        ),
{
    if width == 0 || height == 0 {
        return None;
    }
    let right: i32 = saturating_sum(origin.x, bytes::from_bits(width - 1));
    let bottom: i32 = saturating_sum(origin.y, bytes::from_bits(height - 1));
    let x: i32 = snapshot.x;
    let y: i32 = snapshot.y;
    let inside: bool = x >= origin.x && x <= right && y >= origin.y && y <= bottom;
    if inside {
        let aside: i32 = next_pixel(x, right);
        return Some(vec![Point { x: aside, y }, Point { x, y }]);
    }
    let center_x: i32 = saturating_sum(origin.x, (width / 2) as i32);
    let center_y: i32 = saturating_sum(origin.y, (height / 2) as i32);
    let aside: i32 = next_pixel(center_x, right);
    Some(
        vec![
            Point { x: center_x, y: center_y },
            Point { x: aside, y: center_y },
            Point { x: center_x, y: center_y },
        ],
    )
}

/// The display to wake up: the one that is captured or, where its place is not known
/// yet, where the system has it now. Without either the pointer is moved where it is.
pub fn nudge_windows_capture_target(known: Option<Rect>, looked_up: Option<Rect>) -> (target: Option<
    Rect,
>)
    ensures
        target == if known is Some {
            known
        } else {
            looked_up
        },
{
    match known {
        Some(rect) => Some(rect),
        None => looked_up,
    }
}

/// A pointer on the display is back where it was in the end; any other ends on
/// the display, as long as the display lies within the coordinates there are.
pub proof fn law_nudge_ends_on_the_display(at: Point, origin: Point, width: u32, height: u32)
    requires
        width > 0,
        height > 0,
        origin.x + width <= i32::MAX,
        origin.y + height <= i32::MAX,
        width <= i32::MAX,
        height <= i32::MAX,
    ensures
        ({
            let end = rect_path(at, origin, width, height).last();
            &&& origin.x <= end.x < origin.x + width
            &&& origin.y <= end.y < origin.y + height
            &&& origin.x <= at.x < origin.x + width && origin.y <= at.y < origin.y + height ==> end
                == at
        }),
{
}

/// The nudge moves the pointer: on a display two pixels wide or more, some place
/// on the path is not where the pointer was and is on the display.
pub proof fn law_nudge_moves(at: Point, origin: Point, width: u32, height: u32)
    requires
        width > 1,
        height > 0,
        origin.x + width <= i32::MAX,
        origin.y + height <= i32::MAX,
        width <= i32::MAX,
        height <= i32::MAX,
    ensures
        ({
            let path = rect_path(at, origin, width, height);
            let first = path[0];
            &&& first != at
            &&& origin.x <= first.x < origin.x + width
            &&& origin.y <= first.y < origin.y + height
        }),
{
}

/// The full report is believed; without it the pointer counts as shown, with no shape.
pub proof fn law_report_comes_before_position(
    report: Option<CursorReport>,
    position: Option<Point>,
    screen: VirtualScreen,
    snapshot: Option<WindowsCursorSnapshot>,
)
    requires
        call_ensures(windows_cursor_snapshot, (report, position, screen), snapshot),
    ensures
        snapshot is None <==> report is None && position is None,
        snapshot matches Some(s) ==> s.virtual_screen == screen,
        report matches Some(r) ==> (snapshot matches Some(s) && s.x == r.x && s.y == r.y && s.handle
            == r.handle && (s.visible <==> r.flags == 1)),
        report is None && position is Some ==> (snapshot matches Some(s) && s.x == position->0.x
            && s.y == position->0.y && s.visible && s.handle == 0),
{
}

/// A nudge goes one pixel aside and back to where the pointer was, and does not leave the
/// displays where the pointer is on them.
pub proof fn law_nudge_goes_aside_and_back(s: WindowsCursorSnapshot, path: Vec<Point>)
    requires
        i32::MIN < s.x < i32::MAX,
        i32::MIN <= s.virtual_screen.x + s.virtual_screen.width <= i32::MAX,
        call_ensures(windows_nudge_cursor_for_capture, (&s,), path),
    ensures
        path@.len() == 2,
        path@[1] == (Point { x: s.x, y: s.y }),
        path@[0].y == s.y,
        path@[0].x == s.x + 1 || path@[0].x == s.x - 1,
        s.x + 1 < s.virtual_screen.x + s.virtual_screen.width ==> path@[0].x == s.x + 1,
        s.x + 1 >= s.virtual_screen.x + s.virtual_screen.width ==> path@[0].x == s.x - 1,
{
}

/// A display is woken up by a pixel aside and back, from where the pointer is if it is
/// there, and from the middle of the display if not.
pub proof fn law_display_is_woken_where_the_pointer_is(
    s: WindowsCursorSnapshot,
    origin: Point,
    width: u32,
    height: u32,
    path: Option<Vec<Point>>,
)
    requires
        origin.x + width <= i32::MAX,
        origin.y + height <= i32::MAX,
        width <= i32::MAX,
        height <= i32::MAX,
        call_ensures(windows_nudge_cursor_in_rect, (&s, origin, width, height), path),
    ensures
        path is None <==> width == 0 || height == 0,
        path matches Some(p) ==> {
            let there = origin.x <= s.x < origin.x + width && origin.y <= s.y < origin.y + height;
            let end = p@.last();
            &&& there ==> p@.len() == 2 && end.x == s.x && end.y == s.y
            &&& !there ==> p@.len() == 3 && p@[0] == end
            &&& !there ==> -1 <= 2 * (end.x - origin.x) - width <= 1 && -1 <= 2 * (end.y - origin.y)
                - height <= 1
            &&& p@[p@.len() - 2].y == end.y
            &&& end.x + 1 < origin.x + width ==> p@[p@.len() - 2].x == end.x + 1
            &&& end.x + 1 == origin.x + width && end.x > i32::MIN ==> p@[p@.len() - 2].x == end.x
                - 1
        },
{
}

/// The display whose place is known is woken up, and the one that was looked up only where
/// none is known.
pub proof fn law_known_display_comes_first(
    known: Option<Rect>,
    looked_up: Option<Rect>,
    target: Option<Rect>,
)
    requires
        call_ensures(nudge_windows_capture_target, (known, looked_up), target),
    ensures
        known is Some ==> target == known,
        known is None ==> target == looked_up,
{
}

} // verus!
