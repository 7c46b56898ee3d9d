//! What the viewer knows of the mouse pointer, and when to tell it more.

use crate::clock::{self, MS};
use crate::protocol::CursorState;
use vstd::prelude::*;

verus! {

/// The pointer as the system reports it: its handle and its place on the
/// virtual desktop.
#[derive(Debug, Clone, Copy, PartialEq, Eq, Structural)]
pub struct CursorSnapshot {
    pub handle: u64,
    pub visible: bool,
    pub x: i32,
    pub y: i32,
}

/// How often the pointer is looked at.
pub const CURSOR_POLL: u64 = 33 * MS;

/// How long an unchanged pointer goes without being sent again.
pub const CURSOR_REPEAT: u64 = 250 * MS;

/// What was sent to the viewer last.
#[derive(Debug, Clone, Copy, PartialEq, Eq, Structural)]
pub struct CursorTracker {
    /// The handle that the shape was last read from.
    pub handle: u64,
    /// The shape that the viewer has.
    pub shape: Option<u64>,
    /// The state that the viewer has.
    pub state: Option<CursorState>,
    /// When it was sent.
    pub state_sent: u64,
}

/// What came of reading a pointer's shape and sending it.
#[derive(Debug, Clone, Copy, PartialEq, Eq, Structural)]
pub enum ShapeOutcome {
    /// The shape could not be read.
    Unreadable,
    /// The viewer has this shape already.
    Known,
    /// The shape was sent.
    Sent { shape_id: u64 },
    /// The shape could not be sent.
    NotSent,
}

/// `x`, no less than `low` and no more than `high`.
pub open spec fn clamped(x: int, low: int, high: int) -> int {
    if x < low {
        low
    } else if x > high {
        high
    } else {
        x
    }
}

/// `a - b`, as far as 32 bits reach.
pub open spec fn less(a: i32, b: i32) -> int {
    clamped(a - b, i32::MIN as int, i32::MAX as int)
}

/// The last coordinate of an axis of `size` pixels.
pub open spec fn last_of(size: u32) -> int {
    if size == 0 {
        0
    } else {
        size - 1
    }
}

/// The pointer lies on the captured display.
pub open spec fn is_inside(
    snapshot: CursorSnapshot,
    origin: (i32, i32),
    size: (u32, u32),
) -> bool {
    &&& size.0 > 0
    &&& size.1 > 0
    &&& 0 <= less(snapshot.x, origin.0) <= last_of(size.0)
    &&& 0 <= less(snapshot.y, origin.1) <= last_of(size.1)
}

/// The pointer as the viewer is to draw it, on a captured display of `size`
/// whose corner is `origin`: in the display's coordinates, kept inside it, and
/// hidden while it is elsewhere.
pub open spec fn state_of(
    snapshot: CursorSnapshot,
    origin: (i32, i32),
    size: (u32, u32),
    shape: Option<u64>,
) -> CursorState {
    CursorState {
        visible: snapshot.visible && is_inside(snapshot, origin, size),
        x: clamped(less(snapshot.x, origin.0), 0, last_of(size.0)) as i32,
        y: clamped(less(snapshot.y, origin.1), 0, last_of(size.1)) as i32,
        shape_id: if shape is Some {
            shape->0
        } else {
            0
        },
    }
}

/// One coordinate on the captured display, kept inside it.
fn local(at: i32, origin: i32, size: u32) -> (out: (i32, bool))
    requires
        size <= 0x8000_0000,
    ensures
        out.0 == clamped(less(at, origin), 0, last_of(size)),
        out.1 == (0 <= less(at, origin) <= last_of(size)),
{
    let diff: i64 = at as i64 - origin as i64;
    let last: i64 = if size == 0 {
        0
    } else {
        (size - 1) as i64
    };
    if diff < 0 {
        (0, false)
    } else if diff > last {
        (last as i32, less_inside(diff, last))
    } else {
        (diff as i32, true)
    }
}

/// A coordinate beyond 32 bits counts as the largest.
fn less_inside(diff: i64, last: i64) -> (inside: bool)
    requires
        diff > last,
        0 <= last <= i32::MAX,
    ensures
        inside == (clamped(diff as int, i32::MIN as int, i32::MAX as int) <= last),
{
    diff > 0x7fff_ffff && last == 0x7fff_ffff
}

impl CursorTracker {
    /// The tracker for a viewer that was just attached: it has no shape.
    pub open spec fn forgotten(self) -> CursorTracker {
        CursorTracker { handle: 0, shape: None, ..self }
    }

    /// A look at the pointer is due.
    pub open spec fn is_due(self, now: u64) -> bool {
        clock::span(self.state_sent, now) >= CURSOR_POLL
    }

    /// The pointer's shape has to be read: it has one, and it is another
    /// pointer than before or the viewer has no shape.
    pub open spec fn wants_shape_of(self, handle: u64) -> bool {
        handle != 0 && (handle != self.handle || self.shape is None)
    }

    /// The tracker once the shape of `handle` was read.
    pub open spec fn with_shape(self, handle: u64, outcome: ShapeOutcome) -> CursorTracker {
        CursorTracker {
            handle,
            shape: match outcome {
                ShapeOutcome::Unreadable => None,
                ShapeOutcome::Sent { shape_id } => Some(shape_id),
                ShapeOutcome::Known | ShapeOutcome::NotSent => self.shape,
            },
            ..self
        }
    }

    /// The viewer has to be told `state`: it is another one than it has, or
    /// it was told long ago.
    pub open spec fn wants_state(self, state: CursorState, now: u64) -> bool {
        self.state != Some(state) || clock::span(self.state_sent, now) >= CURSOR_REPEAT
    }

    /// A tracker that has sent nothing; the first look is due at once.
    pub fn new(now: u64) -> (tracker: Self)
        ensures
            tracker == (CursorTracker {
                handle: 0,
                shape: None,
                state: None,
                state_sent: clock::ago(now, clock::SEC),
            }),
    {
        CursorTracker {
            handle: 0,
            shape: None,
            state: None,
            state_sent: clock::instant_ago(now, clock::SEC),
        }
    }

    /// A viewer was attached: send the shape again.
    pub fn forget_shape(&mut self)
        ensures
            *final(self) == old(self).forgotten(),
    {
        self.handle = 0;
        self.shape = None;
    }

    /// Whether a look at the pointer is due: somebody watches, and the last look is
    /// long enough ago.
    pub fn due(&self, viewer_active: bool, now: u64) -> (due: bool)
        ensures
            due == (viewer_active && self.is_due(now)),
    {
        viewer_active && clock::elapsed(self.state_sent, now) >= CURSOR_POLL
    }

    /// Whether the pointer's shape has to be read.
    pub fn wants_shape(&self, handle: u64) -> (wants: bool)
        ensures
            wants == self.wants_shape_of(handle),
    {
        handle != 0 && (handle != self.handle || self.shape.is_none())
    }

    /// Whether a shape that was read has to be sent.
    pub fn is_new_shape(&self, shape_id: u64) -> (new: bool)
        ensures
            new == (self.shape != Some(shape_id)),
    {
        match self.shape {
            Some(known) => known != shape_id,
            None => true,
        }
    }

    /// Note what came of reading the shape of `handle`.
    pub fn shape_done(&mut self, handle: u64, outcome: ShapeOutcome)
        ensures
            *final(self) == old(self).with_shape(handle, outcome),
    {
        match outcome {
            ShapeOutcome::Unreadable => self.shape = None,
            ShapeOutcome::Sent { shape_id } => self.shape = Some(shape_id),
            ShapeOutcome::Known | ShapeOutcome::NotSent => {},
        }
        self.handle = handle;
    }

    /// What to tell the viewer of the pointer now, if anything.
    pub fn state_to_send(
        &self,
        snapshot: CursorSnapshot,
        origin: (i32, i32),
        size: (u32, u32),
        now: u64,
    ) -> (out: Option<CursorState>)
        requires
            size.0 <= 0x8000_0000,
            size.1 <= 0x8000_0000,
        ensures
            ({
                let state = state_of(snapshot, origin, size, self.shape);
                out == if self.wants_state(state, now) {
                    Some(state)
                } else {
                    None
                }
            }),
    {
        let (x, inside_x) = local(snapshot.x, origin.0, size.0);
        let (y, inside_y) = local(snapshot.y, origin.1, size.1);
        let visible = size.0 > 0 && size.1 > 0 && snapshot.visible && inside_x && inside_y;
        let shape_id: u64 = match self.shape {
            Some(id) => id,
            None => 0,
        };
        let state = CursorState { visible, x, y, shape_id };
        let changed = match self.state {
            Some(known) => known != state,
            None => true,
        };
        if changed || clock::elapsed(self.state_sent, now) >= CURSOR_REPEAT {
            Some(state)
        } else {
            None
        }
    }

    /// The viewer was told `state`.
    pub fn state_done(&mut self, state: CursorState, now: u64)
        ensures
            *final(self) == (CursorTracker { state: Some(state), state_sent: now, ..*old(self) }),
    {
        self.state = Some(state);
        self.state_sent = now;
    }
}

/// The pointer that the viewer draws always lies on the captured display, and
/// a visible one lies where the system has it.
pub proof fn law_pointer_stays_on_display(
    snapshot: CursorSnapshot,
    origin: (i32, i32),
    size: (u32, u32),
    shape: Option<u64>,
)
    requires
        0 < size.0 <= 0x8000_0000,
        0 < size.1 <= 0x8000_0000,
    ensures
        ({
            let state = state_of(snapshot, origin, size, shape);
            &&& 0 <= state.x < size.0
            &&& 0 <= state.y < size.1
            &&& state.visible && snapshot.x - origin.0 <= i32::MAX && snapshot.y - origin.1
                <= i32::MAX ==> state.x == snapshot.x - origin.0 && state.y == snapshot.y
                - origin.1
        }),
{
}

/// A newly attached viewer is sent the shape of the pointer, whichever it is.
pub proof fn law_new_viewer_gets_shape(tracker: CursorTracker, handle: u64, shape_id: u64)
    requires
        handle != 0,
    ensures
        tracker.forgotten().wants_shape_of(handle),
        tracker.forgotten().shape != Some(shape_id),
{
}

/// A pointer on the captured display is drawn where it lies on it; one elsewhere is hidden
/// and kept at the edge; and none is drawn that the system hides.
pub proof fn law_pointer_is_drawn_where_it_lies(
    tracker: CursorTracker,
    at: CursorSnapshot,
    origin: (i32, i32),
    size: (u32, u32),
    now: u64,
    out: Option<CursorState>,
)
    requires
        size.0 <= 0x8000_0000,
        size.1 <= 0x8000_0000,
        call_ensures(CursorTracker::state_to_send, (&tracker, at, origin, size, now), out),
        out is Some,
        i32::MIN <= at.x - origin.0 <= i32::MAX,
        i32::MIN <= at.y - origin.1 <= i32::MAX,
    ensures
        ({
            let (x, y) = (at.x - origin.0, at.y - origin.1);
            let there = 0 <= x < size.0 && 0 <= y < size.1;
            let state = out->0;
            &&& state.visible <==> at.visible && there
            &&& there ==> state.x == x && state.y == y
            &&& x < 0 ==> state.x == 0
            &&& y < 0 ==> state.y == 0
            &&& size.0 > 0 && x >= size.0 ==> state.x == size.0 - 1
            &&& size.1 > 0 && y >= size.1 ==> state.y == size.1 - 1
            &&& tracker.shape is Some ==> tracker.shape == Some(state.shape_id)
            &&& tracker.shape is None ==> state.shape_id == 0
        }),
{
}

/// The viewer is told of a pointer that changed, and of one that did not after a quarter
/// of a second; looks are due every 33 milliseconds, while somebody watches.
pub proof fn law_unchanged_pointer_is_repeated(
    tracker: CursorTracker,
    at: CursorSnapshot,
    origin: (i32, i32),
    size: (u32, u32),
    now: u64,
    out: Option<CursorState>,
    viewer: bool,
    due: bool,
)
    requires
        size.0 <= 0x8000_0000,
        size.1 <= 0x8000_0000,
        call_ensures(CursorTracker::state_to_send, (&tracker, at, origin, size, now), out),
        call_ensures(CursorTracker::due, (&tracker, viewer, now), due),
    ensures
        now - tracker.state_sent >= 250_000_000 ==> out is Some,
        now - tracker.state_sent < 250_000_000 && out is Some ==> out != tracker.state,
        tracker.state is None ==> out is Some,
        due <==> viewer && now - tracker.state_sent >= 33_000_000,
{
}

/// The shape of a pointer is read where it is another pointer than before or the viewer
/// has none; what was sent is what the viewer has, and what could not be read is nothing.
pub proof fn law_shape_is_read_when_it_changes(
    tracker: CursorTracker,
    handle: u64,
    wants: bool,
    shape_id: u64,
    new: bool,
    outcome: ShapeOutcome,
)
    requires
        call_ensures(CursorTracker::wants_shape, (&tracker, handle), wants),
        call_ensures(CursorTracker::is_new_shape, (&tracker, shape_id), new),
    ensures
        handle == 0 ==> !wants,
        handle != 0 && handle != tracker.handle ==> wants,
        handle != 0 && tracker.shape is None ==> wants,
        handle == tracker.handle && tracker.shape is Some ==> !wants,
        new <==> tracker.shape != Some(shape_id),
        forall|t: &mut CursorTracker, u: ()| #[trigger]
            call_ensures(CursorTracker::shape_done, (t, handle, outcome), u) ==> {
                &&& (*final(t)).handle == handle
                &&& outcome is Unreadable ==> (*final(t)).shape is None
                &&& outcome matches ShapeOutcome::Sent { shape_id: id } ==> (*final(t)).shape
                    == Some(id)
                &&& outcome is Known || outcome is NotSent ==> (*final(t)).shape == (*t).shape
                &&& (*final(t)).state == (*t).state
            },
        forall|t: &mut CursorTracker, u: ()| #[trigger]
            call_ensures(CursorTracker::forget_shape, (t,), u) ==> (*final(t)).shape is None && (*final(t)).handle == 0 && (*final(t)).state == (*t).state,
{
}

} // verus!
