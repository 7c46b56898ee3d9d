//! What a viewer does with keyboard and mouse.

use crate::input::keys::KeyCode;
use vstd::prelude::*;

verus! {

/// A button of the mouse.
#[derive(Debug, Clone, Copy, PartialEq, Eq, Structural)]
pub enum MouseButton {
    Left,
    Right,
    Middle,
}

/// How far a wheel was turned along one axis. The viewer sends a fraction; what
/// the systems take of it are whole numbers.
#[derive(Debug, Clone, Copy, PartialEq, Eq, Structural)]
pub struct Scroll {
    /// The wheel was turned at all.
    pub moved: bool,
    /// The whole lines in it, the rest dropped.
    pub lines: i32,
    /// The notches in it, rounded.
    pub notches: i32,
}

/// One thing that a viewer did.
#[derive(Debug, Clone, Copy, PartialEq, Eq, Structural)]
pub enum InputEvent {
    MouseMove { x: i32, y: i32 },
    MouseButton { button: MouseButton, pressed: bool },
    MouseScroll { dx: Scroll, dy: Scroll },
    Key { key: KeyCode, pressed: bool },
}

/// The event moves the pointer.
pub open spec fn is_move(event: InputEvent) -> bool {
    event is MouseMove
}

/// How many buttons are held once `events` have happened, as far as a byte
/// counts. A release without a press counts for nothing.
pub open spec fn buttons_down(events: Seq<InputEvent>) -> int
    decreases events.len(),
{
    if events.len() == 0 {
        0
    } else {
        let before = buttons_down(events.drop_last());
        match events.last() {
            InputEvent::MouseButton { pressed, .. } => if pressed {
                if before < 255 {
                    before + 1
                } else {
                    255
                }
            } else {
                if before > 0 {
                    before - 1
                } else {
                    0
                }
            },
            _ => before,
        }
    }
}

/// Event `i` moves the pointer with no button held, and the next one moves it on.
pub open spec fn superseded(events: Seq<InputEvent>, i: int) -> bool {
    &&& i + 1 < events.len()
    &&& is_move(events[i])
    &&& is_move(events[i + 1])
    &&& buttons_down(events.take(i)) == 0
}

/// The first `n` of `events` without those that are superseded.
pub open spec fn kept(events: Seq<InputEvent>, n: int) -> Seq<InputEvent>
    decreases n,
{
    if n <= 0 {
        Seq::empty()
    } else if superseded(events, n - 1) {
        kept(events, n - 1)
    } else {
        kept(events, n - 1).push(events[n - 1])
    }
}

/// `events` without the moves that a later move makes pointless.
pub open spec fn coalesced(events: Seq<InputEvent>) -> Seq<InputEvent> {
    kept(events, events.len() as int)
}

/// The events other than moves, in their order.
pub open spec fn other_events(events: Seq<InputEvent>) -> Seq<InputEvent> {
    events.filter(|e: InputEvent| !is_move(e))
}

/// Where the pointer was last moved to.
pub open spec fn pointer(events: Seq<InputEvent>) -> Option<(i32, i32)>
    decreases events.len(),
{
    if events.len() == 0 {
        None
    } else {
        match events.last() {
            InputEvent::MouseMove { x, y } => Some((x, y)),
            _ => pointer(events.drop_last()),
        }
    }
}

/// Drops the moves of the pointer that a later one supersedes. While a button is
/// held every move counts, and so does the last one before anything else.
pub fn coalesce_mouse_moves(inputs: Vec<InputEvent>) -> (out: Vec<InputEvent>)
    ensures
        out@ == coalesced(inputs@),
{
    let mut out: Vec<InputEvent> = Vec::new();
    let mut pending: Option<InputEvent> = None;
    let mut down: u8 = 0;
    let total: usize = inputs.len();
    let mut i: usize = 0;
    while i < total
        invariant
            i <= total == inputs@.len(),
            down == buttons_down(inputs@.take(i as int)),
            match pending {
                Some(event) => {
                    &&& i > 0
                    &&& event == inputs@[i - 1]
                    &&& is_move(event)
                    &&& buttons_down(inputs@.take(i - 1)) == 0
                    &&& out@ == kept(inputs@, i - 1)
                },
                None => {
                    &&& out@ == kept(inputs@, i as int)
                    &&& i > 0 && is_move(inputs@[i - 1]) ==> down != 0
                },
            },
        decreases total - i,
    {
        let event: InputEvent = inputs[i];
        assert(inputs@.take(i + 1).drop_last() == inputs@.take(i as int));
        assert(i > 0 ==> inputs@.take(i as int).drop_last() == inputs@.take(i - 1));
        assert(pending is Some ==> kept(inputs@, i as int) == if is_move(event) {
            out@
        } else {
            out@.push(inputs@[i - 1])
        });
        match event {
            InputEvent::MouseMove { .. } => {
                if down == 0 {
                    pending = Some(event);
                } else {
                    if let Some(earlier) = pending {
                        out.push(earlier);
                        pending = None;
                    }
                    out.push(event);
                }
            },
            InputEvent::MouseButton { pressed, .. } => {
                if let Some(earlier) = pending {
                    out.push(earlier);
                    pending = None;
                }
                if pressed {
                    if down < 255 {
                        down = down + 1;
                    }
                } else if down > 0 {
                    down = down - 1;
                }
                out.push(event);
            },
            _ => {
                if let Some(earlier) = pending {
                    out.push(earlier);
                    pending = None;
                }
                out.push(event);
            },
        }
        i = i + 1;
    }
    if let Some(earlier) = pending {
        out.push(earlier);
    }
    out
}

/// Only moves are dropped: clicks, keys and scrolling come through, each once and
/// in the order in which they happened.
pub proof fn law_only_moves_are_dropped(events: Seq<InputEvent>)
    ensures
        other_events(coalesced(events)) == other_events(events),
{
    lemma_only_moves(events, events.len() as int);
    assert(events.take(events.len() as int) == events);
}

proof fn lemma_only_moves(events: Seq<InputEvent>, n: int)
    requires
        0 <= n <= events.len(),
    ensures
        other_events(kept(events, n)) == other_events(events.take(n)),
    decreases n,
{
    reveal(Seq::filter);
    if n > 0 {
        lemma_only_moves(events, n - 1);
        assert(events.take(n).drop_last() == events.take(n - 1));
        if !superseded(events, n - 1) {
            assert(kept(events, n).drop_last() == kept(events, n - 1));
        }
    }
}

/// Whatever is not dropped finds the pointer where the viewer had it: every click
/// lands where it was aimed, and the pointer ends where it was left.
pub proof fn law_pointer_is_where_it_was(events: Seq<InputEvent>, n: int)
    requires
        0 <= n <= events.len(),
        n > 0 ==> !superseded(events, n - 1),
    ensures
        pointer(kept(events, n)) == pointer(events.take(n)),
    decreases n,
{
    if n > 0 {
        assert(events.take(n).drop_last() == events.take(n - 1));
        assert(kept(events, n).drop_last() == kept(events, n - 1));
        if !is_move(events[n - 1]) {
            law_pointer_is_where_it_was(events, n - 1);
        }
    }
}

/// While a button is held nothing is dropped.
pub proof fn law_drags_are_kept(events: Seq<InputEvent>, i: int)
    requires
        0 <= i < events.len(),
        buttons_down(events.take(i)) > 0,
    ensures
        kept(events, i + 1) == kept(events, i).push(events[i]),
{
}

/// A button that goes down is held, and one that goes up again leaves as many held as
/// before it went down.
pub proof fn law_press_and_release_cancel(
    events: Seq<InputEvent>,
    press: InputEvent,
    release: InputEvent,
    other: InputEvent,
)
    requires
        press matches InputEvent::MouseButton { pressed, .. } && pressed,
        release matches InputEvent::MouseButton { pressed, .. } && !pressed,
        !(other is MouseButton),
    ensures
        buttons_down(Seq::<InputEvent>::empty()) == 0,
        buttons_down(events.push(press)) > 0,
        buttons_down(events) < 255 ==> buttons_down(events.push(press)) == buttons_down(events) + 1,
        buttons_down(events) < 255 ==> buttons_down(events.push(press).push(release))
            == buttons_down(events),
        buttons_down(events) == 0 ==> buttons_down(events.push(release)) == 0,
        buttons_down(events.push(other)) == buttons_down(events),
{
    lemma_buttons_bounded(events);
    assert(events.push(press).drop_last() =~= events);
    assert(events.push(release).drop_last() =~= events);
    assert(events.push(other).drop_last() =~= events);
    let both = events.push(press).push(release);
    assert(both.drop_last() =~= events.push(press));
    assert(both.last() == release);
    let held = buttons_down(events.push(press));
    assert(buttons_down(both.drop_last()) == held);
    assert(buttons_down(both) == if held > 0 {
        held - 1
    } else {
        0
    });
}

proof fn lemma_buttons_bounded(events: Seq<InputEvent>)
    ensures
        0 <= buttons_down(events) <= 255,
    decreases events.len(),
{
    if events.len() > 0 {
        lemma_buttons_bounded(events.drop_last());
    }
}

proof fn lemma_no_button_held(events: Seq<InputEvent>)
    requires
        forall|i: int| 0 <= i < events.len() ==> !((#[trigger] events[i]) is MouseButton),
    ensures
        buttons_down(events) == 0,
    decreases events.len(),
{
    if events.len() > 0 {
        let before = events.drop_last();
        assert(forall|i: int| 0 <= i < before.len() ==> #[trigger] before[i] == events[i]);
        lemma_no_button_held(before);
    }
}

proof fn lemma_moves_apart(events: Seq<InputEvent>, n: int)
    requires
        0 <= n <= events.len(),
        forall|i: int| 0 <= i < events.len() ==> !((#[trigger] events[i]) is MouseButton),
    ensures
        ({
            let out = kept(events, n);
            &&& forall|k: int|
                0 <= k < out.len() - 1 ==> !((#[trigger] out[k]) is MouseMove && out[k
                    + 1] is MouseMove)
            &&& out.len() > 0 && out.last() is MouseMove && n < events.len()
                ==> !(events[n] is MouseMove)
        }),
    decreases n,
{
    if n > 0 {
        lemma_moves_apart(events, n - 1);
        let before = kept(events, n - 1);
        let prefix = events.take(n - 1);
        assert(forall|i: int| 0 <= i < prefix.len() ==> #[trigger] prefix[i] == events[i]);
        lemma_no_button_held(prefix);
        if !superseded(events, n - 1) {
            let out = before.push(events[n - 1]);
            assert forall|k: int| 0 <= k < out.len() - 1 implies !((
            #[trigger] out[k]) is MouseMove && out[k + 1] is MouseMove) by {
                if k < before.len() - 1 {
                    assert(out[k] == before[k]);
                    assert(out[k + 1] == before[k + 1]);
                } else {
                    assert(out[k] == before.last());
                }
            }
        }
    }
}

/// Where no button is pressed, no move comes right before another: only the last of a run
/// is worth making.
pub proof fn law_runs_of_moves_shrink_to_one(inputs: Vec<InputEvent>, out: Vec<InputEvent>, k: int)
    requires
        call_ensures(coalesce_mouse_moves, (inputs,), out),
        forall|i: int| 0 <= i < inputs@.len() ==> !((#[trigger] inputs@[i]) is MouseButton),
        0 <= k < out@.len() - 1,
    ensures
        !(out@[k] is MouseMove && out@[k + 1] is MouseMove),
{
    lemma_moves_apart(inputs@, inputs@.len() as int);
}

/// What comes out happened, and the last event always comes out, last.
pub proof fn law_last_event_comes_out(inputs: Vec<InputEvent>, out: Vec<InputEvent>)
    requires
        call_ensures(coalesce_mouse_moves, (inputs,), out),
    ensures
        out@.len() <= inputs@.len(),
        inputs@.len() > 0 ==> out@.len() > 0 && out@.last() == inputs@.last(),
{
    lemma_kept_is_shorter(inputs@, inputs@.len() as int);
}

proof fn lemma_kept_is_shorter(events: Seq<InputEvent>, n: int)
    requires
        0 <= n <= events.len(),
    ensures
        kept(events, n).len() <= n,
    decreases n,
{
    if n > 0 {
        lemma_kept_is_shorter(events, n - 1);
    }
}

} // verus!
