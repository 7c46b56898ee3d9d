//! Frames from whichever agent is there to the viewer that stays.

use crate::clock::{self, MS};
use crate::ipc::wire::IpcEncodedFrame;
use crate::service::startup;
use vstd::prelude::*;

verus! {

/// How often the agent is looked after.
pub const REFRESH_PERIOD: u64 = 250 * MS;

/// How often a keyframe is asked for.
pub const NUDGE_PERIOD: u64 = 500 * MS;

/// What to do with a frame of the agent.
#[derive(Debug, Clone, Copy, PartialEq, Eq, Structural)]
pub enum RelayStep {
    /// Send it on. `resized`: it has another size than the one before.
    Forward { resized: bool },
    /// Pass over it.
    Drop,
    /// Pass over it and ask for a keyframe.
    DropAndNudge,
}

/// The relay of one session.
#[derive(Debug, Clone, Copy, PartialEq, Eq, Structural)]
pub struct Relay {
    /// Nothing is sent on before a keyframe of the agent that is there now.
    pub wait_for_live_keyframe: bool,
    /// A keyframe that looks empty was passed over.
    pub skipped_suspicious: bool,
    pub last_nudge: u64,
    pub last_refresh: u64,
    /// Size of the picture that the viewer has.
    pub width: u32,
    pub height: u32,
}

impl Relay {
    /// The relay once another agent is there.
    pub open spec fn refreshed(self, now: u64) -> Relay {
        Relay {
            wait_for_live_keyframe: true,
            skipped_suspicious: false,
            last_nudge: clock::ago(now, clock::SEC),
            last_refresh: now,
            ..self
        }
    }

    /// What becomes of a frame.
    pub open spec fn verdict(self, is_keyframe: bool, suspicious: bool, size: (u32, u32)) -> RelayStep {
        if self.wait_for_live_keyframe && !is_keyframe {
            RelayStep::Drop
        } else if self.wait_for_live_keyframe && !self.skipped_suspicious && suspicious {
            RelayStep::DropAndNudge
        } else {
            RelayStep::Forward { resized: size != (self.width, self.height) }
        }
    }

    /// The relay after a frame.
    pub open spec fn after(self, is_keyframe: bool, suspicious: bool, size: (u32, u32)) -> Relay {
        match self.verdict(is_keyframe, suspicious, size) {
            RelayStep::Drop => self,
            RelayStep::DropAndNudge => Relay { skipped_suspicious: true, ..self },
            RelayStep::Forward { .. } => Relay {
                wait_for_live_keyframe: false,
                width: size.0,
                height: size.1,
                ..self
            },
        }
    }

    /// The relay that has sent the startup frame, which has this size.
    pub open spec fn started(width: u32, height: u32, now: u64) -> Relay {
        Relay {
            wait_for_live_keyframe: true,
            skipped_suspicious: false,
            last_nudge: clock::ago(now, clock::SEC),
            last_refresh: clock::ago(now, clock::SEC),
            width,
            height,
        }
    }

    /// The agent is due to be looked after.
    pub open spec fn wants_refresh(self, now: u64) -> bool {
        clock::span(self.last_refresh, now) >= REFRESH_PERIOD
    }

    /// A keyframe is due to be asked for.
    pub open spec fn wants_nudge(self, viewer_needs_keyframe: bool, now: u64) -> bool {
        (self.wait_for_live_keyframe || viewer_needs_keyframe) && clock::span(self.last_nudge, now)
            > NUDGE_PERIOD
    }

    /// The relay once a keyframe was asked for where one was due.
    pub open spec fn nudged(self, viewer_needs_keyframe: bool, now: u64) -> Relay {
        if self.wants_nudge(viewer_needs_keyframe, now) {
            Relay { last_nudge: now, ..self }
        } else {
            self
        }
    }

    /// A relay that has sent the startup frame, which has this size.
    pub fn new(width: u32, height: u32, now: u64) -> (relay: Self)
        ensures
            relay == (Relay {
                wait_for_live_keyframe: true,
                skipped_suspicious: false,
                last_nudge: clock::ago(now, clock::SEC),
                last_refresh: clock::ago(now, clock::SEC),
                width,
                height,
            }),
            relay == Self::started(width, height, now),
    {
        Relay {
            wait_for_live_keyframe: true,
            skipped_suspicious: false,
            last_nudge: clock::instant_ago(now, clock::SEC),
            last_refresh: clock::instant_ago(now, clock::SEC),
            width,
            height,
        }
    }

    /// Whether to look after the agent now.
    pub fn refresh_due(&self, now: u64) -> (due: bool)
        ensures
            due == (clock::span(self.last_refresh, now) >= REFRESH_PERIOD),
            due == self.wants_refresh(now),
    {
        clock::elapsed(self.last_refresh, now) >= REFRESH_PERIOD
    }

    /// The agent was looked after: it may be another one, so nothing is sent
    /// on before its first keyframe.
    pub fn on_refreshed(&mut self, now: u64)
        ensures
            *final(self) == old(self).refreshed(now),
    {
        self.wait_for_live_keyframe = true;
        self.skipped_suspicious = false;
        self.last_nudge = clock::instant_ago(now, clock::SEC);
        self.last_refresh = now;
    }

    /// Whether to ask the agent for a keyframe now: one is waited for, or the
    /// viewer needs one, and the last request is old.
    pub fn nudge_due(&mut self, viewer_needs_keyframe: bool, now: u64) -> (due: bool)
        ensures
            due == ((old(self).wait_for_live_keyframe || viewer_needs_keyframe) && clock::span(
                old(self).last_nudge,
                now,
            ) > NUDGE_PERIOD),
            *final(self) == if due {
                Relay { last_nudge: now, ..*old(self) }
            } else {
                *old(self)
            },
            due == old(self).wants_nudge(viewer_needs_keyframe, now),
            *final(self) == old(self).nudged(viewer_needs_keyframe, now),
    {
        if (self.wait_for_live_keyframe || viewer_needs_keyframe) && clock::elapsed(
            self.last_nudge,
            now,
        ) > NUDGE_PERIOD {
            self.last_nudge = now;
            true
        } else {
            false
        }
    }

    /// Take in a frame of the agent.
    pub fn on_frame(&mut self, frame: &IpcEncodedFrame) -> (step: RelayStep)
        ensures
            ({
                let suspicious = startup::is_suspicious(*frame);
                let size = (frame.width, frame.height);
                &&& step == old(self).verdict(frame.encoded.is_keyframe, suspicious, size)
                &&& *final(self) == old(self).after(frame.encoded.is_keyframe, suspicious, size)
            }),
            step matches RelayStep::Forward { resized } ==> (resized <==> frame.width != old(
                self,
            ).width || frame.height != old(self).height),
            step is Forward ==> final(self).width == frame.width && final(self).height
                == frame.height,
    {
        if self.wait_for_live_keyframe {
            if !frame.encoded.is_keyframe {
                return RelayStep::Drop;
            }
            if !self.skipped_suspicious && startup::is_suspicious_transition_keyframe(frame) {
                self.skipped_suspicious = true;
                return RelayStep::DropAndNudge;
            }
            self.wait_for_live_keyframe = false;
        }
        let resized = frame.width != self.width || frame.height != self.height;
        self.width = frame.width;
        self.height = frame.height;
        RelayStep::Forward { resized }
    }
}

/// The first frame of another agent that is sent on is a keyframe.
pub proof fn law_first_forwarded_frame_is_keyframe(
    relay: Relay,
    now: u64,
    is_keyframe: bool,
    suspicious: bool,
    size: (u32, u32),
)
    requires
        relay.refreshed(now).verdict(is_keyframe, suspicious, size) is Forward,
    ensures
        is_keyframe,
        !suspicious,
{
}

/// While a keyframe is waited for, only frames that are passed over keep it
/// waiting: the wait ends with the first one that is sent on.
pub proof fn law_wait_ends_with_forward(
    relay: Relay,
    is_keyframe: bool,
    suspicious: bool,
    size: (u32, u32),
)
    requires
        relay.wait_for_live_keyframe,
    ensures
        relay.after(is_keyframe, suspicious, size).wait_for_live_keyframe <==> !(relay.verdict(
            is_keyframe,
            suspicious,
            size,
        ) is Forward),
{
}

/// One keyframe that looks empty is passed over, and the next one is not: an
/// agent whose desktop is plain is not waited for for ever.
pub proof fn law_one_suspicious_keyframe_is_skipped(relay: Relay, now: u64, size: (u32, u32))
    ensures
        ({
            let fresh = relay.refreshed(now);
            &&& fresh.verdict(true, true, size) is DropAndNudge
            &&& fresh.after(true, true, size).verdict(true, true, size) is Forward
        }),
{
}

/// Once frames flow, every frame is sent on: dropping one would spoil those
/// that build on it.
pub proof fn law_live_frames_are_never_dropped(
    relay: Relay,
    is_keyframe: bool,
    suspicious: bool,
    size: (u32, u32),
)
    requires
        !relay.wait_for_live_keyframe,
    ensures
        relay.verdict(is_keyframe, suspicious, size) is Forward,
        !relay.after(is_keyframe, suspicious, size).wait_for_live_keyframe,
{
}

/// The viewer always knows the size of what it gets: a frame that is sent on is reported
/// as resized exactly if its width or its height is not that of the picture before, and
/// its size is the viewer's from then on. What is passed over leaves the viewer's size.
pub proof fn law_viewer_is_told_of_every_new_size(
    relay: Relay,
    is_keyframe: bool,
    suspicious: bool,
    width: u32,
    height: u32,
)
    ensures
        ({
            let step = relay.verdict(is_keyframe, suspicious, (width, height));
            let after = relay.after(is_keyframe, suspicious, (width, height));
            &&& step matches RelayStep::Forward { resized } ==> {
                &&& !resized ==> width == relay.width && height == relay.height
                &&& resized ==> width != relay.width || height != relay.height
                &&& after.width == width
                &&& after.height == height
            }
            &&& !(step is Forward) ==> after.width == relay.width && after.height == relay.height
        }),
{
}

/// The same size is never reported twice in a row, and going back to the size before is.
pub proof fn law_size_is_reported_once(
    relay: Relay,
    first: (u32, u32),
    second: (u32, u32),
    is_keyframe: bool,
    suspicious: bool,
)
    requires
        !relay.wait_for_live_keyframe,
    ensures
        ({
            let between = relay.after(is_keyframe, suspicious, first);
            &&& between.verdict(is_keyframe, suspicious, second) matches RelayStep::Forward {
                resized,
            }
            &&& resized <==> first.0 != second.0 || first.1 != second.1
        }),
{
}

/// A frame is passed over only while a keyframe of the agent is waited for, and a
/// keyframe only if it looks empty and none was passed over for that before.
pub proof fn law_frames_are_dropped_only_while_waiting(
    relay: Relay,
    is_keyframe: bool,
    suspicious: bool,
    size: (u32, u32),
)
    ensures
        ({
            let step = relay.verdict(is_keyframe, suspicious, size);
            &&& !(step is Forward) ==> relay.wait_for_live_keyframe
            &&& !(step is Forward) && is_keyframe ==> suspicious && !relay.skipped_suspicious
            &&& step is DropAndNudge ==> is_keyframe
            &&& relay.wait_for_live_keyframe && !is_keyframe ==> step is Drop
        }),
{
}

/// After another agent came nothing of the old one counts: a keyframe is waited for and
/// asked for at once, and the next look after the agent is a quarter of a second away.
pub proof fn law_refresh_starts_over(relay: Relay, now: u64, later: u64)
    requires
        now >= 1_000_000_000,
        later >= now,
    ensures
        relay.refreshed(now).wait_for_live_keyframe,
        relay.refreshed(now).wants_nudge(false, now),
        relay.refreshed(now).wants_refresh(later) <==> later - now >= 250_000_000,
        relay.refreshed(now).width == relay.width,
        relay.refreshed(now).height == relay.height,
{
}

/// A relay starts with the size of the startup frame, looks after the agent at once and
/// asks it for a keyframe at once.
pub proof fn law_relay_starts_due(width: u32, height: u32, now: u64, size: (u32, u32))
    requires
        now >= 1_000_000_000,
    ensures
        ({
            let relay = Relay::started(width, height, now);
            &&& relay.wants_refresh(now)
            &&& relay.wants_nudge(false, now)
            &&& relay.verdict(false, false, size) is Drop
            &&& relay.verdict(true, false, size) == (RelayStep::Forward {
                resized: size.0 != width || size.1 != height,
            })
        }),
{
}

/// Keyframes are asked for while one is waited for or needed, never without need, and
/// again only more than half a second later.
pub proof fn law_nudges_keep_their_distance(relay: Relay, needed: bool, at: u64, later: u64)
    requires
        relay.wants_nudge(needed, at),
        later >= at,
    ensures
        relay.wait_for_live_keyframe || needed,
        relay.nudged(needed, at).wants_nudge(needed, later) <==> later - at > 500_000_000,
        !relay.nudged(needed, at).wants_nudge(needed, at),
{
}

/// The agent is looked after every quarter of a second, and asked for a keyframe more than
/// half a second after the last time, while one is waited for or the viewer needs one.
pub proof fn law_relay_keeps_its_times(relay: Relay, now: u64, due: bool, needed: bool)
    requires
        call_ensures(Relay::refresh_due, (&relay, now), due),
    ensures
        due <==> now - relay.last_refresh >= 250_000_000,
        forall|r: &mut Relay, ask: bool| #[trigger]
            call_ensures(Relay::nudge_due, (r, needed, now), ask) ==> {
                &&& ask <==> ((*r).wait_for_live_keyframe || needed) && now - (*r).last_nudge
                    > 500_000_000
                &&& ask ==> (*final(r)).last_nudge == now
                &&& !ask ==> *final(r) == *r
                &&& (*final(r)).wait_for_live_keyframe == (*r).wait_for_live_keyframe
                &&& (*final(r)).width == (*r).width && (*final(r)).height == (*r).height
            },
{
}

} // verus!
