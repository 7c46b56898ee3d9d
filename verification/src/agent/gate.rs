//! When the user's desktop has settled enough to be captured.

use crate::agent::desktop::DesktopState;
use crate::clock::{self, MS, SEC};
use vstd::prelude::*;

verus! {

/// How long the user's desktop has to be there before it is captured.
pub const DEFAULT_DESKTOP_CAPTURE_STABLE_FOR: u64 = 500 * MS;

/// How long an access-denied error counts as a desktop that is not ready.
pub const ACCESS_DENIED_HOLD: u64 = 6 * SEC;

/// Holds capture back while the user's desktop is coming up.
#[derive(Debug, Clone, Copy, PartialEq, Eq, Structural)]
pub struct DefaultDesktopGate {
    /// Since when the user's desktop is there without a break.
    pub candidate_since: Option<u64>,
    /// Since when access is denied.
    pub access_denied_since: Option<u64>,
}

impl DefaultDesktopGate {
    /// The state once the desktop went away.
    pub open spec fn closed_gate() -> DefaultDesktopGate {
        DefaultDesktopGate { candidate_since: None, access_denied_since: None }
    }

    /// Since when the user's desktop is there, at a look that sees it.
    pub open spec fn candidate(self, now: u64) -> u64 {
        if self.candidate_since is Some {
            self.candidate_since->0
        } else {
            now
        }
    }

    /// Since when access is denied, at a denial.
    pub open spec fn denied_since(self, now: u64) -> u64 {
        if self.access_denied_since is Some {
            self.access_denied_since->0
        } else {
            now
        }
    }

    /// Whether a denial now is still waited out.
    pub open spec fn holds(self, now: u64) -> bool {
        clock::span(self.denied_since(now), now) < ACCESS_DENIED_HOLD
    }

    /// The state once access was denied.
    pub open spec fn after_denial(self, now: u64) -> DefaultDesktopGate {
        DefaultDesktopGate {
            access_denied_since: if self.holds(now) {
                Some(self.denied_since(now))
            } else {
                None
            },
            ..self
        }
    }

    /// Whether the user's desktop may be captured at a look at it, and the
    /// state after that.
    pub open spec fn looked(self, desktop: DesktopState, now: u64) -> (bool, DefaultDesktopGate) {
        if !desktop.on_default || desktop.transition_unavailable {
            (false, Self::closed_gate())
        } else {
            (
                clock::span(self.candidate(now), now) >= DEFAULT_DESKTOP_CAPTURE_STABLE_FOR,
                DefaultDesktopGate { candidate_since: Some(self.candidate(now)), ..self },
            )
        }
    }

    /// Whether anything may be captured, and the state after that: not while
    /// the policy holds capture; the console always; the user's desktop once
    /// it has settled.
    pub open spec fn passed(
        self,
        policy_holds: bool,
        uses_console: bool,
        desktop: DesktopState,
        now: u64,
    ) -> (bool, DefaultDesktopGate) {
        if policy_holds {
            (false, self)
        } else if uses_console {
            (true, self)
        } else {
            self.looked(desktop, now)
        }
    }

    /// A gate that has seen nothing yet.
    pub fn new() -> (gate: Self)
        ensures
            gate == Self::closed_gate(),
    {
        Self { candidate_since: None, access_denied_since: None }
    }

    /// Start over.
    pub fn reset(&mut self)
        ensures
            *final(self) == Self::closed_gate(),
    {
        self.candidate_since = None;
        self.access_denied_since = None;
    }

    /// Whether the user's desktop has been there long enough.
    pub fn ready_to_capture(&mut self, desktop: &DesktopState, now: u64) -> (ready: bool)
        ensures
            (ready, *final(self)) == old(self).looked(*desktop, now),
    {
        if !desktop.on_default || desktop.transition_unavailable {
            self.reset();
            return false;
        }
        let since: u64 = match self.candidate_since {
            Some(since) => since,
            None => now,
        };
        self.candidate_since = Some(since);
        clock::elapsed(since, now) >= DEFAULT_DESKTOP_CAPTURE_STABLE_FOR
    }

    /// Access was denied. Whether to wait and try again; once the time for
    /// that is over, a fallback is allowed and the time starts anew.
    pub fn hold_after_access_denied(&mut self, now: u64) -> (hold: bool)
        ensures
            hold == old(self).holds(now),
            *final(self) == old(self).after_denial(now),
    {
        let since: u64 = match self.access_denied_since {
            Some(since) => since,
            None => now,
        };
        if clock::elapsed(since, now) < ACCESS_DENIED_HOLD {
            self.access_denied_since = Some(since);
            return true;
        }
        self.access_denied_since = None;
        false
    }

    /// A frame came through.
    pub fn mark_capture_ready(&mut self)
        ensures
            *final(self) == (DefaultDesktopGate { access_denied_since: None, ..*old(self) }),
    {
        self.access_denied_since = None;
    }

    /// Whether anything may be captured now.
    pub fn may_capture(
        &mut self,
        policy_holds: bool,
        uses_console: bool,
        desktop: &DesktopState,
        now: u64,
    ) -> (go: bool)
        ensures
            (go, *final(self)) == old(self).passed(policy_holds, uses_console, *desktop, now),
    {
        if policy_holds {
            return false;
        }
        uses_console || self.ready_to_capture(desktop, now)
    }
}

/// A first denial is always waited out, and one that comes once the hold is
/// over is not: the next one then starts a new hold.
pub proof fn law_denials_are_held_then_let_through(gate: DefaultDesktopGate, first: u64, last: u64)
    requires
        gate.access_denied_since is None,
        first + ACCESS_DENIED_HOLD <= last,
    ensures
        gate.holds(first),
        !gate.after_denial(first).holds(last),
        gate.after_denial(first).after_denial(last).holds(last),
{
}

/// A denial is held for as long as the hold lasts, however often it comes.
pub proof fn law_hold_does_not_slip(gate: DefaultDesktopGate, now: u64)
    requires
        gate.holds(now),
    ensures
        gate.after_denial(now).access_denied_since == Some(gate.denied_since(now)),
{
}

/// The user's desktop is captured once it was there for half a second without a break; a
/// look that does not see it starts over.
pub proof fn law_desktop_settles_for_half_a_second(desktop: DesktopState, now: u64)
    ensures
        forall|g: &mut DefaultDesktopGate, ready: bool| #[trigger]
            call_ensures(DefaultDesktopGate::ready_to_capture, (g, &desktop, now), ready) ==> {
                let (before, after) = (*g, *final(g));
                let there = desktop.on_default && !desktop.transition_unavailable;
                &&& ready ==> there && before.candidate_since is Some && now
                    - before.candidate_since->0 >= 500_000_000
                &&& there && before.candidate_since is Some && now - before.candidate_since->0
                    >= 500_000_000 ==> ready
                &&& there && before.candidate_since is Some ==> after == before
                &&& there && before.candidate_since is None ==> after.candidate_since == Some(now)
                    && after.access_denied_since == before.access_denied_since
                &&& !there ==> after.candidate_since is None && after.access_denied_since is None
            },
{
}

/// A denial is waited out for six seconds from the first; then it is let through once, and
/// the next is the first of a new wait. A frame ends the wait.
pub proof fn law_denial_is_held_for_six_seconds(now: u64)
    ensures
        forall|g: &mut DefaultDesktopGate, hold: bool| #[trigger]
            call_ensures(DefaultDesktopGate::hold_after_access_denied, (g, now), hold) ==> {
                let (before, after) = (*g, *final(g));
                &&& before.access_denied_since is None ==> hold && after.access_denied_since
                    == Some(now)
                &&& before.access_denied_since matches Some(since) ==> {
                    &&& hold <==> now - since < 6_000_000_000
                    &&& hold ==> after == before
                    &&& !hold ==> after.access_denied_since is None
                }
                &&& after.candidate_since == before.candidate_since
            },
        forall|g: &mut DefaultDesktopGate, out: ()| #[trigger]
            call_ensures(DefaultDesktopGate::mark_capture_ready, (g,), out) ==> (*final(g)).access_denied_since is None && (*final(g)).candidate_since == (*g).candidate_since,
        forall|g: &mut DefaultDesktopGate, out: ()| #[trigger]
            call_ensures(DefaultDesktopGate::reset, (g,), out) ==> (*final(g)).access_denied_since is None && (*final(g)).candidate_since is None,
{
}

/// Nothing is captured while the policy holds it, the console at any other time, and the
/// user's desktop only once it has settled.
pub proof fn law_console_does_not_wait(
    holds: bool,
    console: bool,
    desktop: DesktopState,
    now: u64,
)
    ensures
        forall|g: &mut DefaultDesktopGate, go: bool| #[trigger]
            call_ensures(DefaultDesktopGate::may_capture, (g, holds, console, &desktop, now), go)
            ==> {
                &&& holds ==> !go && *final(g) == *g
                &&& !holds && console ==> go && *final(g) == *g
                &&& !holds && !console && go ==> desktop.on_default
                    && !desktop.transition_unavailable && (*g).candidate_since is Some && now
                    - (*g).candidate_since->0 >= 500_000_000
                &&& !holds && !console && !go && desktop.on_default
                    && !desktop.transition_unavailable && (*g).candidate_since is Some ==> now
                    - (*g).candidate_since->0 < 500_000_000
            },
{
}

} // verus!
