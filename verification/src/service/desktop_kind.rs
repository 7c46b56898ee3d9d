//! Which desktop the agent has to be on, from signals that flap while
//! somebody logs on.

use crate::clock::{self, MS};
use crate::text;
use vstd::prelude::*;

verus! {

/// The desktop that an agent is started on.
#[derive(Debug, Clone, Copy, PartialEq, Eq, Structural)]
pub enum AgentDesktopKind {
    Default,
    Winlogon,
}

/// How long another desktop has to be seen before the agent follows it.
pub const DESKTOP_KIND_STABLE_FOR: u64 = 1000 * MS;

/// What one look at the desktop says.
#[derive(Debug, Clone, Copy, PartialEq, Eq, Structural)]
pub struct DesktopKindObservation {
    pub kind: AgentDesktopKind,
    /// Follow it at once.
    pub force: bool,
}

/// A session that can be at the console: not the services' own, and not
/// "none".
pub open spec fn is_console_session(session_id: u32) -> bool {
    session_id != 0 && session_id != 0xffff_ffff
}

/// Whether a session can be at the console.
pub fn is_valid_console_session_id(session_id: u32) -> (valid: bool)
    ensures
        valid == is_console_session(session_id),
{
    session_id != 0 && session_id != 0xffff_ffff
}

/// The kind of the desktop with this name.
pub open spec fn kind_of_name(name: Seq<char>) -> AgentDesktopKind {
    if text::same_ignoring_case(name, "Default"@) {
        AgentDesktopKind::Default
    } else {
        AgentDesktopKind::Winlogon
    }
}

/// The kind of the desktop that has the input, where its name can be read.
pub fn active_input_desktop_kind(name: &Option<String>) -> (kind: Option<AgentDesktopKind>)
    ensures
        kind == match text::option_view(*name) {
            Some(n) => Some(kind_of_name(n)),
            None => None,
        },
{
    match name {
        Some(n) => Some(
            if text::eq_ignore_case(n.as_str(), "Default") {
                AgentDesktopKind::Default
            } else {
                AgentDesktopKind::Winlogon
            },
        ),
        None => None,
    }
}

/// What one look says. The user's desktop counts only with a shell on it and
/// unlocked. The desktop with the input is followed at once, unless it is the
/// secure one of an unlocked session whose shell is there: that is a logon or
/// an elevation that may be over in a moment.
pub open spec fn observation(
    locked: bool,
    shell_ready: bool,
    input: Option<AgentDesktopKind>,
) -> DesktopKindObservation {
    let usable = shell_ready && !locked;
    match input {
        Some(AgentDesktopKind::Default) => DesktopKindObservation {
            kind: if usable {
                AgentDesktopKind::Default
            } else {
                AgentDesktopKind::Winlogon
            },
            force: true,
        },
        Some(AgentDesktopKind::Winlogon) => DesktopKindObservation {
            kind: AgentDesktopKind::Winlogon,
            force: !usable,
        },
        None => DesktopKindObservation {
            kind: if usable {
                AgentDesktopKind::Default
            } else {
                AgentDesktopKind::Winlogon
            },
            force: !usable,
        },
    }
}

/// What one look at a session says. A session whose lock state cannot be read
/// counts as unlocked.
pub fn detect_agent_desktop_kind_raw(
    locked: Option<bool>,
    shell_ready: bool,
    input: Option<AgentDesktopKind>,
) -> (seen: DesktopKindObservation)
    ensures
        seen == observation(locked == Some(true), shell_ready, input),
{
    let locked = match locked {
        Some(l) => l,
        None => false,
    };
    if let Some(kind) = input {
        return match kind {
            AgentDesktopKind::Default => {
                if shell_ready && !locked {
                    DesktopKindObservation { kind: AgentDesktopKind::Default, force: true }
                } else {
                    DesktopKindObservation { kind: AgentDesktopKind::Winlogon, force: true }
                }
            },
            AgentDesktopKind::Winlogon => DesktopKindObservation {
                kind: AgentDesktopKind::Winlogon,
                force: locked || !shell_ready,
            },
        };
    }
    if !shell_ready || locked {
        DesktopKindObservation { kind: AgentDesktopKind::Winlogon, force: true }
    } else {
        DesktopKindObservation { kind: AgentDesktopKind::Default, force: false }
    }
}

/// A change of desktop that was seen but is not followed yet.
#[derive(Debug, Clone, Copy, PartialEq, Eq, Structural)]
pub struct Candidate {
    pub session_id: u32,
    pub kind: AgentDesktopKind,
    pub since: u64,
}

/// The desktop that a session is known to be on.
#[derive(Debug, Clone, Copy, PartialEq, Eq, Structural)]
pub struct Confirmed {
    pub session_id: u32,
    pub kind: AgentDesktopKind,
}

/// Follows the desktop without flapping.
#[derive(Debug, Clone, Copy, PartialEq, Eq, Structural)]
pub struct DesktopDetectDebounce {
    pub confirmed: Option<Confirmed>,
    pub candidate: Option<Candidate>,
}

impl DesktopDetectDebounce {
    /// The look is followed at once: it is the first at the session, it has to
    /// be followed, or it is what is known already.
    pub open spec fn follows_at_once(self, session_id: u32, seen: DesktopKindObservation) -> bool {
        match self.confirmed {
            Some(known) => known.session_id != session_id || seen.force || known.kind == seen.kind,
            None => true,
        }
    }

    /// The same change was seen before, long enough ago.
    pub open spec fn is_stable(self, session_id: u32, kind: AgentDesktopKind, now: u64) -> bool {
        match self.candidate {
            Some(c) => c.session_id == session_id && c.kind == kind && clock::span(c.since, now)
                >= DESKTOP_KIND_STABLE_FOR,
            None => false,
        }
    }

    /// The same change was seen before.
    pub open spec fn is_candidate(self, session_id: u32, kind: AgentDesktopKind) -> bool {
        match self.candidate {
            Some(c) => c.session_id == session_id && c.kind == kind,
            None => false,
        }
    }

    /// The state after a look.
    pub open spec fn after(
        self,
        session_id: u32,
        seen: DesktopKindObservation,
        now: u64,
    ) -> DesktopDetectDebounce {
        if self.follows_at_once(session_id, seen) || self.is_stable(session_id, seen.kind, now) {
            DesktopDetectDebounce {
                confirmed: Some(Confirmed { session_id, kind: seen.kind }),
                candidate: None,
            }
        } else if self.is_candidate(session_id, seen.kind) {
            self
        } else {
            DesktopDetectDebounce {
                candidate: Some(Candidate { session_id, kind: seen.kind, since: now }),
                ..self
            }
        }
    }

    /// A state that has seen nothing.
    pub fn new() -> (state: Self)
        ensures
            state == (DesktopDetectDebounce { confirmed: None, candidate: None }),
    {
        DesktopDetectDebounce { confirmed: None, candidate: None }
    }

    /// Take in a look at a session, and say which desktop its agent has to be
    /// on.
    pub fn debounce_desktop_kind(
        &mut self,
        session_id: u32,
        seen: DesktopKindObservation,
        now: u64,
    ) -> (kind: AgentDesktopKind)
        ensures
            *final(self) == old(self).after(session_id, seen, now),
            final(self).confirmed == Some(Confirmed { session_id, kind }),
    {
        let known = match self.confirmed {
            Some(known) => known,
            None => {
                self.confirmed = Some(Confirmed { session_id, kind: seen.kind });
                self.candidate = None;
                return seen.kind;
            },
        };
        if known.session_id != session_id || seen.force || known.kind == seen.kind {
            self.confirmed = Some(Confirmed { session_id, kind: seen.kind });
            self.candidate = None;
            return seen.kind;
        }
        if let Some(c) = self.candidate {
            if c.session_id == session_id && c.kind == seen.kind {
                if clock::elapsed(c.since, now) >= DESKTOP_KIND_STABLE_FOR {
                    self.confirmed = Some(Confirmed { session_id, kind: seen.kind });
                    self.candidate = None;
                    return seen.kind;
                }
                return known.kind;
            }
        }
        self.candidate = Some(Candidate { session_id, kind: seen.kind, since: now });
        known.kind
    }
}

/// A look that has to be followed is followed, whatever was seen before.
pub proof fn law_forced_look_is_followed(
    state: DesktopDetectDebounce,
    session_id: u32,
    kind: AgentDesktopKind,
    now: u64,
)
    ensures
        state.after(session_id, (DesktopKindObservation { kind, force: true }), now).confirmed
            == Some(Confirmed { session_id, kind }),
{
}

/// A change that is seen once and not again changes nothing: looks at the
/// known desktop in between forget it.
pub proof fn law_flap_is_ignored(
    state: DesktopDetectDebounce,
    session_id: u32,
    known: AgentDesktopKind,
    other: AgentDesktopKind,
    first: u64,
    second: u64,
)
    requires
        state.confirmed == Some(Confirmed { session_id, kind: known }),
        state.candidate is None,
        known != other,
    ensures
        ({
            let flap = state.after(
                session_id,
                (DesktopKindObservation { kind: other, force: false }),
                first,
            );
            let back = flap.after(
                session_id,
                (DesktopKindObservation { kind: known, force: false }),
                second,
            );
            &&& flap.confirmed == state.confirmed
            &&& back == state
        }),
{
}

/// A look at a session: what was seen, and when.
pub struct Look {
    pub seen: DesktopKindObservation,
    pub at: u64,
}

impl DesktopDetectDebounce {
    /// The state after some looks at one session.
    pub open spec fn after_looks(self, session_id: u32, looks: Seq<Look>) -> DesktopDetectDebounce
        decreases looks.len(),
    {
        if looks.len() == 0 {
            self
        } else {
            self.after_looks(session_id, looks.drop_last()).after(
                session_id,
                looks.last().seen,
                looks.last().at,
            )
        }
    }
}

/// All looks saw this desktop, and the clock did not go back between them.
pub open spec fn all_saw(looks: Seq<Look>, kind: AgentDesktopKind) -> bool {
    &&& forall|i: int|
        0 <= i < looks.len() ==> (#[trigger] looks[i]).seen == (DesktopKindObservation {
            kind,
            force: false,
        })
    &&& forall|i: int, j: int| 0 <= i <= j < looks.len() ==> looks[i].at <= looks[j].at
}

/// A change that is seen again and again is followed as soon as it has been seen for
/// long enough, and not before, however often it is looked.
pub proof fn law_stable_change_is_followed(
    state: DesktopDetectDebounce,
    session_id: u32,
    known: AgentDesktopKind,
    other: AgentDesktopKind,
    looks: Seq<Look>,
)
    requires
        state.confirmed == Some(Confirmed { session_id, kind: known }),
        state.candidate is None,
        known != other,
        looks.len() > 0,
        all_saw(looks, other),
    ensures
        state.after_looks(session_id, looks) == if looks.last().at - looks[0].at
            >= DESKTOP_KIND_STABLE_FOR {
            DesktopDetectDebounce {
                confirmed: Some(Confirmed { session_id, kind: other }),
                candidate: None,
            }
        } else {
            DesktopDetectDebounce {
                confirmed: state.confirmed,
                candidate: Some(Candidate { session_id, kind: other, since: looks[0].at }),
            }
        },
    decreases looks.len(),
{
    let before = looks.drop_last();
    assert(looks.last() == looks[looks.len() - 1]);
    if before.len() > 0 {
        assert(forall|i: int| 0 <= i < before.len() ==> before[i] == looks[i]);
        law_stable_change_is_followed(state, session_id, known, other, before);
        assert(before.last() == looks[looks.len() - 2]);
    } else {
        assert(state.after_looks(session_id, before) == state);
    }
}

/// The looks from `from` on all saw this desktop.
pub open spec fn saw_since(looks: Seq<Look>, from: int, kind: AgentDesktopKind) -> bool {
    0 <= from < looks.len() && forall|j: int|
        from <= j < looks.len() ==> (#[trigger] looks[j]).seen.kind == kind
}

/// What is waited for was seen at every look since the wait began.
proof fn lemma_candidate_was_seen(state: DesktopDetectDebounce, session_id: u32, looks: Seq<Look>)
    requires
        state.candidate is None,
    ensures
        state.after_looks(session_id, looks).candidate matches Some(c) ==> exists|i: int| #[trigger]
            saw_since(looks, i, c.kind) && looks[i].at == c.since,
    decreases looks.len(),
{
    if looks.len() > 0 {
        let before = looks.drop_last();
        let n = looks.len() - 1;
        lemma_candidate_was_seen(state, session_id, before);
        let earlier = state.after_looks(session_id, before);
        if let Some(c) = state.after_looks(session_id, looks).candidate {
            if earlier.is_candidate(session_id, looks.last().seen.kind) {
                let i = choose|i: int| #[trigger]
                    saw_since(before, i, c.kind) && before[i].at == c.since;
                assert forall|j: int| i <= j < looks.len() implies (#[trigger] looks[j]).seen.kind
                    == c.kind by {
                    if j < n {
                        assert(looks[j] == before[j]);
                    }
                }
                assert(saw_since(looks, i, c.kind));
            } else {
                assert(saw_since(looks, n, c.kind));
            }
        }
    }
}

/// Whatever is seen, a known desktop of a session is given up for another one only after
/// a look that has to be followed, or once every look for long enough saw the other one.
pub proof fn law_change_is_followed_only_when_stable(
    state: DesktopDetectDebounce,
    session_id: u32,
    looks: Seq<Look>,
)
    requires
        state.candidate is None,
        state.confirmed is Some,
        state.confirmed->0.session_id == session_id,
        looks.len() > 0,
        !looks.last().seen.force,
        state.after_looks(session_id, looks).confirmed != state.after_looks(
            session_id,
            looks.drop_last(),
        ).confirmed,
    ensures
        exists|i: int| #[trigger]
            saw_since(looks, i, looks.last().seen.kind) && clock::span(looks[i].at, looks.last().at)
                >= DESKTOP_KIND_STABLE_FOR,
{
    let before = looks.drop_last();
    let kind = looks.last().seen.kind;
    let earlier = state.after_looks(session_id, before);
    lemma_session_is_kept(state, session_id, before);
    lemma_candidate_was_seen(state, session_id, before);
    assert(earlier.is_stable(session_id, kind, looks.last().at));
    let c = earlier.candidate->0;
    let i = choose|i: int| #[trigger] saw_since(before, i, c.kind) && before[i].at == c.since;
    assert forall|j: int| i <= j < looks.len() implies (#[trigger] looks[j]).seen.kind == kind by {
        if j < before.len() {
            assert(looks[j] == before[j]);
        }
    }
    assert(looks[i] == before[i]);
    assert(saw_since(looks, i, kind));
}

/// Looks at the session that is known leave it known.
proof fn lemma_session_is_kept(state: DesktopDetectDebounce, session_id: u32, looks: Seq<Look>)
    requires
        state.confirmed is Some,
        state.confirmed->0.session_id == session_id,
    ensures
        state.after_looks(session_id, looks).confirmed is Some,
        state.after_looks(session_id, looks).confirmed->0.session_id == session_id,
    decreases looks.len(),
{
    if looks.len() > 0 {
        lemma_session_is_kept(state, session_id, looks.drop_last());
    }
}

/// A locked session, or one without a shell, is never taken for the user's
/// desktop.
pub proof fn law_locked_is_secure(
    locked: bool,
    shell_ready: bool,
    input: Option<AgentDesktopKind>,
)
    requires
        locked || !shell_ready,
    ensures
        observation(locked, shell_ready, input) == (DesktopKindObservation {
            kind: AgentDesktopKind::Winlogon,
            force: true,
        }),
{
}

/// How often the desktop of the session at the console is looked at.
pub const PROBE_PERIOD: u64 = 1000 * MS;

/// The last look at the desktop of the session at the console.
#[derive(Debug, Clone, Copy, PartialEq, Eq, Structural)]
pub struct DesktopProbe {
    pub seen: Option<Confirmed>,
    pub at: u64,
}

impl DesktopProbe {
    /// No look yet; the first is due at once.
    pub fn new(now: u64) -> (probe: Self)
        ensures
            probe == (DesktopProbe { seen: None, at: clock::ago(now, clock::SEC) }),
    {
        DesktopProbe { seen: None, at: clock::instant_ago(now, clock::SEC) }
    }

    /// Whether to look now: the session can be at the console, and it is
    /// another one or the last look is old.
    pub fn is_due(&self, session_id: u32, now: u64) -> (due: bool)
        ensures
            due == (is_console_session(session_id) && (clock::span(self.at, now) >= PROBE_PERIOD || !(
            self.seen is Some && self.seen->0.session_id == session_id))),
    {
        is_valid_console_session_id(session_id) && (clock::elapsed(self.at, now) >= PROBE_PERIOD
            || match self.seen {
            Some(seen) => seen.session_id != session_id,
            None => true,
        })
    }

    /// A look was taken.
    pub fn record(&mut self, session_id: u32, kind: AgentDesktopKind, now: u64)
        ensures
            *final(self) == (DesktopProbe { seen: Some(Confirmed { session_id, kind }), at: now }),
    {
        self.seen = Some(Confirmed { session_id, kind });
        self.at = now;
    }

    /// The desktop of the session, as last seen. Nothing is known of a session
    /// that cannot be at the console, and the look is forgotten.
    pub fn kind_for(&mut self, session_id: u32) -> (kind: Option<AgentDesktopKind>)
        ensures
            if is_console_session(session_id) {
                &&& *final(self) == *old(self)
                &&& kind == if old(self).seen is Some && old(self).seen->0.session_id == session_id {
                    Some(old(self).seen->0.kind)
                } else {
                    None
                }
            } else {
                kind is None && *final(self) == (DesktopProbe { seen: None, ..*old(self) })
            },
    {
        if !is_valid_console_session_id(session_id) {
            self.seen = None;
            return None;
        }
        match self.seen {
            Some(seen) => if seen.session_id == session_id {
                Some(seen.kind)
            } else {
                None
            },
            None => None,
        }
    }
}

/// Watches the console for a change of session or desktop.
#[derive(Debug, Clone, Copy, PartialEq, Eq, Structural)]
pub struct ConsoleWatch {
    pub session_id: u32,
    pub kind: Option<AgentDesktopKind>,
}

impl ConsoleWatch {
    /// Take in a look, and say whether something changed.
    pub fn observe(&mut self, session_id: u32, kind: Option<AgentDesktopKind>) -> (changed: bool)
        ensures
            changed == (session_id != old(self).session_id || kind != old(self).kind),
            *final(self) == (ConsoleWatch { session_id, kind }),
    {
        let same_kind = match (kind, self.kind) {
            (Some(a), Some(b)) => a == b,
            (None, None) => true,
            _ => false,
        };
        let changed = session_id != self.session_id || !same_kind;
        self.session_id = session_id;
        self.kind = kind;
        changed
    }
}

/// A session is at the console if it is neither that of the services nor none.
pub proof fn law_services_are_not_at_the_console(session_id: u32, valid: bool)
    requires
        call_ensures(is_valid_console_session_id, (session_id,), valid),
    ensures
        valid <==> 1 <= session_id <= 0xffff_fffe,
{
}

/// Only the desktop called "Default", in whatever case, is the user's; every other name
/// is the secure one, and without a name nothing is known.
pub proof fn law_only_default_is_the_users(
    name: Option<String>,
    kind: Option<AgentDesktopKind>,
)
    requires
        call_ensures(active_input_desktop_kind, (&name,), kind),
    ensures
        kind is Some <==> name is Some,
        name is Some && name->0@ == "Default"@ ==> kind == Some(AgentDesktopKind::Default),
        name is Some && name->0@.len() != 7 ==> kind == Some(AgentDesktopKind::Winlogon),
        kind == Some(AgentDesktopKind::Default) ==> text::same_ignoring_case(
            name->0@,
            "Default"@,
        ),
{
    reveal_strlit("Default");
    if name is Some && name->0@.len() != 7 {
        assert(text::lowered(name->0@).len() != text::lowered("Default"@).len());
    }
}

/// The user's desktop is only seen in a session that is not locked and has a shell, and is
/// then always seen unless the secure one has the input. What must not wait, waits for
/// nothing: a lock, a missing shell, and the user's own desktop with the input.
pub proof fn law_a_look_never_shows_too_much(
    locked: Option<bool>,
    shell_ready: bool,
    input: Option<AgentDesktopKind>,
    seen: DesktopKindObservation,
)
    requires
        call_ensures(detect_agent_desktop_kind_raw, (locked, shell_ready, input), seen),
    ensures
        seen.kind is Default ==> shell_ready && locked != Some(true) && input != Some(
            AgentDesktopKind::Winlogon,
        ),
        shell_ready && locked != Some(true) && input != Some(AgentDesktopKind::Winlogon)
            ==> seen.kind is Default,
        !shell_ready || locked == Some(true) || input == Some(AgentDesktopKind::Default)
            ==> seen.force,
        seen.force ==> !shell_ready || locked == Some(true) || input == Some(
            AgentDesktopKind::Default,
        ),
{
}

/// An agent is kept on the desktop that is known until a change has been seen for a whole
/// second, and the one that is answered is the one that is known from then on.
pub proof fn law_changes_wait_for_a_second(
    session_id: u32,
    seen: DesktopKindObservation,
    now: u64,
)
    ensures
        forall|d: &mut DesktopDetectDebounce, kind: AgentDesktopKind| #[trigger]
            call_ensures(
                DesktopDetectDebounce::debounce_desktop_kind,
                (d, session_id, seen, now),
                kind,
            ) ==> {
                let (before, after) = (*d, *final(d));
                let other = before.confirmed is Some && before.confirmed->0.session_id
                    == session_id && !seen.force && before.confirmed->0.kind != seen.kind;
                &&& after.confirmed == Some(Confirmed { session_id, kind })
                &&& !other ==> kind == seen.kind && after.candidate is None
                &&& other && before.candidate is None ==> kind == before.confirmed->0.kind
                    && after.candidate == Some(
                    Candidate { session_id, kind: seen.kind, since: now },
                )
                &&& other && before.candidate is Some && before.candidate->0.session_id
                    == session_id && before.candidate->0.kind == seen.kind && now
                    >= before.candidate->0.since ==> (kind == seen.kind <==> now
                    - before.candidate->0.since >= 1_000_000_000)
                &&& kind == seen.kind || kind == before.confirmed->0.kind
            },
{
}

/// The console is looked at at least once a second and at once for another session, and
/// never where nobody can be.
pub proof fn law_console_is_looked_at_every_second(
    probe: DesktopProbe,
    session_id: u32,
    now: u64,
    due: bool,
)
    requires
        call_ensures(DesktopProbe::is_due, (&probe, session_id, now), due),
        now >= probe.at,
    ensures
        due ==> session_id != 0 && session_id != 0xffff_ffff,
        session_id != 0 && session_id != 0xffff_ffff && now - probe.at >= 1_000_000_000 ==> due,
        session_id != 0 && session_id != 0xffff_ffff && probe.seen is None ==> due,
        due && probe.seen == Some(
            Confirmed { session_id, kind: AgentDesktopKind::Default },
        ) ==> now - probe.at >= 1_000_000_000,
        probe.seen is Some && probe.seen->0.session_id != session_id && session_id != 0
            && session_id != 0xffff_ffff ==> due,
{
}

/// What a look saw is what is known of that session, and of no other, until the next look
/// or until nobody is at the console.
pub proof fn law_look_is_remembered(
    session_id: u32,
    kind: AgentDesktopKind,
    now: u64,
    asked: u32,
)
    ensures
        forall|p: &mut DesktopProbe, out: ()| #[trigger]
            call_ensures(DesktopProbe::record, (p, session_id, kind, now), out) ==> {
                &&& (*final(p)).seen == Some(Confirmed { session_id, kind })
                &&& (*final(p)).at == now
            },
        forall|p: &mut DesktopProbe, found: Option<AgentDesktopKind>| #[trigger]
            call_ensures(DesktopProbe::kind_for, (p, asked), found) ==> {
                let there = asked != 0 && asked != 0xffff_ffff;
                &&& found is Some ==> there && (*p).seen == Some(
                    Confirmed { session_id: asked, kind: found->0 },
                )
                &&& there && (*p).seen is Some && (*p).seen->0.session_id == asked ==> found == Some(
                    (*p).seen->0.kind,
                )
                &&& there ==> *final(p) == *p
                &&& !there ==> (*final(p)).seen is None
            },
{
}

/// A change of session or desktop at the console is noticed once: a second look at the
/// same finds nothing new.
pub proof fn law_console_changes_are_noticed_once(
    session_id: u32,
    kind: Option<AgentDesktopKind>,
)
    ensures
        forall|w: &mut ConsoleWatch, changed: bool| #[trigger]
            call_ensures(ConsoleWatch::observe, (w, session_id, kind), changed) ==> {
                &&& changed <==> (*w).session_id != session_id || (*w).kind != kind
                &&& (*final(w)).session_id == session_id
                &&& (*final(w)).kind == kind
            },
{
}

} // verus!
