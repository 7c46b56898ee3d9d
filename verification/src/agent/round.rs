//! One round of the agent: what it looks at, in which order, and when the
//! round ends before anything is captured.
//!
//! The program asks [`AgentRound::step`] for the next thing to look at or to
//! do, does it, and hands the answer back, until the round ends or capture is
//! to be set up.

use crate::agent::capture_loop::{AgentLoop, IdleStep, InitStep, LayoutDecision};
use crate::agent::desktop::DesktopState;
use crate::agent::gate::DefaultDesktopGate;
use vstd::prelude::*;

verus! {

/// How long the agent rests while nobody watches or no display is there, in
/// milliseconds.
pub const IDLE_REST: u64 = 100;

/// How long it rests while a desktop or a display is coming up, in
/// milliseconds.
pub const HOLD_REST: u64 = 50;

/// The answer that a round waits for.
#[derive(Debug, Clone, Copy, PartialEq, Eq, Structural)]
pub enum Phase {
    Start,
    IdleDesktop,
    Desktop,
    Devices,
    VirtualDisplay,
    Display,
    Request,
    Layout,
    Mode { width: u32, height: u32 },
    Tier1,
    /// The round has ended.
    Over,
}

/// An answer.
#[derive(Debug)]
pub enum RoundEvent {
    /// A round starts. `assigned`: the agent is to capture the desktop that has
    /// the input.
    Start { viewer_active: bool, assigned: bool, can_try_tier1: bool },
    /// Nobody watches. `on_default`: the desktop that has the input is the
    /// user's.
    IdleDesktop { on_default: bool, can_try_tier1: bool },
    /// The desktop that has the input, whether the policy holds capture on it,
    /// and whether it is captured as the console.
    Desktop { desktop: DesktopState, holds: bool, console: bool },
    /// Whether there is any display.
    Devices { found: bool },
    /// Whether a virtual display was found that had been missing.
    VirtualDisplay { found_again: bool },
    /// Whether the displays are set up, and whether the desktop is captured as
    /// the console on them.
    Display { ready: bool, console: bool },
    /// The resolution that the viewer wishes for, if it wished since the last
    /// round.
    Request { resolution: Option<(u32, u32)> },
    /// What became of the wish.
    Layout { decision: LayoutDecision },
    /// Whether the display took the mode.
    Mode { set: bool },
    /// Whether the GPU tier may be tried.
    Tier1 { can_try: bool },
}

/// What to do next in a round.
#[derive(Debug, Clone, Copy, PartialEq, Eq, Structural)]
pub enum RoundStep {
    LookAtIdleDesktop,
    LookAtDesktop,
    LookForDevices,
    LookForVirtualDisplay,
    SetUpDisplay,
    TakeRequest,
    AskLayout { width: u32, height: u32 },
    SetMode { width: u32, height: u32 },
    AskTier1,
    /// Set up capture like this, then capture. The round is over.
    Init { how: InitStep },
    /// Rest. The round is over.
    Rest { ms: u64 },
}

/// What is to become of the recovery of the GPU tier's startup.
#[derive(Debug, Clone, Copy, PartialEq, Eq, Structural)]
pub enum Recovery {
    Keep,
    /// The wait for a first frame is forgotten.
    ForgetWait,
    /// It starts over.
    Reset,
}

/// One round.
#[derive(Debug, Clone, Copy, PartialEq, Eq, Structural)]
pub struct AgentRound {
    pub phase: Phase,
    /// The desktop is captured as the console.
    pub console: bool,
}

/// Everything after a step.
pub struct After {
    pub round: AgentRound,
    pub agent: AgentLoop,
    pub gate: DefaultDesktopGate,
    pub step: RoundStep,
    pub recovery: Recovery,
}

/// The event answers what the phase waits for.
pub open spec fn answers(phase: Phase, event: RoundEvent) -> bool {
    match phase {
        Phase::Start => event is Start,
        Phase::IdleDesktop => event is IdleDesktop,
        Phase::Desktop => event is Desktop,
        Phase::Devices => event is Devices,
        Phase::VirtualDisplay => event is VirtualDisplay,
        Phase::Display => event is Display,
        Phase::Request => event is Request,
        Phase::Layout => event is Layout,
        Phase::Mode { .. } => event is Mode,
        Phase::Tier1 => event is Tier1,
        Phase::Over => false,
    }
}

/// The step that asks what a phase waits for.
pub open spec fn question(phase: Phase, step: RoundStep) -> bool {
    match phase {
        Phase::Start => false,
        Phase::IdleDesktop => step == RoundStep::LookAtIdleDesktop,
        Phase::Desktop => step == RoundStep::LookAtDesktop,
        Phase::Devices => step == RoundStep::LookForDevices,
        Phase::VirtualDisplay => step == RoundStep::LookForVirtualDisplay,
        Phase::Display => step == RoundStep::SetUpDisplay,
        Phase::Request => step == RoundStep::TakeRequest,
        Phase::Layout => step is AskLayout,
        Phase::Mode { width, height } => step == RoundStep::SetMode { width, height },
        Phase::Tier1 => step == RoundStep::AskTier1,
        Phase::Over => step is Init || step is Rest,
    }
}

impl AgentRound {
    /// The round goes on with a question.
    pub open spec fn asks(
        self,
        phase: Phase,
        agent: AgentLoop,
        gate: DefaultDesktopGate,
        step: RoundStep,
        recovery: Recovery,
    ) -> After {
        After { round: AgentRound { phase, ..self }, agent, gate, step, recovery }
    }

    /// The round ends with a rest.
    pub open spec fn rests(
        self,
        agent: AgentLoop,
        gate: DefaultDesktopGate,
        ms: u64,
        recovery: Recovery,
    ) -> After {
        self.asks(Phase::Over, agent, gate, RoundStep::Rest { ms }, recovery)
    }

    /// What follows once an idle agent knows what to do.
    pub open spec fn after_idle(
        self,
        idled: (IdleStep, AgentLoop),
        gate: DefaultDesktopGate,
    ) -> After {
        match idled.0 {
            IdleStep::Proceed => self.asks(
                Phase::Desktop,
                idled.1,
                gate,
                RoundStep::LookAtDesktop,
                Recovery::Keep,
            ),
            IdleStep::Wait => self.rests(idled.1, gate, IDLE_REST, Recovery::Keep),
            IdleStep::Park => self.rests(idled.1, gate, 0, Recovery::ForgetWait),
            IdleStep::Release => self.rests(idled.1, gate, IDLE_REST, Recovery::ForgetWait),
        }
    }

    /// What follows an answer.
    pub open spec fn next(
        self,
        agent: AgentLoop,
        gate: DefaultDesktopGate,
        event: RoundEvent,
        now: u64,
    ) -> After {
        match event {
            RoundEvent::Start { viewer_active, assigned, can_try_tier1 } => {
                let seen = agent.viewer_seen(viewer_active, now);
                if !assigned {
                    // Another agent takes over: what is shown stays as it is.
                    self.rests(seen, gate, HOLD_REST, Recovery::Keep)
                } else if viewer_active {
                    self.asks(
                        Phase::Desktop,
                        seen,
                        gate,
                        RoundStep::LookAtDesktop,
                        Recovery::Keep,
                    )
                } else if seen.wants_prewarm(can_try_tier1) {
                    self.asks(
                        Phase::IdleDesktop,
                        seen,
                        gate,
                        RoundStep::LookAtIdleDesktop,
                        Recovery::Keep,
                    )
                } else {
                    self.after_idle(seen.idled(can_try_tier1, false, now), gate)
                }
            },
            RoundEvent::IdleDesktop { on_default, can_try_tier1 } => self.after_idle(
                agent.idled(can_try_tier1, on_default, now),
                gate,
            ),
            RoundEvent::Desktop { desktop, holds, console } => {
                let changed = desktop.changed_after_initial;
                let fresh = if changed {
                    agent.dropped().init_due(now)
                } else {
                    agent
                };
                let from = if changed {
                    DefaultDesktopGate::closed_gate()
                } else {
                    gate
                };
                let recovery = if changed {
                    Recovery::Reset
                } else {
                    Recovery::Keep
                };
                let passed = from.passed(holds, console, desktop, now);
                if passed.0 {
                    self.asks(
                        Phase::Devices,
                        fresh,
                        passed.1,
                        RoundStep::LookForDevices,
                        recovery,
                    )
                } else {
                    self.rests(fresh, passed.1, HOLD_REST, recovery)
                }
            },
            RoundEvent::Devices { found } => if found {
                self.asks(
                    Phase::VirtualDisplay,
                    agent,
                    gate,
                    RoundStep::LookForVirtualDisplay,
                    Recovery::Keep,
                )
            } else {
                self.rests(
                    agent.dropped().without_scrap_wait().init_due(now),
                    gate,
                    IDLE_REST,
                    Recovery::Keep,
                )
            },
            RoundEvent::VirtualDisplay { found_again } => if found_again {
                self.asks(
                    Phase::Display,
                    agent.dropped().without_scrap_wait().init_due(now),
                    gate,
                    RoundStep::SetUpDisplay,
                    Recovery::Reset,
                )
            } else {
                self.asks(Phase::Display, agent, gate, RoundStep::SetUpDisplay, Recovery::Keep)
            },
            RoundEvent::Display { ready, console } => if ready {
                AgentRound { console, ..self }.asks(
                    Phase::Request,
                    agent,
                    gate,
                    RoundStep::TakeRequest,
                    Recovery::Keep,
                )
            } else {
                self.rests(agent.unprovisioned(), gate, HOLD_REST, Recovery::Keep)
            },
            RoundEvent::Request { resolution } => {
                let wished = agent.wished(resolution);
                match wished.pending_resolution {
                    Some((width, height)) => self.asks(
                        Phase::Layout,
                        wished,
                        gate,
                        RoundStep::AskLayout { width, height },
                        Recovery::Keep,
                    ),
                    None => self.asks(
                        Phase::Tier1,
                        wished,
                        gate,
                        RoundStep::AskTier1,
                        Recovery::Keep,
                    ),
                }
            },
            RoundEvent::Layout { decision } => {
                let decided = agent.decided(decision);
                match decided.0 {
                    Some((width, height)) => self.asks(
                        Phase::Mode { width, height },
                        decided.1,
                        gate,
                        RoundStep::SetMode { width, height },
                        Recovery::ForgetWait,
                    ),
                    None => self.asks(
                        Phase::Tier1,
                        decided.1,
                        gate,
                        RoundStep::AskTier1,
                        Recovery::Keep,
                    ),
                }
            },
            RoundEvent::Mode { set } => {
                let resized = if set && self.phase is Mode {
                    agent.resized(self.phase->width, self.phase->height, now)
                } else {
                    agent
                };
                self.asks(Phase::Tier1, resized, gate, RoundStep::AskTier1, Recovery::Keep)
            },
            RoundEvent::Tier1 { can_try } => {
                let chosen = agent.init_chosen(self.console, can_try, now);
                self.asks(
                    Phase::Over,
                    chosen.1,
                    gate,
                    RoundStep::Init { how: chosen.0 },
                    Recovery::Keep,
                )
            },
        }
    }

    /// A round that has not started.
    pub fn new() -> (round: Self)
        ensures
            round == (AgentRound { phase: Phase::Start, console: false }),
    {
        AgentRound { phase: Phase::Start, console: false }
    }

    /// End the round with a rest.
    fn rest(&mut self, ms: u64) -> (step: RoundStep)
        ensures
            step == (RoundStep::Rest { ms }),
            *final(self) == (AgentRound { phase: Phase::Over, ..*old(self) }),
    {
        self.phase = Phase::Over;
        RoundStep::Rest { ms }
    }

    /// Do what an idle agent does.
    fn on_idle(
        &mut self,
        agent: &mut AgentLoop,
        can_try_tier1: bool,
        on_default: bool,
        now: u64,
    ) -> (out: (RoundStep, Recovery))
        ensures
            forall|gate: DefaultDesktopGate|
                #[trigger]
                old(self).after_idle(old(agent).idled(can_try_tier1, on_default, now), gate) == (
                After {
                    round: *final(self),
                    agent: *final(agent),
                    gate,
                    step: out.0,
                    recovery: out.1,
                }),
    {
        match agent.idle_step(can_try_tier1, on_default, now) {
            IdleStep::Proceed => {
                self.phase = Phase::Desktop;
                (RoundStep::LookAtDesktop, Recovery::Keep)
            },
            IdleStep::Wait => (self.rest(IDLE_REST), Recovery::Keep),
            IdleStep::Park => (self.rest(0), Recovery::ForgetWait),
            IdleStep::Release => (self.rest(IDLE_REST), Recovery::ForgetWait),
        }
    }

    /// Take an answer in. What is to be done next, and what becomes of the
    /// recovery of the GPU tier's startup.
    #[verifier::rlimit(60)]
    pub fn step(
        &mut self,
        agent: &mut AgentLoop,
        gate: &mut DefaultDesktopGate,
        event: RoundEvent,
        now: u64,
    ) -> (out: (RoundStep, Recovery))
        requires
            answers(old(self).phase, event),
        ensures
            old(self).next(*old(agent), *old(gate), event, now) == (After {
                round: *final(self),
                agent: *final(agent),
                gate: *final(gate),
                step: out.0,
                recovery: out.1,
            }),
            question(final(self).phase, out.0),
            old(agent).wf() ==> final(agent).wf(),
    {
        match event {
            RoundEvent::Start { viewer_active, assigned, can_try_tier1 } => {
                let _ = agent.observe_viewer(viewer_active, now);
                if !assigned {
                    return (self.rest(HOLD_REST), Recovery::Keep);
                }
                if viewer_active {
                    self.phase = Phase::Desktop;
                    return (RoundStep::LookAtDesktop, Recovery::Keep);
                }
                if agent.prewarm_wanted(can_try_tier1) {
                    self.phase = Phase::IdleDesktop;
                    return (RoundStep::LookAtIdleDesktop, Recovery::Keep);
                }
                self.on_idle(agent, can_try_tier1, false, now)
            },
            RoundEvent::IdleDesktop { on_default, can_try_tier1 } => self.on_idle(
                agent,
                can_try_tier1,
                on_default,
                now,
            ),
            RoundEvent::Desktop { desktop, holds, console } => {
                let mut recovery = Recovery::Keep;
                if desktop.changed_after_initial {
                    agent.on_desktop_changed(now);
                    gate.reset();
                    recovery = Recovery::Reset;
                }
                if gate.may_capture(holds, console, &desktop, now) {
                    self.phase = Phase::Devices;
                    (RoundStep::LookForDevices, recovery)
                } else {
                    (self.rest(HOLD_REST), recovery)
                }
            },
            RoundEvent::Devices { found } => {
                if !found {
                    agent.on_no_display(now);
                    return (self.rest(IDLE_REST), Recovery::Keep);
                }
                self.phase = Phase::VirtualDisplay;
                (RoundStep::LookForVirtualDisplay, Recovery::Keep)
            },
            RoundEvent::VirtualDisplay { found_again } => {
                self.phase = Phase::Display;
                if found_again {
                    agent.on_display_found(now);
                    return (RoundStep::SetUpDisplay, Recovery::Reset);
                }
                (RoundStep::SetUpDisplay, Recovery::Keep)
            },
            RoundEvent::Display { ready, console } => {
                if !ready {
                    agent.on_not_provisioned();
                    return (self.rest(HOLD_REST), Recovery::Keep);
                }
                self.console = console;
                self.phase = Phase::Request;
                (RoundStep::TakeRequest, Recovery::Keep)
            },
            RoundEvent::Request { resolution } => {
                agent.request_resolution(resolution);
                match agent.pending_resolution {
                    Some((width, height)) => {
                        self.phase = Phase::Layout;
                        (RoundStep::AskLayout { width, height }, Recovery::Keep)
                    },
                    None => {
                        self.phase = Phase::Tier1;
                        (RoundStep::AskTier1, Recovery::Keep)
                    },
                }
            },
            RoundEvent::Layout { decision } => match agent.on_layout_decision(decision) {
                Some((width, height)) => {
                    self.phase = Phase::Mode { width, height };
                    (RoundStep::SetMode { width, height }, Recovery::ForgetWait)
                },
                None => {
                    self.phase = Phase::Tier1;
                    (RoundStep::AskTier1, Recovery::Keep)
                },
            },
            RoundEvent::Mode { set } => {
                if let Phase::Mode { width, height } = self.phase {
                    if set {
                        agent.on_mode_set(width, height, now);
                    }
                }
                self.phase = Phase::Tier1;
                (RoundStep::AskTier1, Recovery::Keep)
            },
            RoundEvent::Tier1 { can_try } => {
                let how = agent.init_step(self.console, can_try, now);
                self.phase = Phase::Over;
                (RoundStep::Init { how }, Recovery::Keep)
            },
        }
    }
}

/// How many answers a round can still take.
pub open spec fn answers_left(phase: Phase) -> nat {
    match phase {
        Phase::Start => 10,
        Phase::IdleDesktop => 9,
        Phase::Desktop => 8,
        Phase::Devices => 7,
        Phase::VirtualDisplay => 6,
        Phase::Display => 5,
        Phase::Request => 4,
        Phase::Layout => 3,
        Phase::Mode { .. } => 2,
        Phase::Tier1 => 1,
        Phase::Over => 0,
    }
}

/// Every answer brings a round nearer to its end.
pub proof fn law_round_ends(
    round: AgentRound,
    agent: AgentLoop,
    gate: DefaultDesktopGate,
    event: RoundEvent,
    now: u64,
)
    requires
        answers(round.phase, event),
    ensures
        answers_left(round.next(agent, gate, event, now).round.phase) < answers_left(round.phase),
{
}

/// Capture is set up only in a round that found a display, found the displays
/// set up, and found a desktop that may be captured: nothing but these answers
/// leads past the questions, and only the last question leads to the setup.
pub proof fn law_setup_follows_every_check(
    round: AgentRound,
    agent: AgentLoop,
    gate: DefaultDesktopGate,
    event: RoundEvent,
    now: u64,
)
    requires
        answers(round.phase, event),
    ensures
        ({
            let after = round.next(agent, gate, event, now);
            let (left, then_left) = (answers_left(round.phase), answers_left(after.round.phase));
            &&& after.step is Init ==> round.phase == Phase::Tier1
            &&& left >= answers_left(Phase::Display) > then_left && after.step !is Rest ==> event
                == (RoundEvent::Display { ready: true, console: after.round.console })
            &&& left >= answers_left(Phase::Devices) > then_left && after.step !is Rest ==> event
                == (RoundEvent::Devices { found: true })
            &&& left >= answers_left(Phase::Desktop) > then_left && after.step !is Rest ==> {
                &&& event is Desktop
                &&& !event->holds
                &&& event->Desktop_console || event->desktop.on_default
                    && !event->desktop.transition_unavailable
            }
        }),
{
}

/// No capture is there while the mode of the display is changed, so that no
/// frame of the change is sent.
pub proof fn law_mode_change_is_not_captured(
    round: AgentRound,
    agent: AgentLoop,
    gate: DefaultDesktopGate,
    event: RoundEvent,
    now: u64,
)
    requires
        answers(round.phase, event),
        round.next(agent, gate, event, now).step is SetMode,
    ensures
        round.next(agent, gate, event, now).agent.captures_nothing(),
{
}

/// Captures of one desktop never go on on another.
pub proof fn law_desktop_change_drops_captures(
    round: AgentRound,
    agent: AgentLoop,
    gate: DefaultDesktopGate,
    desktop: DesktopState,
    holds: bool,
    console: bool,
    now: u64,
)
    requires
        round.phase == Phase::Desktop,
        desktop.changed_after_initial,
    ensures
        round.next(
            agent,
            gate,
            RoundEvent::Desktop { desktop, holds, console },
            now,
        ).agent.captures_nothing(),
{
}

/// An agent that another one takes over from keeps what it captures, and
/// captures nothing more.
pub proof fn law_unassigned_agent_rests(
    round: AgentRound,
    agent: AgentLoop,
    gate: DefaultDesktopGate,
    viewer_active: bool,
    can_try_tier1: bool,
    now: u64,
)
    requires
        round.phase == Phase::Start,
    ensures
        ({
            let after = round.next(
                agent,
                gate,
                RoundEvent::Start { viewer_active, assigned: false, can_try_tier1 },
                now,
            );
            after.step is Rest && after.agent.tiers == agent.tiers && after.gate == gate
        }),
{
}

/// What each answer leads to: an agent that is not assigned rests, a viewer has the desktop
/// looked at, no display and displays that are not set up end the round, a wish is asked
/// about, a granted mode is set and then counts, and the last answer ends the round with a
/// setup.
pub proof fn law_answers_lead_on(event: RoundEvent, now: u64)
    ensures
        forall|
            r: &mut AgentRound,
            a: &mut AgentLoop,
            g: &mut DefaultDesktopGate,
            out: (RoundStep, Recovery),
        |
            answers((*r).phase, event) && #[trigger] call_ensures(
                AgentRound::step,
                (r, a, g, event, now),
                out,
            ) ==> {
                let (step, recovery) = out;
                let (before, after) = (*a, *final(a));
                &&& event matches RoundEvent::Start { viewer_active, assigned, can_try_tier1 } ==> {
                    &&& !assigned ==> step == (RoundStep::Rest { ms: 50 })
                    &&& assigned && viewer_active ==> step is LookAtDesktop
                    &&& assigned && !viewer_active ==> step is LookAtIdleDesktop || step is Rest
                    &&& after.last_viewer_active == viewer_active
                }
                &&& event matches RoundEvent::Devices { found } ==> {
                    &&& found ==> step is LookForVirtualDisplay && after == before
                    &&& !found ==> step == (RoundStep::Rest { ms: 100 })
                        && after.captures_nothing()
                }
                &&& event matches RoundEvent::VirtualDisplay { found_again } ==> {
                    &&& step is SetUpDisplay
                    &&& found_again ==> after.captures_nothing() && recovery is Reset
                    &&& !found_again ==> after == before && recovery is Keep
                }
                &&& event matches RoundEvent::Display { ready, console } ==> {
                    &&& ready ==> step is TakeRequest && (*final(r)).console == console && after
                        == before
                    &&& !ready ==> step == (RoundStep::Rest { ms: 50 }) && after.captures_nothing()
                }
                &&& event matches RoundEvent::Request { resolution } ==> {
                    &&& resolution matches Some((w, h)) ==> step == (RoundStep::AskLayout {
                        width: w,
                        height: h,
                    })
                    &&& resolution is None && before.pending_resolution is None ==> step is AskTier1
                    &&& resolution is None ==> (before.pending_resolution matches Some((w, h))
                        ==> step == (RoundStep::AskLayout { width: w, height: h }))
                }
                &&& event matches RoundEvent::Layout { decision } ==> {
                    &&& step is SetMode ==> recovery is ForgetWait && (
                    decision matches LayoutDecision::Apply { width, height } && step
                        == (RoundStep::SetMode { width, height }))
                    &&& !(step is SetMode) ==> step is AskTier1
                    &&& decision matches LayoutDecision::Apply { width, height } ==> (width
                        != before.width || height != before.height ==> step is SetMode)
                }
                &&& event matches RoundEvent::Mode { set } ==> {
                    &&& step is AskTier1
                    &&& set ==> after.width == (*r).phase->width && after.height
                        == (*r).phase->height
                    &&& !set ==> after == before
                }
                &&& event is Tier1 <==> step is Init
                &&& (*r).phase is Tier1 ==> (*final(r)).phase is Over
            },
{
}

/// A look at the desktop: one that changed starts everything over; one that is held back
/// has the agent rest for a moment; the console is captured at once.
pub proof fn law_desktop_is_looked_at(
    desktop: DesktopState,
    holds: bool,
    console: bool,
    now: u64,
)
    ensures
        forall|
            r: &mut AgentRound,
            a: &mut AgentLoop,
            g: &mut DefaultDesktopGate,
            out: (RoundStep, Recovery),
        |
            (*r).phase is Desktop && #[trigger] call_ensures(
                AgentRound::step,
                (r, a, g, RoundEvent::Desktop { desktop, holds, console }, now),
                out,
            ) ==> {
                let (before, after) = (*a, *final(a));
                &&& out.0 is LookForDevices || out.0 == (RoundStep::Rest { ms: 50 })
                &&& holds ==> out.0 is Rest
                &&& !holds && console ==> out.0 is LookForDevices
                &&& !holds && !console && (!desktop.on_default || desktop.transition_unavailable)
                    ==> out.0 is Rest && *final(g) == (DefaultDesktopGate {
                    candidate_since: None,
                    access_denied_since: None,
                })
                &&& desktop.changed_after_initial <==> out.1 is Reset
                &&& desktop.changed_after_initial ==> after.captures_nothing()
                &&& !desktop.changed_after_initial ==> after == before
            },
{
}

/// A fresh round starts at the beginning.
pub proof fn law_fresh_round_starts(round: AgentRound)
    requires
        call_ensures(AgentRound::new, (), round),
    ensures
        round.phase is Start && !round.console,
{
}

} // verus!
