//! Keeps an agent running in the session at the console.
//!
//! Starting and stopping processes takes seconds, and the console may move on
//! meanwhile. Each step here takes what was just read and says what to do; the
//! target of a start is always the last one that was read.

use crate::service::desktop_kind::{self, AgentDesktopKind};
use vstd::prelude::*;

verus! {

/// What the service knows of its agent.
#[derive(Debug, Clone, Copy, PartialEq, Eq, Structural)]
pub struct SessionManager {
    /// An agent was started and has not been seen to end.
    pub agent: bool,
    /// The session and the desktop that the agent belongs to.
    pub current_session_id: u32,
    pub current_desktop_kind: Option<AgentDesktopKind>,
    /// The link to the agent is there.
    pub ipc: bool,
}

/// The session and desktop that are at the console.
#[derive(Debug, Clone, Copy, PartialEq, Eq, Structural)]
pub struct Target {
    pub session_id: u32,
    pub kind: AgentDesktopKind,
}

/// What to do next.
#[derive(Debug, Clone, Copy, PartialEq, Eq, Structural)]
pub enum UpdateNext {
    /// Nothing.
    Done,
    /// Look again which session and desktop are at the console: stopping the
    /// agent took time.
    LookAgain,
    /// Start an agent for the target.
    Launch { target: Target },
}

/// What to do about a change at the console, in this order.
#[derive(Debug, Clone, Copy, PartialEq, Eq, Structural)]
pub struct UpdateStep {
    /// Close the link, which is dead.
    pub close_ipc: bool,
    /// Stop the agent, and close its link if it is open.
    pub stop_agent: bool,
    pub next: UpdateNext,
}

/// What came of starting an agent.
#[derive(Debug, Clone, Copy, PartialEq, Eq, Structural)]
pub struct LaunchOutcome {
    /// The pipes could be made.
    pub pipes: bool,
    /// The process could be started.
    pub started: bool,
    /// The agent came to the pipes in time.
    pub connected: bool,
}

/// A way to have an agent end, from the mildest.
#[derive(Debug, Clone, Copy, PartialEq, Eq, Structural)]
pub enum StopStep {
    /// Wait: its link was closed.
    Wait,
    /// Terminate it and wait.
    Terminate,
    /// Kill it by its number.
    Kill,
    Done,
}

impl SessionManager {
    /// A link is only there with an agent at its other end.
    pub open spec fn wf(self) -> bool {
        self.ipc ==> self.agent
    }

    /// The target that is read, where the session can be at the console.
    pub open spec fn read_target(session_id: u32, kind: AgentDesktopKind) -> Option<Target> {
        if desktop_kind::is_console_session(session_id) {
            Some(Target { session_id, kind })
        } else {
            None
        }
    }

    /// The agent belongs to the target.
    pub open spec fn is_at(self, target: Target) -> bool {
        self.current_session_id == target.session_id && self.current_desktop_kind == Some(
            target.kind,
        )
    }

    /// The state without an agent.
    pub open spec fn stopped(self) -> SessionManager {
        SessionManager { agent: false, ipc: false, ..self }
    }

    /// The state that waits for a session to come to the console.
    pub open spec fn adrift(self, session_id: u32) -> SessionManager {
        SessionManager { current_session_id: session_id, current_desktop_kind: None, ..self }
    }

    /// The state that belongs to the target.
    pub open spec fn at(self, target: Target) -> SessionManager {
        SessionManager {
            current_session_id: target.session_id,
            current_desktop_kind: Some(target.kind),
            ..self
        }
    }

    /// The link is there and works.
    pub open spec fn link_up(self, link_alive: bool) -> bool {
        self.ipc && link_alive
    }

    /// No agent yet.
    pub fn new() -> (manager: Self)
        ensures
            manager == (SessionManager {
                agent: false,
                current_session_id: 0,
                current_desktop_kind: None,
                ipc: false,
            }),
            manager.wf(),
    {
        SessionManager {
            agent: false,
            current_session_id: 0,
            current_desktop_kind: None,
            ipc: false,
        }
    }

    /// React to what is at the console. `kind` counts only where the session
    /// can be there; `link_alive` says whether a link that is there works.
    pub fn update(&mut self, session_id: u32, kind: AgentDesktopKind, link_alive: bool) -> (step:
        UpdateStep)
        ensures
            ({
                let s = *old(self);
                let alive = s.link_up(link_alive);
                let closed = SessionManager { ipc: alive, ..s };
                let close_ipc = s.ipc && !link_alive;
                match Self::read_target(session_id, kind) {
                    None => if s.adrift(session_id) == s && s.agent && alive {
                        step == (UpdateStep {
                            close_ipc: false,
                            stop_agent: false,
                            next: UpdateNext::Done,
                        }) && *final(self) == s
                    } else {
                        // Nothing can be captured without a session.
                        &&& step == (UpdateStep {
                            close_ipc,
                            stop_agent: s.agent || alive,
                            next: UpdateNext::Done,
                        })
                        &&& *final(self) == s.stopped().adrift(session_id)
                    },
                    Some(target) => if !s.is_at(target) {
                        // Another session or desktop needs another agent.
                        &&& step == (UpdateStep {
                            close_ipc,
                            stop_agent: true,
                            next: UpdateNext::LookAgain,
                        })
                        &&& *final(self) == s.stopped().at(target)
                    } else if s.agent && alive {
                        &&& step == (UpdateStep {
                            close_ipc,
                            stop_agent: false,
                            next: UpdateNext::Done,
                        })
                        &&& *final(self) == closed
                    } else {
                        &&& step == (UpdateStep {
                            close_ipc,
                            stop_agent: s.agent,
                            next: UpdateNext::Launch { target },
                        })
                        &&& *final(self) == if s.agent {
                            s.stopped()
                        } else {
                            closed
                        }
                    },
                }
            }),
            step.next is Launch ==> !final(self).agent,
            old(self).wf() ==> final(self).wf(),
            old(self).wf() && step.next is Launch ==> !final(self).ipc,
            step.next is LookAgain ==> !final(self).agent && !final(self).ipc,
    {
        let alive = self.ipc && link_alive;
        let close_ipc = self.ipc && !alive;
        if close_ipc {
            self.ipc = false;
        }
        if !desktop_kind::is_valid_console_session_id(session_id) {
            if session_id == self.current_session_id && self.current_desktop_kind.is_none()
                && self.agent && alive {
                return UpdateStep { close_ipc, stop_agent: false, next: UpdateNext::Done };
            }
            let stop_agent = self.agent || self.ipc;
            self.forget_agent();
            self.current_session_id = session_id;
            self.current_desktop_kind = None;
            return UpdateStep { close_ipc, stop_agent, next: UpdateNext::Done };
        }
        let target = Target { session_id, kind };
        let same_kind = match self.current_desktop_kind {
            Some(known) => known == kind,
            None => false,
        };
        if session_id != self.current_session_id || !same_kind {
            self.current_session_id = session_id;
            self.current_desktop_kind = Some(kind);
            self.forget_agent();
            return UpdateStep { close_ipc, stop_agent: true, next: UpdateNext::LookAgain };
        }
        if self.agent && alive {
            return UpdateStep { close_ipc, stop_agent: false, next: UpdateNext::Done };
        }
        let stop_agent = self.agent;
        if stop_agent {
            self.forget_agent();
        }
        UpdateStep { close_ipc, stop_agent, next: UpdateNext::Launch { target } }
    }

    /// The agent is stopped and its link closed.
    fn forget_agent(&mut self)
        ensures
            *final(self) == old(self).stopped(),
    {
        self.agent = false;
        self.ipc = false;
    }

    /// What is at the console after the agent was stopped.
    pub fn on_look_again(&mut self, session_id: u32, kind: AgentDesktopKind) -> (next: UpdateNext)
        ensures
            match Self::read_target(session_id, kind) {
                None => next == UpdateNext::Done && *final(self) == old(self).adrift(session_id),
                Some(target) => next == UpdateNext::Launch { target } && *final(self)
                    == old(self).at(target),
            },
            old(self).wf() ==> final(self).wf(),
    {
        self.current_session_id = session_id;
        if !desktop_kind::is_valid_console_session_id(session_id) {
            self.current_desktop_kind = None;
            return UpdateNext::Done;
        }
        self.current_desktop_kind = Some(kind);
        UpdateNext::Launch { target: Target { session_id, kind } }
    }

    /// An agent was started. Without pipes it runs unconnected; whether the
    /// pipes have to be closed again: they were made and the agent did not
    /// come.
    pub fn on_launched(&mut self, outcome: LaunchOutcome) -> (close_pipes: bool)
        requires
            !old(self).agent,
            !old(self).ipc,
        ensures
            close_pipes == (outcome.pipes && !(outcome.started && outcome.connected)),
            *final(self) == (SessionManager {
                agent: outcome.started,
                ipc: outcome.pipes && outcome.started && outcome.connected,
                ..*old(self)
            }),
            final(self).wf(),
    {
        self.agent = outcome.started;
        self.ipc = outcome.pipes && outcome.started && outcome.connected;
        outcome.pipes && !self.ipc
    }

    /// A look at the agent's process. Whether the link has to be closed: the
    /// process ended by itself.
    pub fn check_agent_health(&mut self, exited: bool) -> (close_ipc: bool)
        ensures
            close_ipc == (old(self).agent && exited && old(self).ipc),
            *final(self) == if old(self).agent && exited {
                old(self).stopped()
            } else {
                *old(self)
            },
            old(self).wf() ==> final(self).wf(),
    {
        if self.agent && exited {
            let close_ipc = self.ipc;
            self.forget_agent();
            return close_ipc;
        }
        false
    }

    /// Stop the agent. Whether its link has to be closed and whether a process
    /// has to end.
    pub fn kill_agent(&mut self) -> (out: (bool, bool))
        ensures
            out == (old(self).ipc, old(self).agent),
            *final(self) == old(self).stopped(),
            final(self).wf(),
    {
        let out = (self.ipc, self.agent);
        self.forget_agent();
        out
    }

    /// The console shows another session than the agent is in.
    pub open spec fn session_drift(self, session_id: u32) -> bool {
        desktop_kind::is_console_session(session_id) && session_id != self.current_session_id
    }

    /// The console shows another desktop of the agent's session.
    pub open spec fn desktop_drift(self, session_id: u32, kind: Option<AgentDesktopKind>) -> bool {
        &&& desktop_kind::is_console_session(session_id)
        &&& session_id == self.current_session_id
        &&& kind != self.current_desktop_kind
    }

    /// Whether a relay has to have the agent looked after: something changed,
    /// the agent or its link is missing, or the console moved on.
    pub fn refresh_needed(
        &self,
        session_changed: bool,
        link_alive: bool,
        session_id: u32,
        kind: Option<AgentDesktopKind>,
    ) -> (needed: bool)
        ensures
            needed == (session_changed || !self.agent || !self.link_up(link_alive)
                || self.session_drift(session_id) || self.desktop_drift(session_id, kind)),
    {
        session_changed || !self.agent || !(self.ipc && link_alive) || self.drifted(
            session_id,
            kind,
        )
    }

    /// Whether an idle service has to look after the agent. Here a desktop
    /// counts only if there is an agent on it.
    pub fn update_needed(
        &self,
        session_changed: bool,
        link_alive: bool,
        session_id: u32,
        kind: Option<AgentDesktopKind>,
    ) -> (needed: bool)
        ensures
            needed == (session_changed || !self.agent || !self.link_up(link_alive)
                || self.session_drift(session_id) || (self.agent && self.desktop_drift(
                session_id,
                kind,
            ))),
    {
        self.refresh_needed(session_changed, link_alive, session_id, kind)
    }

    /// Whether the console moved on from the agent.
    fn drifted(&self, session_id: u32, kind: Option<AgentDesktopKind>) -> (drifted: bool)
        ensures
            drifted == (self.session_drift(session_id) || self.desktop_drift(session_id, kind)),
    {
        let same_kind = match (kind, self.current_desktop_kind) {
            (Some(a), Some(b)) => a == b,
            (None, None) => true,
            _ => false,
        };
        desktop_kind::is_valid_console_session_id(session_id) && (session_id
            != self.current_session_id || !same_kind)
    }
}

/// The next way to have an agent end, after one that did or did not work.
pub fn next_stop_step(step: StopStep, ended: bool) -> (next: StopStep)
    ensures
        next == if ended {
            StopStep::Done
        } else {
            match step {
                StopStep::Wait => StopStep::Terminate,
                StopStep::Terminate => StopStep::Kill,
                StopStep::Kill | StopStep::Done => StopStep::Done,
            }
        },
{
    if ended {
        return StopStep::Done;
    }
    match step {
        StopStep::Wait => StopStep::Terminate,
        StopStep::Terminate => StopStep::Kill,
        StopStep::Kill | StopStep::Done => StopStep::Done,
    }
}

/// The agent that a viewer is attached to: its session and desktop.
#[derive(Debug, Clone, Copy, PartialEq, Eq, Structural)]
pub struct ViewerAttachKey {
    pub session_id: u32,
    pub kind: Option<AgentDesktopKind>,
}

impl SessionManager {
    /// The agent that is there now, as a viewer knows it.
    pub open spec fn key(self) -> ViewerAttachKey {
        ViewerAttachKey { session_id: self.current_session_id, kind: self.current_desktop_kind }
    }

    /// Whether the viewer is attached to the agent that is there now.
    fn is_attached(&self, attached_to: Option<ViewerAttachKey>) -> (attached: bool)
        ensures
            attached == (attached_to == Some(self.key())),
    {
        match attached_to {
            Some(key) => {
                let same_kind = match (key.kind, self.current_desktop_kind) {
                    (Some(a), Some(b)) => a == b,
                    (None, None) => true,
                    _ => false,
                };
                key.session_id == self.current_session_id && same_kind
            },
            None => false,
        }
    }

    /// Attach the viewer to the agent that is there now. Whether the link has
    /// to be told: it is there, and the viewer was not attached to this agent.
    pub fn attach_viewer(
        &self,
        attached_to: &mut Option<ViewerAttachKey>,
        link_alive: bool,
    ) -> (acquire: bool)
        ensures
            acquire == (*old(attached_to) != Some(self.key()) && self.link_up(link_alive)),
            *final(attached_to) == if acquire {
                Some(self.key())
            } else {
                *old(attached_to)
            },
    {
        if self.is_attached(*attached_to) || !(self.ipc && link_alive) {
            return false;
        }
        *attached_to = Some(
            ViewerAttachKey {
                session_id: self.current_session_id,
                kind: self.current_desktop_kind,
            },
        );
        true
    }

    /// Detach the viewer. Whether the link has to be told: it is there, and it
    /// is the one that the viewer was attached to.
    pub fn release_viewer(
        &self,
        attached_to: &mut Option<ViewerAttachKey>,
        link_alive: bool,
    ) -> (release: bool)
        ensures
            release == (*old(attached_to) == Some(self.key()) && self.link_up(link_alive)),
            *final(attached_to) is None,
    {
        let release = self.is_attached(*attached_to) && self.ipc && link_alive;
        *attached_to = None;
        release
    }
}

/// An agent is started only while none is there, and for the session and
/// desktop that the manager then belongs to.
pub proof fn law_launch_follows_last_look(
    before: SessionManager,
    session_id: u32,
    kind: AgentDesktopKind,
    again_id: u32,
    again_kind: AgentDesktopKind,
)
    requires
        desktop_kind::is_console_session(session_id),
        desktop_kind::is_console_session(again_id),
        !before.is_at((Target { session_id, kind })),
    ensures
        ({
            let stopped = before.stopped().at((Target { session_id, kind }));
            let target = Target { session_id: again_id, kind: again_kind };
            &&& !stopped.agent
            &&& !stopped.ipc
            &&& stopped.at(target).is_at(target)
            &&& !stopped.at(target).agent
            &&& !stopped.at(target).ipc
        }),
{
}

/// A manager whose agent and link are there, and which belongs to what is at
/// the console, is left alone.
pub proof fn law_healthy_agent_is_kept(m: SessionManager, target: Target)
    requires
        m.agent,
        m.ipc,
        m.is_at(target),
        desktop_kind::is_console_session(target.session_id),
    ensures
        !m.session_drift(target.session_id),
        !m.desktop_drift(target.session_id, Some(target.kind)),
        (SessionManager { ipc: m.link_up(true), ..m }) == m,
{
}

/// Whatever is at the console: an agent is started only for what is there, only where none
/// works there already, and only once the one before is stopped; one that works where it
/// should is left alone; one for another place is stopped; and without a session at the
/// console none is started.
pub proof fn law_agent_follows_the_console(
    session_id: u32,
    kind: AgentDesktopKind,
    link_alive: bool,
)
    ensures
        forall|m: &mut SessionManager, step: UpdateStep| #[trigger]
            call_ensures(SessionManager::update, (m, session_id, kind, link_alive), step) ==> {
                let (before, after) = (*m, *final(m));
                let there = session_id != 0 && session_id != 0xffff_ffff;
                let here = before.current_session_id == session_id && before.current_desktop_kind
                    == Some(kind);
                let works = before.agent && before.ipc && link_alive;
                &&& step.next matches UpdateNext::Launch { target } ==> {
                    &&& there && here && !works
                    &&& target.session_id == session_id && target.kind == kind
                    &&& step.stop_agent == before.agent
                    &&& !after.agent
                }
                &&& there && here && works ==> step.next is Done && !step.stop_agent
                    && !step.close_ipc && after == before
                &&& there && here && !works ==> step.next is Launch
                &&& there && !here ==> step.next is LookAgain && step.stop_agent && !after.agent
                    && !after.ipc
                &&& !there ==> step.next is Done
                &&& !there && step.stop_agent ==> !after.agent && !after.ipc
                &&& step.close_ipc ==> before.ipc && !link_alive
                &&& before.ipc && !link_alive ==> step.close_ipc
                &&& there ==> after.current_session_id == session_id && after.current_desktop_kind
                    == Some(kind)
                &&& !there && !(before.current_desktop_kind is None && works && before.current_session_id == session_id)
                    ==> after.current_session_id == session_id && after.current_desktop_kind is None
                    && !after.agent && !after.ipc
            },
{
}

/// After the agent was stopped, the place that is at the console then is the one that gets
/// an agent, and none where nobody is.
pub proof fn law_second_look_decides(session_id: u32, kind: AgentDesktopKind)
    ensures
        forall|m: &mut SessionManager, next: UpdateNext| #[trigger]
            call_ensures(SessionManager::on_look_again, (m, session_id, kind), next) ==> {
                let there = session_id != 0 && session_id != 0xffff_ffff;
                &&& there ==> next == (UpdateNext::Launch { target: Target { session_id, kind } })
                &&& there ==> (*final(m)).current_desktop_kind == Some(kind)
                &&& !there ==> next is Done && (*final(m)).current_desktop_kind is None
                &&& (*final(m)).current_session_id == session_id
                &&& (*final(m)).agent == (*m).agent
                &&& (*final(m)).ipc == (*m).ipc
            },
{
}

/// An agent is there once it was started, its link only once it came to the pipes, and
/// pipes that nobody came to are closed.
pub proof fn law_link_needs_a_started_agent(outcome: LaunchOutcome)
    ensures
        forall|m: &mut SessionManager, close_pipes: bool|
            !(*m).agent && !(*m).ipc && #[trigger] call_ensures(
                SessionManager::on_launched,
                (m, outcome),
                close_pipes,
            ) ==> {
                let after = *final(m);
                &&& after.agent == outcome.started
                &&& after.ipc ==> outcome.pipes && outcome.started && outcome.connected
                &&& outcome.pipes && outcome.started && outcome.connected ==> after.ipc
                &&& close_pipes <==> outcome.pipes && !after.ipc
                &&& after.current_session_id == (*m).current_session_id
                &&& after.current_desktop_kind == (*m).current_desktop_kind
            },
{
}

/// An agent that ended is forgotten with its link, and one that runs is kept; stopping it
/// on purpose closes what was open and ends what ran.
pub proof fn law_ended_agent_is_forgotten(exited: bool)
    ensures
        forall|m: &mut SessionManager, close_ipc: bool| #[trigger]
            call_ensures(SessionManager::check_agent_health, (m, exited), close_ipc) ==> {
                &&& (*m).agent && exited ==> !(*final(m)).agent && !(*final(m)).ipc && close_ipc
                    == (*m).ipc
                &&& !((*m).agent && exited) ==> *final(m) == *m && !close_ipc
            },
        forall|m: &mut SessionManager, out: (bool, bool)| #[trigger]
            call_ensures(SessionManager::kill_agent, (m,), out) ==> {
                &&& out.0 == (*m).ipc
                &&& out.1 == (*m).agent
                &&& !(*final(m)).agent && !(*final(m)).ipc
                &&& (*final(m)).current_session_id == (*m).current_session_id
            },
{
}

/// The agent is looked after when something changed, when it or its link is missing, or
/// when the console shows another session or desktop, and left in peace otherwise.
pub proof fn law_agent_is_looked_after_when_needed(
    m: SessionManager,
    session_changed: bool,
    link_alive: bool,
    session_id: u32,
    kind: Option<AgentDesktopKind>,
    relay: bool,
    idle: bool,
)
    requires
        call_ensures(
            SessionManager::refresh_needed,
            (&m, session_changed, link_alive, session_id, kind),
            relay,
        ),
        call_ensures(
            SessionManager::update_needed,
            (&m, session_changed, link_alive, session_id, kind),
            idle,
        ),
    ensures
        session_changed || !m.agent || !m.ipc || !link_alive ==> relay && idle,
        session_id != 0 && session_id != 0xffff_ffff && (session_id != m.current_session_id || kind
            != m.current_desktop_kind) ==> relay && idle,
        relay || idle ==> session_changed || !m.agent || !m.ipc || !link_alive || session_id
            != m.current_session_id || kind != m.current_desktop_kind,
        !session_changed && m.agent && m.ipc && link_alive && (session_id == 0 || session_id
            == 0xffff_ffff) ==> !relay && !idle,
{
}

/// An agent that does not end by itself is terminated and then killed, and nothing is done
/// to one that has ended.
pub proof fn law_stopping_gets_harder(step: StopStep, ended: bool, next: StopStep)
    requires
        call_ensures(next_stop_step, (step, ended), next),
    ensures
        ended ==> next is Done,
        !ended && step is Wait ==> next is Terminate,
        !ended && step is Terminate ==> next is Kill,
        step is Kill || step is Done ==> next is Done,
{
}

/// A viewer is counted once for each agent: attaching twice tells the link once, leaving
/// tells it only if it was told, and another session or desktop is another agent.
pub proof fn law_viewer_counts_once(m: SessionManager, link_alive: bool)
    ensures
        forall|a: &mut Option<ViewerAttachKey>, acquire: bool| #[trigger]
            call_ensures(SessionManager::attach_viewer, (&m, a, link_alive), acquire) ==> {
                let here = ViewerAttachKey {
                    session_id: m.current_session_id,
                    kind: m.current_desktop_kind,
                };
                &&& acquire ==> *final(a) == Some(here) && *a != Some(here) && m.ipc && link_alive
                &&& !acquire ==> *final(a) == *a
                &&& *a != Some(here) && m.ipc && link_alive ==> acquire
            },
        forall|a: &mut Option<ViewerAttachKey>, release: bool| #[trigger]
            call_ensures(SessionManager::release_viewer, (&m, a, link_alive), release) ==> {
                let here = ViewerAttachKey {
                    session_id: m.current_session_id,
                    kind: m.current_desktop_kind,
                };
                &&& *final(a) is None
                &&& release <==> *a == Some(here) && m.ipc && link_alive
            },
{
}

} // verus!
