//! The capture tiers of the agent and how it moves between them.
//!
//! Best to worst: the GPU captures and encodes; the GPU captures and the
//! processor encodes (`scrap`); GDI captures and the processor encodes. A
//! second GPU pipeline may wait in the background (`pending_gpu`) until it
//! makes its first frame. Each method here takes one observation in and says
//! what is to be done next; the capture objects themselves belong to the
//! program.

use crate::agent::cursor_tracker::CursorTracker;
use crate::agent::gate::DefaultDesktopGate;
use crate::clock::{self, MS, SEC};
use vstd::prelude::*;

verus! {

/// What captures and encodes at present.
#[derive(Debug, Clone, Copy, PartialEq, Eq, Structural)]
pub enum CaptureMode {
    Off,
    DxgiNvenc,
    ScrapNvenc,
    ScrapH264,
    GdiH264,
}

/// Which captures and encoders exist.
#[derive(Debug, Clone, Copy, PartialEq, Eq, Structural)]
pub struct Tiers {
    pub gpu: bool,
    pub pending_gpu: bool,
    pub scrap: bool,
    pub gdi: bool,
    /// The encoder on the processor.
    pub encoder: bool,
}

/// The tier that makes the next frame.
#[derive(Debug, Clone, Copy, PartialEq, Eq, Structural)]
pub enum ActiveTier {
    Gpu,
    Scrap,
    Gdi,
    /// Nothing can be captured yet.
    Nothing,
}

/// How long the capture pipeline is kept without a viewer.
pub const IDLE_PIPELINE_TTL: u64 = 60 * SEC;

/// How long an idle agent waits for the first GPU frame.
pub const PREWARM_LIMIT: u64 = 5 * SEC;

/// The least time between two attempts to set up capture.
pub const INIT_PAUSE: u64 = SEC;

/// How far back the last attempt is put so that the next is due at once.
pub const INIT_NOW: u64 = 10 * SEC;

/// How long after a keyframe the next one is asked for.
pub const KEYFRAME_PERIOD: u64 = 2 * SEC;

/// How often a waiting GPU pipeline is tried.
pub const PENDING_PROBE: u64 = 100 * MS;

/// How long black frames are tolerated at startup.
pub const BLACK_STARTUP: u64 = 2500 * MS;

/// How long the scrap tier may go without its first frame.
pub const SCRAP_STALL: u64 = 750 * MS;

/// The time between two frames at 30 frames per second.
pub const FRAME_INTERVAL: u64 = 33_333_333;

/// What to do while nobody watches.
#[derive(Debug, Clone, Copy, PartialEq, Eq, Structural)]
pub enum IdleStep {
    /// Go on and capture: the GPU tier is warming up.
    Proceed,
    /// Wait a while and look again.
    Wait,
    /// The GPU tier made no frame: drop it, forget the startup wait, and look
    /// again.
    Park,
    /// Nobody came: drop every capture and the startup wait, and wait.
    Release,
}

/// The answer to a viewer's wish for another resolution.
#[derive(Debug, Clone, Copy, PartialEq, Eq, Structural)]
pub enum LayoutDecision {
    /// Not now; `retry` says whether to come back to it.
    Deferred { retry: bool },
    Denied,
    Apply { width: u32, height: u32 },
}

/// How to set up capture.
#[derive(Debug, Clone, Copy, PartialEq, Eq, Structural)]
pub enum InitStep {
    /// Not now.
    Nothing,
    /// GDI on the primary screen of the secure desktop.
    Console,
    /// The processor tiers: the GPU tier has been given up.
    CpuFallback,
    /// The GPU tier.
    Tier1,
}

/// What to do with a GPU pipeline that was just made.
#[derive(Debug, Clone, Copy, PartialEq, Eq, Structural)]
pub enum Tier1Step {
    /// The displays changed meanwhile: drop it, forget the startup wait.
    Discard,
    /// Its surface is not that of the display: drop it and set the display's
    /// mode.
    Reconcile,
    /// Use it, and ask it for a keyframe. `startup`: wait for its first frame.
    Adopt { startup: bool },
}

/// What to do when no GPU pipeline could be made.
#[derive(Debug, Clone, Copy, PartialEq, Eq, Structural)]
pub enum Tier1Failure {
    /// Nobody watches: leave it.
    Park,
    /// The desktop is not ready: wait and try again.
    Hold,
    /// Ask whether a retry is left.
    AskRetry,
}

/// The keyframe to ask of the GPU tier.
#[derive(Debug, Clone, Copy, PartialEq, Eq, Structural)]
pub enum GpuKeyframe {
    /// There is no GPU tier.
    Absent,
    /// Ask for it, have the desktop repainted, and forget the startup wait.
    Repaint,
    /// Ask for it and wait for the first frame.
    Startup,
}

/// What a viewer's wish for a keyframe leads to.
#[derive(Debug, Clone, Copy, PartialEq, Eq, Structural)]
pub struct KeyframePlan {
    pub gpu: GpuKeyframe,
    /// Ask the waiting GPU pipeline too.
    pub pending_gpu: bool,
    /// Nudge the desktop so that the scrap tier sees a change.
    pub nudge: bool,
    /// Ask the encoder on the processor.
    pub encoder: bool,
}

/// What a try of the waiting GPU pipeline gave.
#[derive(Debug, Clone, Copy, PartialEq, Eq, Structural)]
pub enum PendingProbe {
    Frame { width: u32, height: u32, is_keyframe: bool, mostly_black: bool },
    Nothing,
    Failed,
}

/// What to do with the waiting GPU pipeline.
#[derive(Debug, Clone, Copy, PartialEq, Eq, Structural)]
pub enum PendingStep {
    Keep,
    /// Ask it for a keyframe.
    ForceKeyframe,
    Drop,
    /// Send its frame and make it the GPU tier.
    Promote,
}

/// The look of a frame of the GPU tier.
#[derive(Debug, Clone, Copy, PartialEq, Eq, Structural)]
pub enum Sample {
    MostlyBlack,
    Fine,
    /// The pixels could not be read.
    Unknown,
}

/// What the GPU tier gave.
#[derive(Debug, Clone, Copy, PartialEq, Eq, Structural)]
pub enum GpuEvent {
    /// A frame. `waiting_since`: since when the first one is waited for;
    /// `sample` counts only while it is.
    Frame { is_keyframe: bool, waiting_since: Option<u64>, sample: Sample },
    /// No frame. `timed_out`: the wait for the first one is over.
    NoFrame { timed_out: bool },
    Failed { access_denied: bool },
}

/// What to do with what the GPU tier gave.
#[derive(Debug, Clone, Copy, PartialEq, Eq, Structural)]
pub enum GpuStep {
    /// Send the frame. `ready`: the first frame is there; `warmed`: and it was
    /// made for nobody, so forget the startup wait.
    Send { ready: bool, warmed: bool },
    /// Still black: ask for a keyframe, nudge the desktop, and look again.
    RetryBlack,
    /// The tier made nothing of use: drop it, ask whether a retry is left, and
    /// look again. `nudge`: nudge the desktop first.
    AskRetry { nudge: bool },
    /// No frame yet.
    Wait,
    /// The tier broke: drop it and the startup recovery.
    Reset,
}

/// What the scrap tier gave.
#[derive(Debug, Clone, Copy, PartialEq, Eq, Structural)]
pub enum CpuEvent {
    /// A frame, encoded.
    Frame { is_keyframe: bool },
    /// A frame that could not be encoded.
    NotEncoded,
    NoFrame,
    Failed,
}

/// What to do with what a processor tier gave.
#[derive(Debug, Clone, Copy, PartialEq, Eq, Structural)]
pub enum CpuStep {
    Send,
    /// Nothing to do.
    Keep,
    /// No frame yet.
    Wait,
    /// Drop the tier, start the recovery over and set up the GPU tier.
    RetryTier1,
    /// Drop the tier and set up GDI. `again`: and look again at once.
    Gdi { again: bool },
    /// Drop the tier.
    Drop,
}

impl Tiers {
    /// Nothing is there.
    pub open spec fn empty() -> Tiers {
        Tiers { gpu: false, pending_gpu: false, scrap: false, gdi: false, encoder: false }
    }

    /// One capture at most, and an encoder for the captures that need one.
    pub open spec fn wf(self) -> bool {
        &&& self.gpu ==> !self.scrap && !self.gdi
        &&& self.scrap ==> !self.gdi
        &&& self.encoder == (self.scrap || self.gdi)
    }

    /// No captures and no encoder.
    pub fn none() -> (tiers: Tiers)
        ensures
            tiers == Tiers::empty(),
    {
        Tiers { gpu: false, pending_gpu: false, scrap: false, gdi: false, encoder: false }
    }
}

impl CaptureMode {
    /// The name under which the mode is reported.
    pub fn name(&self) -> (name: &'static str)
        ensures
            name@ == match *self {
                CaptureMode::Off => "none"@,
                CaptureMode::DxgiNvenc => "dxgi_nvenc"@,
                CaptureMode::ScrapNvenc => "scrap_nvenc"@,
                CaptureMode::ScrapH264 => "scrap_h264"@,
                CaptureMode::GdiH264 => "gdi_h264"@,
            },
    {
        match *self {
            CaptureMode::Off => "none",
            CaptureMode::DxgiNvenc => "dxgi_nvenc",
            CaptureMode::ScrapNvenc => "scrap_nvenc",
            CaptureMode::ScrapH264 => "scrap_h264",
            CaptureMode::GdiH264 => "gdi_h264",
        }
    }
}

/// The state of the agent's capture.
#[derive(Debug, Clone, Copy, PartialEq, Eq)]
pub struct AgentLoop {
    pub tiers: Tiers,
    /// A frame was sent at some time.
    pub delivered: bool,
    pub last_keyframe: u64,
    pub last_init_attempt: u64,
    /// Size of the captured picture.
    pub width: u32,
    pub height: u32,
    /// Corner of the captured display on the virtual desktop.
    pub display_x: i32,
    pub display_y: i32,
    pub capture_mode: CaptureMode,
    /// The resolution that the viewer wants and that is not decided yet.
    pub pending_resolution: Option<(u32, u32)>,
    /// Since when the scrap tier owes its first frame.
    pub scrap_waiting_since: Option<u64>,
    pub last_viewer_active: bool,
    pub viewer_idle_since: Option<u64>,
    /// The GPU tier has made a frame.
    pub gpu_prewarm_ready: bool,
    pub gpu_prewarm_started_at: Option<u64>,
    /// An idle agent leaves the GPU tier alone.
    pub idle_prewarm_suspended: bool,
    pub last_pending_probe: u64,
    pub cursor: CursorTracker,
}

impl AgentLoop {
    /// The captures exclude each other, and the mode names the one that runs.
    pub open spec fn wf(self) -> bool {
        &&& self.tiers.wf()
        &&& self.tiers.gpu ==> self.capture_mode == CaptureMode::DxgiNvenc
        &&& self.tiers.scrap ==> self.capture_mode == CaptureMode::ScrapNvenc || self.capture_mode
            == CaptureMode::ScrapH264
        &&& self.tiers.gdi ==> self.capture_mode == CaptureMode::GdiH264
    }

    /// No capture is there.
    pub open spec fn captures_nothing(self) -> bool {
        !self.tiers.gpu && !self.tiers.scrap && !self.tiers.gdi
    }

    /// The state without captures, ready to warm up again.
    pub open spec fn dropped(self) -> AgentLoop {
        AgentLoop {
            tiers: Tiers::empty(),
            gpu_prewarm_ready: false,
            gpu_prewarm_started_at: None,
            idle_prewarm_suspended: false,
            ..self
        }
    }

    /// The state without a scrap tier that owes a frame.
    pub open spec fn without_scrap_wait(self) -> AgentLoop {
        AgentLoop { scrap_waiting_since: None, ..self }
    }

    /// The state in which capture is set up at the next occasion.
    pub open spec fn init_due(self, now: u64) -> AgentLoop {
        AgentLoop { last_init_attempt: clock::ago(now, INIT_NOW), ..self }
    }

    /// An idle agent has the GPU tier warm up: it has one without a frame, or
    /// it has nothing and may still try.
    pub open spec fn wants_prewarm(self, can_try_tier1: bool) -> bool {
        &&& !self.gpu_prewarm_ready
        &&& self.tiers.gpu || {
            &&& !self.idle_prewarm_suspended
            &&& self.captures_nothing()
            &&& !self.tiers.encoder
            &&& can_try_tier1
        }
    }

    /// Since when the GPU tier warms up.
    pub open spec fn prewarm_start(self, now: u64) -> u64 {
        if self.gpu_prewarm_started_at is Some {
            self.gpu_prewarm_started_at->0
        } else {
            now
        }
    }

    /// Since when nobody watches.
    pub open spec fn idle_start(self, now: u64) -> u64 {
        if self.viewer_idle_since is Some {
            self.viewer_idle_since->0
        } else {
            now
        }
    }

    /// Capture has to be set up, and enough time has passed since the last
    /// attempt.
    pub open spec fn needs_init(self, now: u64) -> bool {
        self.captures_nothing() && clock::span(self.last_init_attempt, now) > INIT_PAUSE
    }

    /// The state once it is known whether somebody watches.
    pub open spec fn viewer_seen(self, viewer_active: bool, now: u64) -> AgentLoop {
        if viewer_active == self.last_viewer_active {
            self
        } else if viewer_active {
            AgentLoop {
                last_viewer_active: true,
                viewer_idle_since: None,
                idle_prewarm_suspended: false,
                cursor: self.cursor.forgotten(),
                ..self
            }
        } else {
            AgentLoop { last_viewer_active: false, viewer_idle_since: Some(now), ..self }
        }
    }

    /// What an idle agent does, and its state after that. `on_default`: the
    /// input desktop is the user's.
    pub open spec fn idled(self, can_try_tier1: bool, on_default: bool, now: u64) -> (
        IdleStep,
        AgentLoop,
    ) {
        let started = self.prewarm_start(now);
        let idle = self.idle_start(now);
        if self.wants_prewarm(can_try_tier1) {
            if !on_default {
                (
                    IdleStep::Wait,
                    AgentLoop {
                        idle_prewarm_suspended: true,
                        gpu_prewarm_started_at: None,
                        ..self
                    },
                )
            } else if self.tiers.gpu && clock::span(started, now) > PREWARM_LIMIT {
                (
                    IdleStep::Park,
                    AgentLoop {
                        tiers: Tiers { gpu: false, ..self.tiers },
                        gpu_prewarm_ready: false,
                        gpu_prewarm_started_at: None,
                        idle_prewarm_suspended: true,
                        last_init_attempt: now,
                        ..self
                    },
                )
            } else {
                (IdleStep::Proceed, AgentLoop { gpu_prewarm_started_at: Some(started), ..self })
            }
        } else if self.tiers.gpu || (self.captures_nothing() && !self.tiers.encoder) {
            (IdleStep::Wait, self)
        } else if clock::span(idle, now) >= IDLE_PIPELINE_TTL {
            (
                IdleStep::Release,
                AgentLoop {
                    viewer_idle_since: Some(idle),
                    tiers: Tiers::empty(),
                    gpu_prewarm_ready: false,
                    gpu_prewarm_started_at: None,
                    idle_prewarm_suspended: true,
                    scrap_waiting_since: None,
                    capture_mode: CaptureMode::Off,
                    ..self
                },
            )
        } else {
            (IdleStep::Wait, AgentLoop { viewer_idle_since: Some(idle), ..self })
        }
    }

    /// The state without any capture, because the displays are not set up.
    pub open spec fn unprovisioned(self) -> AgentLoop {
        AgentLoop { tiers: Tiers::empty(), capture_mode: CaptureMode::Off, ..self }
    }

    /// The state once the viewer's wish was looked for.
    pub open spec fn wished(self, request: Option<(u32, u32)>) -> AgentLoop {
        AgentLoop {
            pending_resolution: if request is Some {
                request
            } else {
                self.pending_resolution
            },
            ..self
        }
    }

    /// The mode to set upon an answer to the viewer's wish, and the state
    /// after that.
    pub open spec fn decided(self, decision: LayoutDecision) -> (Option<(u32, u32)>, AgentLoop) {
        match decision {
            LayoutDecision::Deferred { retry: true } => (None, self),
            LayoutDecision::Deferred { retry: false } | LayoutDecision::Denied => (
                None,
                AgentLoop { pending_resolution: None, ..self },
            ),
            LayoutDecision::Apply { width, height } => if width == self.width && height
                == self.height {
                (None, AgentLoop { pending_resolution: None, ..self })
            } else {
                (
                    Some((width, height)),
                    AgentLoop { pending_resolution: None, ..self.dropped().without_scrap_wait() },
                )
            },
        }
    }

    /// The state with a display of another size.
    pub open spec fn resized(self, width: u32, height: u32, now: u64) -> AgentLoop {
        AgentLoop { width, height, ..self.init_due(now) }
    }

    /// How capture is set up, and the state after that.
    pub open spec fn init_chosen(self, console: bool, can_try_tier1: bool, now: u64) -> (
        InitStep,
        AgentLoop,
    ) {
        let tried = AgentLoop { last_init_attempt: now, ..self };
        let cold = AgentLoop {
            scrap_waiting_since: None,
            gpu_prewarm_ready: false,
            gpu_prewarm_started_at: None,
            ..tried
        };
        if !self.needs_init(now) {
            (InitStep::Nothing, self)
        } else if console {
            (InitStep::Console, cold)
        } else if !can_try_tier1 {
            (InitStep::CpuFallback, cold)
        } else {
            (InitStep::Tier1, tried)
        }
    }

    /// The agent before its first look at anything.
    pub fn new(now: u64) -> (agent: Self)
        ensures
            agent == (AgentLoop {
                tiers: Tiers::empty(),
                delivered: false,
                last_keyframe: now,
                last_init_attempt: clock::ago(now, INIT_NOW),
                width: 1920,
                height: 1080,
                display_x: 0,
                display_y: 0,
                capture_mode: CaptureMode::Off,
                pending_resolution: None,
                scrap_waiting_since: None,
                last_viewer_active: false,
                viewer_idle_since: None,
                gpu_prewarm_ready: false,
                gpu_prewarm_started_at: None,
                idle_prewarm_suspended: false,
                last_pending_probe: clock::ago(now, INIT_NOW),
                cursor: agent.cursor,
            }),
            agent.cursor == (CursorTracker {
                handle: 0,
                shape: None,
                state: None,
                state_sent: clock::ago(now, SEC),
            }),
            agent.wf(),
    {
        AgentLoop {
            tiers: Tiers::none(),
            delivered: false,
            last_keyframe: now,
            last_init_attempt: clock::instant_ago(now, INIT_NOW),
            width: 1920,
            height: 1080,
            display_x: 0,
            display_y: 0,
            capture_mode: CaptureMode::Off,
            pending_resolution: None,
            scrap_waiting_since: None,
            last_viewer_active: false,
            viewer_idle_since: None,
            gpu_prewarm_ready: false,
            gpu_prewarm_started_at: None,
            idle_prewarm_suspended: false,
            last_pending_probe: clock::instant_ago(now, INIT_NOW),
            cursor: CursorTracker::new(now),
        }
    }

    /// Drop every capture.
    fn drop_tiers(&mut self)
        ensures
            *final(self) == old(self).dropped(),
    {
        self.tiers = Tiers::none();
        self.gpu_prewarm_ready = false;
        self.gpu_prewarm_started_at = None;
        self.idle_prewarm_suspended = false;
    }

    /// Note whether somebody watches. A viewer that comes is sent the pointer
    /// anew and may have the GPU tier tried again.
    pub fn observe_viewer(&mut self, viewer_active: bool, now: u64) -> (changed: bool)
        ensures
            changed == (viewer_active != old(self).last_viewer_active),
            *final(self) == old(self).viewer_seen(viewer_active, now),
            old(self).wf() ==> final(self).wf(),
    {
        if viewer_active == self.last_viewer_active {
            return false;
        }
        self.last_viewer_active = viewer_active;
        if viewer_active {
            self.idle_prewarm_suspended = false;
            self.cursor.forget_shape();
            self.viewer_idle_since = None;
        } else {
            self.viewer_idle_since = Some(now);
        }
        true
    }

    /// Whether an idle agent has the GPU tier warm up.
    pub fn prewarm_wanted(&self, can_try_tier1: bool) -> (wanted: bool)
        ensures
            wanted == self.wants_prewarm(can_try_tier1),
    {
        let nothing = !self.tiers.gpu && !self.tiers.scrap && !self.tiers.gdi
            && !self.tiers.encoder;
        !self.gpu_prewarm_ready && (self.tiers.gpu || (!self.idle_prewarm_suspended && nothing
            && can_try_tier1))
    }

    /// What to do while nobody watches. `on_default`: the input desktop is the
    /// user's.
    pub fn idle_step(&mut self, can_try_tier1: bool, on_default: bool, now: u64) -> (step: IdleStep)
        ensures
            (step, *final(self)) == old(self).idled(can_try_tier1, on_default, now),
            old(self).wf() ==> final(self).wf(),
    {
        let nothing = !self.tiers.gpu && !self.tiers.scrap && !self.tiers.gdi
            && !self.tiers.encoder;
        if self.prewarm_wanted(can_try_tier1) {
            if !on_default {
                self.idle_prewarm_suspended = true;
                self.gpu_prewarm_started_at = None;
                return IdleStep::Wait;
            }
            let started: u64 = match self.gpu_prewarm_started_at {
                Some(at) => at,
                None => now,
            };
            self.gpu_prewarm_started_at = Some(started);
            if self.tiers.gpu && clock::elapsed(started, now) > PREWARM_LIMIT {
                self.tiers.gpu = false;
                self.gpu_prewarm_ready = false;
                self.gpu_prewarm_started_at = None;
                self.idle_prewarm_suspended = true;
                self.last_init_attempt = now;
                return IdleStep::Park;
            }
            return IdleStep::Proceed;
        }
        if self.tiers.gpu || nothing {
            return IdleStep::Wait;
        }
        let idle: u64 = match self.viewer_idle_since {
            Some(at) => at,
            None => now,
        };
        self.viewer_idle_since = Some(idle);
        if clock::elapsed(idle, now) >= IDLE_PIPELINE_TTL {
            self.drop_tiers();
            self.idle_prewarm_suspended = true;
            self.scrap_waiting_since = None;
            self.capture_mode = CaptureMode::Off;
            return IdleStep::Release;
        }
        IdleStep::Wait
    }

    /// Another desktop has the input: every capture looks at the wrong one.
    /// The startup recovery and the desktop gate start over too.
    pub fn on_desktop_changed(&mut self, now: u64)
        ensures
            *final(self) == old(self).dropped().init_due(now),
            final(self).tiers == Tiers::empty(),
            old(self).wf() ==> final(self).wf(),
    {
        self.drop_tiers();
        self.last_init_attempt = clock::instant_ago(now, INIT_NOW);
    }

    /// Windows has no display at all.
    pub fn on_no_display(&mut self, now: u64)
        ensures
            *final(self) == old(self).dropped().without_scrap_wait().init_due(now),
            old(self).wf() ==> final(self).wf(),
    {
        self.drop_tiers();
        self.scrap_waiting_since = None;
        self.last_init_attempt = clock::instant_ago(now, INIT_NOW);
    }

    /// The virtual display was found again. The startup recovery starts over
    /// too.
    pub fn on_display_found(&mut self, now: u64)
        ensures
            *final(self) == old(self).dropped().without_scrap_wait().init_due(now),
            old(self).wf() ==> final(self).wf(),
    {
        self.on_no_display(now);
    }

    /// The displays are not set up yet.
    pub fn on_not_provisioned(&mut self)
        ensures
            *final(self) == old(self).unprovisioned(),
            final(self).wf(),
    {
        self.tiers = Tiers::none();
        self.capture_mode = CaptureMode::Off;
    }

    /// The viewer wants another resolution.
    pub fn request_resolution(&mut self, request: Option<(u32, u32)>)
        ensures
            *final(self) == old(self).wished(request),
            old(self).wf() ==> final(self).wf(),
    {
        if request.is_some() {
            self.pending_resolution = request;
        }
    }

    /// Act on the answer to the wish for another resolution. What is returned
    /// is the mode to set now; every capture is dropped before that, so that
    /// no black frame of the mode change is sent, and the startup wait is to
    /// be forgotten.
    pub fn on_layout_decision(&mut self, decision: LayoutDecision) -> (set_mode: Option<(u32, u32)>)
        ensures
            (set_mode, *final(self)) == old(self).decided(decision),
            set_mode is Some ==> final(self).tiers == Tiers::empty(),
            old(self).wf() ==> final(self).wf(),
    {
        match decision {
            LayoutDecision::Deferred { retry } => {
                if !retry {
                    self.pending_resolution = None;
                }
                None
            },
            LayoutDecision::Denied => {
                self.pending_resolution = None;
                None
            },
            LayoutDecision::Apply { width, height } => {
                self.pending_resolution = None;
                if width == self.width && height == self.height {
                    return None;
                }
                self.drop_tiers();
                self.scrap_waiting_since = None;
                Some((width, height))
            },
        }
    }

    /// The display has the new mode.
    pub fn on_mode_set(&mut self, width: u32, height: u32, now: u64)
        ensures
            *final(self) == old(self).resized(width, height, now),
            old(self).wf() ==> final(self).wf(),
    {
        self.width = width;
        self.height = height;
        self.last_init_attempt = clock::instant_ago(now, INIT_NOW);
    }

    /// How to set up capture, if it is time to. `console`: the secure desktop
    /// is captured.
    pub fn init_step(&mut self, console: bool, can_try_tier1: bool, now: u64) -> (step: InitStep)
        ensures
            (step, *final(self)) == old(self).init_chosen(console, can_try_tier1, now),
            old(self).wf() ==> final(self).wf(),
    {
        let needs_init = !self.tiers.gpu && !self.tiers.scrap && !self.tiers.gdi
            && clock::elapsed(self.last_init_attempt, now) > INIT_PAUSE;
        if !needs_init {
            return InitStep::Nothing;
        }
        self.last_init_attempt = now;
        if console || !can_try_tier1 {
            self.scrap_waiting_since = None;
            self.gpu_prewarm_ready = false;
            self.gpu_prewarm_started_at = None;
            if console {
                return InitStep::Console;
            }
            return InitStep::CpuFallback;
        }
        InitStep::Tier1
    }

    /// GDI captures a region of this size and place. `encoder`: an encoder for
    /// it could be made; without one GDI is not used.
    pub fn on_gdi_started(
        &mut self,
        size: (u32, u32),
        origin: (i32, i32),
        encoder: bool,
    )
        requires
            !old(self).tiers.gpu,
            !old(self).tiers.scrap,
        ensures
            *final(self) == (AgentLoop {
                width: size.0,
                height: size.1,
                display_x: origin.0,
                display_y: origin.1,
                tiers: if encoder {
                    Tiers { gdi: true, encoder: true, ..old(self).tiers }
                } else {
                    old(self).tiers
                },
                capture_mode: if encoder {
                    CaptureMode::GdiH264
                } else {
                    old(self).capture_mode
                },
                ..*old(self)
            }),
            old(self).wf() ==> final(self).wf(),
    {
        self.width = size.0;
        self.height = size.1;
        self.display_x = origin.0;
        self.display_y = origin.1;
        if encoder {
            self.tiers.gdi = true;
            self.tiers.encoder = true;
            self.capture_mode = CaptureMode::GdiH264;
        }
    }

    /// The scrap tier captures a display of this size and place. `encoder`:
    /// which encoder could be made for it, `true` for one on the GPU.
    pub fn on_scrap_started(
        &mut self,
        size: (u32, u32),
        origin: (i32, i32),
        encoder: Option<bool>,
        now: u64,
    )
        requires
            !old(self).tiers.gpu,
            !old(self).tiers.gdi,
        ensures
            encoder is None ==> *final(self) == (AgentLoop {
                width: size.0,
                height: size.1,
                display_x: origin.0,
                display_y: origin.1,
                ..*old(self)
            }),
            encoder matches Some(nvenc) ==> *final(self) == (AgentLoop {
                width: size.0,
                height: size.1,
                display_x: origin.0,
                display_y: origin.1,
                tiers: Tiers { scrap: true, encoder: true, ..old(self).tiers },
                scrap_waiting_since: Some(now),
                capture_mode: if nvenc {
                    CaptureMode::ScrapNvenc
                } else {
                    CaptureMode::ScrapH264
                },
                ..*old(self)
            }),
            old(self).wf() ==> final(self).wf(),
    {
        self.width = size.0;
        self.height = size.1;
        self.display_x = origin.0;
        self.display_y = origin.1;
        if let Some(nvenc) = encoder {
            self.tiers.scrap = true;
            self.tiers.encoder = true;
            self.scrap_waiting_since = Some(now);
            self.capture_mode = if nvenc {
                CaptureMode::ScrapNvenc
            } else {
                CaptureMode::ScrapH264
            };
        }
    }

    /// GDI took over from a scrap tier that was asked for: no first frame is
    /// owed.
    pub fn on_fallback_is_gdi(&mut self)
        ensures
            *final(self) == old(self).without_scrap_wait(),
            old(self).wf() ==> final(self).wf(),
    {
        self.scrap_waiting_since = None;
    }

    /// A GPU pipeline of this size was made. `drifted`: the displays changed
    /// meanwhile; `mismatch`: its surface is not that of the display.
    pub fn on_tier1_made(
        &mut self,
        width: u32,
        height: u32,
        drifted: bool,
        mismatch: bool,
        now: u64,
    ) -> (step: Tier1Step)
        ensures
            if drifted {
                step == Tier1Step::Discard && *final(self) == old(self).init_due(now)
            } else if mismatch {
                step == Tier1Step::Reconcile && *final(self) == old(self).init_due(now)
            } else {
                &&& step == Tier1Step::Adopt {
                    startup: !old(self).delivered && !old(self).gpu_prewarm_ready,
                }
                &&& *final(self) == (AgentLoop {
                    width,
                    height,
                    tiers: Tiers { gpu: true, ..Tiers::empty() },
                    gpu_prewarm_ready: false,
                    gpu_prewarm_started_at: None,
                    scrap_waiting_since: None,
                    capture_mode: CaptureMode::DxgiNvenc,
                    ..*old(self)
                })
            },
            old(self).wf() ==> final(self).wf(),
    {
        if drifted || mismatch {
            self.last_init_attempt = clock::instant_ago(now, INIT_NOW);
            if drifted {
                return Tier1Step::Discard;
            }
            return Tier1Step::Reconcile;
        }
        let startup = !self.delivered && !self.gpu_prewarm_ready;
        self.width = width;
        self.height = height;
        self.tiers = Tiers::none();
        self.tiers.gpu = true;
        self.gpu_prewarm_ready = false;
        self.gpu_prewarm_started_at = None;
        self.scrap_waiting_since = None;
        self.capture_mode = CaptureMode::DxgiNvenc;
        Tier1Step::Adopt { startup }
    }

    /// No GPU pipeline could be made.
    pub fn on_tier1_failed(
        &mut self,
        gate: &mut DefaultDesktopGate,
        viewer_active: bool,
        access_denied: bool,
        now: u64,
    ) -> (step: Tier1Failure)
        ensures
            *final(self) == (AgentLoop {
                gpu_prewarm_ready: false,
                gpu_prewarm_started_at: None,
                idle_prewarm_suspended: old(self).idle_prewarm_suspended || !viewer_active,
                ..*old(self)
            }),
            *final(gate) == if viewer_active && access_denied {
                old(gate).after_denial(now)
            } else {
                *old(gate)
            },
            step == if !viewer_active {
                Tier1Failure::Park
            } else if access_denied && old(gate).holds(now) {
                Tier1Failure::Hold
            } else {
                Tier1Failure::AskRetry
            },
            old(self).wf() ==> final(self).wf(),
    {
        self.gpu_prewarm_ready = false;
        self.gpu_prewarm_started_at = None;
        if !viewer_active {
            self.idle_prewarm_suspended = true;
            return Tier1Failure::Park;
        }
        if access_denied && gate.hold_after_access_denied(now) {
            return Tier1Failure::Hold;
        }
        Tier1Failure::AskRetry
    }

    /// Whether a retry of the GPU tier was left, after it could not be made.
    /// If not, it is to be given up for the processor tiers.
    pub fn on_tier1_retry(&mut self, granted: bool, now: u64)
        ensures
            *final(self) == (AgentLoop {
                last_init_attempt: if granted {
                    now
                } else {
                    old(self).last_init_attempt
                },
                ..*old(self)
            }),
            old(self).wf() ==> final(self).wf(),
    {
        if granted {
            self.last_init_attempt = now;
        }
    }

    /// The viewer wants a keyframe. The captures and the displays stay as they
    /// are.
    pub fn on_keyframe_request(&mut self, now: u64) -> (plan: KeyframePlan)
        ensures
            plan == (KeyframePlan {
                gpu: if !old(self).tiers.gpu {
                    GpuKeyframe::Absent
                } else if old(self).gpu_prewarm_ready {
                    GpuKeyframe::Repaint
                } else {
                    GpuKeyframe::Startup
                },
                pending_gpu: old(self).tiers.pending_gpu,
                nudge: old(self).tiers.scrap,
                encoder: old(self).tiers.encoder,
            }),
            *final(self) == (AgentLoop { last_keyframe: now, ..*old(self) }),
            old(self).wf() ==> final(self).wf(),
    {
        self.last_keyframe = now;
        KeyframePlan {
            gpu: if !self.tiers.gpu {
                GpuKeyframe::Absent
            } else if self.gpu_prewarm_ready {
                GpuKeyframe::Repaint
            } else {
                GpuKeyframe::Startup
            },
            pending_gpu: self.tiers.pending_gpu,
            nudge: self.tiers.scrap,
            encoder: self.tiers.encoder,
        }
    }

    /// Whether it is time to ask for a keyframe unasked. It goes to the GPU
    /// tier and to the encoder, whichever is there.
    pub fn keyframe_due(&mut self, now: u64) -> (due: bool)
        ensures
            due == (clock::span(old(self).last_keyframe, now) > KEYFRAME_PERIOD),
            *final(self) == if due {
                AgentLoop { last_keyframe: now, ..*old(self) }
            } else {
                *old(self)
            },
            old(self).wf() ==> final(self).wf(),
    {
        if clock::elapsed(self.last_keyframe, now) > KEYFRAME_PERIOD {
            self.last_keyframe = now;
            true
        } else {
            false
        }
    }

    /// Whether to try the waiting GPU pipeline now.
    pub fn pending_probe_due(&mut self, now: u64) -> (due: bool)
        ensures
            due == (!old(self).tiers.gpu && old(self).tiers.pending_gpu && clock::span(
                old(self).last_pending_probe,
                now,
            ) >= PENDING_PROBE),
            *final(self) == if due {
                AgentLoop { last_pending_probe: now, ..*old(self) }
            } else {
                *old(self)
            },
            old(self).wf() ==> final(self).wf(),
    {
        if !self.tiers.gpu && self.tiers.pending_gpu && clock::elapsed(self.last_pending_probe, now)
            >= PENDING_PROBE {
            self.last_pending_probe = now;
            true
        } else {
            false
        }
    }

    /// The waiting GPU pipeline was tried. Its first frame that shows
    /// something brings it back as the GPU tier, and the startup recovery is
    /// told that a frame is there.
    pub fn on_pending_probe(&mut self, probe: PendingProbe, now: u64) -> (step: PendingStep)
        requires
            !old(self).tiers.gpu,
            old(self).tiers.pending_gpu,
        ensures
            match probe {
                PendingProbe::Nothing => step == PendingStep::Keep && *final(self) == *old(self),
                PendingProbe::Failed => {
                    &&& step == PendingStep::Drop
                    &&& *final(self) == (AgentLoop {
                        tiers: Tiers { pending_gpu: false, ..old(self).tiers },
                        ..*old(self)
                    })
                },
                PendingProbe::Frame { width, height, is_keyframe, mostly_black } => if mostly_black {
                    step == PendingStep::ForceKeyframe && *final(self) == *old(self)
                } else {
                    &&& step == PendingStep::Promote
                    &&& *final(self) == (AgentLoop {
                        width,
                        height,
                        display_x: 0,
                        display_y: 0,
                        capture_mode: CaptureMode::DxgiNvenc,
                        delivered: true,
                        last_keyframe: if is_keyframe {
                            now
                        } else {
                            old(self).last_keyframe
                        },
                        tiers: Tiers { gpu: true, ..Tiers::empty() },
                        scrap_waiting_since: None,
                        gpu_prewarm_ready: true,
                        ..*old(self)
                    })
                },
            },
            old(self).wf() ==> final(self).wf(),
    {
        match probe {
            PendingProbe::Nothing => PendingStep::Keep,
            PendingProbe::Failed => {
                self.tiers.pending_gpu = false;
                PendingStep::Drop
            },
            PendingProbe::Frame { width, height, is_keyframe, mostly_black } => {
                if mostly_black {
                    return PendingStep::ForceKeyframe;
                }
                self.width = width;
                self.height = height;
                self.display_x = 0;
                self.display_y = 0;
                self.capture_mode = CaptureMode::DxgiNvenc;
                self.delivered = true;
                if is_keyframe {
                    self.last_keyframe = now;
                }
                self.tiers = Tiers::none();
                self.tiers.gpu = true;
                self.scrap_waiting_since = None;
                self.gpu_prewarm_ready = true;
                PendingStep::Promote
            },
        }
    }

    /// The tier that makes the next frame.
    pub fn active_tier(&self) -> (tier: ActiveTier)
        ensures
            tier == if self.tiers.gpu {
                ActiveTier::Gpu
            } else if self.tiers.scrap && self.tiers.encoder {
                ActiveTier::Scrap
            } else if self.tiers.gdi && self.tiers.encoder {
                ActiveTier::Gdi
            } else {
                ActiveTier::Nothing
            },
            self.wf() && !self.captures_nothing() ==> tier != ActiveTier::Nothing,
    {
        if self.tiers.gpu {
            ActiveTier::Gpu
        } else if self.tiers.scrap && self.tiers.encoder {
            ActiveTier::Scrap
        } else if self.tiers.gdi && self.tiers.encoder {
            ActiveTier::Gdi
        } else {
            ActiveTier::Nothing
        }
    }

    /// A frame of the GPU tier is sent.
    pub open spec fn gpu_frame_sent(self, is_keyframe: bool, now: u64) -> AgentLoop {
        AgentLoop {
            delivered: true,
            last_keyframe: if is_keyframe {
                now
            } else {
                self.last_keyframe
            },
            gpu_prewarm_ready: true,
            gpu_prewarm_started_at: if self.gpu_prewarm_ready {
                self.gpu_prewarm_started_at
            } else {
                None
            },
            ..self
        }
    }

    /// The GPU tier is dropped.
    pub open spec fn gpu_dropped(self) -> AgentLoop {
        AgentLoop {
            tiers: Tiers { gpu: false, pending_gpu: false, ..self.tiers },
            gpu_prewarm_ready: false,
            gpu_prewarm_started_at: None,
            ..self
        }
    }

    /// The GPU tier was asked for a frame.
    pub fn on_gpu_event(
        &mut self,
        gate: &mut DefaultDesktopGate,
        event: GpuEvent,
        now: u64,
    ) -> (step: GpuStep)
        requires
            old(self).tiers.gpu,
        ensures
            match event {
                GpuEvent::Frame {
                    is_keyframe,
                    waiting_since: Some(since),
                    sample: Sample::MostlyBlack,
                } => {
                    &&& *final(gate) == *old(gate)
                    &&& if clock::span(since, now) > BLACK_STARTUP {
                        &&& step == GpuStep::AskRetry { nudge: false }
                        &&& *final(self) == old(self).gpu_dropped()
                    } else {
                        step == GpuStep::RetryBlack && *final(self) == *old(self)
                    }
                },
                GpuEvent::Frame { is_keyframe, waiting_since, .. } => {
                    &&& step == GpuStep::Send {
                        ready: waiting_since is Some,
                        warmed: !old(self).gpu_prewarm_ready && !old(self).last_viewer_active,
                    }
                    &&& *final(self) == old(self).gpu_frame_sent(is_keyframe, now)
                    &&& *final(gate) == if waiting_since is Some {
                        DefaultDesktopGate { access_denied_since: None, ..*old(gate) }
                    } else {
                        *old(gate)
                    }
                },
                GpuEvent::NoFrame { timed_out } => {
                    &&& *final(gate) == *old(gate)
                    &&& if timed_out {
                        &&& step == GpuStep::AskRetry { nudge: true }
                        &&& *final(self) == (AgentLoop {
                            tiers: Tiers {
                                gpu: false,
                                pending_gpu: false,
                                scrap: false,
                                ..old(self).tiers
                            },
                            scrap_waiting_since: None,
                            ..old(self).gpu_dropped()
                        })
                    } else {
                        step == GpuStep::Wait && *final(self) == *old(self)
                    }
                },
                GpuEvent::Failed { access_denied } => {
                    &&& step == GpuStep::Reset
                    &&& *final(self) == (AgentLoop {
                        last_init_attempt: now,
                        ..old(self).gpu_dropped()
                    })
                    &&& *final(gate) == if access_denied {
                        old(gate).after_denial(now)
                    } else {
                        *old(gate)
                    }
                },
            },
            old(self).wf() ==> final(self).wf(),
    {
        match event {
            GpuEvent::Frame { is_keyframe, waiting_since, sample } => {
                if let Some(since) = waiting_since {
                    match sample {
                        Sample::MostlyBlack => {
                            if clock::elapsed(since, now) > BLACK_STARTUP {
                                self.drop_gpu();
                                return GpuStep::AskRetry { nudge: false };
                            }
                            return GpuStep::RetryBlack;
                        },
                        Sample::Fine | Sample::Unknown => gate.mark_capture_ready(),
                    }
                }
                self.delivered = true;
                if is_keyframe {
                    self.last_keyframe = now;
                }
                let warmed = !self.gpu_prewarm_ready && !self.last_viewer_active;
                if !self.gpu_prewarm_ready {
                    self.gpu_prewarm_ready = true;
                    self.gpu_prewarm_started_at = None;
                }
                GpuStep::Send { ready: waiting_since.is_some(), warmed }
            },
            GpuEvent::NoFrame { timed_out } => {
                if !timed_out {
                    return GpuStep::Wait;
                }
                self.drop_gpu();
                self.tiers.scrap = false;
                self.scrap_waiting_since = None;
                GpuStep::AskRetry { nudge: true }
            },
            GpuEvent::Failed { access_denied } => {
                self.drop_gpu();
                self.last_init_attempt = now;
                if access_denied {
                    let _ = gate.hold_after_access_denied(now);
                }
                GpuStep::Reset
            },
        }
    }

    /// Drop the GPU tier.
    fn drop_gpu(&mut self)
        ensures
            *final(self) == old(self).gpu_dropped(),
    {
        self.tiers.gpu = false;
        self.tiers.pending_gpu = false;
        self.gpu_prewarm_ready = false;
        self.gpu_prewarm_started_at = None;
    }

    /// Whether a retry of the GPU tier was left, after it made nothing of use.
    /// If so it is set up again at once; if not it is to be given up for the
    /// processor tiers.
    pub fn on_startup_retry(&mut self, granted: bool, now: u64)
        requires
            !old(self).tiers.scrap,
        ensures
            *final(self) == if granted {
                old(self).init_due(now)
            } else {
                old(self).without_scrap_wait()
            },
            old(self).wf() ==> final(self).wf(),
    {
        if granted {
            self.last_init_attempt = clock::instant_ago(now, INIT_NOW);
        } else {
            self.scrap_waiting_since = None;
        }
    }

    /// A frame of a processor tier is sent.
    pub open spec fn cpu_frame_sent(self, is_keyframe: bool, now: u64) -> AgentLoop {
        AgentLoop {
            delivered: true,
            last_keyframe: if is_keyframe {
                now
            } else {
                self.last_keyframe
            },
            ..self
        }
    }

    /// The scrap tier has made no first frame in time.
    pub open spec fn scrap_stalled(self, now: u64) -> bool {
        self.scrap_waiting_since is Some && clock::span(self.scrap_waiting_since->0, now)
            > SCRAP_STALL
    }

    /// The scrap tier is dropped.
    pub open spec fn scrap_dropped(self) -> AgentLoop {
        AgentLoop {
            tiers: Tiers { scrap: false, encoder: false, ..self.tiers },
            scrap_waiting_since: None,
            ..self
        }
    }

    /// The scrap tier was asked for a frame. `retry_tier1`: the GPU tier may be
    /// tried in place of GDI.
    pub fn on_scrap_event(&mut self, event: CpuEvent, retry_tier1: bool, now: u64) -> (step: CpuStep)
        requires
            old(self).tiers.scrap,
        ensures
            match event {
                CpuEvent::Frame { is_keyframe } => {
                    &&& step == CpuStep::Send
                    &&& *final(self) == old(self).cpu_frame_sent(
                        is_keyframe,
                        now,
                    ).without_scrap_wait()
                },
                CpuEvent::NotEncoded => step == CpuStep::Keep && *final(self) == *old(self),
                _ => if event == CpuEvent::NoFrame && !old(self).scrap_stalled(now) {
                    step == CpuStep::Wait && *final(self) == *old(self)
                } else if retry_tier1 {
                    &&& step == CpuStep::RetryTier1
                    &&& *final(self) == (AgentLoop {
                        capture_mode: CaptureMode::Off,
                        ..old(self).scrap_dropped().init_due(now)
                    })
                } else {
                    &&& step == CpuStep::Gdi { again: event == CpuEvent::NoFrame }
                    &&& *final(self) == old(self).scrap_dropped()
                },
            },
            old(self).wf() ==> final(self).wf(),
    {
        let again = match event {
            CpuEvent::Frame { is_keyframe } => {
                self.delivered = true;
                if is_keyframe {
                    self.last_keyframe = now;
                }
                self.scrap_waiting_since = None;
                return CpuStep::Send;
            },
            CpuEvent::NotEncoded => return CpuStep::Keep,
            CpuEvent::NoFrame => {
                let stalled = match self.scrap_waiting_since {
                    Some(since) => clock::elapsed(since, now) > SCRAP_STALL,
                    None => false,
                };
                if !stalled {
                    return CpuStep::Wait;
                }
                true
            },
            CpuEvent::Failed => false,
        };
        self.tiers.scrap = false;
        self.tiers.encoder = false;
        self.scrap_waiting_since = None;
        if retry_tier1 {
            self.last_init_attempt = clock::instant_ago(now, INIT_NOW);
            self.capture_mode = CaptureMode::Off;
            return CpuStep::RetryTier1;
        }
        CpuStep::Gdi { again }
    }

    /// GDI was asked for a frame.
    pub fn on_gdi_event(&mut self, event: CpuEvent, now: u64) -> (step: CpuStep)
        requires
            old(self).tiers.gdi,
        ensures
            match event {
                CpuEvent::Frame { is_keyframe } => {
                    &&& step == CpuStep::Send
                    &&& *final(self) == old(self).cpu_frame_sent(is_keyframe, now)
                },
                CpuEvent::NotEncoded => step == CpuStep::Keep && *final(self) == *old(self),
                CpuEvent::NoFrame => step == CpuStep::Wait && *final(self) == *old(self),
                CpuEvent::Failed => {
                    &&& step == CpuStep::Drop
                    &&& *final(self) == (AgentLoop {
                        tiers: Tiers { gdi: false, encoder: false, ..old(self).tiers },
                        ..*old(self)
                    })
                },
            },
            old(self).wf() ==> final(self).wf(),
    {
        match event {
            CpuEvent::Frame { is_keyframe } => {
                self.delivered = true;
                if is_keyframe {
                    self.last_keyframe = now;
                }
                CpuStep::Send
            },
            CpuEvent::NotEncoded => CpuStep::Keep,
            CpuEvent::NoFrame => CpuStep::Wait,
            CpuEvent::Failed => {
                self.tiers.gdi = false;
                self.tiers.encoder = false;
                CpuStep::Drop
            },
        }
    }

    /// Where a point of the captured picture lies on the virtual desktop.
    pub fn to_desktop(&self, x: i32, y: i32) -> (at: (i32, i32))
        ensures
            at.0 == x.wrapping_add(self.display_x),
            at.1 == y.wrapping_add(self.display_y),
    {
        (x.wrapping_add(self.display_x), y.wrapping_add(self.display_y))
    }
}

/// How long to sleep at the end of a turn that began at `started`, to keep to
/// the frame rate.
pub fn pace(started: u64, now: u64) -> (sleep: u64)
    ensures
        sleep == if clock::span(started, now) < FRAME_INTERVAL {
            (FRAME_INTERVAL - clock::span(started, now)) as u64
        } else {
            0
        },
{
    let spent = clock::elapsed(started, now);
    if spent < FRAME_INTERVAL {
        FRAME_INTERVAL - spent
    } else {
        0
    }
}

/// A capture that exists is the one that is asked for the next frame.
pub proof fn law_one_capture_at_a_time(agent: AgentLoop)
    requires
        agent.wf(),
    ensures
        agent.tiers.gpu ==> !agent.tiers.scrap && !agent.tiers.gdi && !agent.tiers.encoder,
        agent.tiers.scrap ==> !agent.tiers.gpu && !agent.tiers.gdi && agent.tiers.encoder,
        agent.tiers.gdi ==> !agent.tiers.gpu && !agent.tiers.scrap && agent.tiers.encoder,
{
}

/// Once every capture was dropped with the next attempt due, capture is set
/// up at the next look, at any time that the clock can tell from the start by
/// more than the pause.
pub proof fn law_dropped_capture_is_set_up_again(agent: AgentLoop, now: u64)
    requires
        now >= INIT_NOW,
    ensures
        agent.dropped().init_due(now).needs_init(now),
{
}

/// While a capture is there, no other is set up.
pub proof fn law_no_second_setup(agent: AgentLoop, now: u64)
    requires
        agent.tiers.gpu || agent.tiers.scrap || agent.tiers.gdi,
    ensures
        !agent.needs_init(now),
{
}

/// A viewer that comes ends the idle time and lets the GPU tier be tried again; one that
/// leaves starts the idle time; whether anything changed is whether one came or left.
pub proof fn law_viewers_come_and_leave(active: bool, now: u64)
    ensures
        forall|a: &mut AgentLoop, changed: bool| #[trigger]
            call_ensures(AgentLoop::observe_viewer, (a, active, now), changed) ==> {
                let (before, after) = (*a, *final(a));
                &&& changed <==> before.last_viewer_active != active
                &&& after.last_viewer_active == active
                &&& !changed ==> after == before
                &&& changed && active ==> after.viewer_idle_since is None
                    && !after.idle_prewarm_suspended && after.cursor == before.cursor.forgotten()
                &&& changed && !active ==> after.viewer_idle_since == Some(now) && after.cursor
                    == before.cursor && after.idle_prewarm_suspended
                    == before.idle_prewarm_suspended
                &&& after.tiers == before.tiers
                &&& after.pending_resolution == before.pending_resolution
            },
{
}

/// Idle, the GPU tier warms up where it may: on the user's desktop alone and for five
/// seconds at most. What a processor captures is kept for a minute, and a warm GPU tier
/// for good.
pub proof fn law_idle_agent_keeps_for_a_minute(can_try: bool, on_default: bool, now: u64)
    ensures
        forall|a: &mut AgentLoop, step: IdleStep| #[trigger]
            call_ensures(AgentLoop::idle_step, (a, can_try, on_default, now), step) ==> {
                let (before, after) = (*a, *final(a));
                let t = before.tiers;
                let nothing = !t.gpu && !t.scrap && !t.gdi && !t.encoder;
                let warming = !before.gpu_prewarm_ready && (t.gpu || nothing
                    && !before.idle_prewarm_suspended && can_try);
                let since = before.gpu_prewarm_started_at;
                let idle = before.viewer_idle_since;
                &&& step is Proceed ==> warming && on_default
                &&& warming && !on_default ==> step is Wait && after.idle_prewarm_suspended
                &&& step is Park ==> warming && on_default && t.gpu && since is Some && now
                    - since->0 > 5_000_000_000
                &&& warming && on_default && t.gpu && since is Some && now - since->0
                    > 5_000_000_000 ==> step is Park
                &&& step is Park ==> !after.tiers.gpu && after.idle_prewarm_suspended
                    && after.last_init_attempt == now
                &&& step is Release ==> !warming && (t.scrap || t.gdi || t.encoder) && idle is Some
                    && now - idle->0 >= 60_000_000_000
                &&& !warming && !t.gpu && (t.scrap || t.gdi || t.encoder) && idle is Some && now
                    - idle->0 >= 60_000_000_000 ==> step is Release
                &&& step is Release ==> after.tiers == Tiers::empty() && after.capture_mode is Off
                    && after.scrap_waiting_since is None
                &&& !(step is Release || step is Park) ==> after.tiers == t
                &&& after.last_viewer_active == before.last_viewer_active
            },
{
}

/// Whatever drops the captures drops all of them and has them set up again soon; the size
/// that was captured stays known.
pub proof fn law_dropping_drops_everything(now: u64)
    ensures
        forall|a: &mut AgentLoop, out: ()| #[trigger]
            call_ensures(AgentLoop::on_desktop_changed, (a, now), out) ==> {
                &&& !(*final(a)).tiers.gpu && !(*final(a)).tiers.pending_gpu && !(*final(a)).tiers.scrap && !(*final(a)).tiers.gdi && !(*final(a)).tiers.encoder
                &&& now >= 10_000_000_000 ==> (*final(a)).last_init_attempt + 10_000_000_000 == now
                &&& !(*final(a)).gpu_prewarm_ready
                &&& (*final(a)).width == (*a).width && (*final(a)).height == (*a).height
            },
        forall|a: &mut AgentLoop, out: ()| #[trigger]
            call_ensures(AgentLoop::on_no_display, (a, now), out) ==> (*final(a)).tiers
            == Tiers::empty() && (*final(a)).scrap_waiting_since is None,
        forall|a: &mut AgentLoop, out: ()| #[trigger]
            call_ensures(AgentLoop::on_display_found, (a, now), out) ==> (*final(a)).tiers
            == Tiers::empty() && (*final(a)).scrap_waiting_since is None,
        forall|a: &mut AgentLoop, out: ()| #[trigger]
            call_ensures(AgentLoop::on_not_provisioned, (a,), out) ==> (*final(a)).tiers
            == Tiers::empty() && (*final(a)).capture_mode is Off,
        Tiers::empty() == (Tiers {
            gpu: false,
            pending_gpu: false,
            scrap: false,
            gdi: false,
            encoder: false,
        }),
{
}

/// The newest wish for a size is the one that is kept. It stays until it is decided; a
/// mode is set only where it is granted and differs, and then nothing is captured.
pub proof fn law_wish_is_kept_until_decided(
    request: Option<(u32, u32)>,
    decision: LayoutDecision,
    width: u32,
    height: u32,
    now: u64,
)
    ensures
        forall|a: &mut AgentLoop, out: ()| #[trigger]
            call_ensures(AgentLoop::request_resolution, (a, request), out) ==> {
                &&& request is Some ==> (*final(a)).pending_resolution == request
                &&& request is None ==> *final(a) == *a
                &&& (*final(a)).tiers == (*a).tiers
            },
        forall|a: &mut AgentLoop, mode: Option<(u32, u32)>| #[trigger]
            call_ensures(AgentLoop::on_layout_decision, (a, decision), mode) ==> {
                let (before, after) = (*a, *final(a));
                &&& decision == (LayoutDecision::Deferred { retry: true }) ==> after == before
                    && mode is None
                &&& decision != (LayoutDecision::Deferred { retry: true })
                    ==> after.pending_resolution is None
                &&& decision is Denied || decision is Deferred ==> mode is None && after.tiers
                    == before.tiers
                &&& decision matches LayoutDecision::Apply { width: w, height: h } ==> {
                    &&& w == before.width && h == before.height ==> mode is None && after.tiers
                        == before.tiers
                    &&& w != before.width || h != before.height ==> mode == Some((w, h))
                        && after.tiers == Tiers::empty() && after.scrap_waiting_since is None
                }
                &&& after.width == before.width && after.height == before.height
            },
        forall|a: &mut AgentLoop, out: ()| #[trigger]
            call_ensures(AgentLoop::on_mode_set, (a, width, height, now), out) ==> {
                &&& (*final(a)).width == width && (*final(a)).height == height
                &&& (*final(a)).tiers == (*a).tiers
                &&& now >= 10_000_000_000 ==> (*final(a)).last_init_attempt + 10_000_000_000 == now
            },
{
}

/// Capture is set up where there is none and more than a second passed since the last
/// attempt: the secure desktop through GDI, otherwise by the GPU while that may be tried
/// and by the processor once it was given up.
pub proof fn law_setup_waits_a_second(console: bool, can_try: bool, now: u64)
    ensures
        forall|a: &mut AgentLoop, step: InitStep| #[trigger]
            call_ensures(AgentLoop::init_step, (a, console, can_try, now), step) ==> {
                let (before, after) = (*a, *final(a));
                let t = before.tiers;
                let due = !t.gpu && !t.scrap && !t.gdi && now - before.last_init_attempt
                    > 1_000_000_000;
                &&& step is Nothing <==> !due
                &&& !due ==> after == before
                &&& due && console ==> step is Console
                &&& due && !console && can_try ==> step is Tier1
                &&& due && !console && !can_try ==> step is CpuFallback
                &&& due ==> after.last_init_attempt == now
                &&& after.tiers == t
            },
{
}

/// A capture that is started becomes the one that runs, at its size and place, and only
/// with an encoder; a pipeline that came too late or does not fit is not used.
pub proof fn law_started_capture_runs(
    size: (u32, u32),
    origin: (i32, i32),
    gdi_encoder: bool,
    scrap_encoder: Option<bool>,
    width: u32,
    height: u32,
    drifted: bool,
    mismatch: bool,
    now: u64,
)
    ensures
        forall|a: &mut AgentLoop, out: ()|
            !(*a).tiers.gpu && !(*a).tiers.scrap && #[trigger] call_ensures(
                AgentLoop::on_gdi_started,
                (a, size, origin, gdi_encoder),
                out,
            ) ==> {
                let after = *final(a);
                &&& (after.width, after.height) == size
                &&& (after.display_x, after.display_y) == origin
                &&& gdi_encoder ==> after.tiers.gdi && after.tiers.encoder
                    && after.capture_mode is GdiH264
                &&& !gdi_encoder ==> after.tiers == (*a).tiers
            },
        forall|a: &mut AgentLoop, out: ()|
            !(*a).tiers.gpu && !(*a).tiers.gdi && #[trigger] call_ensures(
                AgentLoop::on_scrap_started,
                (a, size, origin, scrap_encoder, now),
                out,
            ) ==> {
                let after = *final(a);
                &&& (after.width, after.height) == size
                &&& (after.display_x, after.display_y) == origin
                &&& scrap_encoder is Some ==> after.tiers.scrap && after.tiers.encoder
                    && after.scrap_waiting_since == Some(now)
                &&& scrap_encoder == Some(true) ==> after.capture_mode is ScrapNvenc
                &&& scrap_encoder == Some(false) ==> after.capture_mode is ScrapH264
                &&& scrap_encoder is None ==> after.tiers == (*a).tiers
            },
        forall|a: &mut AgentLoop, step: Tier1Step| #[trigger]
            call_ensures(
                AgentLoop::on_tier1_made,
                (a, width, height, drifted, mismatch, now),
                step,
            ) ==> {
                let (before, after) = (*a, *final(a));
                &&& drifted ==> step is Discard
                &&& !drifted && mismatch ==> step is Reconcile
                &&& drifted || mismatch ==> after.tiers == before.tiers && after.width
                    == before.width
                &&& step matches Tier1Step::Adopt { startup } ==> {
                    &&& !drifted && !mismatch
                    &&& startup <==> !before.delivered && !before.gpu_prewarm_ready
                    &&& after.width == width && after.height == height
                    &&& after.tiers.gpu && !after.tiers.scrap && !after.tiers.gdi
                        && !after.tiers.encoder && !after.tiers.pending_gpu
                    &&& after.capture_mode is DxgiNvenc
                }
                &&& !drifted && !mismatch ==> step is Adopt
            },
{
}

/// A GPU tier that could not be made is left while nobody watches; while somebody does, a
/// denial is waited out while the desktop may still be coming up, and anything else asks
/// for a retry, which counts as an attempt.
pub proof fn law_failed_gpu_tier_is_retried(viewer: bool, denied: bool, granted: bool, now: u64)
    ensures
        forall|a: &mut AgentLoop, g: &mut DefaultDesktopGate, step: Tier1Failure| #[trigger]
            call_ensures(AgentLoop::on_tier1_failed, (a, g, viewer, denied, now), step) ==> {
                &&& step is Park <==> !viewer
                &&& step is Hold <==> viewer && denied && (*g).holds(now)
                &&& !viewer ==> (*final(a)).idle_prewarm_suspended
                &&& !(viewer && denied) ==> *final(g) == *g
                &&& !(*final(a)).gpu_prewarm_ready
                &&& (*final(a)).tiers == (*a).tiers
            },
        forall|a: &mut AgentLoop, out: ()| #[trigger]
            call_ensures(AgentLoop::on_tier1_retry, (a, granted, now), out) ==> {
                &&& granted ==> (*final(a)).last_init_attempt == now
                &&& !granted ==> *final(a) == *a
                &&& (*final(a)).tiers == (*a).tiers
            },
{
}

/// A wish for a keyframe goes to whatever is there; unasked, one is asked for more than
/// two seconds after the last; a waiting pipeline is tried every tenth of a second, while
/// no GPU tier runs.
pub proof fn law_keyframes_are_asked_for(now: u64)
    ensures
        forall|a: &mut AgentLoop, plan: KeyframePlan| #[trigger]
            call_ensures(AgentLoop::on_keyframe_request, (a, now), plan) ==> {
                let before = *a;
                &&& plan.gpu is Absent <==> !before.tiers.gpu
                &&& plan.gpu is Repaint <==> before.tiers.gpu && before.gpu_prewarm_ready
                &&& plan.pending_gpu == before.tiers.pending_gpu
                &&& plan.nudge == before.tiers.scrap
                &&& plan.encoder == before.tiers.encoder
                &&& (*final(a)).last_keyframe == now
                &&& (*final(a)).tiers == before.tiers
            },
        forall|a: &mut AgentLoop, due: bool| #[trigger]
            call_ensures(AgentLoop::keyframe_due, (a, now), due) ==> {
                &&& due <==> now - (*a).last_keyframe > 2_000_000_000
                &&& due ==> (*final(a)).last_keyframe == now
                &&& !due ==> *final(a) == *a
            },
        forall|a: &mut AgentLoop, due: bool| #[trigger]
            call_ensures(AgentLoop::pending_probe_due, (a, now), due) ==> {
                &&& due <==> !(*a).tiers.gpu && (*a).tiers.pending_gpu && now
                    - (*a).last_pending_probe >= 100_000_000
                &&& due ==> (*final(a)).last_pending_probe == now
                &&& !due ==> *final(a) == *a
            },
{
}

/// A waiting pipeline takes over with its first frame that is not black, whatever captured
/// before; a black one asks it for a keyframe, and one that breaks is dropped.
pub proof fn law_waiting_pipeline_takes_over(probe: PendingProbe, now: u64)
    ensures
        forall|a: &mut AgentLoop, step: PendingStep|
            !(*a).tiers.gpu && (*a).tiers.pending_gpu && #[trigger] call_ensures(
                AgentLoop::on_pending_probe,
                (a, probe, now),
                step,
            ) ==> {
                let (before, after) = (*a, *final(a));
                &&& step is Promote <==> (probe matches PendingProbe::Frame {
                    mostly_black,
                    ..
                } && !mostly_black)
                &&& step is ForceKeyframe <==> (probe matches PendingProbe::Frame {
                    mostly_black,
                    ..
                } && mostly_black)
                &&& step is Drop <==> probe is Failed
                &&& step is Keep || step is ForceKeyframe ==> after == before
                &&& step is Drop ==> !after.tiers.pending_gpu && after.tiers.scrap
                    == before.tiers.scrap && after.tiers.gdi == before.tiers.gdi
                &&& step is Promote ==> {
                    &&& after.tiers.gpu && !after.tiers.pending_gpu && !after.tiers.scrap
                        && !after.tiers.gdi && !after.tiers.encoder
                    &&& after.delivered && after.gpu_prewarm_ready
                    &&& after.capture_mode is DxgiNvenc
                    &&& after.scrap_waiting_since is None
                }
                &&& probe matches PendingProbe::Frame { width, height, is_keyframe, mostly_black }
                    ==> !mostly_black ==> {
                    &&& after.width == width && after.height == height
                    &&& is_keyframe ==> after.last_keyframe == now
                    &&& !is_keyframe ==> after.last_keyframe == before.last_keyframe
                }
            },
{
}

/// A frame of the GPU tier is sent unless it is black while the first one is awaited; such
/// a one is asked for again for two and a half seconds, and then the tier is dropped. No
/// frame is waited for until the time is over, and a tier that breaks is dropped.
pub proof fn law_gpu_frames_are_sent(event: GpuEvent, now: u64)
    ensures
        forall|a: &mut AgentLoop, g: &mut DefaultDesktopGate, step: GpuStep|
            (*a).tiers.gpu && #[trigger] call_ensures(
                AgentLoop::on_gpu_event,
                (a, g, event, now),
                step,
            ) ==> {
                let (before, after) = (*a, *final(a));
                &&& event matches GpuEvent::Frame { is_keyframe, waiting_since, sample } ==> {
                    let black = waiting_since is Some && sample is MostlyBlack;
                    &&& !black ==> (step matches GpuStep::Send { ready, warmed } && (
                    ready <==> waiting_since is Some) && (warmed <==> !before.gpu_prewarm_ready
                        && !before.last_viewer_active))
                    &&& !black ==> after.delivered && after.gpu_prewarm_ready && after.tiers
                        == before.tiers
                    &&& !black && is_keyframe ==> after.last_keyframe == now
                    &&& !black && !is_keyframe ==> after.last_keyframe == before.last_keyframe
                    &&& black && now - waiting_since->0 > 2_500_000_000 ==> step
                        == (GpuStep::AskRetry { nudge: false }) && !after.tiers.gpu
                    &&& black && now - waiting_since->0 <= 2_500_000_000 ==> step is RetryBlack
                        && after == before
                }
                &&& event matches GpuEvent::NoFrame { timed_out } ==> {
                    &&& timed_out ==> step == (GpuStep::AskRetry { nudge: true })
                        && !after.tiers.gpu && !after.tiers.scrap && !after.tiers.pending_gpu
                    &&& !timed_out ==> step is Wait && after == before
                }
                &&& event is Failed ==> step is Reset && !after.tiers.gpu
                    && after.last_init_attempt == now
                &&& event is Failed && !event->access_denied ==> *final(g) == *g
            },
{
}

/// A frame of a processor tier is sent and counts; a scrap tier that breaks, or makes no
/// first frame for three quarters of a second, makes way for the GPU tier where that may
/// be tried and for GDI where it may not; GDI that breaks is dropped.
pub proof fn law_processor_frames_are_sent(event: CpuEvent, retry: bool, now: u64)
    ensures
        forall|a: &mut AgentLoop, step: CpuStep|
            (*a).tiers.scrap && #[trigger] call_ensures(
                AgentLoop::on_scrap_event,
                (a, event, retry, now),
                step,
            ) ==> {
                let (before, after) = (*a, *final(a));
                let stalled = before.scrap_waiting_since is Some && now
                    - before.scrap_waiting_since->0 > 750_000_000;
                let over = event is Failed || event is NoFrame && stalled;
                &&& step is Send <==> event is Frame
                &&& step is Keep <==> event is NotEncoded
                &&& step is Wait <==> event is NoFrame && !stalled
                &&& step is RetryTier1 <==> over && retry
                &&& over && !retry ==> step == (CpuStep::Gdi { again: event is NoFrame })
                &&& over ==> !after.tiers.scrap && !after.tiers.encoder
                    && after.scrap_waiting_since is None
                &&& step is Send ==> after.delivered && after.scrap_waiting_since is None
                    && after.tiers == before.tiers
                &&& step is Wait || step is Keep ==> after == before
                &&& event matches CpuEvent::Frame { is_keyframe } ==> (is_keyframe
                    ==> after.last_keyframe == now) && (!is_keyframe ==> after.last_keyframe
                    == before.last_keyframe)
            },
        forall|a: &mut AgentLoop, step: CpuStep|
            (*a).tiers.gdi && #[trigger] call_ensures(
                AgentLoop::on_gdi_event,
                (a, event, now),
                step,
            ) ==> {
                let (before, after) = (*a, *final(a));
                &&& step is Send <==> event is Frame
                &&& step is Keep <==> event is NotEncoded
                &&& step is Wait <==> event is NoFrame
                &&& step is Drop <==> event is Failed
                &&& step is Send ==> after.delivered && after.tiers == before.tiers
                &&& step is Drop ==> !after.tiers.gdi && !after.tiers.encoder
                &&& step is Wait || step is Keep ==> after == before
                &&& event matches CpuEvent::Frame { is_keyframe } ==> (is_keyframe
                    ==> after.last_keyframe == now) && (!is_keyframe ==> after.last_keyframe
                    == before.last_keyframe)
            },
{
}

/// A retry that was left has capture set up at once; one that was not leaves no frame owed
/// by a scrap tier.
pub proof fn law_granted_retry_is_made_at_once(granted: bool, now: u64)
    ensures
        forall|a: &mut AgentLoop, out: ()|
            !(*a).tiers.scrap && #[trigger] call_ensures(
                AgentLoop::on_startup_retry,
                (a, granted, now),
                out,
            ) ==> {
                &&& granted && now >= 10_000_000_000 ==> (*final(a)).last_init_attempt
                    + 10_000_000_000 == now
                &&& granted ==> (*final(a)).scrap_waiting_since == (*a).scrap_waiting_since
                &&& !granted ==> (*final(a)).scrap_waiting_since is None && (*final(a)).last_init_attempt == (*a).last_init_attempt
                &&& (*final(a)).tiers == (*a).tiers
            },
        forall|a: &mut AgentLoop, out: ()| #[trigger]
            call_ensures(AgentLoop::on_fallback_is_gdi, (a,), out) ==> (*final(a)).scrap_waiting_since is None && (*final(a)).tiers == (*a).tiers,
{
}

/// The best tier there is makes the next frame, a point of the picture lies as far from
/// the display's corner as from the picture's, and a turn lasts a thirtieth of a second.
pub proof fn law_best_tier_makes_the_frame(
    a: AgentLoop,
    tier: ActiveTier,
    x: i32,
    y: i32,
    place: (i32, i32),
    started: u64,
    now: u64,
    sleep: u64,
)
    requires
        call_ensures(AgentLoop::active_tier, (&a,), tier),
        call_ensures(AgentLoop::to_desktop, (&a, x, y), place),
        call_ensures(pace, (started, now), sleep),
    ensures
        tier is Gpu <==> a.tiers.gpu,
        tier is Scrap <==> !a.tiers.gpu && a.tiers.scrap && a.tiers.encoder,
        tier is Gdi ==> a.tiers.gdi && !a.tiers.gpu,
        i32::MIN <= x + a.display_x <= i32::MAX ==> place.0 == x + a.display_x,
        i32::MIN <= y + a.display_y <= i32::MAX ==> place.1 == y + a.display_y,
        started <= now && now - started < 33_333_333 ==> (now - started) + sleep == 33_333_333,
        now - started >= 33_333_333 ==> sleep == 0,
{
}

/// A fresh agent has nothing, captures a full HD picture at the corner, and may set up
/// capture at once.
pub proof fn law_fresh_agent_has_nothing(now: u64, agent: AgentLoop)
    requires
        call_ensures(AgentLoop::new, (now,), agent),
    ensures
        agent.tiers == Tiers::empty(),
        agent.width == 1920 && agent.height == 1080,
        agent.display_x == 0 && agent.display_y == 0,
        !agent.delivered && !agent.last_viewer_active && !agent.gpu_prewarm_ready,
        agent.pending_resolution is None,
        agent.last_keyframe == now,
        now >= 10_000_000_000 ==> agent.needs_init(now),
{
}

} // verus!
