//! Who owns the displays, and when they are ready to be captured.
//!
//! The user's desktop is captured only once the displays are as they should
//! be; the secure desktop is always captured as Windows shows it. Where another
//! display manager owns the displays they are never changed.

use crate::agent::desktop::DesktopState;
use crate::clock::{self, MS, SEC};
use crate::display_ccd::Rect;
use crate::text;
use vstd::prelude::*;

verus! {

/// How often to look for another display manager.
pub const OWNER_PROBE: u64 = 500 * MS;

/// How long another display manager may take to light its display.
pub const OWNER_GRACE: u64 = 2 * SEC;

/// The least time between two attempts to set up the displays.
pub const PROVISIONING_PAUSE: u64 = 500 * MS;

/// How far back the last attempt is put so that the next is due at once.
pub const PROVISIONING_NOW: u64 = 10 * SEC;

/// How often to look for the virtual display.
pub const DISCOVERY_PAUSE: u64 = 750 * MS;

/// The size of the managed display.
pub const MANAGED_WIDTH: u32 = 1920;

pub const MANAGED_HEIGHT: u32 = 1080;

/// How the displays are to be set up.
#[derive(Debug, Clone, Copy, PartialEq, Eq, Structural)]
pub enum ProvisioningMode {
    /// As seems best.
    Auto,
    /// Only the virtual display.
    Managed,
    /// Not at all.
    PreserveConsole,
}

/// What is to be done about the displays.
#[derive(Debug, Clone, Copy, PartialEq, Eq, Structural)]
pub enum ProvisioningDecision {
    /// Light the virtual display alone.
    ProvisionVdd,
    /// Capture what is there.
    PreserveExisting,
    /// Capture the display of the other manager.
    AdoptExternal,
    /// Wait.
    Defer,
}

/// How to go on towards displays that are ready.
#[derive(Debug, Clone, Copy, PartialEq, Eq, Structural)]
pub enum ReadyStep {
    /// They are ready.
    Ready,
    /// They are not.
    NotReady,
    /// Go on with the next question.
    GoOn,
    /// The displays changed: look at them again and go on.
    RefreshAndGoOn,
    /// Look at the displays again; they are ready then.
    RefreshAndReady,
}

/// What to do about a decision.
#[derive(Debug, Clone, Copy, PartialEq, Eq, Structural)]
pub enum ProvisionStep {
    /// Light the virtual display alone.
    Provision,
    /// Nothing: it is done.
    Done,
    /// It cannot be done: the display is gone.
    Failed,
    /// Wait.
    Defer,
}

/// What became of a step of a change of size. Where a step worked, `rect` says
/// where the display is after it, if it can be told.
#[derive(Debug, Clone, Copy, PartialEq, Eq, Structural)]
pub enum ResizeEvent {
    Start,
    /// The size was set by the newer interface, or was not.
    Source { rect: Option<Option<Rect>> },
    /// Whether the size was set by the older interface.
    Legacy { changed: bool },
    /// Whether the display is the primary one.
    Origin { is_primary: bool },
    /// The display was moved to the corner, or was not.
    Repaired { rect: Option<Option<Rect>> },
}

/// What to do next to change the size of the managed display.
#[derive(Debug, Clone, Copy, PartialEq, Eq, Structural)]
pub enum ResizeStep {
    /// Set it by the newer interface.
    SetSource,
    /// Set it by the older interface.
    SetLegacy,
    LookAtOrigin,
    RepairOrigin,
    Done { changed: bool },
}

/// What the agent knows of the displays.
#[derive(Debug)]
pub struct DisplayManager {
    /// The device name of the virtual display.
    pub vdd_device: Option<String>,
    /// The device name of the display that is captured.
    pub capture_target_device: Option<String>,
    /// That display belongs to another manager.
    pub capture_target_external: bool,
    pub vdd_rect: Option<Rect>,
    pub vdd_primary_active: bool,
    pub provisioning_mode: ProvisioningMode,
    /// Another display manager is known to be there.
    pub external_display_manager: bool,
    /// The display that it lights.
    pub explicit_external_target: Option<String>,
    pub last_external_owner_probe: u64,
    pub provisioning_ready: bool,
    pub provisioning_not_before: u64,
    pub last_provisioning_attempt: u64,
    pub last_display_discovery_attempt: u64,
}

impl DisplayManager {
    /// The state in which the displays are set up at the next occasion.
    pub open spec fn unready(self, now: u64) -> DisplayManager {
        DisplayManager {
            provisioning_ready: false,
            capture_target_external: false,
            last_provisioning_attempt: clock::ago(now, PROVISIONING_NOW),
            ..self
        }
    }

    /// The displays at the start.
    pub fn new(
        vdd_device: Option<String>,
        vdd_rect: Option<Rect>,
        vdd_primary_active: bool,
        primary: Option<String>,
        provisioning_mode: ProvisioningMode,
        external_display_manager: bool,
        explicit_external_target: Option<String>,
        now: u64,
    ) -> (manager: Self)
        ensures
            manager == (DisplayManager {
                vdd_device,
                capture_target_device: primary,
                capture_target_external: false,
                vdd_rect,
                vdd_primary_active,
                provisioning_mode,
                external_display_manager,
                explicit_external_target,
                last_external_owner_probe: now,
                provisioning_ready: provisioning_mode == ProvisioningMode::PreserveConsole,
                provisioning_not_before: if provisioning_mode == ProvisioningMode::Auto
                    && external_display_manager {
                    clock::later(now, OWNER_GRACE)
                } else {
                    now
                },
                last_provisioning_attempt: clock::ago(now, PROVISIONING_NOW),
                last_display_discovery_attempt: clock::ago(now, PROVISIONING_NOW),
            }),
    {
        let waits = match provisioning_mode {
            ProvisioningMode::Auto => external_display_manager,
            _ => false,
        };
        let provisioning_ready = match provisioning_mode {
            ProvisioningMode::PreserveConsole => true,
            _ => false,
        };
        DisplayManager {
            vdd_device,
            capture_target_device: primary,
            capture_target_external: false,
            vdd_rect,
            vdd_primary_active,
            provisioning_mode,
            external_display_manager,
            explicit_external_target,
            last_external_owner_probe: now,
            provisioning_ready,
            provisioning_not_before: if waits {
                clock::instant_after(now, OWNER_GRACE)
            } else {
                now
            },
            last_provisioning_attempt: clock::instant_ago(now, PROVISIONING_NOW),
            last_display_discovery_attempt: clock::instant_ago(now, PROVISIONING_NOW),
        }
    }

    /// Whether to look for another display manager now.
    pub fn owner_probe_due(&mut self, now: u64) -> (due: bool)
        ensures
            due == (clock::span(old(self).last_external_owner_probe, now) >= OWNER_PROBE),
            *final(self) == if due {
                DisplayManager { last_external_owner_probe: now, ..*old(self) }
            } else {
                *old(self)
            },
    {
        if clock::elapsed(self.last_external_owner_probe, now) < OWNER_PROBE {
            return false;
        }
        self.last_external_owner_probe = now;
        true
    }

    /// Another manager came since the last look.
    pub open spec fn newly_external(self, detected: bool) -> bool {
        detected && !self.external_display_manager
    }

    /// The display of the other manager is captured, and it is another one
    /// than before.
    pub open spec fn external_target_moved(self, target: Option<Seq<char>>) -> bool {
        &&& target is Some
        &&& target != text::option_view(self.explicit_external_target)
        &&& self.capture_target_external
    }

    /// A look for another display manager. One that was seen is never
    /// forgotten. One that is new is given time to light its display; one whose
    /// display moved is followed at once. The displays are not changed for it.
    pub fn refresh_external_display_ownership(
        &mut self,
        detected: bool,
        target: Option<String>,
        now: u64,
    )
        ensures
            ({
                let s = *old(self);
                let seen = DisplayManager {
                    external_display_manager: s.external_display_manager || detected,
                    explicit_external_target: target,
                    ..s
                };
                *final(self) == if s.newly_external(detected) {
                    DisplayManager {
                        provisioning_not_before: clock::later(now, OWNER_GRACE),
                        ..seen.unready(now)
                    }
                } else if s.external_target_moved(text::option_view(target)) {
                    DisplayManager { provisioning_not_before: now, ..seen.unready(now) }
                } else {
                    seen
                }
            }),
    {
        let newly_external = detected && !self.external_display_manager;
        let moved = target.is_some() && !text::same_option(&target, &self.explicit_external_target);
        if detected {
            self.external_display_manager = true;
        }
        self.explicit_external_target = target;
        if newly_external {
            self.provisioning_not_before = clock::instant_after(now, OWNER_GRACE);
            self.set_unready(now);
        } else if moved && self.capture_target_external {
            self.provisioning_not_before = now;
            self.set_unready(now);
        }
    }

    /// Have the displays set up at the next occasion.
    fn set_unready(&mut self, now: u64)
        ensures
            *final(self) == old(self).unready(now),
    {
        self.provisioning_ready = false;
        self.capture_target_external = false;
        self.last_provisioning_attempt = clock::instant_ago(now, PROVISIONING_NOW);
    }

    /// The displays were looked at: capture the primary one.
    pub fn refresh_capture_target(
        &mut self,
        primary: Option<String>,
        vdd_rect: Option<Rect>,
        vdd_primary_active: bool,
    )
        ensures
            *final(self) == (DisplayManager {
                capture_target_device: primary,
                vdd_rect: if old(self).vdd_device is Some {
                    vdd_rect
                } else {
                    None
                },
                vdd_primary_active: old(self).vdd_device is Some && vdd_primary_active,
                ..*old(self)
            }),
    {
        self.capture_target_device = primary;
        self.vdd_rect = if self.vdd_device.is_some() {
            vdd_rect
        } else {
            None
        };
        self.vdd_primary_active = self.vdd_device.is_some() && vdd_primary_active;
    }

    /// The displays that were ready are still as they were. `target_active`:
    /// the captured display is lit; `active_paths`: how many are;
    /// `external_valid`: the other manager still lights the captured one.
    pub open spec fn still_valid(
        self,
        on_default: bool,
        target_active: bool,
        active_paths: Option<usize>,
        external_valid: bool,
    ) -> bool {
        ||| !on_default
        ||| self.provisioning_mode == ProvisioningMode::PreserveConsole
        ||| self.capture_target_device is Some && if self.capture_target_external {
            external_valid
        } else {
            active_paths == Some(1usize) && target_active
        }
    }

    /// Whether the displays that were ready are still as they were.
    pub fn ready_topology_still_valid(
        &self,
        on_default: bool,
        target_active: bool,
        active_paths: Option<usize>,
        external_valid: bool,
    ) -> (valid: bool)
        ensures
            valid == self.still_valid(on_default, target_active, active_paths, external_valid),
    {
        let preserved = match self.provisioning_mode {
            ProvisioningMode::PreserveConsole => true,
            _ => false,
        };
        if !on_default || preserved {
            return true;
        }
        if self.capture_target_device.is_none() {
            return false;
        }
        if self.capture_target_external {
            external_valid
        } else {
            match active_paths {
                Some(n) => n == 1 && target_active,
                None => false,
            }
        }
    }

    /// First question on the way to displays that are ready: whether they are
    /// already. `valid` says whether they are still as they were.
    pub fn begin_ready(&mut self, desktop: &DesktopState, valid: bool, now: u64) -> (step: ReadyStep)
        ensures
            step == if desktop.transition_unavailable {
                ReadyStep::NotReady
            } else if !old(self).provisioning_ready {
                ReadyStep::GoOn
            } else if valid {
                ReadyStep::Ready
            } else {
                ReadyStep::RefreshAndGoOn
            },
            *final(self) == if step == ReadyStep::RefreshAndGoOn {
                old(self).unready(now)
            } else {
                *old(self)
            },
    {
        if desktop.transition_unavailable {
            return ReadyStep::NotReady;
        }
        if !self.provisioning_ready {
            return ReadyStep::GoOn;
        }
        if valid {
            return ReadyStep::Ready;
        }
        self.set_unready(now);
        ReadyStep::RefreshAndGoOn
    }

    /// Second question: whether the desktop that has the input is the one that
    /// was seen, and whether it is time. The secure desktop is captured as it
    /// is.
    pub fn continue_ready(
        &mut self,
        on_default: bool,
        input: &Option<String>,
        switched: bool,
        now: u64,
    ) -> (step: ReadyStep)
        ensures
            ({
                let s = *old(self);
                let input_ready = text::option_view(*input) is Some && text::same_ignoring_case(
                    text::option_view(*input)->0,
                    if on_default {
                        "Default"@
                    } else {
                        "Winlogon"@
                    },
                ) && switched;
                if !input_ready {
                    step == ReadyStep::NotReady && *final(self) == s
                } else if !on_default {
                    &&& step == ReadyStep::RefreshAndReady
                    &&& *final(self) == (DisplayManager { provisioning_ready: true, ..s })
                } else if now < s.provisioning_not_before || clock::span(
                    s.last_provisioning_attempt,
                    now,
                ) < PROVISIONING_PAUSE {
                    step == ReadyStep::NotReady && *final(self) == s
                } else {
                    &&& step == ReadyStep::GoOn
                    &&& *final(self) == (DisplayManager { last_provisioning_attempt: now, ..s })
                }
            }),
    {
        let expected = if on_default {
            "Default"
        } else {
            "Winlogon"
        };
        let named = match input {
            Some(name) => text::eq_ignore_case(name.as_str(), expected),
            None => false,
        };
        if !named || !switched {
            return ReadyStep::NotReady;
        }
        if !on_default {
            self.provisioning_ready = true;
            return ReadyStep::RefreshAndReady;
        }
        if now < self.provisioning_not_before {
            return ReadyStep::NotReady;
        }
        if clock::elapsed(self.last_provisioning_attempt, now) < PROVISIONING_PAUSE {
            return ReadyStep::NotReady;
        }
        self.last_provisioning_attempt = now;
        ReadyStep::GoOn
    }

    /// The display to adopt from another manager: the one that it lights, or
    /// the primary one if it runs and lights none that can be told.
    pub open spec fn adoptable(self, primary: Option<Seq<char>>) -> Option<Seq<char>> {
        if self.explicit_external_target is Some {
            text::option_view(self.explicit_external_target)
        } else if self.external_display_manager {
            primary
        } else {
            None
        }
    }

    /// The display to adopt from another manager.
    pub fn external_display_target(&self, primary: &Option<String>) -> (target: Option<String>)
        ensures
            text::option_view(target) == self.adoptable(text::option_view(*primary)),
    {
        if self.explicit_external_target.is_some() {
            text::copy_option(&self.explicit_external_target)
        } else if self.external_display_manager {
            text::copy_option(primary)
        } else {
            None
        }
    }

    /// What a decision asks for. A virtual display that is gone cannot be lit,
    /// and neither can a display be adopted that is gone.
    pub fn provision_step(
        &self,
        decision: ProvisioningDecision,
        external_target: &Option<String>,
    ) -> (step: ProvisionStep)
        ensures
            step == match decision {
                ProvisioningDecision::ProvisionVdd => if self.vdd_device is Some {
                    ProvisionStep::Provision
                } else {
                    ProvisionStep::Failed
                },
                ProvisioningDecision::PreserveExisting => ProvisionStep::Done,
                ProvisioningDecision::AdoptExternal => if *external_target is Some {
                    ProvisionStep::Done
                } else {
                    ProvisionStep::Failed
                },
                ProvisioningDecision::Defer => ProvisionStep::Defer,
            },
    {
        match decision {
            ProvisioningDecision::ProvisionVdd => if self.vdd_device.is_some() {
                ProvisionStep::Provision
            } else {
                ProvisionStep::Failed
            },
            ProvisioningDecision::PreserveExisting => ProvisionStep::Done,
            ProvisioningDecision::AdoptExternal => if external_target.is_some() {
                ProvisionStep::Done
            } else {
                ProvisionStep::Failed
            },
            ProvisioningDecision::Defer => ProvisionStep::Defer,
        }
    }

    /// The displays are as they should be, and were looked at: capture the
    /// primary one, or the adopted one.
    pub fn on_provisioned(
        &mut self,
        decision: ProvisioningDecision,
        external_target: Option<String>,
    )
        ensures
            *final(self) == if decision == ProvisioningDecision::AdoptExternal {
                DisplayManager {
                    capture_target_device: external_target,
                    capture_target_external: true,
                    provisioning_ready: true,
                    ..*old(self)
                }
            } else {
                DisplayManager {
                    capture_target_external: false,
                    provisioning_ready: true,
                    ..*old(self)
                }
            },
    {
        self.capture_target_external = false;
        if let ProvisioningDecision::AdoptExternal = decision {
            self.capture_target_device = external_target;
            self.capture_target_external = true;
        }
        self.provisioning_ready = true;
    }

    /// A capture was set up. Whether it has to be given up again: the displays
    /// changed meanwhile. They are to be looked at then.
    pub fn invalidate_if_ready_topology_drifted(&mut self, valid: bool, now: u64) -> (drifted: bool)
        ensures
            drifted == !valid,
            *final(self) == if valid {
                *old(self)
            } else {
                old(self).unready(now)
            },
    {
        if valid {
            return false;
        }
        self.set_unready(now);
        true
    }

    /// The virtual display is captured and is the only one: it is ours to
    /// change. `single_managed`: the topology is the virtual display alone.
    pub open spec fn manages_target(self, single_managed: bool) -> bool {
        &&& !self.capture_target_external
        &&& single_managed
        &&& self.vdd_device is Some
        &&& self.capture_target_device is Some
        &&& text::same_ignoring_case(self.vdd_device->0@, self.capture_target_device->0@)
    }

    /// Whether the captured display is the virtual one and ours to change.
    pub fn managed_vdd_target(&self, single_managed: bool) -> (managed: bool)
        ensures
            managed == self.manages_target(single_managed),
    {
        if self.capture_target_external || !single_managed {
            return false;
        }
        match (&self.vdd_device, &self.capture_target_device) {
            (Some(vdd), Some(target)) => text::eq_ignore_case(vdd.as_str(), target.as_str()),
            _ => false,
        }
    }

    /// Whether to look for the virtual display now: it is missing, and the
    /// last look is old.
    pub fn discovery_due(&mut self, now: u64) -> (due: bool)
        ensures
            due == (old(self).vdd_device is None && clock::span(
                old(self).last_display_discovery_attempt,
                now,
            ) >= DISCOVERY_PAUSE),
            *final(self) == if due {
                DisplayManager { last_display_discovery_attempt: now, ..*old(self) }
            } else {
                *old(self)
            },
    {
        if self.vdd_device.is_some() || clock::elapsed(self.last_display_discovery_attempt, now)
            < DISCOVERY_PAUSE {
            return false;
        }
        self.last_display_discovery_attempt = now;
        true
    }

    /// The virtual display was found.
    pub fn on_vdd_found(
        &mut self,
        device: String,
        vdd_rect: Option<Rect>,
        vdd_primary_active: bool,
        primary: Option<String>,
    )
        ensures
            *final(self) == (DisplayManager {
                vdd_device: Some(device),
                vdd_rect,
                vdd_primary_active,
                capture_target_device: if old(self).capture_target_device is None {
                    primary
                } else {
                    old(self).capture_target_device
                },
                ..*old(self)
            }),
    {
        self.vdd_rect = vdd_rect;
        self.vdd_primary_active = vdd_primary_active;
        self.vdd_device = Some(device);
        if self.capture_target_device.is_none() {
            self.capture_target_device = primary;
        }
    }

    /// Whether to give the managed display its usual size: it is ours, it does
    /// not follow the viewer, and it has another size.
    pub fn baseline_needed(
        &self,
        adaptive: bool,
        single_managed: bool,
        current: Option<(u32, u32)>,
        baseline: (u32, u32),
    ) -> (needed: bool)
        ensures
            needed == (!adaptive && self.manages_target(single_managed) && current != Some(
                baseline,
            )),
    {
        if adaptive || !self.managed_vdd_target(single_managed) {
            return false;
        }
        match current {
            Some((w, h)) => w != baseline.0 || h != baseline.1,
            None => true,
        }
    }

    /// Whether the virtual display has to be moved back to the corner: it was
    /// the primary one and is not any more.
    pub fn origin_repair_needed(&self, is_primary: bool) -> (needed: bool)
        ensures
            needed == (self.vdd_device is Some && self.vdd_primary_active && !is_primary),
    {
        self.vdd_device.is_some() && self.vdd_primary_active && !is_primary
    }

    /// Take in what became of a step of a change of the managed display's size.
    /// What is to be done next. The newer interface is tried first; the display
    /// is moved back to the corner where the change moved it away.
    pub fn on_resize_event(&mut self, event: ResizeEvent) -> (step: ResizeStep)
        ensures
            step == match event {
                ResizeEvent::Start => if old(self).vdd_device is Some {
                    ResizeStep::SetSource
                } else {
                    ResizeStep::Done { changed: false }
                },
                ResizeEvent::Source { rect: Some(_) } => ResizeStep::LookAtOrigin,
                ResizeEvent::Source { rect: None } => ResizeStep::SetLegacy,
                ResizeEvent::Legacy { changed: true } => ResizeStep::LookAtOrigin,
                ResizeEvent::Legacy { changed: false } => ResizeStep::Done { changed: false },
                ResizeEvent::Origin { is_primary } => if old(self).vdd_device is Some && old(
                    self,
                ).vdd_primary_active && !is_primary {
                    ResizeStep::RepairOrigin
                } else {
                    ResizeStep::Done { changed: true }
                },
                ResizeEvent::Repaired { .. } => ResizeStep::Done { changed: true },
            },
            *final(self) == match event {
                ResizeEvent::Source { rect: Some(rect) } | ResizeEvent::Repaired {
                    rect: Some(rect),
                } => DisplayManager { vdd_rect: rect, ..*old(self) },
                _ => *old(self),
            },
    {
        match event {
            ResizeEvent::Start => {
                if self.vdd_device.is_some() {
                    ResizeStep::SetSource
                } else {
                    ResizeStep::Done { changed: false }
                }
            },
            ResizeEvent::Source { rect } => match rect {
                Some(rect) => {
                    self.vdd_rect = rect;
                    ResizeStep::LookAtOrigin
                },
                None => ResizeStep::SetLegacy,
            },
            ResizeEvent::Legacy { changed } => {
                if changed {
                    ResizeStep::LookAtOrigin
                } else {
                    ResizeStep::Done { changed: false }
                }
            },
            ResizeEvent::Origin { is_primary } => {
                if self.origin_repair_needed(is_primary) {
                    ResizeStep::RepairOrigin
                } else {
                    ResizeStep::Done { changed: true }
                }
            },
            ResizeEvent::Repaired { rect } => {
                if let Some(rect) = rect {
                    self.vdd_rect = rect;
                }
                ResizeStep::Done { changed: true }
            },
        }
    }

    /// The size that a capture of the managed display should have and has not.
    /// `matches`: the capture fits the display.
    pub fn managed_capture_surface_mismatch(
        &self,
        single_managed: bool,
        observed: Option<Rect>,
        matches: bool,
    ) -> (expected: Option<(u32, u32)>)
        ensures
            ({
                let rect = if self.vdd_rect is Some {
                    self.vdd_rect
                } else {
                    observed
                };
                expected == if self.manages_target(single_managed) && !matches && rect is Some {
                    Some((rect->0.width, rect->0.height))
                } else {
                    None
                }
            }),
    {
        if !self.managed_vdd_target(single_managed) || matches {
            return None;
        }
        let rect = match self.vdd_rect {
            Some(r) => Some(r),
            None => observed,
        };
        match rect {
            Some(r) => Some((r.width, r.height)),
            None => None,
        }
    }
}

/// What lighting the virtual display alone came to.
#[derive(Debug, Clone, Copy, PartialEq, Eq, Structural)]
pub enum VddOutcome {
    /// It is as it should be.
    Ready,
    /// It is not: bring the topology from before back.
    Restore,
}

/// The managed display is as it should be: the only one, at the corner, of the
/// usual size.
pub open spec fn is_managed_layout(active_paths: Option<usize>, rect: Option<Rect>) -> bool {
    active_paths == Some(1usize) && rect == Some(
        (Rect { x: 0, y: 0, width: MANAGED_WIDTH, height: MANAGED_HEIGHT }),
    )
}

/// Whether the managed display is as it should be, so that nothing has to be
/// changed.
pub fn vdd_already_stable(active_paths: Option<usize>, rect: Option<Rect>) -> (stable: bool)
    ensures
        stable == is_managed_layout(active_paths, rect),
{
    let alone = match active_paths {
        Some(n) => n == 1,
        None => false,
    };
    let placed = match rect {
        Some(r) => r.x == 0 && r.y == 0 && r.width == MANAGED_WIDTH && r.height == MANAGED_HEIGHT,
        None => false,
    };
    alone && placed
}

/// What lighting the virtual display alone came to: `resized` says whether its
/// size could be set.
pub fn check_vdd_provisioned(
    resized: bool,
    active_paths: Option<usize>,
    rect: Option<Rect>,
) -> (outcome: VddOutcome)
    ensures
        outcome == if resized && is_managed_layout(active_paths, rect) {
            VddOutcome::Ready
        } else {
            VddOutcome::Restore
        },
{
    if resized && vdd_already_stable(active_paths, rect) {
        VddOutcome::Ready
    } else {
        VddOutcome::Restore
    }
}

/// Whether the virtual display can be set up from the command line: only from a
/// session that shows the desktop, and only where there is one.
pub fn provision_windows_vdd_display(attached: bool, vdd: Option<String>) -> (r: Result<String, String>)
    ensures
        r is Ok <==> attached && vdd is Some,
        r matches Ok(device) ==> vdd == Some(device),
        r matches Err(message) ==> message@ == if !attached {
            "cannot attach to the input desktop; run provisioning from an interactive session"@
        } else {
            "Virtual Display Driver not found"@
        },
{
    if !attached {
        return Err(
            String::from_str(
                "cannot attach to the input desktop; run provisioning from an interactive session",
            ),
        );
    }
    match vdd {
        Some(device) => Ok(device),
        None => Err(String::from_str("Virtual Display Driver not found")),
    }
}

/// Displays of another manager are never ours to change.
pub proof fn law_external_display_is_not_managed(m: DisplayManager, single_managed: bool)
    requires
        m.capture_target_external,
    ensures
        !m.manages_target(single_managed),
{
}

/// A ready user's desktop stays ready exactly as long as the captured display
/// is the only one that is lit, unless another manager owns it or the displays
/// are not ours to set up.
pub proof fn law_own_display_has_to_be_alone(
    m: DisplayManager,
    target_active: bool,
    active_paths: Option<usize>,
    external_valid: bool,
)
    requires
        m.provisioning_mode != ProvisioningMode::PreserveConsole,
        !m.capture_target_external,
    ensures
        m.still_valid(true, target_active, active_paths, external_valid) <==> {
            &&& m.capture_target_device is Some
            &&& target_active
            &&& active_paths == Some(1usize)
        },
{
}

/// At the start the primary display is captured and no manager's; only a console that is
/// to be left alone is ready, and only in the automatic mode another manager gets two
/// seconds to light its display.
pub proof fn law_displays_at_the_start(
    vdd: Option<String>,
    rect: Option<Rect>,
    vdd_primary: bool,
    primary: Option<String>,
    mode: ProvisioningMode,
    external: bool,
    target: Option<String>,
    now: u64,
    m: DisplayManager,
)
    requires
        call_ensures(
            DisplayManager::new,
            (vdd, rect, vdd_primary, primary, mode, external, target, now),
            m,
        ),
    ensures
        m.provisioning_ready <==> mode is PreserveConsole,
        m.capture_target_device == primary && !m.capture_target_external,
        m.vdd_device == vdd && m.vdd_rect == rect && m.vdd_primary_active == vdd_primary,
        m.external_display_manager == external && m.explicit_external_target == target,
        mode is Auto && external && now <= 0xffff_ffff_0000_0000 ==> m.provisioning_not_before
            == now + 2_000_000_000,
        !(mode is Auto && external) ==> m.provisioning_not_before == now,
        now >= 10_000_000_000 ==> m.last_provisioning_attempt + 10_000_000_000 == now,
{
}

/// A look for another manager is due every half second. One that was seen stays known; one
/// that is new gets two seconds; the display that it lights is followed at once where it
/// was captured; otherwise what is ready stays ready.
pub proof fn law_other_manager_is_followed(detected: bool, target: Option<String>, now: u64)
    ensures
        forall|m: &mut DisplayManager, due: bool| #[trigger]
            call_ensures(DisplayManager::owner_probe_due, (m, now), due) ==> {
                &&& due <==> now - (*m).last_external_owner_probe >= 500_000_000
                &&& due ==> (*final(m)).last_external_owner_probe == now
                &&& !due ==> *final(m) == *m
            },
        forall|m: &mut DisplayManager, out: ()| #[trigger]
            call_ensures(
                DisplayManager::refresh_external_display_ownership,
                (m, detected, target, now),
                out,
            ) ==> {
                let (before, after) = (*m, *final(m));
                let new = detected && !before.external_display_manager;
                let moved = target is Some && text::option_view(target) != text::option_view(
                    before.explicit_external_target,
                ) && before.capture_target_external;
                &&& after.external_display_manager <==> before.external_display_manager || detected
                &&& after.explicit_external_target == target
                &&& new || moved ==> !after.provisioning_ready && !after.capture_target_external
                &&& !new && !moved ==> after.provisioning_ready == before.provisioning_ready
                    && after.capture_target_external == before.capture_target_external
                    && after.provisioning_not_before == before.provisioning_not_before
                &&& new && now <= 0xffff_ffff_0000_0000 ==> after.provisioning_not_before == now
                    + 2_000_000_000
                &&& !new && moved ==> after.provisioning_not_before == now
                &&& after.capture_target_device == before.capture_target_device
            },
{
}

/// Displays that are ready stay so on the secure desktop and where the console is left
/// alone; another manager's as long as it lights them, and the own one as long as it is
/// lit alone.
pub proof fn law_ready_displays_stay_ready(
    m: DisplayManager,
    on_default: bool,
    target_active: bool,
    paths: Option<usize>,
    external_valid: bool,
    valid: bool,
)
    requires
        call_ensures(
            DisplayManager::ready_topology_still_valid,
            (&m, on_default, target_active, paths, external_valid),
            valid,
        ),
    ensures
        !on_default ==> valid,
        m.provisioning_mode is PreserveConsole ==> valid,
        on_default && !(m.provisioning_mode is PreserveConsole) ==> {
            &&& m.capture_target_device is None ==> !valid
            &&& m.capture_target_device is Some && m.capture_target_external ==> valid
                == external_valid
            &&& m.capture_target_device is Some && !m.capture_target_external ==> (valid
                <==> target_active && paths == Some(1usize))
        },
{
}

/// Between desktops nothing is ready; what is ready and valid is; what is no longer valid
/// is set up again.
pub proof fn law_invalid_displays_are_set_up_again(desktop: DesktopState, valid: bool, now: u64)
    ensures
        forall|m: &mut DisplayManager, step: ReadyStep| #[trigger]
            call_ensures(DisplayManager::begin_ready, (m, &desktop, valid, now), step) ==> {
                let (before, after) = (*m, *final(m));
                &&& desktop.transition_unavailable <==> step is NotReady
                &&& step is Ready <==> !desktop.transition_unavailable && before.provisioning_ready
                    && valid
                &&& step is GoOn <==> !desktop.transition_unavailable
                    && !before.provisioning_ready
                &&& step is RefreshAndGoOn ==> !after.provisioning_ready
                    && !after.capture_target_external
                &&& !(step is RefreshAndGoOn) ==> after == before
            },
        forall|m: &mut DisplayManager, drifted: bool| #[trigger]
            call_ensures(
                DisplayManager::invalidate_if_ready_topology_drifted,
                (m, valid, now),
                drifted,
            ) ==> {
                &&& drifted <==> !valid
                &&& drifted ==> !(*final(m)).provisioning_ready
                &&& !drifted ==> *final(m) == *m
            },
{
}

/// The displays are gone on with only on the desktop that was seen; the secure one is
/// ready as it is; the user's waits for its time and for half a second since the last
/// attempt.
pub proof fn law_setup_goes_on_when_it_is_time(
    on_default: bool,
    input: Option<String>,
    switched: bool,
    now: u64,
)
    ensures
        forall|m: &mut DisplayManager, step: ReadyStep| #[trigger]
            call_ensures(
                DisplayManager::continue_ready,
                (m, on_default, &input, switched, now),
                step,
            ) ==> {
                let (before, after) = (*m, *final(m));
                let on_user = input is Some && text::same_ignoring_case(input->0@, "Default"@);
                let on_secure = input is Some && text::same_ignoring_case(input->0@, "Winlogon"@);
                let time = now >= before.provisioning_not_before && now
                    - before.last_provisioning_attempt >= 500_000_000;
                &&& !switched ==> step is NotReady
                &&& step is RefreshAndReady <==> switched && !on_default && on_secure
                &&& step is GoOn <==> switched && on_default && on_user && time
                &&& step is GoOn || step is RefreshAndReady || step is NotReady
                &&& step is RefreshAndReady ==> after.provisioning_ready
                &&& step is GoOn ==> after.last_provisioning_attempt == now
                    && after.provisioning_ready == before.provisioning_ready
                &&& step is NotReady ==> after == before
            },
{
}

/// A decision is carried out: what is gone can neither be lit nor adopted, and an adopted
/// display is the one that is captured, as another manager's.
pub proof fn law_decision_is_carried_out(
    m: DisplayManager,
    decision: ProvisioningDecision,
    target: Option<String>,
    step: ProvisionStep,
)
    requires
        call_ensures(DisplayManager::provision_step, (&m, decision, &target), step),
    ensures
        step is Provision <==> decision is ProvisionVdd && m.vdd_device is Some,
        step is Defer <==> decision is Defer,
        step is Done <==> decision is PreserveExisting || decision is AdoptExternal
            && target is Some,
        step is Failed <==> decision is ProvisionVdd && m.vdd_device is None
            || decision is AdoptExternal && target is None,
        forall|x: &mut DisplayManager, out: ()| #[trigger]
            call_ensures(DisplayManager::on_provisioned, (x, decision, target), out) ==> {
                &&& (*final(x)).provisioning_ready
                &&& (*final(x)).capture_target_external <==> decision is AdoptExternal
                &&& decision is AdoptExternal ==> (*final(x)).capture_target_device == target
                &&& !(decision is AdoptExternal) ==> (*final(x)).capture_target_device
                    == (*x).capture_target_device
            },
{
}

/// The display to adopt is the one that the other manager lights, the primary one where it
/// lights none, and none where there is no other manager.
pub proof fn law_lit_display_is_adopted(
    m: DisplayManager,
    primary: Option<String>,
    target: Option<String>,
)
    requires
        call_ensures(DisplayManager::external_display_target, (&m, &primary), target),
    ensures
        m.explicit_external_target matches Some(t) ==> target is Some && target->0@ == t@,
        m.explicit_external_target is None && m.external_display_manager ==> text::option_view(
            target,
        ) == text::option_view(primary),
        m.explicit_external_target is None && !m.external_display_manager ==> target is None,
{
}

/// A display is ours to change only where it is the virtual one, alone, and no other
/// manager's; it gets its usual size only then, and only where it does not follow the
/// viewer; it is moved back only where it was the primary one.
pub proof fn law_only_our_display_is_changed(
    m: DisplayManager,
    single: bool,
    managed: bool,
    adaptive: bool,
    current: Option<(u32, u32)>,
    baseline: (u32, u32),
    needed: bool,
    is_primary: bool,
    repair: bool,
    observed: Option<Rect>,
    fits: bool,
    expected: Option<(u32, u32)>,
)
    requires
        call_ensures(DisplayManager::managed_vdd_target, (&m, single), managed),
        call_ensures(
            DisplayManager::baseline_needed,
            (&m, adaptive, single, current, baseline),
            needed,
        ),
        call_ensures(DisplayManager::origin_repair_needed, (&m, is_primary), repair),
        call_ensures(
            DisplayManager::managed_capture_surface_mismatch,
            (&m, single, observed, fits),
            expected,
        ),
    ensures
        managed ==> single && !m.capture_target_external && m.vdd_device is Some
            && m.capture_target_device is Some,
        single && !m.capture_target_external && m.vdd_device is Some && m.capture_target_device
            == m.vdd_device ==> managed,
        needed <==> managed && !adaptive && current != Some(baseline),
        repair <==> m.vdd_device is Some && m.vdd_primary_active && !is_primary,
        expected is Some ==> managed && !fits,
        managed && !fits && m.vdd_rect is Some ==> expected == Some(
            (m.vdd_rect->0.width, m.vdd_rect->0.height),
        ),
        managed && !fits && m.vdd_rect is None && observed is Some ==> expected == Some(
            (observed->0.width, observed->0.height),
        ),
{
}

/// The virtual display is looked for while it is missing, every three quarters of a
/// second; one that is found is known from then on, and what is captured stays.
pub proof fn law_missing_display_is_looked_for(
    device: String,
    rect: Option<Rect>,
    is_primary: bool,
    primary: Option<String>,
    now: u64,
)
    ensures
        forall|m: &mut DisplayManager, due: bool| #[trigger]
            call_ensures(DisplayManager::discovery_due, (m, now), due) ==> {
                &&& due <==> (*m).vdd_device is None && now - (*m).last_display_discovery_attempt
                    >= 750_000_000
                &&& due ==> (*final(m)).last_display_discovery_attempt == now
                &&& !due ==> *final(m) == *m
            },
        forall|m: &mut DisplayManager, out: ()| #[trigger]
            call_ensures(
                DisplayManager::on_vdd_found,
                (m, device, rect, is_primary, primary),
                out,
            ) ==> {
                let (before, after) = (*m, *final(m));
                &&& after.vdd_device == Some(device) && after.vdd_rect == rect
                &&& after.vdd_primary_active == is_primary
                &&& before.capture_target_device is Some ==> after.capture_target_device
                    == before.capture_target_device
                &&& before.capture_target_device is None ==> after.capture_target_device == primary
            },
        forall|m: &mut DisplayManager, out: ()| #[trigger]
            call_ensures(
                DisplayManager::refresh_capture_target,
                (m, primary, rect, is_primary),
                out,
            ) ==> {
                let (before, after) = (*m, *final(m));
                &&& after.capture_target_device == primary
                &&& before.vdd_device is Some ==> after.vdd_rect == rect
                    && after.vdd_primary_active == is_primary
                &&& before.vdd_device is None ==> after.vdd_rect is None
                    && !after.vdd_primary_active
                &&& after.provisioning_ready == before.provisioning_ready
            },
{
}

/// A change of size goes through the newer interface, then the older one, then puts the
/// display back at the corner if it was the primary one and is not; it changed something
/// exactly if one of the interfaces did.
pub proof fn law_size_goes_through_both_interfaces(event: ResizeEvent)
    ensures
        forall|m: &mut DisplayManager, step: ResizeStep| #[trigger]
            call_ensures(DisplayManager::on_resize_event, (m, event), step) ==> {
                let (before, after) = (*m, *final(m));
                &&& event is Start ==> (step is SetSource <==> before.vdd_device is Some)
                &&& event is Start && before.vdd_device is None ==> step == (ResizeStep::Done {
                    changed: false,
                })
                &&& event matches ResizeEvent::Source { rect } ==> {
                    &&& rect is Some ==> step is LookAtOrigin && after.vdd_rect == rect->0
                    &&& rect is None ==> step is SetLegacy && after == before
                }
                &&& event matches ResizeEvent::Legacy { changed } ==> {
                    &&& changed ==> step is LookAtOrigin
                    &&& !changed ==> step == (ResizeStep::Done { changed: false })
                }
                &&& event matches ResizeEvent::Origin { is_primary } ==> {
                    &&& step is RepairOrigin <==> before.vdd_device is Some
                        && before.vdd_primary_active && !is_primary
                    &&& !(step is RepairOrigin) ==> step == (ResizeStep::Done { changed: true })
                }
                &&& event is Repaired ==> step == (ResizeStep::Done { changed: true })
                &&& after.provisioning_ready == before.provisioning_ready
            },
{
}

/// The managed display is as it should be where it is lit alone at the corner in full HD;
/// lighting it worked only if that is so and its size could be set.
pub proof fn law_managed_display_is_full_hd(
    paths: Option<usize>,
    rect: Option<Rect>,
    stable: bool,
    resized: bool,
    outcome: VddOutcome,
    attached: bool,
    vdd: Option<String>,
    r: Result<String, String>,
)
    requires
        call_ensures(vdd_already_stable, (paths, rect), stable),
        call_ensures(check_vdd_provisioned, (resized, paths, rect), outcome),
        call_ensures(provision_windows_vdd_display, (attached, vdd), r),
    ensures
        stable <==> paths == Some(1usize) && rect == Some(
            Rect { x: 0, y: 0, width: 1920, height: 1080 },
        ),
        outcome is Ready <==> stable && resized,
        attached && vdd is Some ==> r is Ok && vdd == Some(r->Ok_0),
        !attached || vdd is None ==> r is Err,
{
}

} // verus!
