use phantom_server::agent::capture_loop::{
    AgentLoop, CaptureMode, InitStep, LayoutDecision, Tiers, INIT_NOW,
};
use phantom_server::agent::desktop::DesktopState;
use phantom_server::agent::display_manager::{
    DisplayManager, ProvisioningMode, ResizeEvent, ResizeStep,
};
use phantom_server::agent::gate::{DefaultDesktopGate, DEFAULT_DESKTOP_CAPTURE_STABLE_FOR};
use phantom_server::agent::round::{
    AgentRound, Phase, Recovery, RoundEvent, RoundStep, HOLD_REST, IDLE_REST,
};
use phantom_server::clock::SEC;
use phantom_server::display_ccd::Rect;

const NOW: u64 = 1000 * SEC;

struct Turn {
    round: AgentRound,
    agent: AgentLoop,
    gate: DefaultDesktopGate,
}

impl Turn {
    fn of(agent: AgentLoop) -> Turn {
        Turn { round: AgentRound::new(), agent, gate: DefaultDesktopGate::new() }
    }

    fn step(&mut self, event: RoundEvent) -> (RoundStep, Recovery) {
        self.round.step(&mut self.agent, &mut self.gate, event, NOW)
    }
}

fn start(viewer_active: bool) -> RoundEvent {
    RoundEvent::Start { viewer_active, assigned: true, can_try_tier1: true }
}

fn desktop(on_default: bool, changed: bool) -> DesktopState {
    DesktopState {
        on_default,
        transition_unavailable: false,
        changed_after_initial: changed,
        desktop_name: None,
    }
}

fn gdi_agent() -> AgentLoop {
    let mut agent = AgentLoop::new(NOW);
    agent.on_gdi_started((800, 600), (0, 0), true);
    agent
}

fn keep(step: RoundStep) -> (RoundStep, Recovery) {
    (step, Recovery::Keep)
}

#[test]
fn a_round_on_the_secure_desktop_sets_gdi_up() {
    let mut turn = Turn::of(AgentLoop::new(NOW));
    assert_eq!(turn.step(start(true)), keep(RoundStep::LookAtDesktop));
    let event =
        RoundEvent::Desktop { desktop: desktop(false, false), holds: false, console: true };
    assert_eq!(turn.step(event), keep(RoundStep::LookForDevices));
    assert_eq!(
        turn.step(RoundEvent::Devices { found: true }),
        keep(RoundStep::LookForVirtualDisplay)
    );
    assert_eq!(
        turn.step(RoundEvent::VirtualDisplay { found_again: false }),
        keep(RoundStep::SetUpDisplay)
    );
    assert_eq!(
        turn.step(RoundEvent::Display { ready: true, console: true }),
        keep(RoundStep::TakeRequest)
    );
    assert_eq!(turn.step(RoundEvent::Request { resolution: None }), keep(RoundStep::AskTier1));
    assert_eq!(
        turn.step(RoundEvent::Tier1 { can_try: true }),
        keep(RoundStep::Init { how: InitStep::Console })
    );
    assert_eq!(turn.round.phase, Phase::Over);
    assert_eq!(turn.agent.last_init_attempt, NOW);
}

#[test]
fn a_round_on_a_settled_desktop_sets_the_gpu_up() {
    let mut turn = Turn::of(AgentLoop::new(NOW));
    turn.gate.candidate_since = Some(NOW - DEFAULT_DESKTOP_CAPTURE_STABLE_FOR);
    assert_eq!(turn.step(start(true)), keep(RoundStep::LookAtDesktop));
    let event =
        RoundEvent::Desktop { desktop: desktop(true, false), holds: false, console: false };
    assert_eq!(turn.step(event), keep(RoundStep::LookForDevices));
    let _ = turn.step(RoundEvent::Devices { found: true });
    let _ = turn.step(RoundEvent::VirtualDisplay { found_again: false });
    let _ = turn.step(RoundEvent::Display { ready: true, console: false });
    let _ = turn.step(RoundEvent::Request { resolution: None });
    assert_eq!(
        turn.step(RoundEvent::Tier1 { can_try: true }),
        keep(RoundStep::Init { how: InitStep::Tier1 })
    );
}

#[test]
fn a_desktop_that_comes_up_ends_the_round() {
    let mut turn = Turn::of(gdi_agent());
    let _ = turn.step(start(true));
    let event =
        RoundEvent::Desktop { desktop: desktop(true, true), holds: false, console: false };
    assert_eq!(turn.step(event), (RoundStep::Rest { ms: HOLD_REST }, Recovery::Reset));
    assert_eq!(turn.agent.tiers, Tiers::none());
    assert_eq!(turn.agent.last_init_attempt, NOW - INIT_NOW);
    assert_eq!(turn.gate.candidate_since, Some(NOW));
    assert_eq!(turn.round.phase, Phase::Over);

    let mut turn = Turn::of(gdi_agent());
    let _ = turn.step(start(true));
    let event = RoundEvent::Desktop { desktop: desktop(true, false), holds: true, console: false };
    assert_eq!(turn.step(event), keep(RoundStep::Rest { ms: HOLD_REST }));
    assert!(turn.agent.tiers.gdi);
}

#[test]
fn a_missing_display_ends_the_round() {
    let mut turn = Turn::of(gdi_agent());
    turn.round.phase = Phase::Devices;
    assert_eq!(
        turn.step(RoundEvent::Devices { found: false }),
        keep(RoundStep::Rest { ms: IDLE_REST })
    );
    assert_eq!(turn.agent.tiers, Tiers::none());

    let mut turn = Turn::of(gdi_agent());
    turn.round.phase = Phase::Display;
    assert_eq!(
        turn.step(RoundEvent::Display { ready: false, console: true }),
        keep(RoundStep::Rest { ms: HOLD_REST })
    );
    assert_eq!(turn.agent.tiers, Tiers::none());
    assert_eq!(turn.agent.capture_mode, CaptureMode::Off);
}

#[test]
fn a_virtual_display_that_comes_back_starts_capture_over() {
    let mut turn = Turn::of(gdi_agent());
    turn.round.phase = Phase::VirtualDisplay;
    assert_eq!(
        turn.step(RoundEvent::VirtualDisplay { found_again: true }),
        (RoundStep::SetUpDisplay, Recovery::Reset)
    );
    assert_eq!(turn.agent.tiers, Tiers::none());
}

#[test]
fn a_wish_changes_the_mode_with_no_capture_left() {
    let mut turn = Turn::of(gdi_agent());
    turn.round.phase = Phase::Request;
    assert_eq!(
        turn.step(RoundEvent::Request { resolution: Some((1280, 720)) }),
        keep(RoundStep::AskLayout { width: 1280, height: 720 })
    );
    let decision = LayoutDecision::Apply { width: 1280, height: 720 };
    assert_eq!(
        turn.step(RoundEvent::Layout { decision }),
        (RoundStep::SetMode { width: 1280, height: 720 }, Recovery::ForgetWait)
    );
    assert_eq!(turn.agent.tiers, Tiers::none());
    assert_eq!(turn.step(RoundEvent::Mode { set: true }), keep(RoundStep::AskTier1));
    assert_eq!((turn.agent.width, turn.agent.height), (1280, 720));
    assert_eq!(
        turn.step(RoundEvent::Tier1 { can_try: false }),
        keep(RoundStep::Init { how: InitStep::CpuFallback })
    );

    let mut turn = Turn::of(gdi_agent());
    turn.round.phase = Phase::Mode { width: 1280, height: 720 };
    assert_eq!(turn.step(RoundEvent::Mode { set: false }), keep(RoundStep::AskTier1));
    assert_eq!((turn.agent.width, turn.agent.height), (800, 600));
}

#[test]
fn a_wish_that_is_put_off_is_asked_about_again() {
    let mut turn = Turn::of(gdi_agent());
    turn.round.phase = Phase::Request;
    let _ = turn.step(RoundEvent::Request { resolution: Some((1280, 720)) });
    let decision = LayoutDecision::Deferred { retry: true };
    assert_eq!(turn.step(RoundEvent::Layout { decision }), keep(RoundStep::AskTier1));
    assert!(turn.agent.tiers.gdi);
    turn.round = AgentRound { phase: Phase::Request, console: false };
    assert_eq!(
        turn.step(RoundEvent::Request { resolution: None }),
        keep(RoundStep::AskLayout { width: 1280, height: 720 })
    );
}

#[test]
fn an_idle_round_warms_up_or_rests() {
    let mut turn = Turn::of(AgentLoop::new(NOW));
    assert_eq!(turn.step(start(false)), keep(RoundStep::LookAtIdleDesktop));
    let event = RoundEvent::IdleDesktop { on_default: true, can_try_tier1: true };
    assert_eq!(turn.step(event), keep(RoundStep::LookAtDesktop));

    let mut turn = Turn::of(AgentLoop::new(NOW));
    let _ = turn.step(start(false));
    let event = RoundEvent::IdleDesktop { on_default: false, can_try_tier1: true };
    assert_eq!(turn.step(event), keep(RoundStep::Rest { ms: IDLE_REST }));

    let mut turn = Turn::of(AgentLoop::new(NOW));
    let event = RoundEvent::Start { viewer_active: false, assigned: true, can_try_tier1: false };
    assert_eq!(turn.step(event), keep(RoundStep::Rest { ms: IDLE_REST }));
}

#[test]
fn an_agent_that_is_taken_over_from_rests() {
    let mut turn = Turn::of(gdi_agent());
    let event = RoundEvent::Start { viewer_active: true, assigned: false, can_try_tier1: true };
    assert_eq!(turn.step(event), keep(RoundStep::Rest { ms: HOLD_REST }));
    assert!(turn.agent.tiers.gdi);
    assert!(turn.agent.last_viewer_active);
}

fn manager(vdd: Option<&str>, primary: bool) -> DisplayManager {
    DisplayManager::new(
        vdd.map(String::from),
        None,
        primary,
        None,
        ProvisioningMode::Managed,
        false,
        None,
        NOW,
    )
}

#[test]
fn a_managed_display_is_resized_and_put_back_in_its_corner() {
    let rect = Rect { x: 5, y: 0, width: 1280, height: 720 };
    let home = Rect { x: 0, y: 0, width: 1280, height: 720 };
    let mut displays = manager(Some("V"), true);
    assert_eq!(displays.on_resize_event(ResizeEvent::Start), ResizeStep::SetSource);
    let event = ResizeEvent::Source { rect: Some(Some(rect)) };
    assert_eq!(displays.on_resize_event(event), ResizeStep::LookAtOrigin);
    assert_eq!(displays.vdd_rect, Some(rect));
    let event = ResizeEvent::Origin { is_primary: false };
    assert_eq!(displays.on_resize_event(event), ResizeStep::RepairOrigin);
    let event = ResizeEvent::Repaired { rect: Some(Some(home)) };
    assert_eq!(displays.on_resize_event(event), ResizeStep::Done { changed: true });
    assert_eq!(displays.vdd_rect, Some(home));
    let event = ResizeEvent::Repaired { rect: None };
    assert_eq!(displays.on_resize_event(event), ResizeStep::Done { changed: true });
    assert_eq!(displays.vdd_rect, Some(home));
}

#[test]
fn the_older_interface_is_tried_last() {
    let mut displays = manager(Some("V"), false);
    let event = ResizeEvent::Source { rect: None };
    assert_eq!(displays.on_resize_event(event), ResizeStep::SetLegacy);
    let event = ResizeEvent::Legacy { changed: false };
    assert_eq!(displays.on_resize_event(event), ResizeStep::Done { changed: false });
    let event = ResizeEvent::Legacy { changed: true };
    assert_eq!(displays.on_resize_event(event), ResizeStep::LookAtOrigin);
    let event = ResizeEvent::Origin { is_primary: false };
    assert_eq!(displays.on_resize_event(event), ResizeStep::Done { changed: true });
    let mut displays = manager(None, false);
    let event = ResizeEvent::Start;
    assert_eq!(displays.on_resize_event(event), ResizeStep::Done { changed: false });
}
