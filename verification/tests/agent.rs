use phantom_server::agent::capture_loop::{
    pace, ActiveTier, AgentLoop, CaptureMode, CpuEvent, CpuStep, GpuEvent, GpuKeyframe, GpuStep,
    IdleStep, InitStep, KeyframePlan, LayoutDecision, PendingProbe, PendingStep, Sample,
    Tier1Failure, Tier1Step, Tiers, BLACK_STARTUP, FRAME_INTERVAL, IDLE_PIPELINE_TTL, INIT_NOW,
    KEYFRAME_PERIOD, PENDING_PROBE, PREWARM_LIMIT, SCRAP_STALL,
};
use phantom_server::agent::clipboard::{ClipboardWatch, CLIPBOARD_POLL};
use phantom_server::agent::cursor_tracker::{
    CursorSnapshot, CursorTracker, ShapeOutcome, CURSOR_POLL, CURSOR_REPEAT,
};
use phantom_server::agent::desktop::{
    is_default_desktop, is_windows_access_denied, DesktopObserver, DesktopPhase, DesktopState,
};
use phantom_server::agent::display_manager::{
    check_vdd_provisioned, provision_windows_vdd_display, vdd_already_stable, DisplayManager,
    ProvisionStep, ProvisioningDecision, ProvisioningMode, ReadyStep, VddOutcome, DISCOVERY_PAUSE,
    OWNER_GRACE, OWNER_PROBE, PROVISIONING_PAUSE,
};
use phantom_server::agent::fallback::{
    choose_encoder, choose_scrap_display, gdi_region, gdi_settings, on_scrap_unavailable,
    place_scrap, EncoderSettings, FallbackStep, GdiRegion, ModeAttempt, ModeChange, ModeEvent,
    ModeStep, Placement, MODE_LOOKS,
};
use phantom_server::agent::gate::{
    DefaultDesktopGate, ACCESS_DENIED_HOLD, DEFAULT_DESKTOP_CAPTURE_STABLE_FOR,
};
use phantom_server::capture::scrap::DisplayInfo;
use phantom_server::clock::SEC;
use phantom_server::display_ccd::Rect;
use phantom_server::protocol::CursorState;

const NOW: u64 = 1000 * SEC;

fn text(s: &str) -> Option<String> {
    Some(String::from(s))
}

fn desktop(on_default: bool, unavailable: bool) -> DesktopState {
    DesktopState {
        on_default,
        transition_unavailable: unavailable,
        changed_after_initial: false,
        desktop_name: None,
    }
}

fn gpu_agent() -> AgentLoop {
    let mut agent = AgentLoop::new(NOW);
    assert_eq!(
        agent.on_tier1_made(1920, 1080, false, false, NOW),
        Tier1Step::Adopt { startup: true }
    );
    agent
}

fn scrap_agent() -> AgentLoop {
    let mut agent = AgentLoop::new(NOW);
    agent.on_scrap_started((1280, 720), (-1280, 0), Some(false), NOW);
    agent
}

#[test]
fn a_new_agent_captures_nothing_and_may_start_at_once() {
    let mut agent = AgentLoop::new(NOW);
    assert_eq!(agent.tiers, Tiers::none());
    assert_eq!((agent.width, agent.height), (1920, 1080));
    assert_eq!(agent.last_init_attempt, NOW - INIT_NOW);
    assert_eq!(agent.capture_mode.name(), "none");
    assert_eq!(agent.active_tier(), ActiveTier::Nothing);
    assert_eq!(agent.init_step(false, true, NOW), InitStep::Tier1);
    assert_eq!(agent.init_step(false, true, NOW + SEC), InitStep::Nothing);
    assert_eq!(agent.init_step(false, true, NOW + SEC + 1), InitStep::Tier1);
}

#[test]
fn the_secure_desktop_is_captured_with_gdi() {
    let mut agent = AgentLoop::new(NOW);
    assert_eq!(agent.init_step(true, true, NOW), InitStep::Console);
    agent.on_gdi_started((1024, 768), (0, 0), true);
    assert_eq!(agent.capture_mode, CaptureMode::GdiH264);
    assert_eq!(agent.active_tier(), ActiveTier::Gdi);
    assert_eq!(agent.init_step(true, true, NOW + 60 * SEC), InitStep::Nothing);
    assert_eq!(
        agent.on_gdi_event(CpuEvent::NoFrame, NOW),
        CpuStep::Wait
    );
    assert_eq!(
        agent.on_gdi_event(CpuEvent::NotEncoded, NOW),
        CpuStep::Keep
    );
    assert_eq!(
        agent.on_gdi_event(CpuEvent::Frame { is_keyframe: true }, NOW + 5),
        CpuStep::Send
    );
    assert!(agent.delivered);
    assert_eq!(agent.last_keyframe, NOW + 5);
    assert_eq!(agent.on_gdi_event(CpuEvent::Failed, NOW), CpuStep::Drop);
    assert_eq!(agent.active_tier(), ActiveTier::Nothing);
}

#[test]
fn gdi_without_an_encoder_is_not_used() {
    let mut agent = AgentLoop::new(NOW);
    agent.on_gdi_started((1024, 768), (5, 6), false);
    assert_eq!(agent.tiers, Tiers::none());
    assert_eq!((agent.width, agent.display_x), (1024, 5));
}

#[test]
fn a_gpu_tier_that_was_given_up_leads_to_the_processor() {
    let mut agent = AgentLoop::new(NOW);
    assert_eq!(agent.init_step(false, false, NOW), InitStep::CpuFallback);
    agent.on_scrap_started((1280, 720), (-1280, 0), Some(true), NOW);
    assert_eq!(agent.capture_mode, CaptureMode::ScrapNvenc);
    assert_eq!(agent.active_tier(), ActiveTier::Scrap);
    assert_eq!(agent.scrap_waiting_since, Some(NOW));
    assert_eq!(agent.to_desktop(10, 20), (-1270, 20));
    assert_eq!(agent.to_desktop(i32::MIN, 0), (i32::MAX - 1279, 0));
    agent.on_fallback_is_gdi();
    assert_eq!(agent.scrap_waiting_since, None);
}

#[test]
fn a_gpu_pipeline_replaces_what_was_there() {
    let mut agent = scrap_agent();
    assert_eq!(
        agent.on_tier1_made(1920, 1080, true, true, NOW),
        Tier1Step::Discard
    );
    assert_eq!(
        agent.on_tier1_made(1920, 1080, false, true, NOW),
        Tier1Step::Reconcile
    );
    assert!(agent.tiers.scrap);
    assert_eq!(
        agent.on_tier1_made(1920, 1080, false, false, NOW),
        Tier1Step::Adopt { startup: true }
    );
    assert_eq!(agent.tiers, Tiers { gpu: true, ..Tiers::none() });
    assert_eq!(agent.capture_mode.name(), "dxgi_nvenc");
}

#[test]
fn a_pipeline_that_cannot_be_made_is_retried_only_for_a_viewer() {
    let mut agent = AgentLoop::new(NOW);
    let mut gate = DefaultDesktopGate::new();
    assert_eq!(
        agent.on_tier1_failed(&mut gate, false, true, NOW),
        Tier1Failure::Park
    );
    assert!(agent.idle_prewarm_suspended);
    assert_eq!(gate.access_denied_since, None);
    assert_eq!(
        agent.on_tier1_failed(&mut gate, true, true, NOW),
        Tier1Failure::Hold
    );
    assert_eq!(
        agent.on_tier1_failed(&mut gate, true, true, NOW + ACCESS_DENIED_HOLD),
        Tier1Failure::AskRetry
    );
    assert_eq!(
        agent.on_tier1_failed(&mut gate, true, false, NOW),
        Tier1Failure::AskRetry
    );
    let before = agent.last_init_attempt;
    agent.on_tier1_retry(false, NOW + 7);
    assert_eq!(agent.last_init_attempt, before);
    agent.on_tier1_retry(true, NOW + 7);
    assert_eq!(agent.last_init_attempt, NOW + 7);
}

#[test]
fn the_first_gpu_frame_has_to_show_something() {
    let mut agent = gpu_agent();
    let mut gate = DefaultDesktopGate { candidate_since: None, access_denied_since: Some(NOW) };
    let black = GpuEvent::Frame {
        is_keyframe: true,
        waiting_since: Some(NOW),
        sample: Sample::MostlyBlack,
    };
    assert_eq!(
        agent.on_gpu_event(&mut gate, black, NOW + BLACK_STARTUP),
        GpuStep::RetryBlack
    );
    assert!(agent.tiers.gpu);
    let fine = GpuEvent::Frame {
        is_keyframe: true,
        waiting_since: Some(NOW),
        sample: Sample::Unknown,
    };
    assert_eq!(
        agent.on_gpu_event(&mut gate, fine, NOW + 1),
        GpuStep::Send { ready: true, warmed: true }
    );
    assert_eq!(gate.access_denied_since, None);
    assert!(agent.gpu_prewarm_ready && agent.delivered);
    let later = GpuEvent::Frame {
        is_keyframe: false,
        waiting_since: None,
        sample: Sample::MostlyBlack,
    };
    assert_eq!(
        agent.on_gpu_event(&mut gate, later, NOW + 2),
        GpuStep::Send { ready: false, warmed: false }
    );
    assert_eq!(agent.last_keyframe, NOW + 1);
    assert_eq!(
        agent.on_gpu_event(&mut gate, black, NOW + BLACK_STARTUP + 1),
        GpuStep::AskRetry { nudge: false }
    );
    assert_eq!(agent.tiers, Tiers::none());
}

#[test]
fn a_silent_gpu_tier_is_given_up_after_its_time() {
    let mut agent = gpu_agent();
    let mut gate = DefaultDesktopGate::new();
    assert_eq!(
        agent.on_gpu_event(&mut gate, GpuEvent::NoFrame { timed_out: false }, NOW),
        GpuStep::Wait
    );
    assert_eq!(
        agent.on_gpu_event(&mut gate, GpuEvent::NoFrame { timed_out: true }, NOW),
        GpuStep::AskRetry { nudge: true }
    );
    assert_eq!(agent.tiers, Tiers::none());
    agent.on_startup_retry(true, NOW + SEC);
    assert_eq!(agent.last_init_attempt, NOW + SEC - INIT_NOW);
    agent.scrap_waiting_since = Some(NOW);
    agent.on_startup_retry(false, NOW + SEC);
    assert_eq!(agent.scrap_waiting_since, None);
}

#[test]
fn a_broken_gpu_tier_is_set_up_anew() {
    let mut agent = gpu_agent();
    let mut gate = DefaultDesktopGate::new();
    assert_eq!(
        agent.on_gpu_event(&mut gate, GpuEvent::Failed { access_denied: true }, NOW),
        GpuStep::Reset
    );
    assert_eq!(gate.access_denied_since, Some(NOW));
    assert_eq!(agent.last_init_attempt, NOW);
    assert_eq!(agent.init_step(false, true, NOW + SEC + 1), InitStep::Tier1);
}

#[test]
fn a_scrap_tier_that_stalls_gives_way() {
    let mut agent = scrap_agent();
    assert_eq!(
        agent.on_scrap_event(CpuEvent::NoFrame, true, NOW + SCRAP_STALL),
        CpuStep::Wait
    );
    let mut other = agent;
    assert_eq!(
        agent.on_scrap_event(CpuEvent::NoFrame, false, NOW + SCRAP_STALL + 1),
        CpuStep::Gdi { again: true }
    );
    assert_eq!(agent.tiers, Tiers::none());
    let mut third = other;
    assert_eq!(
        other.on_scrap_event(CpuEvent::Failed, true, NOW),
        CpuStep::RetryTier1
    );
    assert_eq!(other.capture_mode, CaptureMode::Off);
    assert_eq!(
        third.on_scrap_event(CpuEvent::Failed, false, NOW),
        CpuStep::Gdi { again: false }
    );
}

#[test]
fn a_scrap_frame_ends_the_wait_for_it() {
    let mut agent = scrap_agent();
    assert_eq!(
        agent.on_scrap_event(CpuEvent::NotEncoded, false, NOW),
        CpuStep::Keep
    );
    assert_eq!(
        agent.on_scrap_event(CpuEvent::Frame { is_keyframe: false }, false, NOW),
        CpuStep::Send
    );
    assert_eq!(agent.scrap_waiting_since, None);
    assert_eq!(
        agent.on_scrap_event(CpuEvent::NoFrame, false, NOW + 60 * SEC),
        CpuStep::Wait
    );
}

#[test]
fn a_waiting_gpu_pipeline_comes_back_with_its_first_picture() {
    let mut agent = scrap_agent();
    assert!(!agent.pending_probe_due(NOW + SEC));
    agent.tiers.pending_gpu = true;
    agent.last_pending_probe = NOW;
    assert!(!agent.pending_probe_due(NOW + PENDING_PROBE - 1));
    assert!(agent.pending_probe_due(NOW + PENDING_PROBE));
    assert_eq!(
        agent.on_pending_probe(PendingProbe::Nothing, NOW),
        PendingStep::Keep
    );
    let black = PendingProbe::Frame { width: 800, height: 600, is_keyframe: true, mostly_black: true };
    assert_eq!(agent.on_pending_probe(black, NOW), PendingStep::ForceKeyframe);
    let mut failed = agent;
    assert_eq!(
        failed.on_pending_probe(PendingProbe::Failed, NOW),
        PendingStep::Drop
    );
    assert!(failed.tiers.scrap && !failed.tiers.pending_gpu);
    let fine = PendingProbe::Frame { width: 800, height: 600, is_keyframe: true, mostly_black: false };
    assert_eq!(agent.on_pending_probe(fine, NOW + 9), PendingStep::Promote);
    assert_eq!(agent.tiers, Tiers { gpu: true, ..Tiers::none() });
    assert_eq!((agent.width, agent.height, agent.display_x), (800, 600, 0));
    assert_eq!(agent.last_keyframe, NOW + 9);
}

#[test]
fn keyframes_are_asked_of_whatever_captures() {
    let mut agent = scrap_agent();
    assert_eq!(
        agent.on_keyframe_request(NOW + 1),
        KeyframePlan { gpu: GpuKeyframe::Absent, pending_gpu: false, nudge: true, encoder: true }
    );
    let mut gpu = gpu_agent();
    assert_eq!(gpu.on_keyframe_request(NOW).gpu, GpuKeyframe::Startup);
    gpu.gpu_prewarm_ready = true;
    assert_eq!(gpu.on_keyframe_request(NOW).gpu, GpuKeyframe::Repaint);
    assert!(!gpu.keyframe_due(NOW + KEYFRAME_PERIOD));
    assert!(gpu.keyframe_due(NOW + KEYFRAME_PERIOD + 1));
    assert!(!gpu.keyframe_due(NOW + KEYFRAME_PERIOD + 2));
}

#[test]
fn a_resolution_is_set_with_no_capture_left() {
    let mut agent = gpu_agent();
    agent.request_resolution(Some((1280, 720)));
    agent.request_resolution(None);
    assert_eq!(agent.pending_resolution, Some((1280, 720)));
    assert_eq!(agent.on_layout_decision(LayoutDecision::Deferred { retry: true }), None);
    assert_eq!(agent.pending_resolution, Some((1280, 720)));
    assert_eq!(
        agent.on_layout_decision(LayoutDecision::Apply { width: 1920, height: 1080 }),
        None
    );
    assert!(agent.tiers.gpu);
    assert_eq!(agent.pending_resolution, None);
    agent.request_resolution(Some((1280, 720)));
    assert_eq!(agent.on_layout_decision(LayoutDecision::Denied), None);
    assert_eq!(agent.on_layout_decision(LayoutDecision::Deferred { retry: false }), None);
    assert_eq!(
        agent.on_layout_decision(LayoutDecision::Apply { width: 1280, height: 720 }),
        Some((1280, 720))
    );
    assert_eq!(agent.tiers, Tiers::none());
    agent.on_mode_set(1280, 720, NOW);
    assert_eq!((agent.width, agent.height), (1280, 720));
    assert_eq!(agent.init_step(false, true, NOW), InitStep::Tier1);
}

#[test]
fn dropped_captures_are_set_up_again() {
    let mut agent = scrap_agent();
    agent.on_desktop_changed(NOW);
    assert_eq!(agent.tiers, Tiers::none());
    assert_eq!(agent.scrap_waiting_since, Some(NOW));
    assert_eq!(agent.init_step(false, true, NOW), InitStep::Tier1);
    let mut agent = scrap_agent();
    agent.on_no_display(NOW);
    assert_eq!(agent.scrap_waiting_since, None);
    let mut agent = gpu_agent();
    agent.on_display_found(NOW);
    assert_eq!(agent.tiers, Tiers::none());
    let mut agent = gpu_agent();
    agent.on_not_provisioned();
    assert_eq!(agent.capture_mode, CaptureMode::Off);
    assert_eq!(agent.tiers, Tiers::none());
}

#[test]
fn viewers_come_and_go() {
    let mut agent = gpu_agent();
    agent.cursor.handle = 7;
    agent.cursor.shape = Some(9);
    agent.idle_prewarm_suspended = true;
    assert!(!agent.observe_viewer(false, NOW));
    assert!(agent.observe_viewer(true, NOW));
    assert_eq!(agent.cursor.shape, None);
    assert!(!agent.idle_prewarm_suspended);
    assert!(agent.observe_viewer(false, NOW + 1));
    assert_eq!(agent.viewer_idle_since, Some(NOW + 1));
}

#[test]
fn an_idle_agent_warms_the_gpu_tier_up() {
    let mut agent = AgentLoop::new(NOW);
    assert_eq!(agent.idle_step(true, true, NOW), IdleStep::Proceed);
    assert_eq!(agent.gpu_prewarm_started_at, Some(NOW));
    let _ = agent.on_tier1_made(1920, 1080, false, false, NOW);
    assert_eq!(agent.idle_step(true, true, NOW), IdleStep::Proceed);
    assert_eq!(agent.idle_step(true, true, NOW + PREWARM_LIMIT), IdleStep::Proceed);
    assert_eq!(agent.idle_step(true, true, NOW + PREWARM_LIMIT + 1), IdleStep::Park);
    assert_eq!(agent.tiers, Tiers::none());
    assert_eq!(agent.idle_step(true, true, NOW + PREWARM_LIMIT + 2), IdleStep::Wait);
    let mut secure = AgentLoop::new(NOW);
    assert_eq!(secure.idle_step(true, false, NOW), IdleStep::Wait);
    assert!(secure.idle_prewarm_suspended);
}

#[test]
fn an_idle_agent_lets_its_captures_go() {
    let mut agent = scrap_agent();
    agent.viewer_idle_since = Some(NOW);
    assert_eq!(agent.idle_step(true, true, NOW + IDLE_PIPELINE_TTL - 1), IdleStep::Wait);
    assert_eq!(agent.idle_step(true, true, NOW + IDLE_PIPELINE_TTL), IdleStep::Release);
    assert_eq!(agent.tiers, Tiers::none());
    let mut warm = gpu_agent();
    warm.gpu_prewarm_ready = true;
    assert_eq!(warm.idle_step(true, true, NOW + 10 * IDLE_PIPELINE_TTL), IdleStep::Wait);
    assert!(warm.tiers.gpu);
}

#[test]
fn turns_keep_to_the_frame_rate() {
    assert_eq!(pace(NOW, NOW), FRAME_INTERVAL);
    assert_eq!(pace(NOW, NOW + 33_000_000), 333_333);
    assert_eq!(pace(NOW, NOW + FRAME_INTERVAL), 0);
    assert_eq!(pace(NOW, NOW + SEC), 0);
}

#[test]
fn the_clipboard_is_sent_once() {
    let mut watch = ClipboardWatch::new(NOW);
    assert!(!watch.poll_due(NOW + CLIPBOARD_POLL));
    assert!(watch.poll_due(NOW + CLIPBOARD_POLL + 1));
    assert!(!watch.poll_due(NOW + CLIPBOARD_POLL + 2));
    assert!(!watch.on_text(""));
    assert!(watch.on_text("héllo"));
    assert!(!watch.on_text("héllo"));
    assert!(!watch.on_text(""));
    assert!(watch.on_text("other"));
    assert!(watch.on_text("héllo"));
}

#[test]
fn the_pointer_stays_on_the_captured_display() {
    let mut tracker = CursorTracker::new(NOW);
    assert!(tracker.due(true, NOW));
    assert!(!tracker.due(false, NOW));
    let snapshot = CursorSnapshot { handle: 3, visible: true, x: 2000, y: 50 };
    assert_eq!(
        tracker.state_to_send(snapshot, (1920, 0), (1280, 720), NOW),
        Some(CursorState { visible: true, x: 80, y: 50, shape_id: 0 })
    );
    let state = CursorState { visible: true, x: 80, y: 50, shape_id: 0 };
    tracker.state_done(state, NOW);
    assert!(!tracker.due(true, NOW + CURSOR_POLL - 1));
    assert!(tracker.due(true, NOW + CURSOR_POLL));
    assert_eq!(
        tracker.state_to_send(snapshot, (1920, 0), (1280, 720), NOW + CURSOR_REPEAT - 1),
        None
    );
    assert_eq!(
        tracker.state_to_send(snapshot, (1920, 0), (1280, 720), NOW + CURSOR_REPEAT),
        Some(state)
    );
    let away = CursorSnapshot { x: -5, ..snapshot };
    assert_eq!(
        tracker.state_to_send(away, (1920, 0), (1280, 720), NOW),
        Some(CursorState { visible: false, x: 0, y: 50, shape_id: 0 })
    );
    let far = CursorSnapshot { x: 1920 + 1280, y: 720, ..snapshot };
    assert_eq!(
        tracker.state_to_send(far, (1920, 0), (1280, 720), NOW),
        Some(CursorState { visible: false, x: 1279, y: 719, shape_id: 0 })
    );
    assert_eq!(
        tracker.state_to_send(snapshot, (2000, 50), (0, 0), NOW),
        Some(CursorState { visible: false, x: 0, y: 0, shape_id: 0 })
    );
}

#[test]
fn a_new_viewer_is_sent_the_pointer() {
    let mut tracker = CursorTracker::new(NOW);
    assert!(!tracker.wants_shape(0));
    assert!(tracker.wants_shape(3));
    tracker.shape_done(3, ShapeOutcome::Sent { shape_id: 8 });
    assert!(!tracker.wants_shape(3));
    assert!(!tracker.is_new_shape(8));
    assert!(tracker.is_new_shape(9));
    tracker.shape_done(4, ShapeOutcome::Known);
    assert_eq!((tracker.handle, tracker.shape), (4, Some(8)));
    tracker.shape_done(5, ShapeOutcome::NotSent);
    assert_eq!(tracker.shape, Some(8));
    tracker.forget_shape();
    assert!(tracker.wants_shape(5));
    assert!(tracker.is_new_shape(8));
    tracker.shape_done(5, ShapeOutcome::Unreadable);
    assert!(tracker.wants_shape(5));
}

#[test]
fn desktops_are_told_apart() {
    let mut observer = DesktopObserver::new();
    let first = observer.refresh_desktop(&text("Default"), true, &text("Default"));
    assert!(!first.changed_after_initial);
    assert_eq!(first.phase(), DesktopPhase::Default);
    let secure = observer.refresh_desktop(&text("Winlogon"), true, &text("Winlogon"));
    assert!(secure.changed_after_initial);
    assert_eq!(secure.phase(), DesktopPhase::Winlogon);
    assert_eq!(secure.desktop_name.as_deref(), Some("Winlogon"));
    let stuck = observer.refresh_desktop(&text("Default"), false, &text("Winlogon"));
    assert_eq!(stuck.phase(), DesktopPhase::Transition);
    let fine = observer.refresh_desktop(&text("Default"), false, &text("Default"));
    assert_eq!(fine.phase(), DesktopPhase::Default);
    assert!(!fine.changed_after_initial);
    let nothing = observer.refresh_desktop(&None, false, &None);
    assert_eq!(nothing.phase(), DesktopPhase::Transition);
    assert!(nothing.changed_after_initial);
    let threads = observer.refresh_desktop(&None, false, &text("default"));
    assert_eq!(threads.phase(), DesktopPhase::Default);
    assert!(is_default_desktop(&text("DEFAULT")));
    assert!(!is_default_desktop(&None));
}

#[test]
fn denied_access_is_recognised() {
    assert!(is_windows_access_denied("Access is denied. (os error 5)"));
    assert!(is_windows_access_denied("DuplicateOutput: 0x80070005"));
    assert!(is_windows_access_denied("ACCESS IS DENIED"));
    assert!(!is_windows_access_denied("0x80070006"));
}

#[test]
fn a_desktop_is_captured_once_it_has_settled() {
    let mut gate = DefaultDesktopGate::new();
    let there = desktop(true, false);
    assert!(!gate.ready_to_capture(&there, NOW));
    let settled = NOW + DEFAULT_DESKTOP_CAPTURE_STABLE_FOR;
    assert!(!gate.ready_to_capture(&there, settled - 1));
    assert!(gate.ready_to_capture(&there, settled));
    assert!(!gate.ready_to_capture(&desktop(true, true), settled));
    assert!(!gate.ready_to_capture(&there, settled));
    assert!(!gate.ready_to_capture(&desktop(false, false), settled));
    assert_eq!(gate, DefaultDesktopGate::new());
    assert!(gate.may_capture(false, true, &desktop(false, true), NOW));
    assert!(!gate.may_capture(true, true, &there, NOW));
    assert!(!gate.may_capture(false, false, &there, NOW));
    assert!(gate.may_capture(false, false, &there, settled));
}

#[test]
fn denials_are_waited_out() {
    let mut gate = DefaultDesktopGate::new();
    assert!(gate.hold_after_access_denied(NOW));
    assert!(gate.hold_after_access_denied(NOW + ACCESS_DENIED_HOLD - 1));
    assert_eq!(gate.access_denied_since, Some(NOW));
    assert!(!gate.hold_after_access_denied(NOW + ACCESS_DENIED_HOLD));
    assert!(gate.hold_after_access_denied(NOW + ACCESS_DENIED_HOLD));
    gate.mark_capture_ready();
    assert_eq!(gate.access_denied_since, None);
    let _ = gate.hold_after_access_denied(NOW);
    gate.reset();
    assert_eq!(gate, DefaultDesktopGate::new());
}

fn manager(mode: ProvisioningMode, external: bool) -> DisplayManager {
    DisplayManager::new(
        text("\\\\.\\DISPLAY6"),
        None,
        false,
        text("\\\\.\\display6"),
        mode,
        external,
        None,
        NOW,
    )
}

#[test]
fn another_display_manager_is_given_time() {
    let waiting = manager(ProvisioningMode::Auto, true);
    assert_eq!(waiting.provisioning_not_before, NOW + OWNER_GRACE);
    assert!(!waiting.provisioning_ready);
    assert_eq!(manager(ProvisioningMode::Managed, true).provisioning_not_before, NOW);
    assert!(manager(ProvisioningMode::PreserveConsole, false).provisioning_ready);

    let mut m = manager(ProvisioningMode::Auto, false);
    assert!(!m.owner_probe_due(NOW + OWNER_PROBE - 1));
    assert!(m.owner_probe_due(NOW + OWNER_PROBE));
    m.provisioning_ready = true;
    m.refresh_external_display_ownership(true, None, NOW);
    assert!(m.external_display_manager && !m.provisioning_ready);
    assert_eq!(m.provisioning_not_before, NOW + OWNER_GRACE);
    assert_eq!(m.external_display_target(&text("primary")).as_deref(), Some("primary"));
    m.provisioning_ready = true;
    m.refresh_external_display_ownership(false, text("A"), NOW + SEC);
    assert!(m.external_display_manager && m.provisioning_ready);
    assert_eq!(m.external_display_target(&text("primary")).as_deref(), Some("A"));
    m.capture_target_external = true;
    m.refresh_external_display_ownership(true, text("B"), NOW + 2 * SEC);
    assert!(!m.provisioning_ready && !m.capture_target_external);
    assert_eq!(m.provisioning_not_before, NOW + 2 * SEC);
    assert!(manager(ProvisioningMode::Auto, false).external_display_target(&text("p")).is_none());
}

#[test]
fn displays_get_ready_in_steps() {
    let mut m = manager(ProvisioningMode::Auto, false);
    assert_eq!(m.begin_ready(&desktop(true, true), true, NOW), ReadyStep::NotReady);
    assert_eq!(m.begin_ready(&desktop(true, false), true, NOW), ReadyStep::GoOn);
    assert_eq!(m.continue_ready(true, &text("Winlogon"), true, NOW), ReadyStep::NotReady);
    assert_eq!(m.continue_ready(true, &text("default"), false, NOW), ReadyStep::NotReady);
    assert_eq!(m.continue_ready(true, &None, true, NOW), ReadyStep::NotReady);
    assert_eq!(m.continue_ready(true, &text("default"), true, NOW - 1), ReadyStep::NotReady);
    assert_eq!(m.continue_ready(true, &text("default"), true, NOW), ReadyStep::GoOn);
    let pause = NOW + PROVISIONING_PAUSE;
    assert_eq!(m.continue_ready(true, &text("default"), true, pause - 1), ReadyStep::NotReady);
    assert_eq!(m.continue_ready(true, &text("default"), true, pause), ReadyStep::GoOn);
    m.on_provisioned(ProvisioningDecision::ProvisionVdd, None);
    assert!(m.provisioning_ready && !m.capture_target_external);
    assert_eq!(m.begin_ready(&desktop(true, false), true, NOW), ReadyStep::Ready);
    assert_eq!(m.begin_ready(&desktop(true, false), false, NOW), ReadyStep::RefreshAndGoOn);
    assert!(!m.provisioning_ready);
    assert_eq!(m.continue_ready(false, &text("WINLOGON"), true, 0), ReadyStep::RefreshAndReady);
    assert!(m.provisioning_ready);
    assert!(!m.invalidate_if_ready_topology_drifted(true, NOW));
    assert!(m.provisioning_ready);
    assert!(m.invalidate_if_ready_topology_drifted(false, NOW));
    assert!(!m.provisioning_ready);
}

#[test]
fn decisions_need_their_display() {
    let mut m = manager(ProvisioningMode::Auto, false);
    assert_eq!(
        m.provision_step(ProvisioningDecision::ProvisionVdd, &None),
        ProvisionStep::Provision
    );
    assert_eq!(
        m.provision_step(ProvisioningDecision::AdoptExternal, &None),
        ProvisionStep::Failed
    );
    assert_eq!(
        m.provision_step(ProvisioningDecision::AdoptExternal, &text("A")),
        ProvisionStep::Done
    );
    assert_eq!(
        m.provision_step(ProvisioningDecision::PreserveExisting, &None),
        ProvisionStep::Done
    );
    assert_eq!(m.provision_step(ProvisioningDecision::Defer, &None), ProvisionStep::Defer);
    m.on_provisioned(ProvisioningDecision::AdoptExternal, text("A"));
    assert_eq!(m.capture_target_device.as_deref(), Some("A"));
    assert!(m.capture_target_external);
    assert!(!m.managed_vdd_target(true));
    m.vdd_device = None;
    assert_eq!(
        m.provision_step(ProvisioningDecision::ProvisionVdd, &None),
        ProvisionStep::Failed
    );
}

#[test]
fn our_display_has_to_be_alone() {
    let mut m = manager(ProvisioningMode::Auto, false);
    assert!(m.ready_topology_still_valid(true, true, Some(1), false));
    assert!(!m.ready_topology_still_valid(true, true, Some(2), false));
    assert!(!m.ready_topology_still_valid(true, false, Some(1), false));
    assert!(!m.ready_topology_still_valid(true, true, None, false));
    assert!(m.ready_topology_still_valid(false, false, None, false));
    m.capture_target_external = true;
    assert!(m.ready_topology_still_valid(true, false, Some(3), true));
    assert!(!m.ready_topology_still_valid(true, true, Some(1), false));
    m.capture_target_device = None;
    assert!(!m.ready_topology_still_valid(true, true, Some(1), true));
    m.provisioning_mode = ProvisioningMode::PreserveConsole;
    assert!(m.ready_topology_still_valid(true, false, None, false));
}

#[test]
fn the_virtual_display_is_looked_after() {
    let rect = Rect { x: 0, y: 0, width: 1280, height: 720 };
    let mut m = manager(ProvisioningMode::Auto, false);
    assert!(m.managed_vdd_target(true));
    assert!(!m.managed_vdd_target(false));
    assert!(m.baseline_needed(false, true, Some((800, 600)), (1920, 1080)));
    assert!(m.baseline_needed(false, true, None, (1920, 1080)));
    assert!(!m.baseline_needed(false, true, Some((1920, 1080)), (1920, 1080)));
    assert!(!m.baseline_needed(true, true, None, (1920, 1080)));
    assert_eq!(m.managed_capture_surface_mismatch(true, Some(rect), false), Some((1280, 720)));
    assert_eq!(m.managed_capture_surface_mismatch(true, Some(rect), true), None);
    assert_eq!(m.managed_capture_surface_mismatch(true, None, false), None);
    assert!(!m.discovery_due(NOW + SEC));
    m.refresh_capture_target(None, Some(rect), true);
    assert!(m.vdd_primary_active && m.capture_target_device.is_none());
    assert!(m.origin_repair_needed(false));
    assert!(!m.origin_repair_needed(true));
    m.vdd_device = None;
    m.refresh_capture_target(None, Some(rect), true);
    assert!(!m.vdd_primary_active && m.vdd_rect.is_none());
    m.last_display_discovery_attempt = NOW;
    assert!(!m.discovery_due(NOW + DISCOVERY_PAUSE - 1));
    assert!(m.discovery_due(NOW + DISCOVERY_PAUSE));
    m.on_vdd_found(String::from("V"), Some(rect), true, text("V"));
    assert_eq!(m.vdd_device.as_deref(), Some("V"));
    assert_eq!(m.capture_target_device.as_deref(), Some("V"));
}

#[test]
fn lighting_the_virtual_display_has_to_show() {
    let full = Rect { x: 0, y: 0, width: 1920, height: 1080 };
    assert!(vdd_already_stable(Some(1), Some(full)));
    assert!(!vdd_already_stable(Some(2), Some(full)));
    assert!(!vdd_already_stable(Some(1), Some(Rect { x: 1, ..full })));
    assert!(!vdd_already_stable(None, None));
    assert_eq!(check_vdd_provisioned(true, Some(1), Some(full)), VddOutcome::Ready);
    assert_eq!(check_vdd_provisioned(false, Some(1), Some(full)), VddOutcome::Restore);
    assert_eq!(check_vdd_provisioned(true, Some(1), None), VddOutcome::Restore);
    assert_eq!(provision_windows_vdd_display(true, text("V")), Ok(String::from("V")));
    assert_eq!(
        provision_windows_vdd_display(true, None),
        Err(String::from("Virtual Display Driver not found"))
    );
    assert_eq!(
        provision_windows_vdd_display(false, text("V")),
        Err(String::from(
            "cannot attach to the input desktop; run provisioning from an interactive session"
        ))
    );
}

#[test]
fn the_fallback_takes_the_target_or_nothing() {
    let shown = |index: usize, is_primary: bool| DisplayInfo {
        index,
        width: 800,
        height: 600,
        is_primary,
    };
    let displays = [shown(0, false), shown(1, true), shown(2, true)];
    assert_eq!(
        choose_scrap_display(false, None, &displays, false),
        FallbackStep::Scrap { index: 1 }
    );
    assert_eq!(
        choose_scrap_display(false, None, &displays[..1], false),
        FallbackStep::Scrap { index: 0 }
    );
    assert_eq!(choose_scrap_display(false, None, &[], true), FallbackStep::Gdi);
    assert_eq!(choose_scrap_display(true, None, &displays, false), FallbackStep::GiveUp);
    assert_eq!(
        choose_scrap_display(true, Some(2), &displays, false),
        FallbackStep::Scrap { index: 2 }
    );
    let rect = Rect { x: -800, y: 10, width: 800, height: 600 };
    assert_eq!(
        place_scrap(true, Some(rect), (800, 600), (0, 0), true),
        Placement::Use { x: -800, y: 10 }
    );
    assert_eq!(place_scrap(true, Some(rect), (801, 600), (0, 0), true), Placement::Gdi);
    assert_eq!(place_scrap(true, None, (800, 600), (0, 0), false), Placement::GiveUp);
    assert_eq!(
        place_scrap(false, None, (800, 600), (3, 4), false),
        Placement::Use { x: 3, y: 4 }
    );
    assert_eq!(on_scrap_unavailable(true), FallbackStep::Gdi);
    assert_eq!(on_scrap_unavailable(false), FallbackStep::GiveUp);
    assert!(matches!(
        gdi_region(Some("D"), Some(rect)),
        Some(GdiRegion::Device { name, rect: r }) if name == "D" && r == rect
    ));
    assert!(gdi_region(Some("D"), None).is_none());
    assert!(matches!(gdi_region(None, Some(rect)), Some(GdiRegion::PrimaryMonitor)));
    assert_eq!(gdi_settings(true), EncoderSettings { fps: 30, bitrate_kbps: 5000 });
    assert_eq!(gdi_settings(false), EncoderSettings { fps: 15, bitrate_kbps: 2000 });
    assert_eq!(choose_encoder(true, true, true), Some(true));
    assert_eq!(choose_encoder(false, true, true), Some(false));
    assert_eq!(choose_encoder(true, false, false), None);
}

#[test]
fn a_mode_counts_once_it_is_seen() {
    let mut change = ModeChange::new();
    assert_eq!(
        change.on_event(ModeEvent::Read { ok: false }),
        ModeStep::Done { changed: false }
    );
    assert_eq!(
        change.on_event(ModeEvent::Read { ok: true }),
        ModeStep::Try(ModeAttempt::Transient)
    );
    assert_eq!(change.on_event(ModeEvent::Tried { ok: true }), ModeStep::Look);
    for _ in 1..MODE_LOOKS {
        assert_eq!(change.on_event(ModeEvent::Looked { matches: false }), ModeStep::Look);
    }
    assert_eq!(
        change.on_event(ModeEvent::Looked { matches: false }),
        ModeStep::Try(ModeAttempt::Registry)
    );
    assert_eq!(change.on_event(ModeEvent::Tried { ok: true }), ModeStep::ApplyAll);
    assert_eq!(change.on_event(ModeEvent::Applied { ok: true }), ModeStep::Look);
    assert_eq!(
        change.on_event(ModeEvent::Looked { matches: true }),
        ModeStep::Done { changed: true }
    );
    assert_eq!(
        change.on_event(ModeEvent::Applied { ok: false }),
        ModeStep::Done { changed: false }
    );
    assert_eq!(
        change.on_event(ModeEvent::Tried { ok: false }),
        ModeStep::Done { changed: false }
    );
}
