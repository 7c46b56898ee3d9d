use phantom_server::clock::{MS, SEC};
use phantom_server::commands::{judge, Command, OnFailure, Outcome, Verdict};
use phantom_server::ipc::wire::IpcEncodedFrame;
use phantom_server::media::{EncodedFrame, VideoCodec};
use phantom_server::service::control::{
    exit_code, resolution_hint, ControlEvent, ControlReply, ServiceFlags,
};
use phantom_server::service::controls::{
    create_service_session, usable_hint, windows_tier1_fixed_resolution_enabled, DynamicAgentControls,
};
use phantom_server::service::credential_provider::{
    check_sources, install_credential_provider, source_path, uninstall_credential_provider,
};
use phantom_server::service::desktop_kind::{
    active_input_desktop_kind, detect_agent_desktop_kind_raw, is_valid_console_session_id,
    AgentDesktopKind, ConsoleWatch, DesktopDetectDebounce, DesktopKindObservation, DesktopProbe,
    DESKTOP_KIND_STABLE_FOR, PROBE_PERIOD,
};
use phantom_server::service::install::{
    bin_path, check_sc, install_service, kill_other_phantom_server_processes, reboot_needed,
    same_exe, service_is_running, setup_nvidia_gpu, start_service, uninstall_service, GpuSetup, StopStep as Stop,
    StopWait, KILL_POLLS, STOP_POLLS,
};
use phantom_server::service::launch::{
    agent_command_line, desktop_names, find_process_in_session, first_token, get_session_username,
    kill_lingering_agents_for_other_sessions, token_after, token_label, LaunchToken, ProcessEntry,
    ProcessWait, WinProcessHandle,
};
use phantom_server::service::relay::{Relay, RelayStep, NUDGE_PERIOD, REFRESH_PERIOD};
use phantom_server::service::session_manager::{
    next_stop_step, LaunchOutcome, SessionManager, StopStep, Target, UpdateNext, UpdateStep,
    ViewerAttachKey,
};
use phantom_server::service::startup::{
    is_suspicious_transition_keyframe, matches_hint, select_prewarmed, FrameVerdict, StartupWait,
    WaitStep, ATTEMPT_LIMIT, FALLBACK_LIMIT, SUSPICIOUS_LIMIT,
};
use phantom_server::service::vdd::{
    delete_driver, driver_devices, driver_packages, install_driver, judge_install, listed_in,
    ps_download, ps_unzip, remove_device, remove_device_node, still_listed, trust_publisher,
    vdd_device_present, vdd_settings_xml, DriverInstall,
};

const NOW: u64 = 1000 * SEC;

fn frame(width: u32, height: u32, is_keyframe: bool, bytes: usize) -> IpcEncodedFrame {
    IpcEncodedFrame {
        encoded: EncodedFrame { codec: VideoCodec::H264, data: vec![7; bytes], is_keyframe },
        width,
        height,
    }
}

fn args(c: &Command) -> Vec<&str> {
    c.args.iter().map(|a| a.as_str()).collect()
}

#[test]
fn only_a_stop_ends_the_session() {
    let mut flags = ServiceFlags { shutdown: false, cancel: false, session_changed: false };
    assert_eq!(flags.on_control(ControlEvent::Interrogate), ControlReply::NoError);
    assert_eq!(flags.on_control(ControlEvent::Other), ControlReply::NotImplemented);
    assert_eq!(flags.on_control(ControlEvent::SessionChange), ControlReply::NoError);
    assert_eq!(flags, ServiceFlags { shutdown: false, cancel: false, session_changed: true });
    assert_eq!(flags.on_control(ControlEvent::Stop), ControlReply::NoError);
    assert!(flags.shutdown && flags.cancel);
    let mut flags = ServiceFlags { shutdown: false, cancel: false, session_changed: false };
    assert_eq!(flags.on_control(ControlEvent::Shutdown), ControlReply::NoError);
    assert!(flags.shutdown && flags.cancel && !flags.session_changed);
    assert_eq!((exit_code(true), exit_code(false)), (1, 0));
    assert_eq!(resolution_hint(1280, 720), Some((1280, 720)));
    assert_eq!(resolution_hint(0, 720), None);
    assert_eq!(resolution_hint(1280, 0), None);
}

#[test]
fn a_wish_outlives_agents() {
    let mut controls = DynamicAgentControls::new();
    assert!(!controls.request_resolution_change(1280, 720));
    assert!(!controls.forward_input() && !controls.request_paste());
    assert_eq!(controls.update_from_ipc(false, true, None), None);
    assert_eq!(controls.update_from_ipc(true, true, Some(AgentDesktopKind::Winlogon)), None);
    assert!(controls.forward_input() && controls.request_paste());
    assert!(!controls.request_resolution_change(1280, 720));
    assert_eq!(
        controls.update_from_ipc(true, false, Some(AgentDesktopKind::Default)),
        Some((1280, 720))
    );
    assert!(!controls.forward_input());
    assert!(controls.request_resolution_change(800, 600));
    assert_eq!(controls.update_from_ipc(true, true, None), Some((800, 600)));
}

#[test]
fn the_resolution_is_fixed_unless_it_is_asked_for() {
    for yes in ["1", "true", "TRUE", "yes", "YES"] {
        assert!(!windows_tier1_fixed_resolution_enabled(Some(yes)));
    }
    for no in ["", "0", "True", "Yes", "on"] {
        assert!(windows_tier1_fixed_resolution_enabled(Some(no)));
    }
    assert!(windows_tier1_fixed_resolution_enabled(None));
    let hint = Some((800, 600));
    assert_eq!(usable_hint(hint, Some(AgentDesktopKind::Default), false), hint);
    assert_eq!(usable_hint(hint, None, false), hint);
    assert_eq!(usable_hint(hint, Some(AgentDesktopKind::Winlogon), false), None);
    assert_eq!(usable_hint(hint, None, true), None);
    assert_eq!(create_service_session(true, hint, None, false), Ok(hint));
    assert_eq!(create_service_session(true, hint, Some(AgentDesktopKind::Winlogon), false), Ok(None));
    assert_eq!(
        create_service_session(false, hint, None, false),
        Err(String::from(
            "no agent connected \u{2014} cannot capture screen from Session 0 (waiting for user session agent to connect)"
        ))
    );
}

#[test]
fn a_locked_session_is_secure() {
    let default = AgentDesktopKind::Default;
    let winlogon = AgentDesktopKind::Winlogon;
    let seen = |kind, force| DesktopKindObservation { kind, force };
    assert_eq!(
        detect_agent_desktop_kind_raw(Some(true), true, Some(default)),
        seen(winlogon, true)
    );
    assert_eq!(detect_agent_desktop_kind_raw(None, false, None), seen(winlogon, true));
    assert_eq!(
        detect_agent_desktop_kind_raw(Some(false), true, Some(default)),
        seen(default, true)
    );
    assert_eq!(
        detect_agent_desktop_kind_raw(None, true, Some(winlogon)),
        seen(winlogon, false)
    );
    assert_eq!(detect_agent_desktop_kind_raw(None, true, None), seen(default, false));
    assert_eq!(active_input_desktop_kind(&Some(String::from("default"))), Some(default));
    assert_eq!(active_input_desktop_kind(&Some(String::from("Screen-saver"))), Some(winlogon));
    assert_eq!(active_input_desktop_kind(&None), None);
    assert!(is_valid_console_session_id(1));
    assert!(!is_valid_console_session_id(0));
    assert!(!is_valid_console_session_id(0xffff_ffff));
}

#[test]
fn desktops_are_followed_without_flapping() {
    let default = AgentDesktopKind::Default;
    let winlogon = AgentDesktopKind::Winlogon;
    let seen = |kind, force| DesktopKindObservation { kind, force };
    let mut state = DesktopDetectDebounce::new();
    assert_eq!(state.debounce_desktop_kind(1, seen(default, false), NOW), default);
    assert_eq!(state.debounce_desktop_kind(1, seen(winlogon, false), NOW), default);
    assert_eq!(state.debounce_desktop_kind(1, seen(default, false), NOW + 1), default);
    assert_eq!(state.candidate, None);
    let late = NOW + DESKTOP_KIND_STABLE_FOR;
    assert_eq!(state.debounce_desktop_kind(1, seen(winlogon, false), NOW), default);
    assert_eq!(state.debounce_desktop_kind(1, seen(winlogon, false), late - 1), default);
    assert_eq!(state.debounce_desktop_kind(1, seen(winlogon, false), late), winlogon);
    assert_eq!(state.debounce_desktop_kind(1, seen(default, true), late), default);
    assert_eq!(state.debounce_desktop_kind(2, seen(winlogon, false), late), winlogon);
}

#[test]
fn a_change_is_followed_however_often_it_is_seen() {
    let default = AgentDesktopKind::Default;
    let winlogon = AgentDesktopKind::Winlogon;
    let seen = |kind| DesktopKindObservation { kind, force: false };
    let mut state = DesktopDetectDebounce::new();
    state.debounce_desktop_kind(1, seen(default), NOW);
    for part in 0..10 {
        let now = NOW + part * DESKTOP_KIND_STABLE_FOR / 10;
        assert_eq!(state.debounce_desktop_kind(1, seen(winlogon), now), default);
    }
    let late = NOW + DESKTOP_KIND_STABLE_FOR;
    assert_eq!(state.debounce_desktop_kind(1, seen(winlogon), late), winlogon);
    for part in 0..10 {
        let now = late + part * DESKTOP_KIND_STABLE_FOR;
        assert_eq!(state.debounce_desktop_kind(1, seen(default), now), winlogon);
        assert_eq!(state.debounce_desktop_kind(1, seen(winlogon), now), winlogon);
    }
}

#[test]
fn the_console_is_looked_at_now_and_then() {
    let default = AgentDesktopKind::Default;
    let mut probe = DesktopProbe::new(NOW);
    assert!(probe.is_due(1, NOW));
    assert!(!probe.is_due(0, NOW));
    probe.record(1, default, NOW);
    assert!(!probe.is_due(1, NOW + PROBE_PERIOD - 1));
    assert!(probe.is_due(1, NOW + PROBE_PERIOD));
    assert!(probe.is_due(2, NOW));
    assert_eq!(probe.kind_for(1), Some(default));
    assert_eq!(probe.kind_for(2), None);
    assert_eq!(probe.kind_for(0), None);
    assert_eq!(probe.seen, None);
    let mut watch = ConsoleWatch { session_id: 1, kind: None };
    assert!(!watch.observe(1, None));
    assert!(watch.observe(1, Some(default)));
    assert!(watch.observe(2, Some(default)));
    assert!(!watch.observe(2, Some(default)));
    assert!(watch.observe(2, None));
}

#[test]
fn an_agent_is_started_for_what_was_seen_last() {
    let default = AgentDesktopKind::Default;
    let winlogon = AgentDesktopKind::Winlogon;
    let mut m = SessionManager::new();
    assert_eq!(
        m.update(2, winlogon, false),
        UpdateStep { close_ipc: false, stop_agent: true, next: UpdateNext::LookAgain }
    );
    let target = Target { session_id: 3, kind: default };
    assert_eq!(m.on_look_again(3, default), UpdateNext::Launch { target });
    assert!(!m.on_launched(LaunchOutcome { pipes: true, started: true, connected: true }));
    assert!(m.agent && m.ipc);
    assert!(!m.refresh_needed(false, true, 3, Some(default)));
    assert!(!m.update_needed(false, true, 3, Some(default)));
    assert_eq!(
        m.update(3, default, true),
        UpdateStep { close_ipc: false, stop_agent: false, next: UpdateNext::Done }
    );
    assert!(m.refresh_needed(true, true, 3, Some(default)));
    assert!(m.refresh_needed(false, false, 3, Some(default)));
    assert!(m.refresh_needed(false, true, 4, Some(default)));
    assert!(m.refresh_needed(false, true, 3, Some(winlogon)));
    assert!(!m.refresh_needed(false, true, 0, None));
    assert_eq!(
        m.update(3, default, false),
        UpdateStep { close_ipc: true, stop_agent: true, next: UpdateNext::Launch { target } }
    );
    assert!(!m.agent && !m.ipc);
}

#[test]
fn without_a_session_there_is_no_agent() {
    let default = AgentDesktopKind::Default;
    let mut m = SessionManager::new();
    let _ = m.update(2, default, false);
    assert_eq!(m.on_look_again(0xffff_ffff, default), UpdateNext::Done);
    assert_eq!(m.current_desktop_kind, None);
    assert!(m.on_launched(LaunchOutcome { pipes: true, started: true, connected: false }));
    assert!(m.agent && !m.ipc);
    assert_eq!(
        m.update(0, default, false),
        UpdateStep { close_ipc: false, stop_agent: true, next: UpdateNext::Done }
    );
    assert_eq!(m.current_session_id, 0);
    assert_eq!(
        m.update(0, default, false),
        UpdateStep { close_ipc: false, stop_agent: false, next: UpdateNext::Done }
    );
}

#[test]
fn an_agent_that_ends_is_noticed() {
    let mut m = SessionManager::new();
    assert!(!m.check_agent_health(true));
    m.agent = true;
    m.ipc = true;
    assert!(!m.check_agent_health(false));
    assert!(m.check_agent_health(true));
    assert!(!m.agent && !m.ipc);
    m.agent = true;
    assert_eq!(m.kill_agent(), (false, true));
    assert_eq!(m.kill_agent(), (false, false));
    assert_eq!(next_stop_step(StopStep::Wait, false), StopStep::Terminate);
    assert_eq!(next_stop_step(StopStep::Terminate, false), StopStep::Kill);
    assert_eq!(next_stop_step(StopStep::Kill, false), StopStep::Done);
    assert_eq!(next_stop_step(StopStep::Wait, true), StopStep::Done);
}

#[test]
fn a_viewer_is_attached_once_to_each_agent() {
    let mut m = SessionManager {
        agent: true,
        current_session_id: 3,
        current_desktop_kind: Some(AgentDesktopKind::Default),
        ipc: true,
    };
    let mut attached = None;
    assert!(!m.attach_viewer(&mut attached, false));
    assert!(m.attach_viewer(&mut attached, true));
    assert_eq!(
        attached,
        Some(ViewerAttachKey { session_id: 3, kind: Some(AgentDesktopKind::Default) })
    );
    assert!(!m.attach_viewer(&mut attached, true));
    m.current_desktop_kind = Some(AgentDesktopKind::Winlogon);
    let mut elsewhere = attached;
    assert!(!m.release_viewer(&mut elsewhere, true));
    assert_eq!(elsewhere, None);
    assert!(m.attach_viewer(&mut attached, true));
    assert!(m.release_viewer(&mut attached, true));
    assert_eq!(attached, None);
}

#[test]
fn small_keyframes_look_empty() {
    assert!(is_suspicious_transition_keyframe(&frame(640, 480, true, 4095)));
    assert!(!is_suspicious_transition_keyframe(&frame(640, 480, true, 4096)));
    assert!(is_suspicious_transition_keyframe(&frame(1920, 1080, true, 8293)));
    assert!(!is_suspicious_transition_keyframe(&frame(1920, 1080, true, 8294)));
    assert!(is_suspicious_transition_keyframe(&frame(7680, 4320, true, 32767)));
    assert!(!is_suspicious_transition_keyframe(&frame(7680, 4320, true, 32768)));
    assert!(!is_suspicious_transition_keyframe(&frame(u32::MAX, u32::MAX, true, 32768)));
    assert!(matches_hint(&frame(800, 600, false, 0), Some((800, 600))));
    assert!(!matches_hint(&frame(800, 600, false, 0), Some((800, 601))));
    assert!(matches_hint(&frame(800, 600, false, 0), None));
}

#[test]
fn a_session_starts_from_the_last_keyframe_that_fits() {
    let queued = vec![
        frame(800, 600, true, 1),
        frame(800, 600, false, 2),
        frame(640, 480, true, 3),
        frame(640, 480, false, 4),
    ];
    let out = select_prewarmed(Some(frame(640, 480, true, 5)), queued, Some((800, 600)));
    assert_eq!(out.startup.map(|f| f.encoded.data.len()), Some(1));
    assert_eq!(out.fallback.map(|f| f.encoded.data.len()), Some(3));
    let out = select_prewarmed(Some(frame(640, 480, true, 5)), vec![], None);
    assert_eq!(out.startup.map(|f| f.encoded.data.len()), Some(5));
    assert!(out.fallback.is_none());
    let out = select_prewarmed(None, vec![frame(640, 480, false, 4)], None);
    assert!(out.startup.is_none() && out.fallback.is_none());
}

#[test]
fn a_session_waits_for_its_first_keyframe() {
    let hint = Some((800, 600));
    let mut wait = StartupWait::new(None, NOW);
    assert!(matches!(wait.on_frame(frame(800, 600, false, 9000), hint, NOW), FrameVerdict::Skip));
    assert!(matches!(
        wait.on_frame(frame(800, 600, true, 10), hint, NOW),
        FrameVerdict::SkipAndNudge
    ));
    assert!(matches!(
        wait.on_frame(frame(800, 600, true, 10), hint, NOW + SUSPICIOUS_LIMIT - 1),
        FrameVerdict::SkipAndNudge
    ));
    assert!(matches!(
        wait.on_frame(frame(800, 600, true, 10), hint, NOW + SUSPICIOUS_LIMIT),
        FrameVerdict::Start(f) if f.encoded.data.len() == 10
    ));
    let mut wait = StartupWait::new(None, NOW);
    assert!(matches!(
        wait.on_frame(frame(800, 600, true, 5000), hint, NOW),
        FrameVerdict::Start(f) if f.width == 800
    ));
    assert!(matches!(wait.on_frame(frame(640, 480, true, 5000), hint, NOW), FrameVerdict::Skip));
    let (nudge, step) = wait.on_batch_end(NOW + 600 * MS);
    assert!(nudge && matches!(step, WaitStep::Wait));
    let (nudge, step) = wait.on_batch_end(NOW + FALLBACK_LIMIT);
    assert!(!nudge && matches!(step, WaitStep::Wait));
    let (nudge, step) = wait.on_batch_end(NOW + FALLBACK_LIMIT + 1);
    assert!(!nudge && matches!(step, WaitStep::Start(f) if f.width == 640));
}

#[test]
fn a_session_gives_up_in_the_end() {
    let mut wait = StartupWait::new(None, NOW);
    for _ in 0..ATTEMPT_LIMIT {
        assert!(matches!(wait.on_batch_end(NOW).1, WaitStep::Wait));
    }
    assert!(matches!(wait.on_batch_end(NOW).1, WaitStep::GiveUp));
    let mut wait = StartupWait::new(Some(frame(640, 480, true, 5)), NOW);
    for _ in 0..ATTEMPT_LIMIT {
        assert!(matches!(wait.on_batch_end(NOW).1, WaitStep::Wait));
    }
    assert!(matches!(wait.on_batch_end(NOW).1, WaitStep::Start(_)));
}

#[test]
fn a_relay_starts_with_a_keyframe_of_the_agent() {
    let mut relay = Relay::new(800, 600, NOW);
    assert!(relay.refresh_due(NOW));
    assert!(relay.nudge_due(false, NOW));
    assert!(!relay.nudge_due(false, NOW + NUDGE_PERIOD));
    assert!(relay.nudge_due(false, NOW + NUDGE_PERIOD + 1));
    assert_eq!(relay.on_frame(&frame(800, 600, false, 9000)), RelayStep::Drop);
    assert_eq!(relay.on_frame(&frame(800, 600, true, 10)), RelayStep::DropAndNudge);
    assert_eq!(
        relay.on_frame(&frame(800, 600, true, 10)),
        RelayStep::Forward { resized: false }
    );
    assert_eq!(
        relay.on_frame(&frame(640, 480, false, 10)),
        RelayStep::Forward { resized: true }
    );
    assert_eq!(
        relay.on_frame(&frame(640, 480, true, 10)),
        RelayStep::Forward { resized: false }
    );
    assert!(!relay.nudge_due(false, NOW + 10 * SEC));
    assert!(relay.nudge_due(true, NOW + 10 * SEC));
    relay.on_refreshed(NOW + 20 * SEC);
    assert!(!relay.refresh_due(NOW + 20 * SEC + REFRESH_PERIOD - 1));
    assert!(relay.refresh_due(NOW + 20 * SEC + REFRESH_PERIOD));
    assert_eq!(relay.on_frame(&frame(640, 480, false, 9000)), RelayStep::Drop);
    assert_eq!(
        relay.on_frame(&frame(640, 480, true, 9000)),
        RelayStep::Forward { resized: false }
    );
}

#[test]
fn the_service_is_registered_with_its_path() {
    assert_eq!(bin_path("C:\\p\\s.exe"), "\"C:\\p\\s.exe\" --service");
    assert!(same_exe("C:\\P\\S.EXE", "c:\\p\\s.exe"));
    assert!(!same_exe("C:\\P\\S.EXE", "c:\\q\\s.exe"));
    let new = install_service(false, "C:\\s.exe", Some("C:\\dumps"));
    assert_eq!(new.len(), 9);
    assert_eq!(new[0].program, "sc");
    assert_eq!(
        args(&new[0]),
        [
            "create",
            "PhantomServer",
            "binPath=",
            "\"C:\\s.exe\" --service",
            "start=",
            "auto",
            "obj=",
            "LocalSystem",
            "DisplayName=",
            "Phantom Remote Desktop Server",
        ]
    );
    assert_eq!(new[0].on_failure, OnFailure::Stop);
    assert_eq!(
        args(&new[2]),
        [
            "failure",
            "PhantomServer",
            "reset=",
            "86400",
            "actions=",
            "restart/5000/restart/5000/restart/30000",
        ]
    );
    assert_eq!(args(&new[3]), ["failureflag", "PhantomServer", "1"]);
    assert_eq!(new[4].program, "reg");
    assert_eq!(args(&new[4])[2..8], ["/v", "DumpFolder", "/t", "REG_EXPAND_SZ", "/d", "C:\\dumps"]);
    assert_eq!(args(&new[6])[2..8], ["/v", "DumpCount", "/t", "REG_DWORD", "/d", "5"]);
    assert_eq!(new[8].program, "netsh");
    assert_eq!(args(&new[8])[7], "program=C:\\s.exe");
    let again = install_service(true, "C:\\s.exe", None);
    assert_eq!(again.len(), 6);
    assert!(again.iter().all(|command| command.program != "reg"));
    assert_eq!(again[5], new[8]);
    assert_eq!(args(&again[0])[0], "config");
    assert_eq!(args(&again[0]).len(), 8);
}

#[test]
fn a_restart_comes_before_the_service() {
    assert_eq!(start_service(true), None);
    let start = start_service(false).unwrap();
    assert_eq!(start.program, "sc");
    assert_eq!(args(&start), ["start", "PhantomServer"]);
    assert_eq!(start.on_failure, OnFailure::StopUnlessRun);
    assert_eq!(judge(start.on_failure, Outcome::Succeeded), Verdict::GoOn);
    assert_eq!(judge(start.on_failure, Outcome::Failed), Verdict::Tell);
    assert_eq!(judge(start.on_failure, Outcome::NotRun), Verdict::End);
    for outcome in [Outcome::Failed, Outcome::NotRun] {
        assert_eq!(judge(OnFailure::Stop, outcome), Verdict::End);
        assert_eq!(judge(OnFailure::Warn, outcome), Verdict::Tell);
        assert_eq!(judge(OnFailure::Ignore, outcome), Verdict::GoOn);
    }
}

#[test]
fn uninstalling_undoes_installing_and_spares_itself() {
    let gone = uninstall_service(4711);
    assert_eq!(gone.len(), 6);
    assert_eq!(args(&gone[0]), ["stop", "PhantomServer"]);
    assert_eq!(args(&gone[1]), ["/F", "/FI", "SERVICES eq PhantomServer"]);
    assert_eq!(
        args(&gone[2]),
        ["/F", "/FI", "IMAGENAME eq phantom-server.exe", "/FI", "PID ne 4711"]
    );
    assert_eq!(gone[2], kill_other_phantom_server_processes(4711));
    assert_eq!(args(&gone[3]), ["delete", "PhantomServer"]);
    assert_eq!(gone[3].on_failure, OnFailure::Stop);
    assert_eq!(args(&gone[4])[4], "name=PhantomServer");
    assert_eq!(args(&gone[5]), ["/Delete", "/TN", "PhantomServer", "/F"]);
    assert_eq!(check_sc("delete", true, "exit code: 0"), Ok(()));
    assert_eq!(
        check_sc("delete", false, "exit code: 5"),
        Err(String::from("sc delete failed with exit code: 5. Run as Administrator."))
    );
}

#[test]
fn a_service_that_does_not_stop_is_killed() {
    assert!(service_is_running(Some("STATE : 4  RUNNING")));
    assert!(!service_is_running(Some("STATE : 1  STOPPED")));
    assert!(!service_is_running(None));
    let mut wait = StopWait::new();
    for _ in 0..STOP_POLLS {
        assert_eq!(wait.next(), Stop::Look);
        wait.on_running();
    }
    assert_eq!(wait.next(), Stop::Kill);
    wait.on_killed();
    for _ in 0..KILL_POLLS {
        assert_eq!(wait.next(), Stop::Look);
        wait.on_running();
    }
    assert_eq!(
        wait.next(),
        Stop::GiveUp(String::from(
            "existing PhantomServer service is still running after stop/kill"
        ))
    );
}

#[test]
fn the_gpu_is_switched_to_its_display_mode() {
    assert_eq!(setup_nvidia_gpu(None), GpuSetup::NoGpu);
    assert_eq!(setup_nvidia_gpu(Some("  \n")), GpuSetup::NoGpu);
    assert_eq!(
        setup_nvidia_gpu(Some("odd line\n")),
        GpuSetup::Unclear(String::from("odd line"))
    );
    assert_eq!(
        setup_nvidia_gpu(Some("WDDM, NVIDIA A10\n")),
        GpuSetup::Ready { name: String::from("NVIDIA A10") }
    );
    let tcc = setup_nvidia_gpu(Some(" TCC , Tesla T4, 2 "));
    assert_eq!(
        tcc,
        GpuSetup::Switch { name: String::from("Tesla T4, 2"), mode: String::from("TCC") }
    );
    assert!(reboot_needed(&tcc, true));
    assert!(!reboot_needed(&tcc, false));
    assert!(!reboot_needed(&GpuSetup::NoGpu, true));
}

#[test]
fn agents_are_started_with_rights_that_fit() {
    assert_eq!(
        agent_command_line("C:\\s.exe", 3),
        "\"C:\\s.exe\" --agent-mode --ipc-session 3 --listen 127.0.0.1:9910 --no-encrypt"
    );
    assert_eq!(first_token(AgentDesktopKind::Default), LaunchToken::Shell);
    assert_eq!(first_token(AgentDesktopKind::Winlogon), LaunchToken::System);
    assert_eq!(token_after(LaunchToken::Shell), Some(LaunchToken::ActiveUser));
    assert_eq!(token_after(LaunchToken::ActiveUser), Some(LaunchToken::System));
    assert_eq!(token_after(LaunchToken::System), None);
    assert_eq!(
        desktop_names(LaunchToken::System, AgentDesktopKind::Winlogon),
        ["winsta0\\winlogon", "winsta0\\default"]
    );
    assert_eq!(
        desktop_names(LaunchToken::System, AgentDesktopKind::Default),
        ["winsta0\\default"]
    );
    assert_eq!(
        desktop_names(LaunchToken::Shell, AgentDesktopKind::Winlogon),
        ["winsta0\\default"]
    );
    assert_eq!(token_label(LaunchToken::Shell), "explorer shell");
    assert_eq!(token_label(LaunchToken::ActiveUser), "active user");
    assert_eq!(token_label(LaunchToken::System), "SYSTEM");
}

#[test]
fn only_agents_left_behind_are_ended() {
    let process = |exe: &str, pid: u32, parent: u32, session: Option<u32>| ProcessEntry {
        exe: String::from(exe),
        pid,
        parent,
        session,
    };
    let list = vec![
        process("Explorer.EXE", 10, 1, Some(1)),
        process("explorer.exe", 11, 1, Some(2)),
        process("PHANTOM-server.exe", 20, 99, Some(2)),
        process("phantom-server.exe", 21, 99, Some(3)),
        process("phantom-server.exe", 22, 98, Some(2)),
        process("phantom-server.exe", 23, 99, Some(0)),
        process("phantom-server.exe", 24, 99, None),
        process("phantom-server.exe", 99, 99, Some(2)),
        process("other.exe", 25, 99, Some(2)),
    ];
    assert_eq!(kill_lingering_agents_for_other_sessions(&list, 99, 3), [20]);
    assert_eq!(kill_lingering_agents_for_other_sessions(&list, 99, 2), [21]);
    assert_eq!(find_process_in_session(&list, "explorer.exe", 2), Some(11));
    assert_eq!(find_process_in_session(&list, "explorer.exe", 3), None);
}

#[test]
fn processes_are_waited_for() {
    let known = WinProcessHandle { handle_valid: true, pid: 5 };
    let lost = WinProcessHandle { handle_valid: false, pid: 5 };
    assert!(known.known() && !lost.known());
    assert!(known.wait(ProcessWait::Ended));
    assert!(!known.wait(ProcessWait::TimedOut) && !lost.wait(ProcessWait::Ended));
    assert!(known.terminate_and_wait(true, ProcessWait::Ended));
    assert!(!known.terminate_and_wait(false, ProcessWait::Ended));
    assert!(!known.terminate_and_wait(true, ProcessWait::Failed));
    assert_eq!(known.try_wait(ProcessWait::TimedOut, 3), None);
    assert_eq!(known.try_wait(ProcessWait::Ended, 3), Some(3));
    assert_eq!(known.try_wait(ProcessWait::Failed, 3), Some(3));
    assert_eq!(lost.try_wait(ProcessWait::Ended, 3), None);
}

#[test]
fn the_user_of_a_session_is_read() {
    let printed = " SESSIONNAME       USERNAME                 ID  STATE\n services                                    0  Disc\n>console           alice                     2  Active\n rdp-tcp#1         bob                       3  Active\n";
    assert_eq!(get_session_username(printed, 2).as_deref(), Some("alice"));
    assert_eq!(get_session_username(printed, 3).as_deref(), Some("bob"));
    assert_eq!(get_session_username(printed, 0), None);
    assert_eq!(get_session_username(printed, 4), None);
    assert_eq!(get_session_username(" x console 5 Active", 5), None);
}

#[test]
fn the_virtual_display_offers_its_sizes() {
    let xml = vdd_settings_xml();
    assert!(xml.starts_with("<?xml version='1.0' encoding='utf-8'?>\n<vdd_settings>\n"));
    assert!(xml.ends_with("    </options>\n</vdd_settings>"));
    assert_eq!(xml.matches("<resolution>").count(), 14);
    assert!(xml.contains(
        "        <resolution><width>1920</width><height>1080</height><refresh_rate>60</refresh_rate></resolution>\n"
    ));
    assert!(xml.contains("<friendlyname>NVIDIA</friendlyname>"));
}

#[test]
fn the_driver_is_put_on_by_its_tools() {
    let download = ps_download("https://x/y.zip", "C:\\y.zip");
    assert_eq!(download.program, "powershell");
    assert_eq!(download.on_failure, OnFailure::Stop);
    assert!(args(&download).last().unwrap().contains(
        "Invoke-WebRequest -Uri 'https://x/y.zip' -OutFile 'C:\\y.zip' -UseBasicParsing"
    ));
    assert_eq!(
        *args(&ps_unzip("C:\\y.zip", "C:\\y")).last().unwrap(),
        "Expand-Archive -Path 'C:\\y.zip' -DestinationPath 'C:\\y' -Force"
    );
    let trust = trust_publisher("C:\\d.cat");
    assert_eq!(trust.on_failure, OnFailure::Ignore);
    assert!(args(&trust).last().unwrap().contains("ReadAllBytes('C:\\d.cat')"));
    let node = remove_device_node("nefconc.exe", OnFailure::Warn);
    assert_eq!(
        args(&node),
        [
            "--remove-device-node",
            "--hardware-id",
            "Root\\MttVDD",
            "--class-guid",
            "{4D36E968-E325-11CE-BFC1-08002BE10318}",
        ]
    );
    assert_eq!(args(&install_driver("devcon.exe", "a.inf")), ["install", "a.inf", "Root\\MttVDD"]);
    assert_eq!(judge_install(Some(0)), DriverInstall::Installed { reboot: false });
    assert_eq!(judge_install(Some(3010)), DriverInstall::Installed { reboot: true });
    assert_eq!(judge_install(Some(2)), DriverInstall::Failed { code: 2 });
    assert_eq!(judge_install(None), DriverInstall::Failed { code: -1 });
}

#[test]
fn only_the_drivers_devices_and_packages_go() {
    let devices = "Instance ID:                ROOT\\MTTVDD\\0000\r\nDevice Description: x\r\nInstance ID: PCI\\VEN_1\r\n  Instance ID: ROOT\\MttVdd\\0001\n";
    assert_eq!(driver_devices(devices), ["ROOT\\MTTVDD\\0000", "ROOT\\MttVdd\\0001"]);
    assert!(driver_devices("ROOT\\MTTVDD\\0000").is_empty());
    let packages = "Original Name: mttvdd.inf\nPublished Name:     oem7.inf\nOriginal Name:      MttVDD.inf\nProvider Name: mttvdd\nPublished Name: oem8.inf\nOriginal Name: other.inf\nPublished Name: oem9.inf\nOriginal Name: mttvdd.inf\n";
    assert_eq!(driver_packages(packages), ["oem7.inf", "oem9.inf"]);
    assert_eq!(args(&remove_device("A\\B")), ["/remove-device", "A\\B"]);
    assert_eq!(
        args(&delete_driver("oem7.inf")),
        ["/delete-driver", "oem7.inf", "/uninstall", "/force"]
    );
    assert!(still_listed("xx MTTVDD yy"));
    assert!(!still_listed("xx MTT VDD yy"));
}

#[test]
fn the_driver_is_found_whatever_the_case() {
    assert!(vdd_device_present(Some("Virtual Display Driver\nMANUFACTURER: MikeTheTech")));
    assert!(vdd_device_present(Some("VIRTUAL DISPLAY DRIVER \u{c4} MI\u{212a}ETHETECH")));
    assert!(!vdd_device_present(Some("Virtual Display Driver\nManufacturer: Other")));
    assert!(!vdd_device_present(None));
    assert!(listed_in("virtual display driver mikethetech"));
    assert!(!listed_in("Virtual Display Driver MikeTheTech"));
}

#[test]
fn the_logon_module_needs_its_files() {
    assert_eq!(source_path(Some(String::from("a")), String::from("b")), "a");
    assert_eq!(source_path(None, String::from("b")), "b");
    assert_eq!(check_sources("d", true, "r", true), Ok(()));
    assert_eq!(
        check_sources("C:\\d", false, "r", false),
        Err(String::from(
            "phantom_cp.dll not found at C:\\d. Build crates/cred-provider-win first, or pass --cp-dll."
        ))
    );
    assert_eq!(
        check_sources("d", true, "C:\\r", false),
        Err(String::from(
            "phantom_cp.reg not found at C:\\r. Build crates/cred-provider-win first, or pass --cp-reg."
        ))
    );
    assert_eq!(args(&install_credential_provider("C:\\r")), ["import", "C:\\r"]);
    let gone = uninstall_credential_provider();
    assert_eq!(gone.len(), 2);
    assert_eq!(
        args(&gone[1]),
        ["delete", "HKCR\\CLSID\\{ccd145e9-71bb-4e91-a604-2ee449adfd54}", "/f"]
    );
    assert!(gone.iter().all(|c| c.program == "reg" && c.on_failure == OnFailure::Ignore));
}
