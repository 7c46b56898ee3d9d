use phantom_server::diagnostics::{
    enumerate_device_modes, print_windows_display_diagnostics, OfferedMode, VirtualDisplay,
};
use phantom_server::display_ccd::{
    active_config_summary_from_topology, active_path_count, apply_flags, apply_origin,
    apply_source_resolution, auto_mode_flags, check_single_display, check_strict_retry,
    choose_single_path, find_vdd_path_idx, is_vdd_primary, plan_sole_origin,
    plan_source_resolution, plan_strict_retry, single_path_fields, source_mode_flags,
    source_mode_idx, source_rect_from_topology, source_resolution_matches, CcdError, DisplayMode,
    DisplayPath, OriginPlan, Rect, ResolutionEdit, ResolutionPlan, SourceChange,
    SourceMode, SourcePhase, SourceStep, Topology,
    DISPLAYCONFIG_PATH_MODE_IDX_INVALID,
};
use phantom_server::displays::{
    external_manager_present, find_external_device, find_primary_device, find_vdd_device,
    get_display_origin, primary_display_is_basic, DisplayDevice,
};
use phantom_server::pipeline::{
    nv12_pitch, Backend, Captured, CpuPipeline, EncodeStep, Grab, GrabStep, NvfbcNvencPipeline,
    TickCtx, TickStep,
};
use phantom_server::service::vdd::DisplaySize;

fn path(name: &str, flags: u32, source_mode_raw: u32) -> DisplayPath {
    DisplayPath {
        flags,
        source_mode_raw,
        target_mode_raw: 9,
        target_available: true,
        source_name: Ok(String::from(name)),
    }
}

fn mode(width: u32, height: u32, x: i32, y: i32) -> DisplayMode {
    DisplayMode { source: Some(SourceMode { width, height, x, y }) }
}

fn two_displays() -> Topology {
    Topology {
        paths: vec![path("B", 0, 0), path("A", 1, 1), path("B", 9, 0x0002_ffff)],
        modes: vec![DisplayMode { source: None }, mode(1920, 1080, 0, 0), mode(800, 600, 1920, -5)],
    }
}

#[test]
fn displays_are_found_by_their_names() {
    let topo = two_displays();
    assert_eq!(find_vdd_path_idx(&topo, "A"), Some(1));
    assert_eq!(find_vdd_path_idx(&topo, "B"), Some(2));
    assert_eq!(find_vdd_path_idx(&topo, "b"), None);
    assert_eq!(source_mode_idx(&topo.paths[1]), 1);
    assert_eq!(source_mode_idx(&topo.paths[2]), 2);
    assert!(is_vdd_primary(&topo, "A"));
    assert!(!is_vdd_primary(&topo, "B"));
    assert!(!is_vdd_primary(&topo, "C"));
    assert_eq!(
        source_rect_from_topology(&topo, "B"),
        Some(Rect { x: 1920, y: -5, width: 800, height: 600 })
    );
    assert_eq!(source_rect_from_topology(&topo, "C"), None);
    assert_eq!(active_path_count(&topo), 2);
    assert!(source_resolution_matches(&topo, "A", 1920, 1080));
    assert!(!source_resolution_matches(&topo, "A", 1920, 1081));
}

#[test]
fn a_size_is_set_in_two_tries_at_most() {
    let mut topo = two_displays();
    let edit = ResolutionEdit { path: 2, mode: 2, width: 1280, height: 720 };
    let done = SourceStep::Done { outcome: Ok(()) };
    assert_eq!(SourceChange::new().on_topology(&topo, "B", 800, 600), done);
    let mut change = SourceChange::new();
    assert_eq!(
        change.on_topology(&topo, "B", 1280, 720),
        SourceStep::Apply { edit, allow_changes: true }
    );
    assert_eq!(change.on_topology(&topo, "B", 1280, 720), SourceStep::Look);
    assert_eq!(
        change.on_topology(&topo, "B", 1280, 720),
        SourceStep::Apply { edit, allow_changes: false }
    );
    let mut kept = change;
    let lost = SourceStep::Done { outcome: Err(CcdError::NotKept) };
    assert_eq!(change.on_topology(&topo, "B", 1280, 720), lost);
    assert_eq!(change.phase, SourcePhase::Over);
    apply_source_resolution(&mut topo, edit);
    assert_eq!(kept.on_topology(&topo, "B", 1280, 720), done);
}

#[test]
fn a_first_try_that_fails_is_followed_by_a_second() {
    let topo = two_displays();
    let refused = SourceStep::Done { outcome: Err(CcdError::Refused) };
    assert_eq!(SourceChange::new().on_failure(), refused);
    let mut change = SourceChange::new();
    let _ = change.on_topology(&topo, "B", 1280, 720);
    assert_eq!(change.on_failure(), SourceStep::Look);
    let _ = change.on_topology(&topo, "B", 1280, 720);
    assert_eq!(change.phase, SourcePhase::Strict);
    assert_eq!(change.on_failure(), refused);
    let unknown = SourceStep::Done { outcome: Err(CcdError::PathNotFound) };
    assert_eq!(SourceChange::new().on_topology(&topo, "C", 1, 1), unknown);
}

#[test]
fn a_resize_touches_one_display() {
    let mut topo = two_displays();
    assert_eq!(plan_source_resolution(&topo, "B", 800, 600), Ok(ResolutionPlan::Already));
    let edit = ResolutionEdit { path: 2, mode: 2, width: 1280, height: 720 };
    assert_eq!(plan_source_resolution(&topo, "B", 1280, 720), Ok(ResolutionPlan::Apply(edit)));
    assert_eq!(plan_strict_retry(&topo, "B", 1280, 720), Ok(edit));
    apply_source_resolution(&mut topo, edit);
    assert_eq!(
        source_rect_from_topology(&topo, "B"),
        Some(Rect { x: 1920, y: -5, width: 1280, height: 720 })
    );
    assert_eq!(
        source_rect_from_topology(&topo, "A"),
        Some(Rect { x: 0, y: 0, width: 1920, height: 1080 })
    );
    assert_eq!(topo.paths[2].target_mode_raw, DISPLAYCONFIG_PATH_MODE_IDX_INVALID);
    assert_eq!(topo.paths[1].target_mode_raw, 9);
    assert_eq!(check_strict_retry(&topo, "B", 1280, 720), Ok(()));
    assert_eq!(check_strict_retry(&topo, "B", 800, 600), Err(CcdError::NotKept));
}

#[test]
fn a_resize_needs_a_lit_display_with_a_mode() {
    let mut topo = two_displays();
    assert_eq!(plan_source_resolution(&topo, "C", 1, 1), Err(CcdError::PathNotFound));
    assert_eq!(plan_strict_retry(&topo, "C", 1, 1), Err(CcdError::PathNotFound));
    topo.paths[1].source_mode_raw = 0;
    assert_eq!(
        plan_source_resolution(&topo, "A", 1, 1),
        Err(CcdError::SourceModeMissing { index: 0 })
    );
    topo.paths[1].source_mode_raw = 77;
    assert_eq!(
        plan_strict_retry(&topo, "A", 1, 1),
        Err(CcdError::SourceModeMissing { index: 77 })
    );
}

#[test]
fn only_a_lone_display_is_moved_to_the_corner() {
    let mut topo = two_displays();
    assert_eq!(plan_sole_origin(&topo, "B"), Err(CcdError::NotSole { active: 2 }));
    topo.paths[1].flags = 0;
    assert_eq!(plan_sole_origin(&topo, "A"), Err(CcdError::PathNotFound));
    assert_eq!(plan_sole_origin(&topo, "B"), Ok(OriginPlan::Move { mode: 2 }));
    apply_origin(&mut topo, 2);
    assert_eq!(plan_sole_origin(&topo, "B"), Ok(OriginPlan::Already));
    assert_eq!(
        source_rect_from_topology(&topo, "B"),
        Some(Rect { x: 0, y: 0, width: 800, height: 600 })
    );
    assert_eq!(check_single_display(&topo, "B"), Ok(()));
    assert_eq!(check_single_display(&topo, "A"), Err(CcdError::NotKept));
}

#[test]
fn the_best_path_is_lit_alone() {
    let mut all = Topology {
        paths: vec![path("x", 1, 0), path("v", 0, 0), path("V", 0, 0), path("v", 1, 0)],
        modes: vec![],
    };
    assert_eq!(choose_single_path(&all, "V"), Ok(3));
    all.paths[3].flags = 0;
    all.paths[1].target_available = false;
    assert_eq!(choose_single_path(&all, "v"), Ok(2));
    all.paths[2].source_name = Err(String::from("gone"));
    assert_eq!(choose_single_path(&all, "v"), Ok(3));
    assert_eq!(choose_single_path(&all, "w"), Err(CcdError::NoCandidate));
    assert_eq!(single_path_fields(8), (9, 0xffff_ffff, 0xffff_ffff));
}

#[test]
fn topologies_are_never_saved() {
    assert_eq!(source_mode_flags(true), 0x84a0);
    assert_eq!(source_mode_flags(false), 0x80a0);
    assert_eq!(apply_flags(), (0x80a0, 0x84a0));
    assert_eq!(auto_mode_flags(), (0x84a0, 0x04a0));
}

#[test]
fn topologies_are_listed() {
    let mut topo = two_displays();
    topo.paths[0].source_name = Err(String::from("error 87"));
    assert_eq!(
        active_config_summary_from_topology(&topo),
        [
            "path[0] active=false flags=0x0 raw_source_mode=0x0 source=<source-name: error 87> source-mode-missing idx=0",
            "path[1] active=true flags=0x1 raw_source_mode=0x1 source=A 1920x1080 pos=(0,0)",
            "path[2] active=true flags=0x9 raw_source_mode=0x2FFFF source=B 800x600 pos=(1920,-5)",
        ]
    );
}

fn device(name: &str, description: &str, state: u32, size: Option<(u32, u32)>) -> DisplayDevice {
    DisplayDevice {
        name: String::from(name),
        description: String::from(description),
        state,
        rect: size.map(|(width, height)| Rect { x: 0, y: 0, width, height }),
    }
}

#[test]
fn devices_are_told_apart() {
    let devices = [
        device("a", "Microsoft Basic Display Adapter", 5, None),
        device("b", "NVIDIA", 1, Some((1920, 1080))),
        device("c", "Virtual Display Driver", 5, Some((800, 600))),
        device("d", "Virtual Display Driver", 5, Some((800, 600))),
    ];
    assert_eq!(find_vdd_device(&devices), Some(2));
    assert_eq!(find_primary_device(&devices), Some(2));
    assert_eq!(find_primary_device(&devices[..2]), None);
    assert_eq!(find_vdd_device(&devices[..2]), None);
    assert!(primary_display_is_basic(Some("Microsoft BASIC Display Adapter")));
    assert!(!primary_display_is_basic(Some("NVIDIA")));
    assert!(primary_display_is_basic(None));
}

#[test]
fn displays_of_another_manager_are_found() {
    let devices = [
        device("a", "Virtual Display Driver", 1, Some((7680, 4320))),
        device("b", "Basic Display", 1, Some((7680, 4320))),
        device("c", "NVIDIA", 1, Some((3840, 2160))),
        device("d", "Parsec Virtual Display Adapter", 1, Some((800, 600))),
        device("e", "USB Indirect Display Device", 1, Some((800, 600))),
        device("f", "Some virtual display", 1, None),
    ];
    assert_eq!(find_external_device(&devices, false), Some(4));
    assert_eq!(find_external_device(&devices, true), Some(4));
    assert_eq!(find_external_device(&devices[..3], true), Some(2));
    assert_eq!(find_external_device(&devices[..3], false), None);
    assert!(external_manager_present(true, None));
    assert!(external_manager_present(false, Some(0)));
    assert!(!external_manager_present(false, None));
}

#[test]
fn a_display_is_placed_by_its_size() {
    let monitors = [
        Rect { x: 0, y: 0, width: 1920, height: 1080 },
        Rect { x: 1920, y: 7, width: 800, height: 600 },
        Rect { x: 2720, y: 8, width: 1920, height: 1080 },
    ];
    assert_eq!(get_display_origin(&monitors, 1920, 1080, 0), (0, 0));
    assert_eq!(get_display_origin(&monitors, 1920, 1080, 1), (2720, 8));
    assert_eq!(get_display_origin(&monitors, 1920, 1080, 9), (2720, 8));
    assert_eq!(get_display_origin(&monitors, 800, 600, 1), (1920, 7));
    assert_eq!(get_display_origin(&monitors, 640, 480, 0), (0, 0));
}

#[test]
fn modes_are_listed_once_and_in_order() {
    let m = |width, height, refresh| OfferedMode { width, height, refresh };
    let listed = vec![m(800, 600, 60), m(640, 480, 75), m(800, 600, 60), m(640, 480, 60)];
    assert_eq!(
        enumerate_device_modes(&listed),
        [m(640, 480, 60), m(640, 480, 75), m(800, 600, 60)]
    );
    assert!(enumerate_device_modes(&vec![]).is_empty());
}

#[test]
fn the_display_report_is_complete() {
    let bank = vec![
        DisplaySize { width: 640, height: 480 },
        DisplaySize { width: 1920, height: 1080 },
    ];
    let devices = vec![device("\\\\.\\DISPLAY1", "NVIDIA", 0x15, None)];
    let vdd = Some(VirtualDisplay {
        device: String::from("V"),
        primary: true,
        rect: Some(Rect { x: -1, y: 0, width: 640, height: 480 }),
        modes: vec![OfferedMode { width: 640, height: 480, refresh: 60 }],
    });
    assert_eq!(
        print_windows_display_diagnostics(&bank, &devices, &Ok(vec![String::from("path")]), &vdd),
        "Phantom Windows display diagnostics\n  built-in VDD mode bank (2): 640x480, 1920x1080\n\nGDI display devices:\n  [0] name=\\\\.\\DISPLAY1 desc=NVIDIA state=0x15\n\nCCD active topology:\n  path\n\nManaged VDD:\n  device: V\n  primary: true\n  rect: 640x480 at (-1,0)\n  advertised modes (1):\n    640x480@60\n"
    );
    assert_eq!(
        print_windows_display_diagnostics(&vec![], &vec![], &Err(String::from("no")), &None),
        "Phantom Windows display diagnostics\n  built-in VDD mode bank (0): \n\nGDI display devices:\n\nCCD active topology:\n  error: no\n\nManaged VDD:\n  <not found>\n"
    );
    let bare = Some(VirtualDisplay {
        device: String::from("V"),
        primary: false,
        rect: None,
        modes: vec![],
    });
    let report = print_windows_display_diagnostics(&vec![], &vec![], &Ok(vec![]), &bare);
    assert!(report.contains("  <none>\n"));
    assert!(report.ends_with(
        "  primary: false\n  rect: <unavailable>\n  advertised modes: <none from EnumDisplaySettingsW>\n"
    ));
}

#[test]
fn pipelines_differ_in_their_ways() {
    let calm = TickCtx { had_input: false, needs_keyframe: true };
    assert_eq!(Backend::Cpu.log_label(), "stats");
    assert_eq!(Backend::NvfbcNvenc.log_label(), "GPU stats");
    assert_eq!(Backend::DxgiNvenc.log_label(), "stats (DXGI\u{2192}NVENC)");
    assert!(Backend::Cpu.tracks_congestion() && !Backend::DxgiNvenc.tracks_congestion());
    assert!(!Backend::Cpu.prepare() && Backend::NvfbcNvenc.prepare());
    assert_eq!(Backend::Cpu.set_bitrate_kbps(), Ok(()));
    assert_eq!(Backend::NvfbcNvenc.set_bitrate_kbps(), Ok(()));
    assert_eq!(
        Backend::DxgiNvenc.set_bitrate_kbps(),
        Err(String::from("pipeline does not support runtime bitrate change"))
    );
    assert!(Backend::DxgiNvenc.forces_keyframe(&calm) && !Backend::Cpu.forces_keyframe(&calm));
    assert_eq!(nv12_pitch(Some(2048), 1920), 2048);
    assert_eq!(nv12_pitch(None, 1920), 1920);
}

#[test]
fn a_still_screen_is_not_encoded() {
    let calm = TickCtx { had_input: false, needs_keyframe: false };
    let input = TickCtx { had_input: true, needs_keyframe: false };
    let mut p = CpuPipeline::new();
    assert!(!p.asks_differ(&calm));
    assert!(p.on_frame(&calm, false));
    assert_eq!(p.on_diff(&calm, true, true), EncodeStep::Skip);
    assert_eq!(p.on_diff(&calm, false, false), EncodeStep::Skip);
    assert_eq!(p.on_diff(&calm, false, true), EncodeStep::Encode { force_keyframe: true });
    assert!(p.on_encoded(true));
    assert!(!p.on_encoded(true));
    assert!(p.asks_differ(&calm) && !p.asks_differ(&input));
    assert!(!p.on_frame(&calm, false));
    assert!(p.on_frame(&input, false));
    assert!(p.on_frame(&calm, true));
    assert_eq!(p.on_diff(&calm, false, true), EncodeStep::Encode { force_keyframe: false });
    let wanted = TickCtx { had_input: false, needs_keyframe: true };
    assert_eq!(p.on_diff(&wanted, false, true), EncodeStep::Encode { force_keyframe: true });
}

#[test]
fn the_first_frame_that_comes_out_is_a_keyframe() {
    let calm = TickCtx { had_input: false, needs_keyframe: false };
    let seen = |differs, congested, any_dirty| Captured::Frame { differs, congested, any_dirty };
    let forced = TickStep::Encode { force_keyframe: true };
    let mut p = CpuPipeline::new();
    assert_eq!(p.tick(&calm, Captured::Failed), TickStep::Fail);
    assert_eq!(p.tick(&calm, Captured::Nothing), TickStep::Nothing);
    assert_eq!(p, CpuPipeline::new());
    assert_eq!(p.tick(&calm, seen(false, true, true)), TickStep::Nothing);
    assert_eq!(p.tick(&calm, seen(false, false, true)), TickStep::Nothing);
    assert_eq!(p.tick(&calm, seen(true, false, true)), forced);
    // The encoder failed.
    assert_eq!(p.tick(&calm, seen(true, false, true)), forced);
    assert!(p.on_encoded(true));
    assert_eq!(p.tick(&calm, seen(true, false, true)), TickStep::Encode { force_keyframe: false });
    assert_eq!(p.tick(&calm, seen(true, false, false)), TickStep::Nothing);
    let due = TickCtx { had_input: true, needs_keyframe: true };
    assert_eq!(p.tick(&due, seen(false, false, true)), forced);
}

#[test]
fn empty_grabs_slow_down() {
    let calm = TickCtx { had_input: false, needs_keyframe: false };
    let input = TickCtx { had_input: true, needs_keyframe: false };
    let mut p = NvfbcNvencPipeline::new();
    assert_eq!(p.begin_tick(&calm), 0);
    for _ in 0..5 {
        assert_eq!(p.on_grab(Grab::Empty), GrabStep::Nothing { wait_ms: 0 });
    }
    assert_eq!(p.on_grab(Grab::Empty), GrabStep::Nothing { wait_ms: 2 });
    assert_eq!(p.on_grab(Grab::Failed), GrabStep::Nothing { wait_ms: 0 });
    assert_eq!(p.no_frame_count, 6);
    assert_eq!(p.begin_tick(&input), 2);
    assert_eq!(p.no_frame_count, 0);
    assert_eq!(p.on_grab(Grab::Empty), GrabStep::Nothing { wait_ms: 0 });
    assert_eq!(p.on_grab(Grab::Frame), GrabStep::Encode);
    assert_eq!(p.no_frame_count, 0);
    p.no_frame_count = u32::MAX;
    assert_eq!(p.on_grab(Grab::Empty), GrabStep::Nothing { wait_ms: 0 });
}
