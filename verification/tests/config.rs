use phantom_server::agent::display_manager::ProvisioningMode;
use phantom_server::capture::stats::FrameProbeStats;
use phantom_server::config::{
    address, agent_log_name, auth_secret, check_frame, create_capture, create_encoder, frame_line,
    gpu_fallback, is_wayland, listen_on, log_rotation, print_connection_code, probe_plan,
    probe_verdict, provisioning_mode, resolve_media_config, stun_server, systemd_unit, transport_plan, transports,
    use_gpu_pipeline, wait_for_probe_frame, CaptureKind, EncoderKind, GpuProbe, LogRotation, MediaConfig, ProbePlan,
    System, TransportPlan, PROBE_LIMIT,
};
use phantom_server::media::VideoCodec;
use phantom_server::parse::{count_bytes, parse_number, split, split_words, trim};

fn probe() -> GpuProbe {
    GpuProbe {
        best_encoder: "nvenc".to_string(),
        best_capture: "nvfbc".to_string(),
        has_nvenc: true,
    }
}

fn config(encoder: &str, capture: &str) -> MediaConfig {
    MediaConfig {
        encoder: encoder.to_string(),
        capture: capture.to_string(),
        codec: VideoCodec::H264,
    }
}

#[test]
fn open_choices_follow_the_gpu() {
    let c = resolve_media_config("auto", "auto", "auto", &probe(), false).unwrap();
    assert_eq!((c.encoder.as_str(), c.capture.as_str()), ("nvenc", "nvfbc"));
    assert_eq!(c.codec, VideoCodec::H264);
    let w = resolve_media_config("auto", "auto", "AV1", &probe(), true).unwrap();
    assert_eq!(w.capture, "pipewire");
    assert_eq!(w.codec, VideoCodec::Av1);
    let cpu = resolve_media_config("openh264", "auto", "h.264", &probe(), false).unwrap();
    assert_eq!(cpu.capture, "scrap");
    assert_eq!(
        resolve_media_config("openh264", "auto", "av1", &probe(), false).err(),
        Some("AV1 codec requires --encoder nvenc (OpenH264 only supports H.264)".to_string())
    );
    assert_eq!(
        resolve_media_config("auto", "auto", "vp9", &probe(), false).err(),
        Some("unknown codec: vp9 (supported: auto, h264, av1)".to_string())
    );
    assert!(is_wayland(Some("wayland"), false));
    assert!(is_wayland(None, true));
    assert!(!is_wayland(Some("x11"), false));
}

#[test]
fn gpu_pipelines_belong_to_a_system() {
    assert!(use_gpu_pipeline(System::Linux, &config("nvenc", "nvfbc")));
    assert!(!use_gpu_pipeline(System::Windows, &config("nvenc", "nvfbc")));
    assert!(use_gpu_pipeline(System::Windows, &config("nvenc", "dxgi")));
    assert!(!use_gpu_pipeline(System::Other, &config("nvenc", "dxgi")));
    let a = gpu_fallback(config("nvenc", "nvfbc"), true);
    assert_eq!((a.encoder.as_str(), a.capture.as_str()), ("nvenc", "scrap"));
    let b = gpu_fallback(config("nvenc", "nvfbc"), false);
    assert_eq!((b.encoder.as_str(), b.capture.as_str()), ("openh264", "scrap"));
}

#[test]
fn captures_and_encoders_go_by_name() {
    assert_eq!(create_capture("scrap", false), Ok(CaptureKind::Scrap));
    assert_eq!(create_capture("pipewire", true), Ok(CaptureKind::PipeWire));
    assert_eq!(
        create_capture("pipewire", false),
        Err("unknown capture 'pipewire'. Available: scrap, nvfbc (use with --encoder nvenc for GPU pipeline)".to_string())
    );
    assert_eq!(create_encoder("openh264", VideoCodec::H264), Ok(EncoderKind::OpenH264));
    assert_eq!(create_encoder("nvenc", VideoCodec::Av1), Ok(EncoderKind::Nvenc));
    assert_eq!(
        create_encoder("openh264", VideoCodec::Av1),
        Err("OpenH264 does not support AV1. Use --encoder nvenc for AV1.".to_string())
    );
    assert_eq!(
        create_encoder("x", VideoCodec::H264),
        Err("unknown encoder 'x'. Available: openh264, nvenc".to_string())
    );
}

#[test]
fn probes_fall_back_only_from_open_choices() {
    let nvfbc = config("nvenc", "nvfbc");
    assert_eq!(
        probe_plan(System::Linux, &nvfbc, "auto", "auto"),
        ProbePlan::Gpu { fallback: true }
    );
    assert_eq!(
        probe_plan(System::Linux, &nvfbc, "nvfbc", "auto"),
        ProbePlan::Gpu { fallback: false }
    );
    assert_eq!(
        probe_plan(System::Windows, &nvfbc, "auto", "auto"),
        ProbePlan::Unavailable("NVFBC capture is only available on Linux".to_string())
    );
    assert_eq!(
        probe_plan(System::Linux, &config("nvenc", "dxgi"), "auto", "auto"),
        ProbePlan::Unavailable("DXGI capture is only available on Windows".to_string())
    );
    assert_eq!(
        probe_plan(System::Linux, &config("openh264", "scrap"), "auto", "auto"),
        ProbePlan::CpuVisible
    );
    let dark = FrameProbeStats { black_pct: 100, mean_r: 1, mean_g: 2, mean_b: 3 };
    assert_eq!(
        frame_line(640, 480, &dark),
        "  frame: ok 640x480 black_pct=100 mean_rgb=1,2,3"
    );
    assert_eq!(
        check_frame("captured frame", &dark),
        Err("captured frame is mostly black (black_pct=100 mean_rgb=1,2,3)".to_string())
    );
    let fine = FrameProbeStats { black_pct: 98, ..dark };
    assert_eq!(check_frame("captured frame", &fine), Ok(()));
    assert_eq!(probe_verdict(&dark, 10), check_frame("captured frame", &dark));
    assert_eq!(probe_verdict(&fine, 0), Err("encoder produced an empty frame".to_string()));
    assert_eq!(probe_verdict(&fine, 1), Ok(()));
    assert_eq!(wait_for_probe_frame(5, 4 + PROBE_LIMIT), Ok(()));
    assert_eq!(
        wait_for_probe_frame(5, 5 + PROBE_LIMIT),
        Err("timed out waiting for a capture frame".to_string())
    );
}

#[test]
fn addresses_come_apart_and_together() {
    assert_eq!(listen_on("127.0.0.1:8080"), ("127.0.0.1".to_string(), 8080));
    assert_eq!(listen_on("[::1]:443"), ("[::1]".to_string(), 443));
    assert_eq!(listen_on("8080"), ("0.0.0.0".to_string(), 8080));
    assert_eq!(listen_on("host:+81"), ("host".to_string(), 81));
    assert_eq!(listen_on("host:70000"), ("host".to_string(), 9900));
    assert_eq!(listen_on("host:"), ("host".to_string(), 9900));
    assert_eq!(address("::1", 9900), "::1:9900");
    assert_eq!(listen_on(&address("a:b", 65_535)), ("a:b".to_string(), 65_535));
}

#[test]
fn secrets_are_hexadecimal() {
    assert_eq!(auth_secret("00ffA9"), Ok(vec![0, 255, 0xa9]));
    assert_eq!(auth_secret("+f"), Ok(vec![15]));
    assert_eq!(auth_secret(""), Ok(vec![]));
    for text in ["zz0", "0", "\u{e9}", "00\u{e9}", "0\u{e9}0"] {
        assert_eq!(
            auth_secret(text),
            Err("invalid --auth-secret: expected hex string".to_string())
        );
    }
    assert_eq!(
        auth_secret("0g"),
        Err("invalid --auth-secret: expected hex string".to_string())
    );
}

#[test]
fn transports_listen_on_ports_of_their_own() {
    assert_eq!(transports(" tcp, web "), vec!["tcp", "web"]);
    assert_eq!(
        transport_plan("tcp", 2, "0.0.0.0", 9900),
        Ok(TransportPlan::Tcp { address: "0.0.0.0:9900".to_string() })
    );
    assert_eq!(
        transport_plan("web", 2, "0.0.0.0", 9900),
        Ok(TransportPlan::Web { page: 9901, stream: 9902, audio: 9903 })
    );
    assert_eq!(
        transport_plan("web", 1, "0.0.0.0", 9900),
        Ok(TransportPlan::Web { page: 9900, stream: 9901, audio: 9902 })
    );
    assert_eq!(
        transport_plan("quic", 1, "h", 1),
        Ok(TransportPlan::Quic { address: "h:1".to_string() })
    );
    assert_eq!(
        transport_plan("udp", 1, "h", 1),
        Err("unknown transport 'udp'. Available: tcp, web, quic".to_string())
    );
    assert_eq!(stun_server(Some("auto")), Some("stun.l.google.com:19302".to_string()));
    assert_eq!(stun_server(Some("s:1")), Some("s:1".to_string()));
    assert_eq!(stun_server(None), None);
}

#[test]
fn modes_and_names_follow_the_options() {
    assert_eq!(provisioning_mode(true, false), ProvisioningMode::Managed);
    assert_eq!(provisioning_mode(false, true), ProvisioningMode::Auto);
    assert_eq!(provisioning_mode(false, false), ProvisioningMode::PreserveConsole);
    assert_eq!(log_rotation("hourly"), LogRotation::Hourly);
    assert_eq!(log_rotation("never"), LogRotation::Never);
    assert_eq!(log_rotation("weekly"), LogRotation::Daily);
    assert_eq!(agent_log_name(Some(2), Some(7)), "phantom-agent-2-7.log");
    assert_eq!(agent_log_name(None, None), "phantom-agent-0-0.log");
    let unit = systemd_unit("/opt/p");
    assert!(unit.contains("\nExecStart=/opt/p\nRestart=always\n"));
    assert!(unit.ends_with("WantedBy=default.target\n"));
}

#[test]
fn connection_codes_stand_in_a_box() {
    let addr = "203.0.113.7:9900";
    let code = format!("phantom://{addr}");
    let cmd = format!("phantom-client -c {addr}");
    let note = "Ensure port forwarding is configured on your router.";
    let w = code.len().max(cmd.len()).max(note.len()) + 4;
    let bar = "═".repeat(w + 2);
    let want = format!(
        "\n╔{bar}╗\n║  {code:<w$}  ║\n║  {:<w$}  ║\n║  {cmd:<w$}  ║\n║  {:<w$}  ║\n║  {note:<w$}  ║\n╚{bar}╝\n\n",
        "", ""
    );
    assert_eq!(print_connection_code(addr), want);
}

#[test]
fn texts_are_taken_apart() {
    assert_eq!(trim(" \t\u{3000}a b\r\n"), "a b");
    assert_eq!(trim("\u{2003}"), "");
    assert_eq!(split("a,,b,", ','), vec!["a", "", "b", ""]);
    assert_eq!(split("a,,b,", ',').join(","), "a,,b,");
    assert_eq!(split_words("  x  yy\tz "), vec!["x", "yy", "z"]);
    let chars: Vec<char> = "aé€😀".chars().collect();
    assert_eq!(count_bytes(&chars), 10);
    let digits: Vec<char> = "4294967295".chars().collect();
    assert_eq!(parse_number(&digits, u32::MAX), Some(u32::MAX));
    let over: Vec<char> = "4294967296".chars().collect();
    assert_eq!(parse_number(&over, u32::MAX), None);
    assert_eq!(parse_number(&['+'], 9), None);
}
