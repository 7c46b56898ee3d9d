//! What the command line asks for, and what comes of it.

use crate::agent::display_manager::ProvisioningMode;
use crate::capture::stats::FrameProbeStats;
use crate::clock::{self, SEC};
use crate::media::VideoCodec;
use crate::parse;
use crate::text;
use vstd::prelude::*;
use vstd::string::StringExecFns;

verus! {

/// The system that the server runs on.
#[derive(Debug, Clone, Copy, PartialEq, Eq, Structural)]
pub enum System {
    Linux,
    Windows,
    Other,
}

/// What a look at the GPU found to be best.
pub struct GpuProbe {
    pub best_encoder: String,
    pub best_capture: String,
    pub has_nvenc: bool,
}

/// How the screen is captured and encoded.
pub struct MediaConfig {
    pub encoder: String,
    pub capture: String,
    pub codec: VideoCodec,
}

/// `asked`, unless it leaves the choice open.
pub open spec fn chosen(asked: Seq<char>, best: Seq<char>) -> Seq<char> {
    if asked == "auto"@ {
        best
    } else {
        asked
    }
}

/// The encoder that comes of `asked`.
pub open spec fn encoder_of(asked: Seq<char>, probe: GpuProbe) -> Seq<char> {
    chosen(asked, probe.best_encoder@)
}

/// The capture that comes of `asked`. Where the choice is open a Wayland session
/// is captured through PipeWire. An encoder in main memory needs pictures in main
/// memory, whatever was asked.
pub open spec fn capture_of(
    asked: Seq<char>,
    encoder: Seq<char>,
    probe: GpuProbe,
    wayland: bool,
) -> Seq<char> {
    let first = chosen(
        asked,
        if wayland {
            "pipewire"@
        } else {
            probe.best_capture@
        },
    );
    if encoder == "openh264"@ && (first == "nvfbc"@ || first == "dxgi"@) {
        "scrap"@
    } else {
        first
    }
}

/// The name of a codec that asks for H.264. Where the choice is open it is this
/// one, which every viewer can decode.
pub open spec fn asks_h264(codec: Seq<char>) -> bool {
    codec == "auto"@ || codec == "h264"@ || codec == "H264"@ || codec == "h.264"@
}

pub open spec fn asks_av1(codec: Seq<char>) -> bool {
    codec == "av1"@ || codec == "AV1"@
}

/// What the codec asked for comes to.
pub open spec fn codec_of(asked: Seq<char>, encoder: Seq<char>) -> Result<VideoCodec, Seq<char>> {
    if asks_h264(asked) {
        Ok(VideoCodec::H264)
    } else if asks_av1(asked) {
        if encoder == "nvenc"@ {
            Ok(VideoCodec::Av1)
        } else {
            Err("AV1 codec requires --encoder nvenc (OpenH264 only supports H.264)"@)
        }
    } else {
        Err("unknown codec: "@ + asked + " (supported: auto, h264, av1)"@)
    }
}

/// Whether a session is one of Wayland.
pub fn is_wayland(session_type: Option<&str>, has_wayland_display: bool) -> (wayland: bool)
    ensures
        wayland == (has_wayland_display || (session_type matches Some(t) && t@ == "wayland"@)),
{
    match session_type {
        Some(t) => text::same(t, "wayland") || has_wayland_display,
        None => has_wayland_display,
    }
}

fn pick(asked: &str, best: &str) -> (name: String)
    ensures
        name@ == chosen(asked@, best@),
{
    if text::same(asked, "auto") {
        text::copy(best)
    } else {
        text::copy(asked)
    }
}

/// How the screen is captured and encoded, from what was asked for and what the
/// GPU can do.
pub fn resolve_media_config(
    encoder: &str,
    capture: &str,
    codec: &str,
    probe: &GpuProbe,
    wayland: bool,
) -> (r: Result<MediaConfig, String>)
    ensures
        r is Ok <==> codec_of(codec@, encoder_of(encoder@, *probe)) is Ok,
        r matches Ok(config) ==> {
            &&& config.encoder@ == encoder_of(encoder@, *probe)
            &&& config.capture@ == capture_of(
                capture@,
                encoder_of(encoder@, *probe),
                *probe,
                wayland,
            )
            &&& codec_of(codec@, encoder_of(encoder@, *probe)) == Ok::<VideoCodec, Seq<char>>(
                config.codec,
            )
        },
        r matches Err(message) ==> codec_of(codec@, encoder_of(encoder@, *probe)) == Err::<
            VideoCodec,
            Seq<char>,
        >(message@),
{
    let encoder_name: String = pick(encoder, probe.best_encoder.as_str());
    let best: &str = if wayland {
        "pipewire"
    } else {
        probe.best_capture.as_str()
    };
    let mut capture_name: String = pick(capture, best);
    if text::same(encoder_name.as_str(), "openh264") && (text::same(capture_name.as_str(), "nvfbc")
        || text::same(capture_name.as_str(), "dxgi")) {
        capture_name = String::from_str("scrap");
    }
    if text::same(codec, "auto") || text::same(codec, "h264") || text::same(codec, "H264")
        || text::same(codec, "h.264") {
        return Ok(
            MediaConfig { encoder: encoder_name, capture: capture_name, codec: VideoCodec::H264 },
        );
    }
    if text::same(codec, "av1") || text::same(codec, "AV1") {
        if !text::same(encoder_name.as_str(), "nvenc") {
            return Err(
                String::from_str(
                    "AV1 codec requires --encoder nvenc (OpenH264 only supports H.264)",
                ),
            );
        }
        return Ok(
            MediaConfig { encoder: encoder_name, capture: capture_name, codec: VideoCodec::Av1 },
        );
    }
    let mut message: String = String::from_str("unknown codec: ");
    message.append(codec);
    message.append(" (supported: auto, h264, av1)");
    Err(message)
}

/// Whether capture and encoder form a pipeline that stays on the GPU.
pub open spec fn stays_on_gpu(system: System, capture: Seq<char>, encoder: Seq<char>) -> bool {
    &&& encoder == "nvenc"@
    &&& match system {
        System::Linux => capture == "nvfbc"@,
        System::Windows => capture == "dxgi"@,
        System::Other => false,
    }
}

pub fn use_gpu_pipeline(system: System, config: &MediaConfig) -> (gpu: bool)
    ensures
        gpu == stays_on_gpu(system, config.capture@, config.encoder@),
{
    let nvenc: bool = text::same(config.encoder.as_str(), "nvenc");
    match system {
        System::Linux => text::same(config.capture.as_str(), "nvfbc") && nvenc,
        System::Windows => text::same(config.capture.as_str(), "dxgi") && nvenc,
        System::Other => false,
    }
}

/// The pipeline on the GPU could not be set up: pictures go through main memory,
/// and so does the encoder if the GPU has none.
pub fn gpu_fallback(config: MediaConfig, has_nvenc: bool) -> (fallback: MediaConfig)
    ensures
        fallback.capture@ == "scrap"@,
        fallback.encoder@ == if has_nvenc {
            config.encoder@
        } else {
            "openh264"@
        },
        fallback.codec == config.codec,
{
    MediaConfig {
        encoder: if has_nvenc {
            config.encoder
        } else {
            String::from_str("openh264")
        },
        capture: String::from_str("scrap"),
        codec: config.codec,
    }
}

/// The captures there are to choose from by name.
#[derive(Debug, Clone, Copy, PartialEq, Eq, Structural)]
pub enum CaptureKind {
    Scrap,
    PipeWire,
}

pub open spec fn available_captures(with_wayland: bool) -> Seq<char> {
    if with_wayland {
        "scrap, pipewire, nvfbc"@
    } else {
        "scrap, nvfbc (use with --encoder nvenc for GPU pipeline)"@
    }
}

/// The capture of pictures in main memory that goes by `name`.
pub fn create_capture(name: &str, with_wayland: bool) -> (r: Result<CaptureKind, String>)
    ensures
        r is Ok <==> name@ == "scrap"@ || with_wayland && name@ == "pipewire"@,
        r matches Ok(kind) ==> kind == if name@ == "scrap"@ {
            CaptureKind::Scrap
        } else {
            CaptureKind::PipeWire
        },
        r matches Err(message) ==> message@ == "unknown capture '"@ + name@ + "'. Available: "@
            + available_captures(with_wayland),
{
    if text::same(name, "scrap") {
        return Ok(CaptureKind::Scrap);
    }
    if with_wayland && text::same(name, "pipewire") {
        return Ok(CaptureKind::PipeWire);
    }
    let mut message: String = String::from_str("unknown capture '");
    message.append(name);
    message.append("'. Available: ");
    message.append(
        if with_wayland {
            "scrap, pipewire, nvfbc"
        } else {
            "scrap, nvfbc (use with --encoder nvenc for GPU pipeline)"
        },
    );
    Err(message)
}

/// The encoders there are to choose from by name.
#[derive(Debug, Clone, Copy, PartialEq, Eq, Structural)]
pub enum EncoderKind {
    OpenH264,
    Nvenc,
}

/// The encoder that goes by `name`, if it has the codec.
pub fn create_encoder(name: &str, codec: VideoCodec) -> (r: Result<EncoderKind, String>)
    ensures
        r is Ok <==> name@ == "nvenc"@ || name@ == "openh264"@ && codec == VideoCodec::H264,
        r matches Ok(kind) ==> kind == if name@ == "nvenc"@ {
            EncoderKind::Nvenc
        } else {
            EncoderKind::OpenH264
        },
        r matches Err(message) ==> message@ == if name@ == "openh264"@ {
            "OpenH264 does not support AV1. Use --encoder nvenc for AV1."@
        } else {
            "unknown encoder '"@ + name@ + "'. Available: openh264, nvenc"@
        },
{
    proof {
        reveal_strlit("nvenc");
        reveal_strlit("openh264");
        assert("nvenc"@.len() != "openh264"@.len());
    }
    if text::same(name, "openh264") {
        if codec == VideoCodec::Av1 {
            return Err(
                String::from_str("OpenH264 does not support AV1. Use --encoder nvenc for AV1."),
            );
        }
        return Ok(EncoderKind::OpenH264);
    }
    if text::same(name, "nvenc") {
        return Ok(EncoderKind::Nvenc);
    }
    let mut message: String = String::from_str("unknown encoder '");
    message.append(name);
    message.append("'. Available: openh264, nvenc");
    Err(message)
}

/// How a trial capture goes about it.
#[derive(Debug, PartialEq, Eq)]
pub enum ProbePlan {
    /// Through the GPU; if that fails and the choice was open, through main memory
    /// with the GPU's encoder.
    Gpu { fallback: bool },
    /// Not on this system, for this reason.
    Unavailable(String),
    /// Through main memory.
    CpuVisible,
}

/// How to try out capture and encoder.
pub fn probe_plan(
    system: System,
    config: &MediaConfig,
    asked_capture: &str,
    asked_encoder: &str,
) -> (plan: ProbePlan)
    ensures
        ({
            let nvfbc = config.capture@ == "nvfbc"@ && config.encoder@ == "nvenc"@;
            let dxgi = config.capture@ == "dxgi"@ && config.encoder@ == "nvenc"@;
            let open = asked_capture@ == "auto"@ && asked_encoder@ == "auto"@;
            match plan {
                ProbePlan::Gpu { fallback } => fallback == open && (nvfbc && system is Linux || dxgi
                    && system is Windows),
                ProbePlan::Unavailable(reason) => {
                    ||| nvfbc && !(system is Linux) && reason@
                        == "NVFBC capture is only available on Linux"@
                    ||| dxgi && !(system is Windows) && reason@
                        == "DXGI capture is only available on Windows"@
                },
                ProbePlan::CpuVisible => !nvfbc && !dxgi,
            }
        }),
{
    let nvenc: bool = text::same(config.encoder.as_str(), "nvenc");
    let open: bool = text::same(asked_capture, "auto") && text::same(asked_encoder, "auto");
    if text::same(config.capture.as_str(), "nvfbc") && nvenc {
        return match system {
            System::Linux => ProbePlan::Gpu { fallback: open },
            _ => ProbePlan::Unavailable(
                String::from_str("NVFBC capture is only available on Linux"),
            ),
        };
    }
    if text::same(config.capture.as_str(), "dxgi") && nvenc {
        return match system {
            System::Windows => ProbePlan::Gpu { fallback: open },
            _ => ProbePlan::Unavailable(
                String::from_str("DXGI capture is only available on Windows"),
            ),
        };
    }
    ProbePlan::CpuVisible
}

/// The figures of a frame, as they are printed.
pub open spec fn figures(stats: FrameProbeStats) -> Seq<char> {
    "black_pct="@ + text::decimal(stats.black_pct as nat) + " mean_rgb="@ + text::decimal(
        stats.mean_r as nat,
    ) + ","@ + text::decimal(stats.mean_g as nat) + ","@ + text::decimal(stats.mean_b as nat)
}

fn push_figures(message: &mut String, stats: &FrameProbeStats)
    ensures
        final(message)@ == old(message)@ + figures(*stats),
{
    message.append("black_pct=");
    text::push_decimal(message, stats.black_pct as u64);
    message.append(" mean_rgb=");
    text::push_decimal(message, stats.mean_r as u64);
    message.append(",");
    text::push_decimal(message, stats.mean_g as u64);
    message.append(",");
    text::push_decimal(message, stats.mean_b as u64);
    assert(message@ =~= old(message)@ + figures(*stats));
}

/// The line that a trial capture prints of its frame.
pub fn frame_line(width: u32, height: u32, stats: &FrameProbeStats) -> (line: String)
    ensures
        line@ == "  frame: ok "@ + text::decimal(width as nat) + "x"@ + text::decimal(height as nat)
            + " "@ + figures(*stats),
{
    let mut line: String = String::from_str("  frame: ok ");
    text::push_decimal(&mut line, width as u64);
    line.append("x");
    text::push_decimal(&mut line, height as u64);
    line.append(" ");
    push_figures(&mut line, stats);
    line
}

/// Whether a trial frame shows anything: one that is mostly black fails. `what` says
/// what captured it.
pub fn check_frame(what: &str, stats: &FrameProbeStats) -> (r: Result<(), String>)
    ensures
        r is Err <==> stats.black_pct >= 99 && stats.mean_r < 8 && stats.mean_g < 8 && stats.mean_b
            < 8,
        r matches Err(message) ==> message@ == what@ + " is mostly black ("@ + figures(*stats)
            + ")"@,
{
    if !stats.is_mostly_black() {
        return Ok(());
    }
    let mut message: String = text::copy(what);
    message.append(" is mostly black (");
    push_figures(&mut message, stats);
    message.append(")");
    Err(message)
}

/// How long a trial waits for a frame, in nanoseconds.
pub const PROBE_LIMIT: u64 = 3 * SEC;

/// The pause between two captures of a trial, in milliseconds.
pub const PROBE_PAUSE_MS: u64 = 30;

/// Whether a trial that began at `began` captures at `now` or has waited too long.
pub fn wait_for_probe_frame(began: u64, now: u64) -> (r: Result<(), String>)
    ensures
        r is Ok <==> clock::span(began, now) < PROBE_LIMIT,
        r matches Err(message) ==> message@ == "timed out waiting for a capture frame"@,
{
    if clock::elapsed(began, now) < PROBE_LIMIT {
        Ok(())
    } else {
        Err(String::from_str("timed out waiting for a capture frame"))
    }
}

/// Whether a trial passes: its frame shows something, and the encoder made something of
/// it. `encoded` is how many bytes it made.
pub fn probe_verdict(stats: &FrameProbeStats, encoded: usize) -> (r: Result<(), String>)
    ensures
        r is Ok <==> !(stats.black_pct >= 99 && stats.mean_r < 8 && stats.mean_g < 8
            && stats.mean_b < 8) && encoded > 0,
        r matches Err(message) ==> message@ == if stats.black_pct >= 99 && stats.mean_r < 8
            && stats.mean_g < 8 && stats.mean_b < 8 {
            "captured frame"@ + " is mostly black ("@ + figures(*stats) + ")"@
        } else {
            "encoder produced an empty frame"@
        },
{
    match check_frame("captured frame", stats) {
        Err(message) => Err(message),
        Ok(()) => if encoded == 0 {
            Err(String::from_str("encoder produced an empty frame"))
        } else {
            Ok(())
        },
    }
}

/// The port that is listened on where none is given.
pub const DEFAULT_PORT: u16 = 9900;

/// The port at the end of an address.
pub open spec fn port_of(listen: Seq<char>) -> u16 {
    match parse::number_value(listen.skip(parse::last_place(listen, ':') + 1), 0xffff) {
        Some(port) => port as u16,
        None => DEFAULT_PORT,
    }
}

/// The host before the port of an address.
pub open spec fn host_of(listen: Seq<char>) -> Seq<char> {
    let colon = parse::last_place(listen, ':');
    if colon >= 0 {
        listen.take(colon)
    } else {
        "0.0.0.0"@
    }
}

/// The host and port to listen on.
pub fn listen_on(listen: &str) -> (place: (String, u16))
    ensures
        place.0@ == host_of(listen@),
        place.1 == port_of(listen@),
{
    let chars: Vec<char> = text::chars_of(listen);
    let total: usize = chars.len();
    let colon: Option<usize> = parse::find_last(chars.as_slice(), ':');
    let from: usize = match colon {
        Some(c) => c + 1,
        None => 0,
    };
    let tail: String = text::text_of(chars.as_slice(), from, total);
    let digits: Vec<char> = text::chars_of(tail.as_str());
    assert(digits@ == listen@.skip(parse::last_place(listen@, ':') + 1));
    let port: u16 = match parse::parse_number(digits.as_slice(), 0xffff) {
        Some(p) => {
            assert(p <= 0xffff);
            p as u16
        },
        None => DEFAULT_PORT,
    };
    let host: String = match colon {
        Some(c) => {
            assert(listen@.take(c as int) == listen@.subrange(0, c as int));
            text::text_of(chars.as_slice(), 0, c)
        },
        None => String::from_str("0.0.0.0"),
    };
    (host, port)
}

/// The secret that tokens are signed with, from its hexadecimal digits.
pub fn auth_secret(hex: &str) -> (r: Result<Vec<u8>, String>)
    ensures
        r is Ok <==> parse::is_hex(hex@),
        r matches Ok(secret) ==> secret@ == Seq::new(
            (hex@.len() / 2) as nat,
            |i: int| parse::byte_at(hex@, i)->0,
        ),
        r matches Err(message) ==> message@ == "invalid --auth-secret: expected hex string"@,
{
    match parse::parse_hex(hex) {
        Some(secret) => Ok(secret),
        None => Err(String::from_str("invalid --auth-secret: expected hex string")),
    }
}

/// The transports that are asked for, by name.
pub fn transports(asked: &str) -> (names: Vec<String>)
    ensures
        parse::views(names@) == parse::pieces(asked@, ',').map_values(
            |piece: Seq<char>| parse::trimmed(piece),
        ),
{
    let parts: Vec<String> = parse::split(asked, ',');
    let total: usize = parts.len();
    let mut names: Vec<String> = Vec::new();
    let mut i: usize = 0;
    while i < total
        invariant
            i <= total == parts@.len(),
            parse::views(parts@) == parse::pieces(asked@, ','),
            names@.len() == i,
            forall|j: int|
                0 <= j < i ==> (#[trigger] names@[j])@ == parse::trimmed(
                    parse::pieces(asked@, ',')[j],
                ),
        decreases total - i,
    {
        let name: String = parse::trim(parts[i].as_str());
        assert(parse::views(parts@)[i as int] == parts@[i as int]@);
        names.push(name);
        i = i + 1;
    }
    assert(parts@.len() == parse::views(parts@).len());
    names
}

/// What a transport listens on.
#[derive(Debug, PartialEq, Eq)]
pub enum TransportPlan {
    Tcp { address: String },
    /// The page, the two streams beside it, each on a port of its own.
    Web { page: u16, stream: u16, audio: u16 },
    Quic { address: String },
}

pub open spec fn address_of(host: Seq<char>, port: u16) -> Seq<char> {
    host + ":"@ + text::decimal(port as nat)
}

/// An address as it is written.
pub fn address(host: &str, port: u16) -> (address: String)
    ensures
        address@ == address_of(host@, port),
{
    let mut address: String = text::copy(host);
    address.append(":");
    text::push_decimal(&mut address, port as u64);
    address
}

/// Where the page is, which makes way for other transports where there are any.
pub open spec fn web_port(base: u16, transports: nat) -> int {
    if transports > 1 {
        base + 1
    } else {
        base as int
    }
}

/// What transport `name`, one of `count`, listens on.
pub fn transport_plan(name: &str, count: usize, host: &str, base: u16) -> (r: Result<
    TransportPlan,
    String,
>)
    requires
        name@ == "web"@ ==> web_port(base, count as nat) + 2 <= u16::MAX,
    ensures
        r is Ok <==> name@ == "tcp"@ || name@ == "web"@ || name@ == "quic"@,
        r matches Ok(plan) ==> match plan {
            TransportPlan::Tcp { address } => name@ == "tcp"@ && address@ == address_of(host@, base),
            TransportPlan::Web { page, stream, audio } => {
                &&& name@ == "web"@
                &&& page == web_port(base, count as nat)
                &&& stream == page + 1
                &&& audio == page + 2
            },
            TransportPlan::Quic { address } => name@ == "quic"@ && address@ == address_of(
                host@,
                base,
            ),
        },
        r matches Err(message) ==> message@ == "unknown transport '"@ + name@
            + "'. Available: tcp, web, quic"@,
{
    if text::same(name, "tcp") {
        return Ok(TransportPlan::Tcp { address: address(host, base) });
    }
    if text::same(name, "web") {
        let page: u16 = if count > 1 {
            base + 1
        } else {
            base
        };
        return Ok(TransportPlan::Web { page, stream: page + 1, audio: page + 2 });
    }
    if text::same(name, "quic") {
        return Ok(TransportPlan::Quic { address: address(host, base) });
    }
    let mut message: String = String::from_str("unknown transport '");
    message.append(name);
    message.append("'. Available: tcp, web, quic");
    Err(message)
}

/// The server to ask for the public address, if one is to be asked.
pub fn stun_server(asked: Option<&str>) -> (server: Option<String>)
    ensures
        server is Some <==> asked is Some,
        server matches Some(s) ==> s@ == if asked->0@ == "auto"@ {
            "stun.l.google.com:19302"@
        } else {
            asked->0@
        },
{
    match asked {
        Some(name) => Some(
            if text::same(name, "auto") {
                String::from_str("stun.l.google.com:19302")
            } else {
                text::copy(name)
            },
        ),
        None => None,
    }
}

/// How an installation sets up the displays.
pub fn provisioning_mode(managed: bool, auto: bool) -> (mode: ProvisioningMode)
    ensures
        mode == if managed {
            ProvisioningMode::Managed
        } else if auto {
            ProvisioningMode::Auto
        } else {
            ProvisioningMode::PreserveConsole
        },
{
    if managed {
        ProvisioningMode::Managed
    } else if auto {
        ProvisioningMode::Auto
    } else {
        ProvisioningMode::PreserveConsole
    }
}

/// How often a log begins a new file.
#[derive(Debug, Clone, Copy, PartialEq, Eq, Structural)]
pub enum LogRotation {
    Hourly,
    Daily,
    Never,
}

/// How often a log begins a new file, by name: every day, unless another name is known.
pub fn log_rotation(name: &str) -> (rotation: LogRotation)
    ensures
        rotation == if name@ == "hourly"@ {
            LogRotation::Hourly
        } else if name@ == "never"@ {
            LogRotation::Never
        } else {
            LogRotation::Daily
        },
{
    if text::same(name, "hourly") {
        LogRotation::Hourly
    } else if text::same(name, "never") {
        LogRotation::Never
    } else {
        LogRotation::Daily
    }
}

/// The unit that starts the server with a user's session on Linux.
pub fn systemd_unit(exe: &str) -> (unit: String)
    ensures
        unit@ == "[Unit]\nDescription=Phantom Remote Desktop Server\nAfter=graphical.target\n\n[Service]\nType=simple\nExecStart="@
            + exe@
            + "\nRestart=always\nRestartSec=3\nEnvironment=DISPLAY=:0\n\n[Install]\nWantedBy=default.target\n"@,
{
    let mut unit: String = String::from_str(
        "[Unit]\nDescription=Phantom Remote Desktop Server\nAfter=graphical.target\n\n[Service]\nType=simple\nExecStart=",
    );
    unit.append(exe);
    unit.append(
        "\nRestart=always\nRestartSec=3\nEnvironment=DISPLAY=:0\n\n[Install]\nWantedBy=default.target\n",
    );
    unit
}

/// The name of an agent's log.
pub fn agent_log_name(session: Option<u32>, generation: Option<u64>) -> (name: String)
    ensures
        name@ == "phantom-agent-"@ + text::decimal(
            match session {
                Some(s) => s as nat,
                None => 0,
            },
        ) + "-"@ + text::decimal(
            match generation {
                Some(g) => g as nat,
                None => 0,
            },
        ) + ".log"@,
{
    let mut name: String = String::from_str("phantom-agent-");
    text::push_decimal(
        &mut name,
        match session {
            Some(s) => s as u64,
            None => 0,
        },
    );
    name.append("-");
    text::push_decimal(
        &mut name,
        match generation {
            Some(g) => g,
            None => 0,
        },
    );
    name.append(".log");
    name
}

/// The character `c`, `n` times.
pub open spec fn repeated(c: char, n: nat) -> Seq<char> {
    Seq::new(n, |i: int| c)
}

/// `content` with spaces up to a width of `width` characters.
pub open spec fn padded(content: Seq<char>, width: nat) -> Seq<char> {
    if content.len() < width {
        content + repeated(' ', (width - content.len()) as nat)
    } else {
        content
    }
}

/// One line of the box around a connection code.
pub open spec fn box_line(content: Seq<char>, width: nat) -> Seq<char> {
    "║  "@ + padded(content, width) + "  ║\n"@
}

pub open spec fn box_note() -> Seq<char> {
    "Ensure port forwarding is configured on your router."@
}

pub open spec fn larger(a: nat, b: nat) -> nat {
    if a < b {
        b
    } else {
        a
    }
}

/// The width inside the box: that of its longest line in bytes, and four more.
pub open spec fn box_width(address: Seq<char>) -> nat {
    larger(
        larger(
            parse::utf8_len("phantom://"@ + address),
            parse::utf8_len("phantom-client -c "@ + address),
        ),
        parse::utf8_len(box_note()),
    ) + 4
}

/// What is printed for people who want to connect to `address`.
pub open spec fn connection_code(address: Seq<char>) -> Seq<char> {
    let w = box_width(address);
    let bar = repeated('═', w + 2);
    "\n╔"@ + bar + "╗\n"@ + box_line("phantom://"@ + address, w) + box_line(Seq::empty(), w)
        + box_line("phantom-client -c "@ + address, w) + box_line(Seq::empty(), w) + box_line(
        box_note(),
        w,
    ) + "╚"@ + bar + "╝\n\n"@
}

fn push_repeated(out: &mut String, c: char, n: u64)
    ensures
        final(out)@ == old(out)@ + repeated(c, n as nat),
{
    let mut i: u64 = 0;
    assert(out@ =~= old(out)@ + repeated(c, 0));
    while i < n
        invariant
            i <= n,
            out@ == old(out)@ + repeated(c, i as nat),
        decreases n - i,
    {
        out.push(c);
        i = i + 1;
        assert(out@ =~= old(out)@ + repeated(c, i as nat));
    }
}

fn push_box_line(out: &mut String, content: &str, width: u64)
    ensures
        final(out)@ == old(out)@ + box_line(content@, width as nat),
{
    let chars: Vec<char> = text::chars_of(content);
    let len: u64 = chars.len() as u64;
    out.append("║  ");
    out.append(content);
    if len < width {
        push_repeated(out, ' ', width - len);
    }
    out.append("  ║\n");
    assert(out@ =~= old(out)@ + box_line(content@, width as nat));
}

fn bytes_in(content: &str) -> (n: u64)
    requires
        content@.len() * 4 <= u64::MAX,
    ensures
        n == parse::utf8_len(content@),
{
    let chars: Vec<char> = text::chars_of(content);
    parse::count_bytes(chars.as_slice())
}

/// The connection code for `address`, in its box.
pub fn print_connection_code(address: &str) -> (out: String)
    requires
        address@.len() <= u32::MAX,
    ensures
        out@ == connection_code(address@),
{
    proof {
        reveal_strlit("phantom://");
        reveal_strlit("phantom-client -c ");
        reveal_strlit("Ensure port forwarding is configured on your router.");
        parse::lemma_utf8_len("phantom://"@ + address@);
        parse::lemma_utf8_len("phantom-client -c "@ + address@);
        parse::lemma_utf8_len(box_note());
    }
    let mut code: String = String::from_str("phantom://");
    code.append(address);
    let mut cmd: String = String::from_str("phantom-client -c ");
    cmd.append(address);
    let note: &str = "Ensure port forwarding is configured on your router.";
    let mut longest: u64 = bytes_in(code.as_str());
    let cmd_bytes: u64 = bytes_in(cmd.as_str());
    if longest < cmd_bytes {
        longest = cmd_bytes;
    }
    let note_bytes: u64 = bytes_in(note);
    if longest < note_bytes {
        longest = note_bytes;
    }
    let w: u64 = longest + 4;
    assert(w == box_width(address@));
    let mut out: String = String::from_str("\n╔");
    push_repeated(&mut out, '═', w + 2);
    out.append("╗\n");
    push_box_line(&mut out, code.as_str(), w);
    push_box_line(&mut out, "", w);
    push_box_line(&mut out, cmd.as_str(), w);
    push_box_line(&mut out, "", w);
    push_box_line(&mut out, note, w);
    out.append("╚");
    push_repeated(&mut out, '═', w + 2);
    out.append("╝\n\n");
    proof {
        reveal_strlit("");
        assert(""@ =~= Seq::<char>::empty());
        assert(out@ =~= connection_code(address@));
    }
    out
}

/// An encoder in main memory is never given pictures that only the GPU has.
pub proof fn law_cpu_encoder_gets_cpu_pictures(
    system: System,
    asked: Seq<char>,
    probe: GpuProbe,
    wayland: bool,
)
    ensures
        capture_of(asked, "openh264"@, probe, wayland) != "nvfbc"@,
        capture_of(asked, "openh264"@, probe, wayland) != "dxgi"@,
        !stays_on_gpu(system, capture_of(asked, "openh264"@, probe, wayland), "openh264"@),
{
    reveal_strlit("openh264");
    reveal_strlit("nvenc");
    reveal_strlit("nvfbc");
    reveal_strlit("dxgi");
    reveal_strlit("scrap");
    reveal_strlit("pipewire");
    assert("scrap"@.len() == 5 && "nvfbc"@.len() == 5 && "dxgi"@.len() == 4);
    assert("scrap"@[0] != "nvfbc"@[0]);
    assert("openh264"@.len() != "nvenc"@.len());
}

/// AV1 is never chosen by itself, and never for an encoder that lacks it.
pub proof fn law_av1_is_asked_for(asked: Seq<char>, encoder: Seq<char>)
    requires
        codec_of(asked, encoder) == Ok::<VideoCodec, Seq<char>>(VideoCodec::Av1),
    ensures
        asked != "auto"@,
        encoder == "nvenc"@,
{
}

/// An address that was put together from a host and a port comes apart into them,
/// whatever the host: it may hold colons itself.
pub proof fn law_address_round_trip(host: Seq<char>, port: u16)
    ensures
        host_of(address_of(host, port)) == host,
        port_of(address_of(host, port)) == port,
{
    reveal_strlit(":");
    let address = address_of(host, port);
    let digits = text::decimal(port as nat);
    text::lemma_decimal_is_digits(port as nat);
    lemma_last_colon(host, digits);
    assert(address == host.push(':') + digits);
    assert(address.take(host.len() as int) == host);
    assert(address.skip(host.len() as int + 1) == digits);
    parse::law_number_round_trip(port as nat, 0xffff);
}

proof fn lemma_last_colon(host: Seq<char>, digits: Seq<char>)
    requires
        forall|i: int| 0 <= i < digits.len() ==> '0' <= #[trigger] digits[i] <= '9',
    ensures
        parse::last_place(host.push(':') + digits, ':') == host.len(),
    decreases digits.len(),
{
    let all = host.push(':') + digits;
    if digits.len() == 0 {
        assert(all == host.push(':'));
    } else {
        assert(all.last() == digits[digits.len() - 1]);
        assert(all.drop_last() == host.push(':') + digits.drop_last());
        assert forall|i: int| 0 <= i < digits.drop_last().len() implies '0'
            <= #[trigger] digits.drop_last()[i] <= '9' by {
            assert(digits.drop_last()[i] == digits[i]);
        }
        lemma_last_colon(host, digits.drop_last());
    }
}

/// A capture that is named is used, whatever the GPU can do and whatever session it is:
/// only one on the GPU together with the encoder in main memory is replaced.
pub proof fn law_named_capture_is_used(
    encoder: &str,
    capture: &str,
    codec: &str,
    probe: GpuProbe,
    wayland: bool,
    r: Result<MediaConfig, String>,
)
    requires
        call_ensures(resolve_media_config, (encoder, capture, codec, &probe, wayland), r),
        r is Ok,
        capture@ != "auto"@,
        !(r->Ok_0.encoder@ == "openh264"@ && (capture@ == "nvfbc"@ || capture@ == "dxgi"@)),
    ensures
        r->Ok_0.capture@ == capture@,
{
}

/// An encoder that is named is used; one that is not is the best that the GPU has.
pub proof fn law_named_encoder_is_used(
    encoder: &str,
    capture: &str,
    codec: &str,
    probe: GpuProbe,
    wayland: bool,
    r: Result<MediaConfig, String>,
)
    requires
        call_ensures(resolve_media_config, (encoder, capture, codec, &probe, wayland), r),
        r is Ok,
    ensures
        encoder@ != "auto"@ ==> r->Ok_0.encoder@ == encoder@,
        encoder@ == "auto"@ ==> r->Ok_0.encoder@ == probe.best_encoder@,
{
}

/// Where the capture is left open, a Wayland session is captured through PipeWire and any
/// other by the best that the GPU has. Either way pictures that stay on the GPU never go
/// to the encoder in main memory.
pub proof fn law_open_capture_follows_the_session(
    encoder: &str,
    codec: &str,
    probe: GpuProbe,
    wayland: bool,
    r: Result<MediaConfig, String>,
)
    requires
        call_ensures(resolve_media_config, (encoder, "auto", codec, &probe, wayland), r),
        r is Ok,
    ensures
        wayland ==> r->Ok_0.capture@ == "pipewire"@,
        !wayland && r->Ok_0.encoder@ != "openh264"@ ==> r->Ok_0.capture@ == probe.best_capture@,
        !wayland ==> r->Ok_0.capture@ == probe.best_capture@ || r->Ok_0.capture@ == "scrap"@,
{
    reveal_strlit("pipewire");
    reveal_strlit("nvfbc");
    reveal_strlit("dxgi");
    assert("pipewire"@.len() != "nvfbc"@.len() && "pipewire"@.len() != "dxgi"@.len());
}

/// The encoder in main memory never gets pictures that stay on the GPU, and makes no AV1.
pub proof fn law_main_memory_encoder_gets_its_pictures(
    encoder: &str,
    capture: &str,
    codec: &str,
    probe: GpuProbe,
    wayland: bool,
    r: Result<MediaConfig, String>,
)
    requires
        call_ensures(resolve_media_config, (encoder, capture, codec, &probe, wayland), r),
        r is Ok,
        r->Ok_0.encoder@ == "openh264"@,
    ensures
        r->Ok_0.capture@ != "nvfbc"@,
        r->Ok_0.capture@ != "dxgi"@,
        r->Ok_0.codec is H264,
{
    reveal_strlit("scrap");
    reveal_strlit("nvfbc");
    reveal_strlit("dxgi");
    reveal_strlit("nvenc");
    reveal_strlit("openh264");
    assert("scrap"@.len() == 5 && "dxgi"@.len() == 4 && "nvfbc"@.len() == 5);
    assert("scrap"@[0] != "nvfbc"@[0]);
    assert("nvenc"@.len() != "openh264"@.len());
}

/// A codec is used if it is known and the encoder has it: H.264 always, also where it is
/// left open, AV1 with the GPU's encoder only.
pub proof fn law_codec_needs_its_encoder(
    encoder: &str,
    capture: &str,
    codec: &str,
    probe: GpuProbe,
    wayland: bool,
    r: Result<MediaConfig, String>,
)
    requires
        call_ensures(resolve_media_config, (encoder, capture, codec, &probe, wayland), r),
    ensures
        codec@ == "auto"@ || codec@ == "h264"@ || codec@ == "H264"@ || codec@ == "h.264"@ ==> r is Ok
            && r->Ok_0.codec is H264,
        (codec@ == "av1"@ || codec@ == "AV1"@) && encoder@ == "nvenc"@ ==> r is Ok
            && r->Ok_0.codec is Av1,
        r is Ok && r->Ok_0.codec is Av1 ==> r->Ok_0.encoder@ == "nvenc"@ && (codec@ == "av1"@
            || codec@ == "AV1"@),
        r is Err ==> codec@ != "auto"@ && codec@ != "h264"@,
{
    lemma_codec_names();
    reveal_strlit("nvenc");
    reveal_strlit("auto");
    assert("nvenc"@.len() != "auto"@.len());
}

proof fn lemma_codec_names()
    ensures
        !asks_h264("av1"@),
        !asks_h264("AV1"@),
{
    reveal_strlit("auto");
    reveal_strlit("h264");
    reveal_strlit("H264");
    reveal_strlit("h.264");
    reveal_strlit("av1");
    reveal_strlit("AV1");
    assert("auto"@.len() == 4 && "h264"@.len() == 4 && "H264"@.len() == 4 && "h.264"@.len() == 5
        && "av1"@.len() == 3 && "AV1"@.len() == 3);
}

/// A session is one of Wayland by its type or by having a display of it, and by nothing
/// else.
pub proof fn law_wayland_is_told_by(kind: Option<&str>, has_display: bool, wayland: bool)
    requires
        call_ensures(is_wayland, (kind, has_display), wayland),
    ensures
        has_display ==> wayland,
        kind matches Some(t) ==> (t@ == "wayland"@ ==> wayland),
        wayland && !has_display ==> (kind matches Some(t) && t@ == "wayland"@),
{
}

/// Pictures stay on the GPU only with its own encoder, and only from the capture that each
/// system has for it; where that fails they go through main memory, and to the encoder
/// there if the GPU has none, with the codec that was chosen.
pub proof fn law_gpu_pipeline_needs_both_ends(
    system: System,
    config: MediaConfig,
    gpu: bool,
    has_nvenc: bool,
    fallback: MediaConfig,
    still: bool,
)
    requires
        call_ensures(use_gpu_pipeline, (system, &config), gpu),
        call_ensures(gpu_fallback, (config, has_nvenc), fallback),
        call_ensures(use_gpu_pipeline, (system, &fallback), still),
    ensures
        gpu ==> config.encoder@ == "nvenc"@,
        gpu && system is Linux ==> config.capture@ == "nvfbc"@,
        gpu && system is Windows ==> config.capture@ == "dxgi"@,
        system is Other ==> !gpu,
        system is Linux && config.encoder@ == "nvenc"@ && config.capture@ == "nvfbc"@ ==> gpu,
        system is Windows && config.encoder@ == "nvenc"@ && config.capture@ == "dxgi"@ ==> gpu,
        fallback.capture@ == "scrap"@,
        fallback.codec == config.codec,
        has_nvenc ==> fallback.encoder@ == config.encoder@,
        !has_nvenc ==> fallback.encoder@ == "openh264"@,
        !still,
{
    reveal_strlit("scrap");
    reveal_strlit("nvfbc");
    reveal_strlit("dxgi");
    assert("scrap"@[0] == 's' && "nvfbc"@[0] == 'n' && "dxgi"@[0] == 'd');
}

/// Captures and encoders are made by name: those in main memory here, PipeWire only where
/// Wayland is supported, and AV1 by the GPU's encoder alone.
pub proof fn law_made_by_name(
    capture: &str,
    with_wayland: bool,
    made: Result<CaptureKind, String>,
    encoder: &str,
    codec: VideoCodec,
    r: Result<EncoderKind, String>,
)
    requires
        call_ensures(create_capture, (capture, with_wayland), made),
        call_ensures(create_encoder, (encoder, codec), r),
    ensures
        capture@ == "scrap"@ ==> made == Ok::<_, String>(CaptureKind::Scrap),
        capture@ == "pipewire"@ && with_wayland ==> made == Ok::<_, String>(CaptureKind::PipeWire),
        made is Ok ==> capture@ == "scrap"@ || capture@ == "pipewire"@ && with_wayland,
        encoder@ == "nvenc"@ ==> r == Ok::<_, String>(EncoderKind::Nvenc),
        encoder@ == "openh264"@ && codec is H264 ==> r == Ok::<_, String>(EncoderKind::OpenH264),
        encoder@ == "openh264"@ && codec is Av1 ==> r is Err,
        encoder@ != "openh264"@ && encoder@ != "nvenc"@ ==> r is Err,
{
    reveal_strlit("scrap");
    reveal_strlit("pipewire");
    reveal_strlit("nvenc");
    reveal_strlit("openh264");
    assert("scrap"@.len() == 5 && "pipewire"@.len() == 8);
    assert("nvenc"@.len() == 5 && "openh264"@.len() == 8);
}

/// A trial goes through the GPU only where a session would, and falls back to main memory
/// only where both ends were left open.
pub proof fn law_trial_goes_as_a_session_would(
    system: System,
    config: MediaConfig,
    capture: &str,
    encoder: &str,
    plan: ProbePlan,
    gpu: bool,
)
    requires
        call_ensures(probe_plan, (system, &config, capture, encoder), plan),
        call_ensures(use_gpu_pipeline, (system, &config), gpu),
    ensures
        plan is Gpu <==> gpu,
        plan matches ProbePlan::Gpu { fallback } ==> (fallback <==> capture@ == "auto"@ && encoder@
            == "auto"@),
        config.encoder@ != "nvenc"@ ==> plan is CpuVisible,
        config.capture@ == "scrap"@ ==> plan is CpuVisible,
        config.encoder@ == "nvenc"@ && config.capture@ == "nvfbc"@ && !(system is Linux)
            ==> plan is Unavailable,
        config.encoder@ == "nvenc"@ && config.capture@ == "dxgi"@ && !(system is Windows)
            ==> plan is Unavailable,
{
    reveal_strlit("scrap");
    reveal_strlit("nvfbc");
    reveal_strlit("dxgi");
    assert("scrap"@[0] == 's' && "nvfbc"@[0] == 'n' && "dxgi"@[0] == 'd');
}

/// A trial fails on a frame that is at least 99 percent black with every mean below eight,
/// on an empty encoding, and after three seconds; and on nothing else.
pub proof fn law_trial_fails_on_black(
    stats: FrameProbeStats,
    what: &str,
    checked: Result<(), String>,
    encoded: usize,
    verdict: Result<(), String>,
    began: u64,
    now: u64,
    waiting: Result<(), String>,
)
    requires
        call_ensures(check_frame, (what, &stats), checked),
        call_ensures(probe_verdict, (&stats, encoded), verdict),
        call_ensures(wait_for_probe_frame, (began, now), waiting),
    ensures
        stats.black_pct < 99 || stats.mean_r >= 8 || stats.mean_g >= 8 || stats.mean_b >= 8
            ==> checked is Ok,
        checked is Ok ==> stats.black_pct < 99 || stats.mean_r >= 8 || stats.mean_g >= 8
            || stats.mean_b >= 8,
        verdict is Ok <==> checked is Ok && encoded != 0,
        waiting is Ok <==> now - began < 3_000_000_000,
{
}

/// Of the transports the page makes way for others, with a port of its own and one each
/// for its two streams after it; the others listen at the address that was given.
pub proof fn law_transports_do_not_collide(
    name: &str,
    count: usize,
    host: &str,
    base: u16,
    r: Result<TransportPlan, String>,
)
    requires
        name@ == "web"@ ==> web_port(base, count as nat) + 2 <= u16::MAX,
        call_ensures(transport_plan, (name, count, host, base), r),
    ensures
        r matches Ok(TransportPlan::Web { page, stream, audio }) ==> {
            &&& stream == page + 1 && audio == page + 2
            &&& count <= 1 ==> page == base
            &&& count > 1 ==> page == base + 1
        },
        r matches Ok(TransportPlan::Tcp { address }) ==> address@ == host@ + ":"@ + text::decimal(
            base as nat,
        ),
        r matches Ok(TransportPlan::Quic { address }) ==> address@ == host@ + ":"@ + text::decimal(
            base as nat,
        ),
        r matches Ok(plan) ==> (plan is Web <==> name@ == "web"@) && (plan is Tcp <==> name@
            == "tcp"@) && (plan is Quic <==> name@ == "quic"@),
{
    reveal_strlit("tcp");
    reveal_strlit("web");
    reveal_strlit("quic");
    assert("tcp"@[0] == 't' && "web"@[0] == 'w' && "quic"@[0] == 'q');
}

/// What is listened on: all of an address before its last colon and the number after it;
/// without a colon every address of the machine, and without a number port 9900.
pub proof fn law_address_comes_apart(host: Seq<char>, port: u16, listen: &str, place: (String, u16))
    requires
        call_ensures(listen_on, (listen,), place),
    ensures
        listen@ == host + ":"@ + text::decimal(port as nat) ==> place.0@ == host && place.1 == port,
        parse::last_place(listen@, ':') < 0 ==> place.0@ == "0.0.0.0"@,
        parse::number_value(listen@.skip(parse::last_place(listen@, ':') + 1), 0xffff) is None
            ==> place.1 == 9900,
{
    law_address_round_trip(host, port);
}

/// The server for the public address is the one that is named, or Google's where that is
/// left open, and none where none is asked for.
pub proof fn law_address_server(asked: Option<&str>, server: Option<String>)
    requires
        call_ensures(stun_server, (asked,), server),
    ensures
        asked is None ==> server is None,
        asked matches Some(a) ==> server is Some && (a@ != "auto"@ ==> server->0@ == a@) && (a@
            == "auto"@ ==> server->0@ == "stun.l.google.com:19302"@),
{
}

/// To be managed goes before being set up automatically, and without either the console
/// stays as it is; a log begins anew every day unless it is asked to otherwise.
pub proof fn law_defaults(
    managed: bool,
    auto: bool,
    mode: ProvisioningMode,
    name: &str,
    rotation: LogRotation,
)
    requires
        call_ensures(provisioning_mode, (managed, auto), mode),
        call_ensures(log_rotation, (name,), rotation),
    ensures
        mode is Managed <==> managed,
        mode is Auto <==> auto && !managed,
        mode is PreserveConsole <==> !auto && !managed,
        rotation is Hourly <==> name@ == "hourly"@,
        rotation is Never <==> name@ == "never"@,
        rotation is Daily <==> name@ != "hourly"@ && name@ != "never"@,
{
    reveal_strlit("hourly");
    reveal_strlit("never");
    assert("hourly"@[0] == 'h' && "never"@[0] == 'n');
}

/// A line of the box is as wide as any other: whatever fits is filled up with spaces to
/// the width, and begins with what it holds.
pub proof fn law_lines_of_the_box_are_as_wide(content: Seq<char>, width: nat)
    requires
        content.len() <= width,
    ensures
        padded(content, width).len() == width,
        padded(content, width).take(content.len() as int) == content,
        forall|i: int|
            content.len() <= i < width ==> #[trigger] padded(content, width)[i] == ' ',
{
    assert(padded(content, width).take(content.len() as int) =~= content);
}

} // verus!
