//! From the screen to an encoded frame, one tick at a time.
//!
//! Three backends capture and encode. What they capture and encode with is the
//! program's; when they do it is decided here.

use vstd::prelude::*;

verus! {

/// What the session tells a pipeline at each tick.
#[derive(Debug, Clone, Copy, PartialEq, Eq, Structural)]
pub struct TickCtx {
    /// There was input since the last tick, so that the screen is likely to have
    /// changed whatever the capture shows.
    pub had_input: bool,
    /// A keyframe is due.
    pub needs_keyframe: bool,
}

/// The kinds of pipeline.
#[derive(Debug, Clone, Copy, PartialEq, Eq, Structural)]
pub enum Backend {
    /// Captured and encoded in main memory.
    Cpu,
    /// Captured and encoded on the GPU, on Linux.
    NvfbcNvenc,
    /// Captured and encoded on the GPU, on Windows.
    DxgiNvenc,
}

impl Backend {
    pub open spec fn spec_label(self) -> Seq<char> {
        match self {
            Backend::Cpu => "stats"@,
            Backend::NvfbcNvenc => "GPU stats"@,
            Backend::DxgiNvenc => "stats (DXGI→NVENC)"@,
        }
    }

    /// What the backend's statistics are logged as.
    pub fn log_label(&self) -> (label: &'static str)
        ensures
            label@ == self.spec_label(),
    {
        match self {
            Backend::Cpu => "stats",
            Backend::NvfbcNvenc => "GPU stats",
            Backend::DxgiNvenc => "stats (DXGI→NVENC)",
        }
    }

    /// Frames are skipped when the network cannot take them. A frame that the GPU
    /// has encoded already is not worth skipping.
    pub fn tracks_congestion(&self) -> (tracks: bool)
        ensures
            tracks == (self is Cpu),
    {
        match self {
            Backend::Cpu => true,
            _ => false,
        }
    }

    /// The first frame is made a keyframe before the session starts. In main
    /// memory this happens at the first encode.
    pub fn prepare(&self) -> (force_keyframe: bool)
        ensures
            force_keyframe == !(self is Cpu),
    {
        match self {
            Backend::Cpu => false,
            _ => true,
        }
    }

    /// Whether the bitrate can be changed while the session runs.
    pub fn set_bitrate_kbps(&self) -> (r: Result<(), String>)
        ensures
            r is Err <==> self is DxgiNvenc,
            r matches Err(message) ==> message@
                == "pipeline does not support runtime bitrate change"@,
    {
        match self {
            Backend::DxgiNvenc => Err(
                String::from_str("pipeline does not support runtime bitrate change"),
            ),
            _ => Ok(()),
        }
    }

    /// Whether a GPU pipeline forces a keyframe at the start of a tick.
    pub fn forces_keyframe(&self, ctx: &TickCtx) -> (force: bool)
        ensures
            force == (!(self is Cpu) && ctx.needs_keyframe),
    {
        match self {
            Backend::Cpu => false,
            _ => ctx.needs_keyframe,
        }
    }
}

/// What to do with a frame that differs from the last one.
#[derive(Debug, Clone, Copy, PartialEq, Eq, Structural)]
pub enum EncodeStep {
    Skip,
    Encode { force_keyframe: bool },
}

/// Capture and encode in main memory.
#[derive(Debug, Clone, Copy, PartialEq, Eq, Structural)]
pub struct CpuPipeline {
    /// A frame has been looked at.
    pub sent_first_frame: bool,
    /// A frame has been encoded.
    pub sent_first_frame_encoded: bool,
}

impl CpuPipeline {
    pub fn new() -> (pipeline: CpuPipeline)
        ensures
            pipeline == (CpuPipeline { sent_first_frame: false, sent_first_frame_encoded: false }),
    {
        CpuPipeline { sent_first_frame: false, sent_first_frame_encoded: false }
    }

    /// Whether it has to be found out if the frame differs from the last one.
    pub fn asks_differ(&self, ctx: &TickCtx) -> (ask: bool)
        ensures
            ask == (self.sent_first_frame && !ctx.had_input),
    {
        self.sent_first_frame && !ctx.had_input
    }

    /// A frame was captured; `differs` says whether it differs from the last one,
    /// where that was asked. Says whether to go on with it: the first frame always
    /// counts, and so does one after input.
    pub fn on_frame(&mut self, ctx: &TickCtx, differs: bool) -> (go_on: bool)
        ensures
            go_on == (!old(self).sent_first_frame || ctx.had_input || differs),
            *final(self) == (CpuPipeline {
                sent_first_frame: old(self).sent_first_frame || go_on,
                ..*old(self)
            }),
    {
        if !(!self.sent_first_frame || ctx.had_input || differs) {
            return false;
        }
        self.sent_first_frame = true;
        true
    }

    /// The tiles that changed are known, and whether the network is congested.
    pub fn on_diff(&self, ctx: &TickCtx, congested: bool, any_dirty: bool) -> (step: EncodeStep)
        ensures
            step == if congested || !any_dirty {
                EncodeStep::Skip
            } else {
                EncodeStep::Encode {
                    force_keyframe: ctx.needs_keyframe || !self.sent_first_frame_encoded,
                }
            },
    {
        if congested {
            return EncodeStep::Skip;
        }
        if !any_dirty {
            return EncodeStep::Skip;
        }
        EncodeStep::Encode { force_keyframe: ctx.needs_keyframe || !self.sent_first_frame_encoded }
    }

    /// The frame was encoded: says whether it is the first keyframe.
    pub fn on_encoded(&mut self, is_keyframe: bool) -> (first_keyframe: bool)
        ensures
            first_keyframe == (is_keyframe && !old(self).sent_first_frame_encoded),
            *final(self) == encoded_once(*old(self)),
    {
        let first: bool = is_keyframe && !self.sent_first_frame_encoded;
        self.sent_first_frame_encoded = true;
        first
    }
}

/// How long to wait for the screen to change after input, in milliseconds.
pub const AFTER_INPUT_MS: u64 = 2;

/// How long to wait between grabs that find nothing, in milliseconds.
pub const IDLE_GRAB_MS: u64 = 2;

/// How many grabs in a row may find nothing before it is waited between them.
pub const IDLE_GRABS: u32 = 5;

/// What came of a grab.
#[derive(Debug, Clone, Copy, PartialEq, Eq, Structural)]
pub enum Grab {
    Frame,
    Empty,
    Failed,
}

/// What to do after a grab.
#[derive(Debug, Clone, Copy, PartialEq, Eq, Structural)]
pub enum GrabStep {
    Encode,
    /// No frame this time; wait so many milliseconds first.
    Nothing { wait_ms: u64 },
}

/// Capture and encode on the GPU, on Linux.
#[derive(Debug, Clone, Copy, PartialEq, Eq, Structural)]
pub struct NvfbcNvencPipeline {
    /// How many grabs in a row found nothing, as far as 32 bits count.
    pub no_frame_count: u32,
}

impl NvfbcNvencPipeline {
    pub fn new() -> (pipeline: NvfbcNvencPipeline)
        ensures
            pipeline.no_frame_count == 0,
    {
        NvfbcNvencPipeline { no_frame_count: 0 }
    }

    /// A tick begins: says how long to wait before the grab. After input the screen
    /// gets a moment to change, and empty grabs are counted anew.
    pub fn begin_tick(&mut self, ctx: &TickCtx) -> (wait_ms: u64)
        ensures
            wait_ms == if ctx.had_input {
                AFTER_INPUT_MS
            } else {
                0
            },
            final(self).no_frame_count == if ctx.had_input {
                0
            } else {
                old(self).no_frame_count
            },
    {
        if ctx.had_input {
            self.no_frame_count = 0;
            AFTER_INPUT_MS
        } else {
            0
        }
    }

    /// The screen was grabbed. An error counts for no frame and is not counted.
    pub fn on_grab(&mut self, grab: Grab) -> (step: GrabStep)
        ensures
            match grab {
                Grab::Frame => step is Encode && final(self).no_frame_count == 0,
                Grab::Failed => step == (GrabStep::Nothing { wait_ms: 0 })
                    && final(self).no_frame_count == old(self).no_frame_count,
                Grab::Empty => {
                    &&& final(self).no_frame_count == (old(self).no_frame_count + 1) % 0x1_0000_0000
                    &&& step == (GrabStep::Nothing {
                        wait_ms: if final(self).no_frame_count > IDLE_GRABS {
                            IDLE_GRAB_MS
                        } else {
                            0
                        },
                    })
                },
            },
    {
        match grab {
            Grab::Frame => {
                self.no_frame_count = 0;
                GrabStep::Encode
            },
            Grab::Failed => GrabStep::Nothing { wait_ms: 0 },
            Grab::Empty => {
                self.no_frame_count = if self.no_frame_count == 0xffff_ffff {
                    0
                } else {
                    self.no_frame_count + 1
                };
                let wait_ms: u64 = if self.no_frame_count > IDLE_GRABS {
                    IDLE_GRAB_MS
                } else {
                    0
                };
                GrabStep::Nothing { wait_ms }
            },
        }
    }
}

/// The distance between two rows of a grabbed picture: what the grab says, or the
/// width where it does not.
pub fn nv12_pitch(inferred: Option<u32>, width: u32) -> (pitch: u32)
    ensures
        pitch == match inferred {
            Some(p) => p,
            None => width,
        },
{
    match inferred {
        Some(p) => p,
        None => width,
    }
}

/// What a tick of the pipeline in main memory finds.
#[derive(Debug, Clone, Copy, PartialEq, Eq, Structural)]
pub enum Captured {
    /// The screen could not be captured.
    Failed,
    /// There is no frame.
    Nothing,
    /// There is a frame: whether it differs from the last one, whether the network is
    /// congested, and whether any tile of it changed.
    Frame { differs: bool, congested: bool, any_dirty: bool },
}

/// What a tick of the pipeline in main memory comes to.
#[derive(Debug, Clone, Copy, PartialEq, Eq, Structural)]
pub enum TickStep {
    /// The capture's error is the tick's.
    Fail,
    /// No frame comes out, and the encoder is left alone.
    Nothing,
    /// The frame is encoded, after the encoder was asked for a keyframe if that is due.
    Encode { force_keyframe: bool },
}

/// A tick of the pipeline in main memory: the state after it, and what it comes to.
pub open spec fn cpu_tick(before: CpuPipeline, ctx: TickCtx, captured: Captured) -> (
    CpuPipeline,
    TickStep,
) {
    match captured {
        Captured::Failed => (before, TickStep::Fail),
        Captured::Nothing => (before, TickStep::Nothing),
        Captured::Frame { differs, congested, any_dirty } => {
            let looked = !before.sent_first_frame || ctx.had_input || differs;
            (
                CpuPipeline { sent_first_frame: before.sent_first_frame || looked, ..before },
                if looked && !congested && any_dirty {
                    TickStep::Encode {
                        force_keyframe: ctx.needs_keyframe || !before.sent_first_frame_encoded,
                    }
                } else {
                    TickStep::Nothing
                },
            )
        },
    }
}

/// The state once the frame of a tick was encoded.
pub open spec fn encoded_once(p: CpuPipeline) -> CpuPipeline {
    CpuPipeline { sent_first_frame_encoded: true, ..p }
}

impl CpuPipeline {
    /// One tick, up to the encoder. What need not be known of a frame may be said
    /// either way.
    pub fn tick(&mut self, ctx: &TickCtx, captured: Captured) -> (step: TickStep)
        ensures
            (*final(self), step) == cpu_tick(*old(self), *ctx, captured),
    {
        match captured {
            Captured::Failed => TickStep::Fail,
            Captured::Nothing => TickStep::Nothing,
            Captured::Frame { differs, congested, any_dirty } => {
                if !self.on_frame(ctx, differs) {
                    return TickStep::Nothing;
                }
                match self.on_diff(ctx, congested, any_dirty) {
                    EncodeStep::Skip => TickStep::Nothing,
                    EncodeStep::Encode { force_keyframe } => TickStep::Encode { force_keyframe },
                }
            },
        }
    }
}

/// A tick of a session: what the session said, what was found, and whether the
/// encoder made a frame where it was asked for one.
pub struct Tick {
    pub ctx: TickCtx,
    pub captured: Captured,
    pub encodes: bool,
}

/// The state after some ticks of a session.
pub open spec fn state_after(ticks: Seq<Tick>) -> CpuPipeline
    decreases ticks.len(),
{
    if ticks.len() == 0 {
        CpuPipeline { sent_first_frame: false, sent_first_frame_encoded: false }
    } else {
        let tick = ticks.last();
        let (next, step) = cpu_tick(state_after(ticks.drop_last()), tick.ctx, tick.captured);
        if step is Encode && tick.encodes {
            encoded_once(next)
        } else {
            next
        }
    }
}

/// What a tick of a session comes to.
pub open spec fn step_at(ticks: Seq<Tick>, i: int) -> TickStep {
    cpu_tick(state_after(ticks.take(i)), ticks[i].ctx, ticks[i].captured).1
}

/// A frame came out of a tick.
pub open spec fn came_out(ticks: Seq<Tick>, i: int) -> bool {
    step_at(ticks, i) is Encode && ticks[i].encodes
}

/// The state knows whether a frame has come out.
proof fn lemma_came_out(ticks: Seq<Tick>)
    ensures
        state_after(ticks).sent_first_frame_encoded <==> exists|i: int|
            0 <= i < ticks.len() && #[trigger] came_out(ticks, i),
    decreases ticks.len(),
{
    if ticks.len() > 0 {
        let before = ticks.drop_last();
        let n = ticks.len() - 1;
        lemma_came_out(before);
        assert(ticks.take(n) =~= before);
        assert forall|i: int| 0 <= i < n implies #[trigger] came_out(ticks, i) == came_out(
            before,
            i,
        ) by {
            assert(ticks.take(i) =~= before.take(i));
        }
        if state_after(before).sent_first_frame_encoded {
            let i = choose|i: int| 0 <= i < before.len() && #[trigger] came_out(before, i);
            assert(came_out(ticks, i));
        }
        if exists|i: int| 0 <= i < ticks.len() && #[trigger] came_out(ticks, i) {
            let i = choose|i: int| 0 <= i < ticks.len() && #[trigger] came_out(ticks, i);
            if i < n {
                assert(came_out(before, i));
            }
        }
        assert(state_after(ticks).sent_first_frame_encoded ==> came_out(ticks, n)
            || state_after(before).sent_first_frame_encoded);
    }
}

/// A frame that is encoded is forced to be a keyframe exactly if one is due or no frame
/// has come out before, whatever was skipped or failed until then.
pub proof fn law_keyframes_are_forced_when_due(ticks: Seq<Tick>, i: int)
    requires
        0 <= i < ticks.len(),
    ensures
        step_at(ticks, i) matches TickStep::Encode { force_keyframe } ==> (force_keyframe <==> (
        ticks[i].ctx.needs_keyframe || forall|j: int|
            0 <= j < i ==> !#[trigger] came_out(ticks, j))),
{
    let before = ticks.take(i);
    lemma_came_out(before);
    assert forall|j: int| 0 <= j < i implies #[trigger] came_out(ticks, j) == came_out(
        before,
        j,
    ) by {
        assert(ticks.take(j) =~= before.take(j));
    }
    if before.len() > 0 && state_after(before).sent_first_frame_encoded {
        let j = choose|j: int| 0 <= j < before.len() && #[trigger] came_out(before, j);
        assert(came_out(ticks, j));
    }
}

/// The first frame that comes out is forced to be a keyframe, whenever it comes and
/// whatever is skipped before it.
pub proof fn law_first_frame_is_keyframe(before: CpuPipeline, ctx: TickCtx, captured: Captured)
    requires
        !before.sent_first_frame_encoded,
    ensures
        ({
            let (after, step) = cpu_tick(before, ctx, captured);
            &&& step is Encode ==> step == (TickStep::Encode { force_keyframe: true })
            &&& !after.sent_first_frame_encoded
        }),
{
}

/// A screen that does not change costs nothing: without input no frame is encoded
/// that does not differ from the one before.
pub proof fn law_still_screen_is_not_encoded(
    before: CpuPipeline,
    ctx: TickCtx,
    congested: bool,
    any_dirty: bool,
)
    requires
        before.sent_first_frame,
        !ctx.had_input,
    ensures
        cpu_tick(before, ctx, Captured::Frame { differs: false, congested, any_dirty }) == (
            before,
            TickStep::Nothing,
        ),
{
}

/// A tick in main memory: a failed capture fails it; a frame is encoded exactly if it is
/// the first, came after input or differs, the network can take it and something in it
/// changed; it is forced to be a keyframe if one is due or none came out yet.
pub proof fn law_tick_encodes_what_changed(ctx: TickCtx, captured: Captured)
    ensures
        forall|p: &mut CpuPipeline, step: TickStep| #[trigger]
            call_ensures(CpuPipeline::tick, (p, &ctx, captured), step) ==> {
                let (before, after) = (*p, *final(p));
                &&& step is Fail <==> captured is Failed
                &&& captured is Nothing ==> step is Nothing
                &&& captured matches Captured::Frame { differs, congested, any_dirty } ==> {
                    let looked = !before.sent_first_frame || ctx.had_input || differs;
                    &&& step is Encode <==> looked && !congested && any_dirty
                    &&& after.sent_first_frame <==> before.sent_first_frame || looked
                }
                &&& step matches TickStep::Encode { force_keyframe } ==> (force_keyframe
                    <==> ctx.needs_keyframe || !before.sent_first_frame_encoded)
                &&& !(captured is Frame) ==> after == before
                &&& after.sent_first_frame_encoded == before.sent_first_frame_encoded
            },
{
}

/// The parts of a tick do what the tick does: the first frame and one after input need not
/// be looked at for a difference, and only a first frame that is a keyframe is reported as
/// one.
pub proof fn law_parts_of_a_tick(
    p: CpuPipeline,
    fresh: CpuPipeline,
    ctx: TickCtx,
    ask: bool,
    differs: bool,
    congested: bool,
    dirty: bool,
    step: EncodeStep,
    keyframe: bool,
)
    requires
        call_ensures(CpuPipeline::new, (), fresh),
        call_ensures(CpuPipeline::asks_differ, (&p, &ctx), ask),
        call_ensures(CpuPipeline::on_diff, (&p, &ctx, congested, dirty), step),
    ensures
        !fresh.sent_first_frame && !fresh.sent_first_frame_encoded,
        ask <==> p.sent_first_frame && !ctx.had_input,
        step is Skip <==> congested || !dirty,
        step matches EncodeStep::Encode { force_keyframe } ==> (force_keyframe
            <==> ctx.needs_keyframe || !p.sent_first_frame_encoded),
        forall|x: &mut CpuPipeline, go: bool| #[trigger]
            call_ensures(CpuPipeline::on_frame, (x, &ctx, differs), go) ==> {
                &&& go <==> !(*x).sent_first_frame || ctx.had_input || differs
                &&& go ==> (*final(x)).sent_first_frame
                &&& !go ==> *final(x) == *x
            },
        forall|x: &mut CpuPipeline, first: bool| #[trigger]
            call_ensures(CpuPipeline::on_encoded, (x, keyframe), first) ==> {
                &&& first <==> keyframe && !(*x).sent_first_frame_encoded
                &&& (*final(x)).sent_first_frame_encoded
                &&& (*final(x)).sent_first_frame == (*x).sent_first_frame
            },
{
}

/// Only the pipeline in main memory skips frames, only those on the GPU force keyframes at
/// the start and when one is due, and only the one of Windows keeps its bitrate.
pub proof fn law_backends_differ(
    b: Backend,
    ctx: TickCtx,
    tracks: bool,
    prepares: bool,
    bitrate: Result<(), String>,
    forces: bool,
)
    requires
        call_ensures(Backend::tracks_congestion, (&b,), tracks),
        call_ensures(Backend::prepare, (&b,), prepares),
        call_ensures(Backend::set_bitrate_kbps, (&b,), bitrate),
        call_ensures(Backend::forces_keyframe, (&b, &ctx), forces),
    ensures
        tracks <==> b is Cpu,
        prepares <==> b is NvfbcNvenc || b is DxgiNvenc,
        bitrate is Ok <==> b is Cpu || b is NvfbcNvenc,
        forces <==> ctx.needs_keyframe && !(b is Cpu),
{
}

/// After input the screen gets two milliseconds and empty grabs are counted anew; from the
/// sixth in a row on two milliseconds pass between them; a frame ends the row, and an
/// error neither counts nor waits.
pub proof fn law_empty_grabs_slow_down(ctx: TickCtx, grab: Grab)
    ensures
        forall|p: &mut NvfbcNvencPipeline, wait: u64| #[trigger]
            call_ensures(NvfbcNvencPipeline::begin_tick, (p, &ctx), wait) ==> {
                &&& ctx.had_input ==> wait == 2 && (*final(p)).no_frame_count == 0
                &&& !ctx.had_input ==> wait == 0 && (*final(p)).no_frame_count
                    == (*p).no_frame_count
            },
        forall|p: &mut NvfbcNvencPipeline, step: GrabStep| #[trigger]
            call_ensures(NvfbcNvencPipeline::on_grab, (p, grab), step) ==> {
                &&& step is Encode <==> grab is Frame
                &&& grab is Frame ==> (*final(p)).no_frame_count == 0
                &&& grab is Failed ==> step == (GrabStep::Nothing { wait_ms: 0 }) && (*final(p)).no_frame_count == (*p).no_frame_count
                &&& grab is Empty && (*p).no_frame_count < 0xffff_ffff ==> (*final(p)).no_frame_count == (*p).no_frame_count + 1
                &&& grab is Empty && (*p).no_frame_count < 5 ==> step == (GrabStep::Nothing {
                    wait_ms: 0,
                })
                &&& grab is Empty && 5 <= (*p).no_frame_count < 0xffff_ffff ==> step
                    == (GrabStep::Nothing { wait_ms: 2 })
            },
{
}

/// A grab's own row distance counts, and the width where it has none.
pub proof fn law_row_distance(inferred: Option<u32>, width: u32, pitch: u32)
    requires
        call_ensures(nv12_pitch, (inferred, width), pitch),
    ensures
        inferred is Some ==> inferred == Some(pitch),
        inferred is None ==> pitch == width,
{
}

} // verus!
