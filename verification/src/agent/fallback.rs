//! The processor tiers of the agent, on the display that it captures and on no
//! other.

use crate::capture::scrap::DisplayInfo;
use crate::display_ccd::Rect;
use crate::text;
use vstd::prelude::*;

verus! {

/// How to go on with a fallback.
#[derive(Debug, Clone, Copy, PartialEq, Eq, Structural)]
pub enum FallbackStep {
    /// Capture the display with this number.
    Scrap { index: usize },
    /// Capture with GDI.
    Gdi,
    /// Leave it.
    GiveUp,
}

/// What to do with a capture of a display that was just made.
#[derive(Debug, Clone, Copy, PartialEq, Eq, Structural)]
pub enum Placement {
    /// Use it; the display lies here.
    Use { x: i32, y: i32 },
    /// It is not the display that is captured: use GDI.
    Gdi,
    /// It is not the display that is captured: leave it.
    GiveUp,
}

/// What GDI is to capture.
#[derive(Debug)]
pub enum GdiRegion {
    PrimaryMonitor,
    Device { name: String, rect: Rect },
}

/// How GDI's pictures are encoded.
#[derive(Debug, Clone, Copy, PartialEq, Eq, Structural)]
pub struct EncoderSettings {
    pub fps: u16,
    pub bitrate_kbps: u32,
}

/// The display to take where none is asked for: the primary one, or else the
/// first.
pub open spec fn default_display(displays: Seq<DisplayInfo>) -> Option<usize> {
    if exists|i: int| 0 <= i < displays.len() && (#[trigger] displays[i]).is_primary {
        let i = choose|i: int|
            0 <= i < displays.len() && (#[trigger] displays[i]).is_primary && forall|j: int|
                0 <= j < i ==> !(#[trigger] displays[j]).is_primary;
        Some(displays[i].index)
    } else if displays.len() > 0 {
        Some(displays[0].index)
    } else {
        None
    }
}

/// The display to take where none is asked for.
fn pick_default(displays: &[DisplayInfo]) -> (index: Option<usize>)
    ensures
        index == default_display(displays@),
{
    let mut i: usize = 0;
    while i < displays.len()
        invariant
            i <= displays@.len(),
            forall|j: int| 0 <= j < i ==> !(#[trigger] displays@[j]).is_primary,
        decreases displays@.len() - i,
    {
        if displays[i].is_primary {
            proof {
                let c = choose|c: int|
                    0 <= c < displays@.len() && (#[trigger] displays@[c]).is_primary && forall|
                        j: int,
                    |
                        0 <= j < c ==> !(#[trigger] displays@[j]).is_primary;
                assert(displays@[i as int].is_primary);
                assert(c == i);
            }
            return Some(displays[i].index);
        }
        i += 1;
    }
    if displays.len() > 0 {
        Some(displays[0].index)
    } else {
        None
    }
}

/// Which display to capture in place of the GPU tier. With a target it is the
/// target or none; `target_index` is its number, if it could be found.
pub fn choose_scrap_display(
    has_target: bool,
    target_index: Option<usize>,
    displays: &[DisplayInfo],
    allow_gdi: bool,
) -> (step: FallbackStep)
    ensures
        ({
            let index = if has_target {
                target_index
            } else {
                default_display(displays@)
            };
            step == match index {
                Some(index) => FallbackStep::Scrap { index },
                None => if allow_gdi {
                    FallbackStep::Gdi
                } else {
                    FallbackStep::GiveUp
                },
            }
        }),
{
    let index = if has_target {
        target_index
    } else {
        pick_default(displays)
    };
    match index {
        Some(index) => FallbackStep::Scrap { index },
        None => if allow_gdi {
            FallbackStep::Gdi
        } else {
            FallbackStep::GiveUp
        },
    }
}

/// Where a capture of this size lies: at `origin` without a target, and where
/// the target lies if it has the target's size.
pub open spec fn placement_of(
    has_target: bool,
    target_rect: Option<Rect>,
    size: (u32, u32),
    origin: (i32, i32),
    allow_gdi: bool,
) -> Placement {
    if !has_target {
        Placement::Use { x: origin.0, y: origin.1 }
    } else if target_rect is Some && size == (target_rect->0.width, target_rect->0.height) {
        Placement::Use { x: target_rect->0.x, y: target_rect->0.y }
    } else if allow_gdi {
        Placement::Gdi
    } else {
        Placement::GiveUp
    }
}

/// Whether a capture of this size is that of the target, and where it lies.
pub fn place_scrap(
    has_target: bool,
    target_rect: Option<Rect>,
    size: (u32, u32),
    origin: (i32, i32),
    allow_gdi: bool,
) -> (placement: Placement)
    ensures
        placement == placement_of(has_target, target_rect, size, origin, allow_gdi),
{
    if !has_target {
        return Placement::Use { x: origin.0, y: origin.1 };
    }
    if let Some(r) = target_rect {
        if r.width == size.0 && r.height == size.1 {
            return Placement::Use { x: r.x, y: r.y };
        }
    }
    if allow_gdi {
        Placement::Gdi
    } else {
        Placement::GiveUp
    }
}

/// What to do when the display could not be captured.
pub fn on_scrap_unavailable(allow_gdi: bool) -> (step: FallbackStep)
    ensures
        step == if allow_gdi {
            FallbackStep::Gdi
        } else {
            FallbackStep::GiveUp
        },
{
    if allow_gdi {
        FallbackStep::Gdi
    } else {
        FallbackStep::GiveUp
    }
}

/// What GDI may capture: the target where it lies, or the primary screen if
/// there is no target. A target that is dark is not replaced by another
/// display.
pub fn gdi_region(target: Option<&str>, target_rect: Option<Rect>) -> (region: Option<GdiRegion>)
    ensures
        match target {
            Some(name) => match target_rect {
                Some(rect) => region matches Some(GdiRegion::Device { name: n, rect: r }) && n@
                    == name@ && r == rect,
                None => region is None,
            },
            None => region matches Some(GdiRegion::PrimaryMonitor),
        },
{
    match target {
        Some(name) => match target_rect {
            Some(rect) => Some(GdiRegion::Device { name: text::copy(name), rect }),
            None => None,
        },
        None => Some(GdiRegion::PrimaryMonitor),
    }
}

/// How GDI's pictures are encoded: like the other tiers for a user who works
/// on them, and sparingly on the sign-in screen.
pub fn gdi_settings(interactive: bool) -> (settings: EncoderSettings)
    ensures
        settings == if interactive {
            EncoderSettings { fps: 30, bitrate_kbps: 5000 }
        } else {
            EncoderSettings { fps: 15, bitrate_kbps: 2000 }
        },
{
    if interactive {
        EncoderSettings { fps: 30, bitrate_kbps: 5000 }
    } else {
        EncoderSettings { fps: 15, bitrate_kbps: 2000 }
    }
}

/// Which encoder to use: the one on the GPU if it is wanted and could be made,
/// else the one on the processor. `Some(true)` is the GPU's.
pub fn choose_encoder(prefer_nvenc: bool, nvenc_made: bool, openh264_made: bool) -> (encoder: Option<
    bool,
>)
    ensures
        encoder == if prefer_nvenc && nvenc_made {
            Some(true)
        } else if openh264_made {
            Some(false)
        } else {
            None
        },
{
    if prefer_nvenc && nvenc_made {
        Some(true)
    } else if openh264_made {
        Some(false)
    } else {
        None
    }
}

/// How a mode is set through the older interface.
#[derive(Debug, Clone, Copy, PartialEq, Eq, Structural)]
pub enum ModeAttempt {
    /// For now.
    Transient,
    /// In the registry, and then for all displays.
    Registry,
}

/// What to do next about setting a mode.
#[derive(Debug, Clone, Copy, PartialEq, Eq, Structural)]
pub enum ModeStep {
    Try(ModeAttempt),
    /// Apply what the registry holds.
    ApplyAll,
    /// Wait and look which mode the display has.
    Look,
    Done { changed: bool },
}

/// How often to look whether the display has the mode.
pub const MODE_LOOKS: u32 = 20;

/// What happened about setting a mode.
#[derive(Debug, Clone, Copy, PartialEq, Eq, Structural)]
pub enum ModeEvent {
    /// The current mode was read, or could not be.
    Read { ok: bool },
    /// The mode was taken, or refused.
    Tried { ok: bool },
    /// What the registry holds was applied, or refused.
    Applied { ok: bool },
    /// The display has the mode, or has not.
    Looked { matches: bool },
}

/// How far setting a mode has come.
#[derive(Debug, Clone, Copy, PartialEq, Eq, Structural)]
pub struct ModeChange {
    pub attempt: ModeAttempt,
    pub looks: u32,
}

impl ModeChange {
    /// After an attempt that came to nothing.
    pub open spec fn given_up(self) -> (ModeChange, ModeStep) {
        match self.attempt {
            ModeAttempt::Transient => (
                ModeChange { attempt: ModeAttempt::Registry, looks: 0 },
                ModeStep::Try(ModeAttempt::Registry),
            ),
            ModeAttempt::Registry => (self, ModeStep::Done { changed: false }),
        }
    }

    /// After an event.
    pub open spec fn after(self, event: ModeEvent) -> (ModeChange, ModeStep) {
        match event {
            ModeEvent::Read { ok } => if ok {
                (self, ModeStep::Try(self.attempt))
            } else {
                (self, ModeStep::Done { changed: false })
            },
            ModeEvent::Tried { ok } => if !ok {
                self.given_up()
            } else if self.attempt == ModeAttempt::Registry {
                (self, ModeStep::ApplyAll)
            } else {
                (self, ModeStep::Look)
            },
            ModeEvent::Applied { ok } => if ok {
                (self, ModeStep::Look)
            } else {
                self.given_up()
            },
            ModeEvent::Looked { matches } => if matches {
                (self, ModeStep::Done { changed: true })
            } else if self.looks + 1 < MODE_LOOKS {
                (ModeChange { looks: (self.looks + 1) as u32, ..self }, ModeStep::Look)
            } else {
                self.given_up()
            },
        }
    }

    /// Nothing was tried yet.
    pub fn new() -> (change: Self)
        ensures
            change == (ModeChange { attempt: ModeAttempt::Transient, looks: 0 }),
    {
        ModeChange { attempt: ModeAttempt::Transient, looks: 0 }
    }

    /// Give up an attempt.
    fn give_up(&mut self) -> (step: ModeStep)
        ensures
            (*final(self), step) == old(self).given_up(),
    {
        match self.attempt {
            ModeAttempt::Transient => {
                self.attempt = ModeAttempt::Registry;
                self.looks = 0;
                ModeStep::Try(ModeAttempt::Registry)
            },
            ModeAttempt::Registry => ModeStep::Done { changed: false },
        }
    }

    /// Take in what happened and say what to do next.
    pub fn on_event(&mut self, event: ModeEvent) -> (step: ModeStep)
        ensures
            (*final(self), step) == old(self).after(event),
    {
        match event {
            ModeEvent::Read { ok } => if ok {
                ModeStep::Try(self.attempt)
            } else {
                ModeStep::Done { changed: false }
            },
            ModeEvent::Tried { ok } => {
                if !ok {
                    return self.give_up();
                }
                match self.attempt {
                    ModeAttempt::Registry => ModeStep::ApplyAll,
                    ModeAttempt::Transient => ModeStep::Look,
                }
            },
            ModeEvent::Applied { ok } => {
                if !ok {
                    return self.give_up();
                }
                ModeStep::Look
            },
            ModeEvent::Looked { matches } => {
                if matches {
                    return ModeStep::Done { changed: true };
                }
                if self.looks < MODE_LOOKS - 1 {
                    self.looks = self.looks + 1;
                    return ModeStep::Look;
                }
                self.give_up()
            },
        }
    }
}

/// A mode counts as set only when the display was seen to have it.
pub proof fn law_mode_change_is_observed(change: ModeChange, event: ModeEvent)
    ensures
        change.after(event).1 == (ModeStep::Done { changed: true }) <==> event
            == (ModeEvent::Looked { matches: true }),
{
}

/// With a target, the fallback captures the target or nothing: a display of
/// another size or place is never put in its stead.
pub proof fn law_target_is_never_replaced(
    target_rect: Option<Rect>,
    size: (u32, u32),
    origin: (i32, i32),
    allow_gdi: bool,
)
    requires
        placement_of(true, target_rect, size, origin, allow_gdi) is Use,
    ensures
        target_rect matches Some(r) && size == (r.width, r.height) && placement_of(
            true,
            target_rect,
            size,
            origin,
            allow_gdi,
        ) == (Placement::Use { x: r.x, y: r.y }),
{
}

/// With a target its own display is taken or none; without one the primary display, or the
/// first; and where there is none, GDI if it is allowed.
pub proof fn law_fallback_takes_its_display(
    has_target: bool,
    target_index: Option<usize>,
    displays: &[DisplayInfo],
    allow_gdi: bool,
    step: FallbackStep,
    other: FallbackStep,
)
    requires
        call_ensures(choose_scrap_display, (has_target, target_index, displays, allow_gdi), step),
        call_ensures(on_scrap_unavailable, (allow_gdi,), other),
    ensures
        has_target && target_index is Some ==> step == (FallbackStep::Scrap {
            index: target_index->0,
        }),
        has_target && target_index is None ==> step == other,
        !has_target && displays@.len() == 0 ==> step == other,
        !has_target && displays@.len() > 0 ==> step is Scrap,
        !has_target && displays@.len() > 0 && displays@[0].is_primary ==> step
            == (FallbackStep::Scrap { index: displays@[0].index }),
        !has_target && displays@.len() == 1 ==> step == (FallbackStep::Scrap {
            index: displays@[0].index,
        }),
        other is Gdi <==> allow_gdi,
        other is GiveUp <==> !allow_gdi,
{
    let all = displays@;
    if all.len() > 0 && all[0].is_primary {
        let first = choose|i: int|
            0 <= i < all.len() && (#[trigger] all[i]).is_primary && forall|j: int|
                0 <= j < i ==> !(#[trigger] all[j]).is_primary;
        assert(0 <= 0 < all.len() && all[0].is_primary);
        if first > 0 {
            assert(!all[0].is_primary);
        }
    }
}

/// A capture lies where the target lies if it is as large, and is not used otherwise;
/// without a target it lies where it says.
pub proof fn law_capture_lies_at_its_target(
    has_target: bool,
    rect: Option<Rect>,
    size: (u32, u32),
    origin: (i32, i32),
    allow_gdi: bool,
    placement: Placement,
)
    requires
        call_ensures(place_scrap, (has_target, rect, size, origin, allow_gdi), placement),
    ensures
        !has_target ==> placement == (Placement::Use { x: origin.0, y: origin.1 }),
        has_target && rect is None ==> !(placement is Use),
        has_target ==> (rect matches Some(r) ==> {
            &&& r.width == size.0 && r.height == size.1 ==> placement == (Placement::Use {
                x: r.x,
                y: r.y,
            })
            &&& r.width != size.0 || r.height != size.1 ==> !(placement is Use)
        }),
        !(placement is Use) ==> (placement is Gdi <==> allow_gdi),
{
}

/// GDI captures the target where it lies, the primary screen where there is no target, and
/// nothing where the target is dark.
pub proof fn law_gdi_captures_the_target(
    target: Option<&str>,
    rect: Option<Rect>,
    region: Option<GdiRegion>,
)
    requires
        call_ensures(gdi_region, (target, rect), region),
    ensures
        region is None <==> target is Some && rect is None,
        target is None ==> region matches Some(GdiRegion::PrimaryMonitor),
        region matches Some(GdiRegion::Device { name, rect: r }) ==> target is Some && name@
            == target->0@ && rect == Some(r),
{
}

/// Pictures for a user who works on them come at 30 frames per second and five megabits,
/// those of the sign-in screen at half the rate and two; the GPU's encoder is used only
/// where it is wanted and there.
pub proof fn law_sign_in_screen_is_encoded_sparingly(
    user: EncoderSettings,
    signing_in: EncoderSettings,
    prefer: bool,
    nvenc: bool,
    openh264: bool,
    encoder: Option<bool>,
)
    requires
        call_ensures(gdi_settings, (true,), user),
        call_ensures(gdi_settings, (false,), signing_in),
        call_ensures(choose_encoder, (prefer, nvenc, openh264), encoder),
    ensures
        user.fps == 30 && user.bitrate_kbps == 5000,
        2 * signing_in.fps == user.fps && signing_in.bitrate_kbps == 2000,
        encoder == Some(true) <==> prefer && nvenc,
        encoder == Some(false) <==> !(prefer && nvenc) && openh264,
        encoder is None <==> !(prefer && nvenc) && !openh264,
{
}

/// A mode is tried for now and then in the registry, each looked for twenty times; it
/// counts as set only when it is seen.
pub proof fn law_mode_is_tried_both_ways(event: ModeEvent, fresh: ModeChange)
    requires
        call_ensures(ModeChange::new, (), fresh),
    ensures
        fresh.attempt is Transient && fresh.looks == 0,
        forall|c: &mut ModeChange, step: ModeStep| #[trigger]
            call_ensures(ModeChange::on_event, (c, event), step) ==> {
                let (before, after) = (*c, *final(c));
                &&& event == (ModeEvent::Read { ok: false }) ==> step == (ModeStep::Done {
                    changed: false,
                })
                &&& event == (ModeEvent::Read { ok: true }) ==> step == ModeStep::Try(
                    before.attempt,
                ) && after == before
                &&& event == (ModeEvent::Tried { ok: true }) ==> (before.attempt is Registry
                    ==> step is ApplyAll) && (before.attempt is Transient ==> step is Look)
                &&& event == (ModeEvent::Applied { ok: true }) ==> step is Look
                &&& event == (ModeEvent::Looked { matches: true }) ==> step == (ModeStep::Done {
                    changed: true,
                })
                &&& event == (ModeEvent::Looked { matches: false }) && before.looks < 19 ==> step is Look
                    && after.looks == before.looks + 1 && after.attempt == before.attempt
                &&& event == (ModeEvent::Tried { ok: false }) || event == (ModeEvent::Applied {
                    ok: false,
                }) || event == (ModeEvent::Looked { matches: false }) && before.looks >= 19 ==> {
                    &&& before.attempt is Transient ==> step == ModeStep::Try(ModeAttempt::Registry)
                        && after.attempt is Registry && after.looks == 0
                    &&& before.attempt is Registry ==> step == (ModeStep::Done { changed: false })
                }
            },
{
}

} // verus!
