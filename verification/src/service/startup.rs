//! The first frame of a session: a keyframe that shows something, of the size
//! that the viewer asked for if it can be had in time.

use crate::clock::{self, MS};
use crate::ipc::server::IpcServer;
use crate::ipc::wire::IpcEncodedFrame;
use vstd::prelude::*;

verus! {

/// How long keyframes that look empty are passed over.
pub const SUSPICIOUS_LIMIT: u64 = 750 * MS;

/// How long a keyframe of another size is held back.
pub const FALLBACK_LIMIT: u64 = 750 * MS;

/// How often the agent is asked for a keyframe.
pub const NUDGE_PERIOD: u64 = 500 * MS;

/// How many times to look before giving up.
pub const ATTEMPT_LIMIT: u32 = 1000;

/// `x`, no less than `low` and no more than `high`.
pub open spec fn within(x: int, low: int, high: int) -> int {
    if x < low {
        low
    } else if x > high {
        high
    } else {
        x
    }
}

/// How many bytes a keyframe of this size has at least, if it shows something.
pub open spec fn expected_bytes(width: u32, height: u32) -> int {
    within(
        within(width * height, 0, usize::MAX as int) / 250,
        4096,
        32768,
    )
}

/// The keyframe is too small to show something.
pub open spec fn is_suspicious(frame: IpcEncodedFrame) -> bool {
    frame.encoded.data@.len() < expected_bytes(frame.width, frame.height)
}

/// Whether a keyframe is too small to show something, as those are that come
/// while the desktop changes.
pub fn is_suspicious_transition_keyframe(frame: &IpcEncodedFrame) -> (suspicious: bool)
    ensures
        suspicious == is_suspicious(*frame),
{
    let pixels: usize = match (frame.width as usize).checked_mul(frame.height as usize) {
        Some(n) => n,
        None => usize::MAX,
    };
    let part: usize = pixels / 250;
    let expected: usize = if part < 4096 {
        4096
    } else if part > 32768 {
        32768
    } else {
        part
    };
    frame.encoded.data.len() < expected
}

/// The frame has the size that was asked for, if any was.
pub open spec fn fits(frame: IpcEncodedFrame, hint: Option<(u32, u32)>) -> bool {
    match hint {
        Some((w, h)) => frame.width == w && frame.height == h,
        None => true,
    }
}

/// Whether the frame has the size that was asked for.
pub fn matches_hint(frame: &IpcEncodedFrame, hint: Option<(u32, u32)>) -> (yes: bool)
    ensures
        yes == fits(*frame, hint),
{
    match hint {
        Some((w, h)) => frame.width == w && frame.height == h,
        None => true,
    }
}

/// The last frame of `frames` that is a keyframe and fits, or does not fit, as
/// `fitting` says; `first` if there is none.
pub open spec fn last_keyframe_of(
    first: Option<IpcEncodedFrame>,
    frames: Seq<IpcEncodedFrame>,
    hint: Option<(u32, u32)>,
    fitting: bool,
) -> Option<IpcEncodedFrame>
    decreases frames.len(),
{
    if frames.len() == 0 {
        first
    } else if frames.last().encoded.is_keyframe && fits(frames.last(), hint) == fitting {
        Some(frames.last())
    } else {
        last_keyframe_of(first, frames.drop_last(), hint, fitting)
    }
}

/// The keyframes that the agent made before the viewer came: the last that
/// fits, to start with, and the last that does not.
#[derive(Debug)]
pub struct Prewarmed {
    pub startup: Option<IpcEncodedFrame>,
    pub fallback: Option<IpcEncodedFrame>,
}

/// Look through the keyframe that was kept and the frames that were queued.
pub fn select_prewarmed(
    kept: Option<IpcEncodedFrame>,
    queued: Vec<IpcEncodedFrame>,
    hint: Option<(u32, u32)>,
) -> (out: Prewarmed)
    ensures
        out.startup == last_keyframe_of(
            if kept is Some && fits(kept->0, hint) {
                kept
            } else {
                None
            },
            queued@,
            hint,
            true,
        ),
        out.fallback == last_keyframe_of(
            if kept is Some && !fits(kept->0, hint) {
                kept
            } else {
                None
            },
            queued@,
            hint,
            false,
        ),
{
    let mut out = Prewarmed { startup: None, fallback: None };
    if let Some(frame) = kept {
        if matches_hint(&frame, hint) {
            out.startup = Some(frame);
        } else {
            out.fallback = Some(frame);
        }
    }
    let ghost startup = out.startup;
    let ghost fallback = out.fallback;
    let ghost all = queued@;
    assert(all.take(0) =~= Seq::<IpcEncodedFrame>::empty());
    for frame in it: queued
        invariant
            it.seq() == all,
            out.startup == last_keyframe_of(startup, all.take(it.index()), hint, true),
            out.fallback == last_keyframe_of(fallback, all.take(it.index()), hint, false),
    {
        proof {
            let n = it.index();
            assert(all.take(n + 1).drop_last() =~= all.take(n));
            assert(all.take(n + 1).last() == all[n]);
        }
        if frame.encoded.is_keyframe {
            if matches_hint(&frame, hint) {
                out.startup = Some(frame);
            } else {
                out.fallback = Some(frame);
            }
        }
    }
    assert(all.take(all.len() as int) =~= all);
    out
}

/// What is known while a session waits for its first frame.
#[derive(Debug)]
pub struct StartupState {
    /// The last keyframe of another size than was asked for.
    pub fallback: Option<IpcEncodedFrame>,
    /// Since when there is something to fall back to.
    pub fallback_since: Option<u64>,
    /// Since when keyframes look empty.
    pub suspicious_since: Option<u64>,
    pub attempts: u32,
    pub last_nudge: u64,
}

/// A session that waits for its first frame.
#[derive(Debug)]
pub struct StartupWait {
    state: StartupState,
}

/// What to do with a frame.
#[derive(Debug)]
pub enum FrameVerdict {
    /// Start the session with it.
    Start(IpcEncodedFrame),
    /// Pass over it.
    Skip,
    /// Pass over it and ask for a keyframe.
    SkipAndNudge,
}

/// What to do when no frame would do.
#[derive(Debug)]
pub enum WaitStep {
    /// Start the session with what there is.
    Start(IpcEncodedFrame),
    /// Wait and look again.
    Wait,
    /// Give up: the agent makes no keyframe.
    GiveUp,
}

/// `at`, or `now` if there is none.
pub open spec fn since(at: Option<u64>, now: u64) -> u64 {
    if at is Some {
        at->0
    } else {
        now
    }
}

/// `at`, or `now` if there is none.
fn first_of(at: Option<u64>, now: u64) -> (out: u64)
    ensures
        out == since(at, now),
{
    match at {
        Some(t) => t,
        None => now,
    }
}

impl StartupState {
    /// Whatever is held back is a keyframe, and the looks are counted.
    pub open spec fn wf(self) -> bool {
        &&& self.attempts <= ATTEMPT_LIMIT
        &&& self.fallback is Some ==> self.fallback->0.encoded.is_keyframe
    }

    /// A keyframe that looks empty is passed over at `now`.
    pub open spec fn passes_over(self, now: u64) -> bool {
        clock::span(since(self.suspicious_since, now), now) < SUSPICIOUS_LIMIT
    }

    /// The keyframe that is held back is held back no longer.
    pub open spec fn falls_back(self, now: u64) -> bool {
        self.fallback is Some && self.fallback_since is Some && clock::span(
            self.fallback_since->0,
            now,
        ) > FALLBACK_LIMIT
    }
}

impl StartupWait {
    pub closed spec fn state(&self) -> StartupState {
        self.state
    }

    /// Start to wait, with what the agent made before.
    pub fn new(fallback: Option<IpcEncodedFrame>, now: u64) -> (wait: Self)
        ensures
            wait.state() == (StartupState {
                fallback,
                fallback_since: if fallback is Some {
                    Some(now)
                } else {
                    None
                },
                suspicious_since: None,
                attempts: 0,
                last_nudge: now,
            }),
    {
        let fallback_since = if fallback.is_some() {
            Some(now)
        } else {
            None
        };
        StartupWait {
            state: StartupState {
                fallback,
                fallback_since,
                suspicious_since: None,
                attempts: 0,
                last_nudge: now,
            },
        }
    }

    /// Take in a frame. Only keyframes start a session: a delta frame would
    /// leave the viewer black. One of the right size that looks empty is passed
    /// over for a while.
    pub fn on_frame(&mut self, frame: IpcEncodedFrame, hint: Option<(u32, u32)>, now: u64) -> (
        verdict: FrameVerdict)
        ensures
            if !fits(frame, hint) {
                &&& verdict is Skip
                &&& final(self).state() == (StartupState {
                    fallback_since: Some(since(old(self).state().fallback_since, now)),
                    fallback: if frame.encoded.is_keyframe {
                        Some(frame)
                    } else {
                        old(self).state().fallback
                    },
                    ..old(self).state()
                })
            } else if !frame.encoded.is_keyframe {
                verdict is Skip && final(self).state() == old(self).state()
            } else if !is_suspicious(frame) {
                verdict == FrameVerdict::Start(frame) && final(self).state() == old(self).state()
            } else if old(self).state().passes_over(now) {
                &&& verdict is SkipAndNudge
                &&& final(self).state() == (StartupState {
                    suspicious_since: Some(since(old(self).state().suspicious_since, now)),
                    fallback_since: Some(since(old(self).state().fallback_since, now)),
                    ..old(self).state()
                })
            } else {
                &&& verdict == FrameVerdict::Start(frame)
                &&& final(self).state() == (StartupState {
                    suspicious_since: Some(since(old(self).state().suspicious_since, now)),
                    ..old(self).state()
                })
            },
            verdict matches FrameVerdict::Start(f) ==> f.encoded.is_keyframe && fits(f, hint),
            old(self).state().wf() ==> final(self).state().wf(),
    {
        if !matches_hint(&frame, hint) {
            self.state.fallback_since = Some(first_of(self.state.fallback_since, now));
            if frame.encoded.is_keyframe {
                self.state.fallback = Some(frame);
            }
            return FrameVerdict::Skip;
        }
        if !frame.encoded.is_keyframe {
            return FrameVerdict::Skip;
        }
        if is_suspicious_transition_keyframe(&frame) {
            let began = first_of(self.state.suspicious_since, now);
            self.state.suspicious_since = Some(began);
            if clock::elapsed(began, now) < SUSPICIOUS_LIMIT {
                self.state.fallback_since = Some(first_of(self.state.fallback_since, now));
                return FrameVerdict::SkipAndNudge;
            }
        }
        FrameVerdict::Start(frame)
    }

    /// No frame would do this time. Whether to ask the agent for a keyframe,
    /// and how to go on.
    pub fn on_batch_end(&mut self, now: u64) -> (out: (bool, WaitStep))
        requires
            old(self).state().wf(),
        ensures
            ({
                let s = old(self).state();
                let nudge = clock::span(s.last_nudge, now) > NUDGE_PERIOD;
                if s.falls_back(now) {
                    &&& out.0 == false
                    &&& out.1 == WaitStep::Start(s.fallback->0)
                } else {
                    &&& out.0 == nudge
                    &&& if s.attempts < ATTEMPT_LIMIT {
                        &&& out.1 is Wait
                        &&& final(self).state() == (StartupState {
                            attempts: (s.attempts + 1) as u32,
                            last_nudge: if nudge {
                                now
                            } else {
                                s.last_nudge
                            },
                            ..s
                        })
                        &&& final(self).state().wf()
                    } else if s.fallback is Some {
                        out.1 == WaitStep::Start(s.fallback->0)
                    } else {
                        out.1 is GiveUp
                    }
                }
            }),
            out.1 matches WaitStep::Start(f) ==> f.encoded.is_keyframe,
    {
        let overdue = match self.state.fallback_since {
            Some(at) => clock::elapsed(at, now) > FALLBACK_LIMIT,
            None => false,
        };
        if overdue {
            if let Some(frame) = self.state.fallback.take() {
                return (false, WaitStep::Start(frame));
            }
        }
        let nudge = clock::elapsed(self.state.last_nudge, now) > NUDGE_PERIOD;
        if nudge {
            self.state.last_nudge = now;
        }
        if self.state.attempts >= ATTEMPT_LIMIT {
            return match self.state.fallback.take() {
                Some(frame) => (nudge, WaitStep::Start(frame)),
                None => (nudge, WaitStep::GiveUp),
            };
        }
        self.state.attempts = self.state.attempts + 1;
        (nudge, WaitStep::Wait)
    }
}

/// A session never starts from a frame that needs an earlier one: what is
/// chosen among earlier frames is a keyframe, if what was kept is one.
pub proof fn law_session_starts_with_keyframe(
    kept: Option<IpcEncodedFrame>,
    queued: Seq<IpcEncodedFrame>,
    hint: Option<(u32, u32)>,
    fitting: bool,
)
    requires
        kept is Some ==> kept->0.encoded.is_keyframe,
    ensures
        ({
            let chosen = last_keyframe_of(kept, queued, hint, fitting);
            chosen is Some ==> chosen->0.encoded.is_keyframe
        }),
    decreases queued.len(),
{
    if queued.len() > 0 {
        law_session_starts_with_keyframe(kept, queued.drop_last(), hint, fitting);
    }
}

/// What a link keeps for viewers that come later lets their sessions start with a
/// keyframe.
pub proof fn law_link_starts_with_keyframe(
    link: IpcServer,
    queued: Seq<IpcEncodedFrame>,
    hint: Option<(u32, u32)>,
    fitting: bool,
)
    requires
        link.wf(),
    ensures
        ({
            let chosen = last_keyframe_of(link.last_keyframe, queued, hint, fitting);
            chosen is Some ==> chosen->0.encoded.is_keyframe
        }),
{
    law_session_starts_with_keyframe(link.last_keyframe, queued, hint, fitting);
}

/// Of the earlier frames, the one that a session starts with has the size that
/// was asked for.
pub proof fn law_prewarmed_frame_fits(
    kept: Option<IpcEncodedFrame>,
    queued: Seq<IpcEncodedFrame>,
    hint: Option<(u32, u32)>,
)
    requires
        kept is Some ==> fits(kept->0, hint),
    ensures
        ({
            let chosen = last_keyframe_of(kept, queued, hint, true);
            chosen is Some ==> fits(chosen->0, hint)
        }),
    decreases queued.len(),
{
    if queued.len() > 0 {
        law_prewarmed_frame_fits(kept, queued.drop_last(), hint);
    }
}

/// A keyframe looks empty only if it is small for its picture: at least 32 KiB never do,
/// less than 4 KiB always do, and in between it takes a byte for every 250 pixels.
pub proof fn law_only_small_keyframes_look_empty(frame: IpcEncodedFrame, suspicious: bool)
    requires
        call_ensures(is_suspicious_transition_keyframe, (&frame,), suspicious),
        frame.width * frame.height <= usize::MAX,
    ensures
        frame.encoded.data@.len() >= 32768 ==> !suspicious,
        frame.encoded.data@.len() < 4096 ==> suspicious,
        4096 <= frame.encoded.data@.len() < 32768 ==> (suspicious
            <==> 250 * (frame.encoded.data@.len() + 1) <= frame.width * frame.height),
{
    let pixels = frame.width * frame.height;
    assert(pixels >= 0) by (nonlinear_arith)
        requires
            pixels == frame.width * frame.height,
    ;
}

/// A frame has the size that was asked for only if both sides do; where none was asked
/// for, every size is right.
pub proof fn law_both_sides_have_to_fit(
    frame: IpcEncodedFrame,
    hint: Option<(u32, u32)>,
    yes: bool,
)
    requires
        call_ensures(matches_hint, (&frame, hint), yes),
    ensures
        hint is None ==> yes,
        hint is Some ==> (yes <==> hint == Some((frame.width, frame.height))),
{
}

/// The last of the frames that would do is chosen: none after it would.
proof fn lemma_last_is_chosen(
    first: Option<IpcEncodedFrame>,
    frames: Seq<IpcEncodedFrame>,
    hint: Option<(u32, u32)>,
    fitting: bool,
    i: int,
)
    requires
        0 <= i < frames.len(),
        frames[i].encoded.is_keyframe,
        fits(frames[i], hint) == fitting,
        forall|j: int|
            i < j < frames.len() ==> !((#[trigger] frames[j]).encoded.is_keyframe && fits(
                frames[j],
                hint,
            ) == fitting),
    ensures
        last_keyframe_of(first, frames, hint, fitting) == Some(frames[i]),
    decreases frames.len(),
{
    if i < frames.len() - 1 {
        let before = frames.drop_last();
        assert(frames.last() == frames[frames.len() - 1]);
        assert(forall|j: int| 0 <= j < before.len() ==> before[j] == frames[j]);
        lemma_last_is_chosen(first, before, hint, fitting, i);
    }
}

/// Of what the agent made before the viewer came, the newest keyframe of the right size
/// is what the session starts with, and the newest of another size is what it falls back
/// to: where a frame was queued last, that is the one.
pub proof fn law_newest_keyframe_is_chosen(
    kept: Option<IpcEncodedFrame>,
    queued: Vec<IpcEncodedFrame>,
    hint: Option<(u32, u32)>,
    out: Prewarmed,
)
    requires
        call_ensures(select_prewarmed, (kept, queued, hint), out),
        queued@.len() > 0,
        queued@.last().encoded.is_keyframe,
    ensures
        hint is None || hint == Some((queued@.last().width, queued@.last().height)) ==> out.startup
            == Some(queued@.last()),
        !(hint is None || hint == Some((queued@.last().width, queued@.last().height)))
            ==> out.fallback == Some(queued@.last()),
{
    let i = queued@.len() - 1;
    if fits(queued@[i], hint) {
        lemma_last_is_chosen(
            if kept is Some && fits(kept->0, hint) {
                kept
            } else {
                None
            },
            queued@,
            hint,
            true,
            i,
        );
    } else {
        lemma_last_is_chosen(
            if kept is Some && !fits(kept->0, hint) {
                kept
            } else {
                None
            },
            queued@,
            hint,
            false,
            i,
        );
    }
}

/// Where nothing was queued, what was kept is used: to start with if it has the right
/// size, and else to fall back to.
pub proof fn law_kept_keyframe_is_used(
    kept: IpcEncodedFrame,
    queued: Vec<IpcEncodedFrame>,
    hint: Option<(u32, u32)>,
    out: Prewarmed,
)
    requires
        call_ensures(select_prewarmed, (Some(kept), queued, hint), out),
        queued@.len() == 0,
    ensures
        hint is None || hint == Some((kept.width, kept.height)) ==> out.startup == Some(kept)
            && out.fallback is None,
        !(hint is None || hint == Some((kept.width, kept.height))) ==> out.startup is None
            && out.fallback == Some(kept),
{
}

/// Frames that need an earlier one never count among what was made before, whatever their
/// size.
pub proof fn law_delta_frames_do_not_count(
    kept: Option<IpcEncodedFrame>,
    queued: Seq<IpcEncodedFrame>,
    hint: Option<(u32, u32)>,
    fitting: bool,
)
    requires
        forall|i: int| 0 <= i < queued.len() ==> !(#[trigger] queued[i]).encoded.is_keyframe,
    ensures
        last_keyframe_of(kept, queued, hint, fitting) == kept,
    decreases queued.len(),
{
    if queued.len() > 0 {
        assert(queued.last() == queued[queued.len() - 1]);
        law_delta_frames_do_not_count(kept, queued.drop_last(), hint, fitting);
    }
}

/// A session that waits starts with the first keyframe that has the right size and shows
/// something, and with no other frame before its time: one that looks empty is waited on
/// for three quarters of a second, asking for a better one.
pub proof fn law_session_starts_with_what_it_asked_for(
    frame: IpcEncodedFrame,
    hint: Option<(u32, u32)>,
    now: u64,
)
    ensures
        forall|w: &mut StartupWait, verdict: FrameVerdict| #[trigger]
            call_ensures(StartupWait::on_frame, (w, frame, hint, now), verdict) ==> {
                let (before, after) = ((*w).state(), (*final(w)).state());
                let right = hint is None || hint == Some((frame.width, frame.height));
                let empty = is_suspicious(frame);
                &&& verdict matches FrameVerdict::Start(f) ==> f == frame && right
                    && frame.encoded.is_keyframe
                &&& right && frame.encoded.is_keyframe && !empty ==> verdict is Start
                &&& right && frame.encoded.is_keyframe && empty && before.suspicious_since is None
                    ==> verdict is SkipAndNudge && after.suspicious_since == Some(now)
                &&& right && frame.encoded.is_keyframe && empty && before.suspicious_since is Some
                    && now >= before.suspicious_since->0 ==> (verdict is Start <==> now
                    - before.suspicious_since->0 >= 750_000_000)
                &&& !right && frame.encoded.is_keyframe ==> after.fallback == Some(frame)
                &&& !right && !frame.encoded.is_keyframe ==> after.fallback == before.fallback
                &&& verdict is SkipAndNudge ==> empty
                &&& before.fallback_since is Some ==> after.fallback_since == before.fallback_since
                &&& after.attempts == before.attempts
            },
{
}

/// A wait ends: after a look the session goes on with what it has once that was held back
/// for more than three quarters of a second, looks a thousand times at most, and gives up
/// only with nothing to show. The agent is asked again every half second.
pub proof fn law_startup_wait_ends(now: u64)
    ensures
        forall|w: &mut StartupWait, out: (bool, WaitStep)|
            (*w).state().wf() && #[trigger] call_ensures(StartupWait::on_batch_end, (w, now), out)
                ==> {
                let (before, after) = ((*w).state(), (*final(w)).state());
                let held = before.fallback is Some && before.fallback_since is Some && now
                    >= before.fallback_since->0 && now - before.fallback_since->0 > 750_000_000;
                &&& held ==> out.1 == WaitStep::Start(before.fallback->0) && !out.0
                &&& out.1 is GiveUp ==> before.fallback is None && before.attempts == 1000
                &&& out.1 is Wait ==> before.attempts < 1000 && after.attempts == before.attempts
                    + 1 && after.fallback == before.fallback
                &&& !held && before.attempts < 1000 ==> out.1 is Wait
                &&& before.attempts == 1000 && before.fallback is Some ==> out.1
                    == WaitStep::Start(before.fallback->0)
                &&& !held && now >= before.last_nudge ==> (out.0 <==> now - before.last_nudge
                    > 500_000_000)
                &&& out.0 && out.1 is Wait ==> after.last_nudge == now
                &&& !out.0 && out.1 is Wait ==> after.last_nudge == before.last_nudge
            },
{
}

/// A wait begins with what the agent made before, to fall back to from now on.
pub proof fn law_wait_begins_with_what_there_is(
    fallback: Option<IpcEncodedFrame>,
    now: u64,
    wait: StartupWait,
)
    requires
        call_ensures(StartupWait::new, (fallback, now), wait),
    ensures
        wait.state().fallback == fallback,
        wait.state().fallback_since is Some <==> fallback is Some,
        fallback is Some ==> wait.state().fallback_since == Some(now),
        wait.state().suspicious_since is None,
        wait.state().attempts == 0,
        wait.state().last_nudge == now,
{
}

} // verus!
