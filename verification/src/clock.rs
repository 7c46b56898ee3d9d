//! Points in time and spans, in nanoseconds of a monotonic clock.

use vstd::prelude::*;

verus! {

/// One millisecond.
pub const MS: u64 = 1_000_000;

/// One second.
pub const SEC: u64 = 1_000_000_000;

/// How long ago `since` is at `now`; nothing if it lies ahead.
pub open spec fn span(since: u64, now: u64) -> u64 {
    if now >= since {
        (now - since) as u64
    } else {
        0
    }
}

/// The point `back` before `now`, or `now` if the clock does not reach there.
pub open spec fn ago(now: u64, back: u64) -> u64 {
    if now >= back {
        (now - back) as u64
    } else {
        now
    }
}

/// The point `ahead` after `now`, as far as the clock reaches.
pub open spec fn later(now: u64, ahead: u64) -> u64 {
    if now + ahead <= u64::MAX {
        (now + ahead) as u64
    } else {
        u64::MAX
    }
}

/// How long ago `since` is at `now`.
pub fn elapsed(since: u64, now: u64) -> (out: u64)
    ensures
        out == span(since, now),
{
    if now >= since {
        now - since
    } else {
        0
    }
}

/// The point `back` before `now`, or `now` if the clock does not reach there.
pub fn instant_ago(now: u64, back: u64) -> (out: u64)
    ensures
        out == ago(now, back),
{
    if now >= back {
        now - back
    } else {
        now
    }
}

/// The point `ahead` after `now`, as far as the clock reaches.
pub fn instant_after(now: u64, ahead: u64) -> (out: u64)
    ensures
        out == later(now, ahead),
{
    if ahead <= u64::MAX - now {
        now + ahead
    } else {
        u64::MAX
    }
}

/// What was a while ago is that long ago, the clock never runs backwards, and what lies
/// ahead takes no time yet.
pub proof fn law_clock_adds_up(
    now: u64,
    by: u64,
    since: u64,
    past: u64,
    future: u64,
    took: u64,
)
    requires
        call_ensures(instant_ago, (now, by), past),
        call_ensures(instant_after, (now, by), future),
        call_ensures(elapsed, (since, now), took),
    ensures
        past <= now <= future,
        now >= by ==> past + by == now,
        now < by ==> past == now,
        now + by <= 0xffff_ffff_ffff_ffff ==> future == now + by,
        now + by > 0xffff_ffff_ffff_ffff ==> future == 0xffff_ffff_ffff_ffff,
        since <= now ==> since + took == now,
        since > now ==> took == 0,
        SEC == 1_000_000_000,
        MS == 1_000_000,
{
}

} // verus!
