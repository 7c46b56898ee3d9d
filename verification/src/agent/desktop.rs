//! Which Windows desktop has the input: the user's, or the secure one.

use crate::text;
use vstd::prelude::*;

verus! {

/// What the agent may do on the desktop that it sees.
#[derive(Debug, Clone, Copy, PartialEq, Eq, Structural)]
pub enum DesktopPhase {
    /// Between two desktops: nothing can be captured.
    Transition,
    /// The user's desktop.
    Default,
    /// The secure desktop: sign-in, lock screen, elevation.
    Winlogon,
}

/// One look at the input desktop.
#[derive(Debug)]
pub struct DesktopState {
    pub on_default: bool,
    pub transition_unavailable: bool,
    /// It is another desktop than at the look before.
    pub changed_after_initial: bool,
    pub desktop_name: Option<String>,
}

/// The phase of a desktop.
pub open spec fn phase_of(state: DesktopState) -> DesktopPhase {
    if state.transition_unavailable {
        DesktopPhase::Transition
    } else if state.on_default {
        DesktopPhase::Default
    } else {
        DesktopPhase::Winlogon
    }
}

impl DesktopState {
    /// The phase that the desktop is in.
    pub fn phase(&self) -> (phase: DesktopPhase)
        ensures
            phase == phase_of(*self),
    {
        if self.transition_unavailable {
            DesktopPhase::Transition
        } else if self.on_default {
            DesktopPhase::Default
        } else {
            DesktopPhase::Winlogon
        }
    }
}

/// The desktop is the user's.
pub open spec fn is_default_name(name: Option<Seq<char>>) -> bool {
    name is Some && text::same_ignoring_case(name->0, "Default"@)
}

/// The desktop to go by: the input desktop, or the thread's where that cannot
/// be read.
pub open spec fn effective(
    input: Option<Seq<char>>,
    thread: Option<Seq<char>>,
) -> Option<Seq<char>> {
    if input is Some {
        input
    } else {
        thread
    }
}

/// Nothing can be captured: no desktop can be read, or the thread is stuck on
/// another desktop than the one with the input.
pub open spec fn is_unavailable(
    input: Option<Seq<char>>,
    thread: Option<Seq<char>>,
    switched: bool,
) -> bool {
    ||| effective(input, thread) is None
    ||| input is Some && !switched && input != thread
}

/// Whether the name is that of the user's desktop.
pub fn is_default_desktop(name: &Option<String>) -> (yes: bool)
    ensures
        yes == is_default_name(text::option_view(*name)),
{
    match name {
        Some(n) => text::eq_ignore_case(n.as_str(), "Default"),
        None => false,
    }
}

/// The desktop to go by: the input desktop, or else the thread's.
pub fn effective_desktop(input: &Option<String>, thread: &Option<String>) -> (name: Option<String>)
    ensures
        text::option_view(name) == effective(text::option_view(*input), text::option_view(*thread)),
{
    if input.is_some() {
        text::copy_option(input)
    } else {
        text::copy_option(thread)
    }
}

/// Remembers the desktop of the look before.
#[derive(Debug)]
pub struct DesktopObserver {
    last_desktop_name: Option<String>,
    desktop_sample_seen: bool,
}

impl DesktopObserver {
    /// The desktop of the look before, or nothing before the first look.
    pub closed spec fn last(&self) -> Option<Option<Seq<char>>> {
        if self.desktop_sample_seen {
            Some(text::option_view(self.last_desktop_name))
        } else {
            None
        }
    }

    /// An observer that has not looked yet.
    pub fn new() -> (observer: Self)
        ensures
            observer.last() is None,
    {
        Self { last_desktop_name: None, desktop_sample_seen: false }
    }

    /// Take in one look. `switched` says whether the thread could be attached
    /// to the input desktop; it counts only where there is one.
    pub fn refresh_desktop(
        &mut self,
        input: &Option<String>,
        switched: bool,
        thread: &Option<String>,
    ) -> (state: DesktopState)
        ensures
            ({
                let i = text::option_view(*input);
                let t = text::option_view(*thread);
                let name = effective(i, t);
                &&& text::option_view(state.desktop_name) == name
                &&& state.on_default == is_default_name(name)
                &&& state.transition_unavailable == is_unavailable(i, t, switched)
                &&& state.changed_after_initial == (old(self).last() is Some && old(self).last()
                    != Some(name))
                &&& final(self).last() == Some(name)
            }),
    {
        let name = effective_desktop(input, thread);
        let changed_after_initial = self.desktop_sample_seen && !text::same_option(
            &name,
            &self.last_desktop_name,
        );
        let transition_unavailable = name.is_none() || (input.is_some() && !switched
            && !text::same_option(input, thread));
        let on_default = is_default_desktop(&name);
        self.last_desktop_name = text::copy_option(&name);
        self.desktop_sample_seen = true;
        DesktopState { on_default, transition_unavailable, changed_after_initial, desktop_name: name }
    }
}

/// The message is that of an access-denied error of Windows.
pub open spec fn denies_access(message: Seq<char>) -> bool {
    ||| text::occurs(text::lowered(message), "0x80070005"@)
    ||| text::occurs(text::lowered(message), "access is denied"@)
}

/// Whether an error message is that of an access-denied error of Windows.
pub fn is_windows_access_denied(message: &str) -> (denied: bool)
    ensures
        denied == denies_access(message@),
{
    let lower = text::to_lowercase(message);
    text::contains(lower.as_str(), "0x80070005") || text::contains(
        lower.as_str(),
        "access is denied",
    )
}

/// Between two desktops nothing else counts; otherwise the user's desktop is told from the
/// secure one.
pub proof fn law_transition_comes_first(state: DesktopState, phase: DesktopPhase)
    requires
        call_ensures(DesktopState::phase, (&state,), phase),
    ensures
        phase is Transition <==> state.transition_unavailable,
        phase is Default <==> !state.transition_unavailable && state.on_default,
        phase is Winlogon <==> !state.transition_unavailable && !state.on_default,
{
}

/// The desktop with the input is the one that counts, and the thread's only where that
/// cannot be read; the user's is known by its name in whatever case. Nothing can be
/// captured where neither can be read or the thread is stuck on another one, and a look
/// differs only from a look before it.
pub proof fn law_input_desktop_counts(
    input: Option<String>,
    switched: bool,
    thread: Option<String>,
)
    ensures
        forall|o: &mut DesktopObserver, s: DesktopState| #[trigger]
            call_ensures(DesktopObserver::refresh_desktop, (o, &input, switched, &thread), s) ==> {
                let before = (*o).last();
                let name = text::option_view(s.desktop_name);
                &&& input matches Some(i) ==> name == Some(i@)
                &&& input is None ==> name == text::option_view(thread)
                &&& s.on_default <==> (name matches Some(n) && text::same_ignoring_case(
                    n,
                    "Default"@,
                ))
                &&& input is None && thread is None ==> s.transition_unavailable
                &&& input is Some && switched ==> !s.transition_unavailable
                &&& input is None && thread is Some ==> !s.transition_unavailable
                &&& input is Some && !switched ==> (s.transition_unavailable <==> text::option_view(
                    input,
                ) != text::option_view(thread))
                &&& before is None ==> !s.changed_after_initial
                &&& before matches Some(old_name) ==> (s.changed_after_initial <==> old_name
                    != name)
                &&& (*final(o)).last() == Some(name)
            },
{
}

/// A denial is known by its code or its words, in whatever case.
pub proof fn law_denial_is_known_by(head: Seq<char>, tail: Seq<char>, message: &str, denied: bool)
    requires
        call_ensures(is_windows_access_denied, (message,), denied),
    ensures
        text::lowered(message@) == head + "0x80070005"@ + tail ==> denied,
        text::lowered(message@) == head + "access is denied"@ + tail ==> denied,
        denied ==> text::occurs(text::lowered(message@), "0x80070005"@) || text::occurs(
            text::lowered(message@),
            "access is denied"@,
        ),
{
    let low = text::lowered(message@);
    let at = head.len() as int;
    if low == head + "0x80070005"@ + tail {
        assert(low.subrange(at, at + "0x80070005"@.len()) =~= "0x80070005"@);
        assert(text::occurs_at(low, "0x80070005"@, at));
    }
    if low == head + "access is denied"@ + tail {
        assert(low.subrange(at, at + "access is denied"@.len()) =~= "access is denied"@);
        assert(text::occurs_at(low, "access is denied"@, at));
    }
}

} // verus!
