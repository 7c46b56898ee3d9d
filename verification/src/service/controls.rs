//! What a viewer may do to the agent, while agents come and go.

use crate::service::desktop_kind::AgentDesktopKind;
use crate::text;
use vstd::prelude::*;
use vstd::string::StringExecFns;

verus! {

/// What is known of the agent that a viewer controls.
#[derive(Debug, Clone, Copy, PartialEq, Eq)]
pub struct DynamicAgentControls {
    /// An agent takes input.
    pub takes_input: bool,
    /// An agent takes texts to type.
    pub takes_paste: bool,
    /// An agent takes resolution changes.
    pub takes_resolution: bool,
    /// The resolution that the viewer wants.
    pub desired_resolution: Option<(u32, u32)>,
}

impl DynamicAgentControls {
    /// The controls once the viewer wants this resolution.
    pub open spec fn wished(self, width: u32, height: u32) -> DynamicAgentControls {
        DynamicAgentControls { desired_resolution: Some((width, height)), ..self }
    }

    /// The controls once another agent is there, or none.
    pub open spec fn with_agent(
        self,
        has_ipc: bool,
        has_input: bool,
        kind: Option<AgentDesktopKind>,
    ) -> DynamicAgentControls {
        DynamicAgentControls {
            takes_input: has_ipc && has_input,
            takes_paste: has_ipc,
            takes_resolution: has_ipc && kind != Some(AgentDesktopKind::Winlogon),
            ..self
        }
    }

    /// The resolution to ask the agent for that is there: the one that the
    /// viewer wants, if it takes any.
    pub open spec fn to_ask(self) -> Option<(u32, u32)> {
        if self.takes_resolution {
            self.desired_resolution
        } else {
            None
        }
    }

    /// No agent.
    pub fn new() -> (controls: Self)
        ensures
            controls == (DynamicAgentControls {
                takes_input: false,
                takes_paste: false,
                takes_resolution: false,
                desired_resolution: None,
            }),
    {
        DynamicAgentControls {
            takes_input: false,
            takes_paste: false,
            takes_resolution: false,
            desired_resolution: None,
        }
    }

    /// Another agent is there, or none. On the secure desktop it takes no
    /// resolution changes. What is returned is the resolution to ask it for:
    /// the one that the viewer wants, if it takes any.
    pub fn update_from_ipc(
        &mut self,
        has_ipc: bool,
        has_input: bool,
        kind: Option<AgentDesktopKind>,
    ) -> (ask: Option<(u32, u32)>)
        ensures
            *final(self) == old(self).with_agent(has_ipc, has_input, kind),
            ask == final(self).to_ask(),
    {
        let secure = match kind {
            Some(AgentDesktopKind::Winlogon) => true,
            _ => false,
        };
        self.takes_input = has_ipc && has_input;
        self.takes_paste = has_ipc;
        self.takes_resolution = has_ipc && !secure;
        if self.takes_resolution {
            self.desired_resolution
        } else {
            None
        }
    }

    /// The viewer wants another resolution. Whether to ask the agent now; an
    /// agent that comes later is asked then.
    pub fn request_resolution_change(&mut self, width: u32, height: u32) -> (ask: bool)
        ensures
            ask == old(self).takes_resolution,
            *final(self) == old(self).wished(width, height),
    {
        self.desired_resolution = Some((width, height));
        self.takes_resolution
    }

    /// Whether a text to type goes to the agent; without one it is lost.
    pub fn request_paste(&self) -> (send: bool)
        ensures
            send == self.takes_paste,
    {
        self.takes_paste
    }

    /// Whether an input event goes to the agent; without one it is lost.
    pub fn forward_input(&self) -> (send: bool)
        ensures
            send == self.takes_input,
    {
        self.takes_input
    }
}

/// The value turns the adaptive mode on.
pub open spec fn means_yes(value: Seq<char>) -> bool {
    value == "1"@ || value == "true"@ || value == "TRUE"@ || value == "yes"@ || value == "YES"@
}

/// Whether the resolution is fixed, from the value of
/// `PHANTOM_WINDOWS_TIER1_ADAPTIVE`.
pub fn windows_tier1_fixed_resolution_enabled(value: Option<&str>) -> (fixed: bool)
    ensures
        fixed == !(value is Some && means_yes(value->0@)),
{
    match value {
        Some(v) => !(text::same(v, "1") || text::same(v, "true") || text::same(v, "TRUE")
            || text::same(v, "yes") || text::same(v, "YES")),
        None => true,
    }
}

/// The size that a new viewer may have: none on the secure desktop, and none
/// while the resolution is fixed.
pub fn usable_hint(
    hint: Option<(u32, u32)>,
    kind: Option<AgentDesktopKind>,
    fixed: bool,
) -> (usable: Option<(u32, u32)>)
    ensures
        usable == if kind == Some(AgentDesktopKind::Winlogon) || fixed {
            None
        } else {
            hint
        },
{
    let secure = match kind {
        Some(AgentDesktopKind::Winlogon) => true,
        _ => false,
    };
    if secure || fixed {
        None
    } else {
        hint
    }
}

/// Whether a session can start for a viewer, and the size that it may have. Without an
/// agent nothing can be captured.
pub fn create_service_session(
    has_link: bool,
    hint: Option<(u32, u32)>,
    kind: Option<AgentDesktopKind>,
    fixed: bool,
) -> (start: Result<Option<(u32, u32)>, String>)
    ensures
        match start {
            Ok(usable) => has_link && usable == if kind == Some(AgentDesktopKind::Winlogon)
                || fixed {
                None
            } else {
                hint
            },
            Err(message) => !has_link && message@
                == "no agent connected — cannot capture screen from Session 0 (waiting for user session agent to connect)"@,
        },
{
    if !has_link {
        return Err(
            String::from_str(
                "no agent connected — cannot capture screen from Session 0 (waiting for user session agent to connect)",
            ),
        );
    }
    Ok(usable_hint(hint, kind, fixed))
}

/// The resolution that a viewer wants is asked of the next agent that takes
/// one, whatever agents were there in between.
pub proof fn law_wish_outlives_agents(
    c: DynamicAgentControls,
    width: u32,
    height: u32,
    between: (bool, bool, Option<AgentDesktopKind>),
    has_input: bool,
    kind: Option<AgentDesktopKind>,
)
    requires
        kind != Some(AgentDesktopKind::Winlogon),
    ensures
        c.wished(width, height).with_agent(between.0, between.1, between.2).with_agent(
            true,
            has_input,
            kind,
        ).to_ask() == Some((width, height)),
{
}

/// An agent on the secure desktop is never asked for a resolution.
pub proof fn law_secure_desktop_keeps_its_size(c: DynamicAgentControls, has_input: bool)
    ensures
        c.with_agent(true, has_input, Some(AgentDesktopKind::Winlogon)).to_ask() is None,
{
}

/// Without an agent nothing that the viewer does gets through; with one, input does if
/// it takes input, texts always do, and a new size does except on the secure desktop.
pub proof fn law_agent_decides_what_gets_through(
    has_ipc: bool,
    has_input: bool,
    kind: Option<AgentDesktopKind>,
)
    ensures
        forall|c: &mut DynamicAgentControls, ask: Option<(u32, u32)>| #[trigger]
            call_ensures(
                DynamicAgentControls::update_from_ipc,
                (c, has_ipc, has_input, kind),
                ask,
            ) ==> {
                let after = *final(c);
                &&& after.takes_input <==> has_ipc && has_input
                &&& after.takes_paste <==> has_ipc
                &&& after.takes_resolution <==> has_ipc && !(kind == Some(
                    AgentDesktopKind::Winlogon,
                ))
                &&& after.desired_resolution == (*c).desired_resolution
                &&& !has_ipc ==> ask is None
                &&& ask is Some ==> ask == (*c).desired_resolution && has_ipc
                &&& has_ipc && kind == Some(AgentDesktopKind::Default) ==> ask
                    == (*c).desired_resolution
            },
{
}

/// A size that the viewer wants is remembered and asked for at once if the agent takes
/// sizes, and nothing else changes.
pub proof fn law_wish_is_remembered(width: u32, height: u32)
    ensures
        forall|c: &mut DynamicAgentControls, ask: bool| #[trigger]
            call_ensures(
                DynamicAgentControls::request_resolution_change,
                (c, width, height),
                ask,
            ) ==> {
                &&& ask == (*c).takes_resolution
                &&& (*final(c)).desired_resolution == Some((width, height))
                &&& (*final(c)).takes_input == (*c).takes_input
                &&& (*final(c)).takes_paste == (*c).takes_paste
                &&& (*final(c)).takes_resolution == (*c).takes_resolution
            },
{
}

/// Texts and input go to an agent that takes them, each on its own.
pub proof fn law_input_and_texts_are_apart(c: DynamicAgentControls, paste: bool, input: bool)
    requires
        call_ensures(DynamicAgentControls::request_paste, (&c,), paste),
        call_ensures(DynamicAgentControls::forward_input, (&c,), input),
    ensures
        paste <==> c.takes_paste,
        input <==> c.takes_input,
{
}

/// A viewer has no agent to begin with, and wants no size.
pub proof fn law_controls_begin_without_agent(c: DynamicAgentControls)
    requires
        call_ensures(DynamicAgentControls::new, (), c),
    ensures
        !c.takes_input && !c.takes_paste && !c.takes_resolution,
        c.desired_resolution is None,
        c.to_ask() is None,
{
}

/// The size is fixed unless the adaptive mode is asked for in so many words.
pub proof fn law_adaptive_mode_has_to_be_asked_for(value: &str, fixed: bool, unset: bool)
    requires
        call_ensures(windows_tier1_fixed_resolution_enabled, (Some(value),), fixed),
        call_ensures(windows_tier1_fixed_resolution_enabled, (None::<&str>,), unset),
    ensures
        unset,
        value@ == "1"@ || value@ == "true"@ || value@ == "TRUE"@ || value@ == "yes"@ || value@
            == "YES"@ ==> !fixed,
        value@.len() == 0 || value@.len() == 2 || value@.len() > 4 ==> fixed,
        value@ == "0"@ ==> fixed,
{
    reveal_strlit("0");
    reveal_strlit("1");
    reveal_strlit("true");
    reveal_strlit("TRUE");
    reveal_strlit("yes");
    reveal_strlit("YES");
    assert("0"@[0] != "1"@[0]);
    assert("1"@.len() == 1 && "true"@.len() == 4 && "TRUE"@.len() == 4 && "yes"@.len() == 3
        && "YES"@.len() == 3);
}

/// A session starts exactly if there is an agent, and its viewer gets the size it asked for
/// or none: never on the secure desktop, never while the size is fixed, else always.
pub proof fn law_session_needs_an_agent(
    has_link: bool,
    hint: Option<(u32, u32)>,
    kind: Option<AgentDesktopKind>,
    fixed: bool,
    start: Result<Option<(u32, u32)>, String>,
    usable: Option<(u32, u32)>,
)
    requires
        call_ensures(create_service_session, (has_link, hint, kind, fixed), start),
        call_ensures(usable_hint, (hint, kind, fixed), usable),
    ensures
        start is Ok <==> has_link,
        start is Ok ==> start->Ok_0 == usable,
        usable is Some ==> usable == hint && !fixed && !(kind == Some(AgentDesktopKind::Winlogon)),
        !fixed && (kind is None || kind == Some(AgentDesktopKind::Default)) ==> usable == hint,
{
}

} // verus!
