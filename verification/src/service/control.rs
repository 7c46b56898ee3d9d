//! What the service control manager asks of the service.

use vstd::prelude::*;

verus! {

/// A request of the service control manager.
#[derive(Debug, Clone, Copy, PartialEq, Eq, Structural)]
pub enum ControlEvent {
    Stop,
    Shutdown,
    Interrogate,
    /// Somebody logged on or off, locked or unlocked.
    SessionChange,
    Other,
}

/// The answer to it.
#[derive(Debug, Clone, Copy, PartialEq, Eq, Structural)]
pub enum ControlReply {
    NoError,
    NotImplemented,
}

/// What the rest of the service is told.
#[derive(Debug, Clone, Copy, PartialEq, Eq, Structural)]
pub struct ServiceFlags {
    /// End.
    pub shutdown: bool,
    /// End the session that is running.
    pub cancel: bool,
    /// Look which session is at the console.
    pub session_changed: bool,
}

impl ServiceFlags {
    /// The flags after a request.
    pub open spec fn after(self, event: ControlEvent) -> ServiceFlags {
        match event {
            ControlEvent::Stop | ControlEvent::Shutdown => ServiceFlags {
                shutdown: true,
                cancel: true,
                ..self
            },
            ControlEvent::SessionChange => ServiceFlags { session_changed: true, ..self },
            ControlEvent::Interrogate | ControlEvent::Other => self,
        }
    }

    /// Act on a request. A session change keeps the viewer connected: only the
    /// agent underneath is replaced.
    pub fn on_control(&mut self, event: ControlEvent) -> (reply: ControlReply)
        ensures
            reply == if event == ControlEvent::Other {
                ControlReply::NotImplemented
            } else {
                ControlReply::NoError
            },
            *final(self) == old(self).after(event),
    {
        match event {
            ControlEvent::Stop | ControlEvent::Shutdown => {
                self.shutdown = true;
                self.cancel = true;
                ControlReply::NoError
            },
            ControlEvent::Interrogate => ControlReply::NoError,
            ControlEvent::SessionChange => {
                self.session_changed = true;
                ControlReply::NoError
            },
            ControlEvent::Other => ControlReply::NotImplemented,
        }
    }
}

/// The code that the service ends with.
pub fn exit_code(failed: bool) -> (code: u32)
    ensures
        code == if failed {
            1u32
        } else {
            0u32
        },
{
    if failed {
        1
    } else {
        0
    }
}

/// The size that a client would like, if it named one.
pub fn resolution_hint(preferred_width: u32, preferred_height: u32) -> (hint: Option<(u32, u32)>)
    ensures
        hint == if preferred_width > 0 && preferred_height > 0 {
            Some((preferred_width, preferred_height))
        } else {
            None
        },
{
    if preferred_width > 0 && preferred_height > 0 {
        Some((preferred_width, preferred_height))
    } else {
        None
    }
}

/// The session that is running is ended by a stop and by nothing else: a
/// session change keeps its viewer connected.
pub proof fn law_only_a_stop_cancels(flags: ServiceFlags, event: ControlEvent)
    requires
        !flags.cancel,
        !flags.shutdown,
    ensures
        flags.after(event).cancel <==> event == ControlEvent::Stop || event
            == ControlEvent::Shutdown,
        flags.after(event).shutdown == flags.after(event).cancel,
{
}

/// A stop or a shutdown ends the service and its session, a change of session is only
/// passed on, and what was asked before is never taken back. Every request that is known
/// is answered without an error.
pub proof fn law_requests_reach_the_service(event: ControlEvent)
    ensures
        forall|flags: &mut ServiceFlags, reply: ControlReply| #[trigger]
            call_ensures(ServiceFlags::on_control, (flags, event), reply) ==> {
                let (before, after) = (*flags, *final(flags));
                let ends = event is Stop || event is Shutdown;
                &&& after.shutdown <==> before.shutdown || ends
                &&& after.cancel <==> before.cancel || ends
                &&& after.session_changed <==> before.session_changed || event is SessionChange
                &&& reply is NotImplemented <==> event is Other
            },
{
}

/// A service that failed ends with a code that is not the one of success.
pub proof fn law_failure_has_a_code(failed: bool, code: u32)
    requires
        call_ensures(exit_code, (failed,), code),
    ensures
        failed <==> code != 0,
        failed ==> code == 1,
{
}

/// A size is a wish only if both sides are named, and then it is the one that was named.
pub proof fn law_hint_is_what_was_named(width: u32, height: u32, hint: Option<(u32, u32)>)
    requires
        call_ensures(resolution_hint, (width, height), hint),
    ensures
        hint is None <==> width == 0 || height == 0,
        hint matches Some((w, h)) ==> w == width && h == height,
{
}

} // verus!
