//! The agent's end of the link.

use crate::bytes;
use crate::ipc::wire;
use crate::media::EncodedFrame;
use vstd::prelude::*;

verus! {

/// What the service asked for and the agent has not done yet.
#[derive(Debug)]
pub struct IpcClient {
    pub shutdown: bool,
    pub keyframe_requested: bool,
    pub viewer_active: bool,
    pub resolution_requested: Option<(u32, u32)>,
    pub paste_requested: Option<String>,
}

/// What a message from the service leads to beyond the state of the link.
#[derive(Debug, Clone, Copy, PartialEq, Eq, Structural)]
pub enum ClientStep {
    /// Nothing more.
    Done,
    /// The payload is an input event.
    Input,
    /// Stop reading.
    Stop,
    /// No message of this type goes this way, or its payload is no good.
    Ignored,
}

impl IpcClient {
    /// A link that was just opened.
    pub fn new() -> (client: Self)
        ensures
            client == (IpcClient {
                shutdown: false,
                keyframe_requested: false,
                viewer_active: false,
                resolution_requested: None,
                paste_requested: None,
            }),
    {
        IpcClient {
            shutdown: false,
            keyframe_requested: false,
            viewer_active: false,
            resolution_requested: None,
            paste_requested: None,
        }
    }

    /// Take in a message from the service.
    pub fn on_message(&mut self, kind: u8, payload: &[u8]) -> (step: ClientStep)
        ensures
            if kind == wire::MSG_INPUT {
                step == ClientStep::Input && *final(self) == *old(self)
            } else if kind == wire::MSG_SHUTDOWN {
                step == ClientStep::Stop && *final(self) == (IpcClient {
                    shutdown: true,
                    ..*old(self)
                })
            } else if kind == wire::MSG_FORCE_KEYFRAME {
                step == ClientStep::Done && *final(self) == (IpcClient {
                    keyframe_requested: true,
                    ..*old(self)
                })
            } else if kind == wire::MSG_VIEWER_STATE {
                step == ClientStep::Done && *final(self) == (IpcClient {
                    viewer_active: payload@.len() > 0 && payload@[0] != 0,
                    ..*old(self)
                })
            } else if kind == wire::MSG_PASTE_TEXT && vstd::utf8::valid_utf8(payload@) {
                &&& step == ClientStep::Done
                &&& final(self).paste_requested is Some
                &&& final(self).paste_requested->0@ == vstd::utf8::decode_utf8(payload@)
                &&& *final(self) == (IpcClient {
                    paste_requested: final(self).paste_requested,
                    ..*old(self)
                })
            } else if kind == wire::MSG_RESOLUTION_CHANGE && payload@.len() >= 8 {
                step == ClientStep::Done && *final(self) == (IpcClient {
                    resolution_requested: Some(
                        (bytes::u32_at(payload@, 0), bytes::u32_at(payload@, 4)),
                    ),
                    ..*old(self)
                })
            } else {
                &&& step == if kind == wire::MSG_HEARTBEAT {
                    ClientStep::Done
                } else {
                    ClientStep::Ignored
                }
                &&& *final(self) == *old(self)
            },
    {
        if kind == wire::MSG_INPUT {
            return ClientStep::Input;
        }
        if kind == wire::MSG_SHUTDOWN {
            self.shutdown = true;
            return ClientStep::Stop;
        }
        if kind == wire::MSG_FORCE_KEYFRAME {
            self.keyframe_requested = true;
            return ClientStep::Done;
        }
        if kind == wire::MSG_VIEWER_STATE {
            self.viewer_active = payload.len() > 0 && payload[0] != 0;
            return ClientStep::Done;
        }
        if kind == wire::MSG_PASTE_TEXT {
            return match wire::utf8_text(bytes::copy_all(payload)) {
                Some(t) => {
                    self.paste_requested = Some(t);
                    ClientStep::Done
                },
                None => ClientStep::Ignored,
            };
        }
        if kind == wire::MSG_RESOLUTION_CHANGE {
            return match wire::decode_resolution(payload) {
                Some(size) => {
                    self.resolution_requested = Some(size);
                    ClientStep::Done
                },
                None => ClientStep::Ignored,
            };
        }
        if kind == wire::MSG_HEARTBEAT {
            return ClientStep::Done;
        }
        ClientStep::Ignored
    }

    /// The pipe broke.
    pub fn on_read_error(&mut self)
        ensures
            *final(self) == (IpcClient { shutdown: true, ..*old(self) }),
    {
        self.shutdown = true;
    }

    /// Whether a keyframe was asked for since the last look.
    pub fn take_keyframe_request(&mut self) -> (requested: bool)
        ensures
            requested == old(self).keyframe_requested,
            *final(self) == (IpcClient { keyframe_requested: false, ..*old(self) }),
    {
        let requested = self.keyframe_requested;
        self.keyframe_requested = false;
        requested
    }

    /// The text that was asked to be typed since the last look.
    pub fn take_paste_request(&mut self) -> (text: Option<String>)
        ensures
            text == old(self).paste_requested,
            *final(self) == (IpcClient { paste_requested: None, ..*old(self) }),
    {
        self.paste_requested.take()
    }

    /// The resolution that was asked for since the last look.
    pub fn take_resolution_request(&mut self) -> (size: Option<(u32, u32)>)
        ensures
            size == old(self).resolution_requested,
            *final(self) == (IpcClient { resolution_requested: None, ..*old(self) }),
    {
        self.resolution_requested.take()
    }

    /// Whether somebody watches.
    pub fn viewer_active(&self) -> (active: bool)
        ensures
            active == self.viewer_active,
    {
        self.viewer_active
    }

    /// Whether the agent is to end.
    pub fn should_shutdown(&self) -> (end: bool)
        ensures
            end == self.shutdown,
    {
        self.shutdown
    }
}

/// The payload that carries a frame to the service. A frame without data is
/// not sent.
pub fn frame_to_send(frame: &EncodedFrame, width: u32, height: u32) -> (payload: Option<Vec<u8>>)
    ensures
        match payload {
            Some(p) => {
                &&& frame.data@.len() > 0
                &&& p@ == wire::frame_payload(
                    frame.is_keyframe,
                    frame.codec,
                    width,
                    height,
                    frame.data@,
                )
            },
            None => frame.data@.len() == 0,
        },
{
    if frame.data.is_empty() {
        return None;
    }
    Some(wire::encode_ipc_frame(frame, width, height))
}

/// Each message sets what it asks for and nothing else: four ends the agent, five asks for
/// a keyframe, six for a size, seven for a text to type, nine says whether somebody
/// watches, and two is input; a heartbeat does nothing.
pub proof fn law_message_sets_its_wish(kind: u8, payload: &[u8])
    ensures
        forall|c: &mut IpcClient, step: ClientStep| #[trigger]
            call_ensures(IpcClient::on_message, (c, kind, payload), step) ==> {
                let (before, after) = (*c, *final(c));
                &&& after.shutdown <==> before.shutdown || kind == 4
                &&& after.keyframe_requested <==> before.keyframe_requested || kind == 5
                &&& kind == 9 ==> (after.viewer_active <==> payload@.len() > 0 && payload@[0] != 0)
                &&& kind != 9 ==> after.viewer_active == before.viewer_active
                &&& kind == 6 && payload@.len() >= 8 ==> after.resolution_requested == Some(
                    (bytes::u32_at(payload@, 0), bytes::u32_at(payload@, 4)),
                )
                &&& kind != 6 || payload@.len() < 8 ==> after.resolution_requested
                    == before.resolution_requested
                &&& kind != 7 ==> after.paste_requested == before.paste_requested
                &&& kind == 7 && vstd::utf8::valid_utf8(payload@) ==> after.paste_requested is Some
                    && after.paste_requested->0@ == vstd::utf8::decode_utf8(payload@)
                &&& step is Input <==> kind == 2
                &&& step is Stop <==> kind == 4
                &&& kind == 3 ==> step is Done
                &&& kind == 0 || kind == 1 || kind == 8 || kind >= 10 ==> step is Ignored
            },
{
}

/// A wish is handed out once: it is gone afterwards, and the others stay.
pub proof fn law_wish_is_taken_once()
    ensures
        forall|c: &mut IpcClient, r: bool| #[trigger]
            call_ensures(IpcClient::take_keyframe_request, (c,), r) ==> r
            == (*c).keyframe_requested && !(*final(c)).keyframe_requested && (*final(c)).shutdown
            == (*c).shutdown && (*final(c)).resolution_requested == (*c).resolution_requested,
        forall|c: &mut IpcClient, r: Option<String>| #[trigger]
            call_ensures(IpcClient::take_paste_request, (c,), r) ==> r == (*c).paste_requested
            && (*final(c)).paste_requested is None && (*final(c)).keyframe_requested
            == (*c).keyframe_requested,
        forall|c: &mut IpcClient, r: Option<(u32, u32)>| #[trigger]
            call_ensures(IpcClient::take_resolution_request, (c,), r) ==> r
            == (*c).resolution_requested && (*final(c)).resolution_requested is None && (*final(c)).keyframe_requested == (*c).keyframe_requested,
        forall|c: &mut IpcClient, out: ()| #[trigger]
            call_ensures(IpcClient::on_read_error, (c,), out) ==> (*final(c)).shutdown && (*final(c)).viewer_active == (*c).viewer_active,
{
}

/// Every frame with data is sent and no other, and the service reads the same frame.
pub proof fn law_frame_with_data_is_sent(
    frame: EncodedFrame,
    width: u32,
    height: u32,
    payload: Option<Vec<u8>>,
)
    requires
        call_ensures(frame_to_send, (&frame, width, height), payload),
    ensures
        payload is Some <==> frame.data@.len() > 0,
        payload matches Some(p) ==> {
            &&& p@.skip(10) == frame.data@
            &&& bytes::u32_at(p@, 2) == width
            &&& bytes::u32_at(p@, 6) == height
            &&& p@[0] != 0 <==> frame.is_keyframe
        },
{
    wire::law_frame_round_trip(frame.is_keyframe, frame.codec, width, height, frame.data@);
}

} // verus!
