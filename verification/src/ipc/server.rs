//! The service's end of the link.

use crate::bytes;
use crate::clock::{self, SEC};
use crate::ipc::wire::{self, IpcEncodedFrame, WireError};
use crate::protocol::{CursorShape, CursorState};
use crate::text;
use vstd::prelude::*;

verus! {

/// How long the link may be silent before a heartbeat is sent.
pub const HEARTBEAT_PERIOD: u64 = 5 * SEC;

/// What is waiting to be sent to the agent, and what came from it last.
#[derive(Debug)]
pub struct IpcServer {
    pub connected: bool,
    /// The input and output threads are to end.
    pub shutdown: bool,
    pub keyframe_requested: bool,
    pub shutdown_requested: bool,
    pub resolution_change: Option<(u32, u32)>,
    pub paste_text: Option<String>,
    pub viewer_state: Option<bool>,
    pub viewer_count: usize,
    pub last_keyframe: Option<IpcEncodedFrame>,
}

/// A message to the agent.
#[derive(Debug)]
pub struct Outgoing {
    pub kind: u8,
    pub payload: Vec<u8>,
}

/// What a message from the agent says.
#[derive(Debug)]
pub enum ServerEvent {
    Frame(IpcEncodedFrame),
    Heartbeat,
    Clipboard(String),
    Cursor(CursorState),
    Shape(CursorShape),
    /// The text is not UTF-8.
    BadText,
    /// The payload cannot be read.
    Bad(WireError),
    /// No message of this type goes this way.
    Unexpected(u8),
}

/// A message with its payload as plain bytes.
pub open spec fn outgoing_view(m: Outgoing) -> (u8, Seq<u8>) {
    (m.kind, m.payload@)
}

/// The messages of a list.
pub open spec fn outgoing_views(list: Seq<Outgoing>) -> Seq<(u8, Seq<u8>)> {
    list.map_values(|m: Outgoing| outgoing_view(m))
}

/// What is waiting, in the order in which it is sent. A shutdown goes alone.
/// A resolution change goes before a keyframe request, so that the keyframe
/// has the new size.
pub open spec fn pending(s: IpcServer) -> Seq<(u8, Seq<u8>)> {
    if s.shutdown_requested {
        seq![(wire::MSG_SHUTDOWN, Seq::<u8>::empty())]
    } else {
        (match s.viewer_state {
            Some(active) => seq![(wire::MSG_VIEWER_STATE, seq![wire::flag(active)])],
            None => Seq::empty(),
        }) + (match s.resolution_change {
            Some((w, h)) => seq![(wire::MSG_RESOLUTION_CHANGE, wire::resolution_payload(w, h))],
            None => Seq::empty(),
        }) + (if s.keyframe_requested {
            seq![(wire::MSG_FORCE_KEYFRAME, Seq::<u8>::empty())]
        } else {
            Seq::empty()
        }) + (match s.paste_text {
            Some(t) => seq![(wire::MSG_PASTE_TEXT, vstd::utf8::encode_utf8(t@))],
            None => Seq::empty(),
        })
    }
}

/// The state apart from what is waiting.
pub open spec fn same_link(a: IpcServer, b: IpcServer) -> bool {
    &&& a.connected == b.connected
    &&& a.shutdown == b.shutdown
    &&& a.viewer_count == b.viewer_count
    &&& a.last_keyframe == b.last_keyframe
}

impl IpcServer {
    /// What is kept for viewers that come later is a keyframe.
    pub open spec fn wf(self) -> bool {
        self.last_keyframe is Some ==> self.last_keyframe->0.encoded.is_keyframe
    }

    /// A link that nobody is at yet.
    pub fn new() -> (server: Self)
        ensures
            server.wf(),
            !server.connected,
            !server.shutdown,
            server.viewer_count == 0,
            server.last_keyframe is None,
            pending(server) == Seq::<(u8, Seq<u8>)>::empty(),
    {
        let server = IpcServer {
            connected: false,
            shutdown: false,
            keyframe_requested: false,
            shutdown_requested: false,
            resolution_change: None,
            paste_text: None,
            viewer_state: None,
            viewer_count: 0,
            last_keyframe: None,
        };
        assert(pending(server) =~= Seq::<(u8, Seq<u8>)>::empty());
        server
    }

    /// The agent is at both pipes.
    pub fn on_connected(&mut self)
        ensures
            old(self).wf() ==> final(self).wf(),
            *final(self) == (IpcServer { connected: true, last_keyframe: None, ..*old(self) }),
    {
        self.connected = true;
        self.last_keyframe = None;
    }

    /// Ask the agent for a keyframe.
    pub fn request_keyframe(&mut self)
        ensures
            old(self).wf() ==> final(self).wf(),
            *final(self) == (IpcServer {
                keyframe_requested: old(self).keyframe_requested || old(self).connected,
                ..*old(self)
            }),
    {
        if self.connected {
            self.keyframe_requested = true;
        }
    }

    /// Ask the agent for another resolution.
    pub fn request_resolution_change(&mut self, width: u32, height: u32)
        ensures
            old(self).wf() ==> final(self).wf(),
            *final(self) == (IpcServer {
                resolution_change: if old(self).connected {
                    Some((width, height))
                } else {
                    old(self).resolution_change
                },
                ..*old(self)
            }),
    {
        if self.connected {
            self.resolution_change = Some((width, height));
        }
    }

    /// Have the agent type a text.
    pub fn send_paste(&mut self, text: &str)
        ensures
            old(self).wf() ==> final(self).wf(),
            text::option_view(final(self).paste_text) == if old(self).connected {
                Some(text@)
            } else {
                text::option_view(old(self).paste_text)
            },
            *final(self) == (IpcServer { paste_text: final(self).paste_text, ..*old(self) }),
    {
        if self.connected {
            self.paste_text = Some(crate::text::copy(text));
        }
    }

    /// Tell the agent whether somebody watches.
    pub fn set_viewer_active(&mut self, active: bool)
        ensures
            old(self).wf() ==> final(self).wf(),
            *final(self) == (IpcServer {
                viewer_state: if old(self).connected {
                    Some(active)
                } else {
                    old(self).viewer_state
                },
                ..*old(self)
            }),
    {
        if self.connected {
            self.viewer_state = Some(active);
        }
    }

    /// The link once one more viewer came.
    pub open spec fn acquired(self) -> IpcServer {
        IpcServer {
            viewer_count: self.viewer_count.wrapping_add(1),
            viewer_state: if self.viewer_count == 0 && self.connected {
                Some(true)
            } else {
                self.viewer_state
            },
            ..self
        }
    }

    /// The link once a viewer left.
    pub open spec fn released(self) -> IpcServer {
        IpcServer {
            viewer_count: if self.viewer_count > 0 {
                (self.viewer_count - 1) as usize
            } else {
                0
            },
            viewer_state: if self.viewer_count <= 1 && self.connected {
                Some(false)
            } else {
                self.viewer_state
            },
            ..self
        }
    }

    /// A viewer came. The agent is told of the first.
    pub fn acquire_viewer(&mut self)
        ensures
            old(self).wf() ==> final(self).wf(),
            *final(self) == old(self).acquired(),
    {
        let before: usize = self.viewer_count;
        self.viewer_count = before.wrapping_add(1);
        if before == 0 {
            self.set_viewer_active(true);
        }
    }

    /// A viewer left. The agent is told when none is left.
    pub fn release_viewer(&mut self)
        ensures
            old(self).wf() ==> final(self).wf(),
            *final(self) == old(self).released(),
    {
        let before: usize = self.viewer_count;
        if before > 0 {
            self.viewer_count = before - 1;
        }
        if before <= 1 {
            self.set_viewer_active(false);
        }
    }

    /// Have the agent end.
    pub fn send_shutdown(&mut self)
        ensures
            old(self).wf() ==> final(self).wf(),
            *final(self) == (IpcServer {
                shutdown_requested: old(self).shutdown_requested || old(self).connected,
                ..*old(self)
            }),
    {
        if self.connected {
            self.shutdown_requested = true;
        }
    }

    /// Whether the link can be used: both threads have to be alive.
    pub fn is_connected(&self, read_dead: bool, write_dead: bool) -> (connected: bool)
        ensures
            connected == (self.connected && !read_dead && !write_dead),
    {
        self.connected && !read_dead && !write_dead
    }

    /// The keyframe that is kept for viewers that come later.
    pub fn last_keyframe(&self) -> (kept: Option<IpcEncodedFrame>)
        ensures
            kept is Some <==> self.last_keyframe is Some,
            kept is Some ==> wire::same_frame(kept->0, self.last_keyframe->0),
            self.wf() && kept is Some ==> kept->0.encoded.is_keyframe,
    {
        match &self.last_keyframe {
            Some(frame) => Some(frame.duplicate()),
            None => None,
        }
    }

    /// Close the link. Whether the agent has to be asked to end first: the
    /// message has to go out before the threads are stopped.
    pub fn disconnect(&mut self) -> (ask_first: bool)
        ensures
            old(self).wf() ==> final(self).wf(),
            ask_first == old(self).connected,
            *final(self) == (IpcServer {
                connected: false,
                shutdown: true,
                shutdown_requested: old(self).shutdown_requested || old(self).connected,
                last_keyframe: None,
                ..*old(self)
            }),
    {
        let ask_first = self.connected;
        self.send_shutdown();
        self.shutdown = true;
        self.connected = false;
        self.last_keyframe = None;
        ask_first
    }

    /// Take what is waiting, in the order in which it is to be sent. After a
    /// shutdown nothing more is sent.
    pub fn take_pending(&mut self) -> (out: Vec<Outgoing>)
        ensures
            old(self).wf() ==> final(self).wf(),
            outgoing_views(out@) == pending(*old(self)),
            old(self).shutdown_requested ==> *final(self) == (IpcServer {
                shutdown_requested: false,
                ..*old(self)
            }),
            !old(self).shutdown_requested ==> {
                &&& pending(*final(self)) == Seq::<(u8, Seq<u8>)>::empty()
                &&& same_link(*final(self), *old(self))
            },
    {
        let mut out: Vec<Outgoing> = Vec::new();
        if self.shutdown_requested {
            self.shutdown_requested = false;
            out.push(Outgoing { kind: wire::MSG_SHUTDOWN, payload: Vec::new() });
            assert(outgoing_views(out@) =~= pending(*old(self)));
            return out;
        }
        let ghost mut sent: Seq<(u8, Seq<u8>)> = Seq::empty();
        assert(outgoing_views(out@) =~= sent);
        if let Some(active) = self.viewer_state.take() {
            let mut payload: Vec<u8> = Vec::new();
            payload.push(wire::flag_byte(active));
            assert(payload@ =~= seq![wire::flag(active)]);
            proof {
                sent = sent.push((wire::MSG_VIEWER_STATE, payload@));
            }
            out.push(Outgoing { kind: wire::MSG_VIEWER_STATE, payload });
            assert(outgoing_views(out@) =~= sent);
        }
        if let Some((w, h)) = self.resolution_change.take() {
            let payload = wire::encode_resolution(w, h);
            proof {
                sent = sent.push((wire::MSG_RESOLUTION_CHANGE, payload@));
            }
            out.push(Outgoing { kind: wire::MSG_RESOLUTION_CHANGE, payload });
            assert(outgoing_views(out@) =~= sent);
        }
        if self.keyframe_requested {
            self.keyframe_requested = false;
            let payload: Vec<u8> = Vec::new();
            proof {
                sent = sent.push((wire::MSG_FORCE_KEYFRAME, payload@));
            }
            out.push(Outgoing { kind: wire::MSG_FORCE_KEYFRAME, payload });
            assert(outgoing_views(out@) =~= sent);
        }
        if let Some(t) = self.paste_text.take() {
            let payload = wire::text_bytes(t.as_str());
            proof {
                sent = sent.push((wire::MSG_PASTE_TEXT, payload@));
            }
            out.push(Outgoing { kind: wire::MSG_PASTE_TEXT, payload });
            assert(outgoing_views(out@) =~= sent);
        }
        assert(sent =~= pending(*old(self)));
        assert(pending(*self) =~= Seq::<(u8, Seq<u8>)>::empty());
        out
    }

    /// Take in a message from the agent. A keyframe is kept for viewers that
    /// come later.
    pub fn on_message(&mut self, kind: u8, payload: Vec<u8>) -> (event: ServerEvent)
        ensures
            old(self).wf() ==> final(self).wf(),
            if kind == wire::MSG_ENCODED_FRAME {
                match event {
                    ServerEvent::Frame(frame) => {
                        &&& decodes_to_frame(payload@, frame)
                        &&& if frame.encoded.is_keyframe {
                            &&& final(self).last_keyframe is Some
                            &&& wire::same_frame(final(self).last_keyframe->0, frame)
                        } else {
                            final(self).last_keyframe == old(self).last_keyframe
                        }
                        &&& *final(self) == (IpcServer {
                            last_keyframe: final(self).last_keyframe,
                            ..*old(self)
                        })
                    },
                    ServerEvent::Bad(e) => {
                        &&& wire::frame_fault(payload@) == Some(e)
                        &&& *final(self) == *old(self)
                    },
                    _ => false,
                }
            } else {
                &&& *final(self) == *old(self)
                &&& if kind == wire::MSG_HEARTBEAT {
                    event is Heartbeat
                } else if kind == wire::MSG_CLIPBOARD_SYNC {
                    match event {
                        ServerEvent::Clipboard(t) => vstd::utf8::valid_utf8(payload@) && t@
                            == vstd::utf8::decode_utf8(payload@),
                        ServerEvent::BadText => !vstd::utf8::valid_utf8(payload@),
                        _ => false,
                    }
                } else if kind == wire::MSG_CURSOR_STATE {
                    match event {
                        ServerEvent::Cursor(s) => decodes_to_cursor(payload@, s),
                        ServerEvent::Bad(e) => wire::cursor_state_fault(payload@) == Some(e),
                        _ => false,
                    }
                } else if kind == wire::MSG_CURSOR_SHAPE {
                    match event {
                        ServerEvent::Shape(shape) => decodes_to_shape(payload@, shape),
                        ServerEvent::Bad(e) => wire::cursor_shape_fault(payload@) == Some(e),
                        _ => false,
                    }
                } else {
                    event == ServerEvent::Unexpected(kind)
                }
            },
    {
        if kind == wire::MSG_ENCODED_FRAME {
            return match wire::decode_ipc_frame(payload.as_slice()) {
                Ok(frame) => {
                    if frame.encoded.is_keyframe {
                        self.last_keyframe = Some(frame.duplicate());
                    }
                    ServerEvent::Frame(frame)
                },
                Err(e) => ServerEvent::Bad(e),
            };
        }
        if kind == wire::MSG_HEARTBEAT {
            return ServerEvent::Heartbeat;
        }
        if kind == wire::MSG_CLIPBOARD_SYNC {
            return match wire::utf8_text(payload) {
                Some(t) => ServerEvent::Clipboard(t),
                None => ServerEvent::BadText,
            };
        }
        if kind == wire::MSG_CURSOR_STATE {
            return match wire::decode_cursor_state(payload.as_slice()) {
                Ok(s) => ServerEvent::Cursor(s),
                Err(e) => ServerEvent::Bad(e),
            };
        }
        if kind == wire::MSG_CURSOR_SHAPE {
            return match wire::decode_cursor_shape(payload.as_slice()) {
                Ok(shape) => ServerEvent::Shape(shape),
                Err(e) => ServerEvent::Bad(e),
            };
        }
        ServerEvent::Unexpected(kind)
    }
}

/// The payload carries this frame.
pub open spec fn decodes_to_frame(p: Seq<u8>, frame: IpcEncodedFrame) -> bool {
    &&& wire::frame_fault(p) is None
    &&& frame.encoded.is_keyframe == (p[0] != 0)
    &&& p[1] == wire::codec_code(frame.encoded.codec)
    &&& frame.width == bytes::u32_at(p, 2)
    &&& frame.height == bytes::u32_at(p, 6)
    &&& frame.encoded.data@ == p.skip(10)
}

/// The payload carries this cursor state.
pub open spec fn decodes_to_cursor(p: Seq<u8>, s: CursorState) -> bool {
    &&& wire::cursor_state_fault(p) is None
    &&& s.visible == (p[0] != 0)
    &&& s.x == bytes::signed_of(bytes::u32_at(p, 1))
    &&& s.y == bytes::signed_of(bytes::u32_at(p, 5))
    &&& s.shape_id == bytes::u64_at(p, 9)
}

/// The payload carries this cursor shape.
pub open spec fn decodes_to_shape(p: Seq<u8>, shape: CursorShape) -> bool {
    &&& wire::cursor_shape_fault(p) is None
    &&& shape.shape_id == bytes::u64_at(p, 0)
    &&& shape.width == bytes::u32_at(p, 8)
    &&& shape.height == bytes::u32_at(p, 12)
    &&& shape.hotspot_x == bytes::signed_of(bytes::u32_at(p, 16))
    &&& shape.hotspot_y == bytes::signed_of(bytes::u32_at(p, 20))
    &&& shape.rgba@ == p.skip(24)
}

/// Whether a heartbeat is to be sent: the last message went out long ago.
pub fn heartbeat_due(last_sent: u64, now: u64) -> (due: bool)
    ensures
        due == (clock::span(last_sent, now) >= HEARTBEAT_PERIOD),
{
    clock::elapsed(last_sent, now) >= HEARTBEAT_PERIOD
}

/// A resolution change that is waiting goes out before a keyframe request that
/// is waiting.
pub proof fn law_resize_goes_before_keyframe(s: IpcServer)
    requires
        !s.shutdown_requested,
        s.resolution_change is Some,
        s.keyframe_requested,
    ensures
        exists|i: int, j: int|
            #![trigger pending(s)[i], pending(s)[j]]
            0 <= i < j < pending(s).len() && pending(s)[i].0 == wire::MSG_RESOLUTION_CHANGE
                && pending(s)[j].0 == wire::MSG_FORCE_KEYFRAME,
{
    let i = if s.viewer_state is Some {
        1int
    } else {
        0int
    };
    assert(pending(s)[i].0 == wire::MSG_RESOLUTION_CHANGE);
    assert(pending(s)[i + 1].0 == wire::MSG_FORCE_KEYFRAME);
}

/// A shutdown that is waiting is the only message that goes out.
pub proof fn law_shutdown_goes_alone(s: IpcServer)
    requires
        s.shutdown_requested,
    ensures
        pending(s) == seq![(wire::MSG_SHUTDOWN, Seq::<u8>::empty())],
{
}

/// A viewer that comes and leaves again leaves the count as it was, and the
/// agent is told that nobody watches exactly if nobody did before.
pub proof fn law_viewer_comes_and_goes(s: IpcServer)
    requires
        s.viewer_count < usize::MAX,
    ensures
        s.acquired().released().viewer_count == s.viewer_count,
        s.connected && s.viewer_count == 0 ==> s.acquired().viewer_state == Some(true)
            && s.acquired().released().viewer_state == Some(false),
        s.viewer_count > 0 ==> s.acquired().released() == s,
{
}

/// What is asked for waits exactly while an agent is there, under the number of its own,
/// and a new wish takes the place of an older one.
pub proof fn law_wishes_need_an_agent(width: u32, height: u32, text: &str, active: bool)
    ensures
        forall|s: &mut IpcServer, out: ()| #[trigger]
            call_ensures(IpcServer::request_keyframe, (s,), out) ==> {
                &&& (*s).connected ==> (*final(s)).keyframe_requested
                &&& !(*s).connected ==> *final(s) == *s
                &&& (*final(s)).resolution_change == (*s).resolution_change
                &&& (*final(s)).shutdown_requested == (*s).shutdown_requested
            },
        forall|s: &mut IpcServer, out: ()| #[trigger]
            call_ensures(IpcServer::request_resolution_change, (s, width, height), out) ==> {
                &&& (*s).connected ==> (*final(s)).resolution_change == Some((width, height))
                &&& !(*s).connected ==> *final(s) == *s
                &&& (*final(s)).keyframe_requested == (*s).keyframe_requested
            },
        forall|s: &mut IpcServer, out: ()| #[trigger]
            call_ensures(IpcServer::send_paste, (s, text), out) ==> {
                &&& (*s).connected ==> (*final(s)).paste_text is Some && (*final(s)).paste_text->0@
                    == text@
                &&& (*final(s)).viewer_state == (*s).viewer_state
            },
        forall|s: &mut IpcServer, out: ()| #[trigger]
            call_ensures(IpcServer::set_viewer_active, (s, active), out) ==> {
                &&& (*s).connected ==> (*final(s)).viewer_state == Some(active)
                &&& !(*s).connected ==> *final(s) == *s
                &&& (*final(s)).viewer_count == (*s).viewer_count
            },
        forall|s: &mut IpcServer, out: ()| #[trigger]
            call_ensures(IpcServer::send_shutdown, (s,), out) ==> {
                &&& (*s).connected ==> (*final(s)).shutdown_requested
                &&& !(*s).connected ==> *final(s) == *s
                &&& (*final(s)).keyframe_requested == (*s).keyframe_requested
            },
{
}

/// The agent hears of the first viewer and of the last: it is told that somebody watches
/// when the count leaves zero and that nobody does when it comes back there, and of no
/// viewer in between.
pub proof fn law_agent_hears_of_first_and_last_viewer()
    ensures
        forall|s: &mut IpcServer, out: ()|
            (*s).viewer_count < usize::MAX && #[trigger] call_ensures(
                IpcServer::acquire_viewer,
                (s,),
                out,
            ) ==> {
                &&& (*final(s)).viewer_count == (*s).viewer_count + 1
                &&& (*s).connected && (*s).viewer_count == 0 ==> (*final(s)).viewer_state == Some(
                    true,
                )
                &&& !(*s).connected || (*s).viewer_count > 0 ==> (*final(s)).viewer_state
                    == (*s).viewer_state
            },
        forall|s: &mut IpcServer, out: ()| #[trigger]
            call_ensures(IpcServer::release_viewer, (s,), out) ==> {
                &&& (*s).viewer_count > 0 ==> (*final(s)).viewer_count + 1 == (*s).viewer_count
                &&& (*s).viewer_count == 0 ==> (*final(s)).viewer_count == 0
                &&& (*s).connected && (*final(s)).viewer_count == 0 ==> (*final(s)).viewer_state
                    == Some(false)
                &&& !(*s).connected || (*final(s)).viewer_count > 0 ==> (*final(s)).viewer_state
                    == (*s).viewer_state
            },
{
    assert forall|s: &mut IpcServer, out: ()|
        (*s).viewer_count < usize::MAX && #[trigger] call_ensures(
            IpcServer::acquire_viewer,
            (s,),
            out,
        ) implies {
        &&& (*final(s)).viewer_count == (*s).viewer_count + 1
        &&& (*s).connected && (*s).viewer_count == 0 ==> (*final(s)).viewer_state == Some(true)
        &&& !(*s).connected || (*s).viewer_count > 0 ==> (*final(s)).viewer_state
            == (*s).viewer_state
    } by {
        assert((*final(s)) == (*s).acquired());
    }
}

/// The link works exactly while the agent is there and both threads live; it begins and
/// ends with no picture kept; and an agent that was there is asked to end.
pub proof fn law_link_needs_both_threads(
    server: IpcServer,
    read_dead: bool,
    write_dead: bool,
    works: bool,
)
    requires
        call_ensures(IpcServer::is_connected, (&server, read_dead, write_dead), works),
    ensures
        read_dead || write_dead || !server.connected ==> !works,
        !read_dead && !write_dead && server.connected ==> works,
        forall|s: &mut IpcServer, out: ()| #[trigger]
            call_ensures(IpcServer::on_connected, (s,), out) ==> (*final(s)).connected && (*final(s)).last_keyframe is None && (*final(s)).viewer_count
            == (*s).viewer_count,
        forall|s: &mut IpcServer, ask: bool| #[trigger]
            call_ensures(IpcServer::disconnect, (s,), ask) ==> {
                &&& ask <==> (*s).connected
                &&& !(*final(s)).connected && (*final(s)).shutdown
                &&& (*final(s)).last_keyframe is None
                &&& ask ==> (*final(s)).shutdown_requested
            },
{
}

/// What waits is sent by its number and with what it carries: a flag for who watches, the
/// size for a resolution, nothing for a keyframe, and the text's bytes; nothing that does
/// not wait is sent.
pub proof fn law_what_waits_is_sent(s: IpcServer)
    requires
        !s.shutdown_requested,
    ensures
        s.viewer_state matches Some(active) ==> pending(s).contains(
            (9u8, seq![
                if active {
                    1u8
                } else {
                    0u8
                },
            ]),
        ),
        s.resolution_change matches Some((w, h)) ==> pending(s).contains(
            (6u8, bytes::le32(w) + bytes::le32(h)),
        ),
        s.keyframe_requested ==> pending(s).contains((5u8, Seq::<u8>::empty())),
        s.paste_text matches Some(t) ==> pending(s).contains(
            (7u8, vstd::utf8::encode_utf8(t@)),
        ),
        pending(s).len() == (if s.viewer_state is Some {
            1int
        } else {
            0
        }) + (if s.resolution_change is Some {
            1int
        } else {
            0
        }) + (if s.keyframe_requested {
            1int
        } else {
            0
        }) + (if s.paste_text is Some {
            1int
        } else {
            0
        }),
{
    let a: int = if s.viewer_state is Some {
        1
    } else {
        0
    };
    let b: int = if s.resolution_change is Some {
        1
    } else {
        0
    };
    let c: int = if s.keyframe_requested {
        1
    } else {
        0
    };
    let all = pending(s);
    if s.viewer_state is Some {
        assert(all[0].1 =~= seq![wire::flag(s.viewer_state->0)]);
        assert(all.contains(all[0]));
    }
    if s.resolution_change is Some {
        assert(all.contains(all[a]));
    }
    if s.keyframe_requested {
        assert(all.contains(all[a + b]));
    }
    if s.paste_text is Some {
        assert(all.contains(all[a + b + c]));
    }
}

/// A keyframe that comes is kept, another frame and any other message leave the one that
/// is kept alone, and no message changes what waits to be sent.
pub proof fn law_newest_keyframe_is_kept(kind: u8, payload: Vec<u8>)
    ensures
        forall|s: &mut IpcServer, event: ServerEvent| #[trigger]
            call_ensures(IpcServer::on_message, (s, kind, payload), event) ==> {
                &&& event is Frame <==> kind == 1 && payload@.len() >= 10 && payload@[1] <= 1
                &&& event is Heartbeat <==> kind == 3
                &&& event is Clipboard ==> kind == 8
                &&& event is Cursor <==> kind == 10 && payload@.len() >= 17
                &&& event is Shape ==> kind == 11
                &&& kind == 2 || kind == 4 || kind == 5 || kind == 6 || kind == 7 || kind == 9
                    || kind == 0 || kind > 11 ==> event == ServerEvent::Unexpected(kind)
                &&& event is Frame && payload@[0] != 0 ==> (*final(s)).last_keyframe is Some
                    && (*final(s)).last_keyframe->0.encoded.data@ == payload@.skip(10)
                &&& !(event is Frame && payload@[0] != 0) ==> (*final(s)).last_keyframe
                    == (*s).last_keyframe
                &&& pending(*final(s)) == pending(*s)
                &&& (*final(s)).connected == (*s).connected
                &&& (*final(s)).viewer_count == (*s).viewer_count
            },
{
}

/// A heartbeat is due once five seconds passed without a message, and not before.
pub proof fn law_heartbeat_after_five_seconds(last_sent: u64, now: u64, due: bool)
    requires
        call_ensures(heartbeat_due, (last_sent, now), due),
    ensures
        due <==> now - last_sent >= 5_000_000_000,
{
}

/// What is handed on is what the payload holds: a frame's size from its third byte on, a
/// cursor's place after its flag, and a shape's size, hotspot and pixels after its number.
pub proof fn law_payload_is_handed_on(kind: u8, payload: Vec<u8>)
    ensures
        forall|s: &mut IpcServer, event: ServerEvent| #[trigger]
            call_ensures(IpcServer::on_message, (s, kind, payload), event) ==> {
                let p = payload@;
                &&& event matches ServerEvent::Frame(f) ==> {
                    &&& f.encoded.is_keyframe <==> p[0] != 0
                    &&& f.encoded.codec is H264 <==> p[1] == 0
                    &&& f.width == p[2] + 0x100 * p[3] + 0x1_0000 * p[4] + 0x100_0000 * p[5]
                    &&& f.height == p[6] + 0x100 * p[7] + 0x1_0000 * p[8] + 0x100_0000 * p[9]
                    &&& f.encoded.data@ == p.skip(10)
                }
                &&& event matches ServerEvent::Cursor(c) ==> {
                    &&& c.visible <==> p[0] != 0
                    &&& bytes::bits_of(c.x) == p[1] + 0x100 * p[2] + 0x1_0000 * p[3] + 0x100_0000
                        * p[4]
                    &&& bytes::bits_of(c.y) == p[5] + 0x100 * p[6] + 0x1_0000 * p[7] + 0x100_0000
                        * p[8]
                    &&& c.shape_id == bytes::u64_at(p, 9)
                }
                &&& event matches ServerEvent::Shape(c) ==> {
                    &&& c.shape_id == bytes::u64_at(p, 0)
                    &&& c.width == p[8] + 0x100 * p[9] + 0x1_0000 * p[10] + 0x100_0000 * p[11]
                    &&& c.height == p[12] + 0x100 * p[13] + 0x1_0000 * p[14] + 0x100_0000 * p[15]
                    &&& bytes::bits_of(c.hotspot_x) == p[16] + 0x100 * p[17] + 0x1_0000 * p[18]
                        + 0x100_0000 * p[19]
                    &&& bytes::bits_of(c.hotspot_y) == p[20] + 0x100 * p[21] + 0x1_0000 * p[22]
                        + 0x100_0000 * p[23]
                    &&& c.rgba@ == p.skip(24)
                    &&& c.rgba@.len() == c.width * c.height * 4
                }
                &&& event matches ServerEvent::Clipboard(t) ==> vstd::utf8::valid_utf8(p) && t@
                    == vstd::utf8::decode_utf8(p)
                &&& kind == 8 && vstd::utf8::valid_utf8(p) ==> event is Clipboard
            },
{
    assert forall|s: &mut IpcServer, event: ServerEvent| #[trigger]
        call_ensures(IpcServer::on_message, (s, kind, payload), event) implies {
        let p = payload@;
        &&& event matches ServerEvent::Cursor(c) ==> {
            &&& bytes::bits_of(c.x) == bytes::u32_at(p, 1)
            &&& bytes::bits_of(c.y) == bytes::u32_at(p, 5)
        }
        &&& event matches ServerEvent::Shape(c) ==> {
            &&& bytes::bits_of(c.hotspot_x) == bytes::u32_at(p, 16)
            &&& bytes::bits_of(c.hotspot_y) == bytes::u32_at(p, 20)
        }
    } by {
        let p = payload@;
        bytes::lemma_bits_round_trip(0, bytes::u32_at(p, 1));
        bytes::lemma_bits_round_trip(0, bytes::u32_at(p, 5));
        bytes::lemma_bits_round_trip(0, bytes::u32_at(p, 16));
        bytes::lemma_bits_round_trip(0, bytes::u32_at(p, 20));
    }
}

} // verus!
