//! Encoded video.

use vstd::prelude::*;

verus! {

/// The compression of a video frame.
#[derive(Debug, Clone, Copy, PartialEq, Eq, Structural)]
pub enum VideoCodec {
    H264,
    Av1,
}

/// One encoded video frame.
#[derive(Debug, Clone, PartialEq, Eq)]
pub struct EncodedFrame {
    pub codec: VideoCodec,
    /// The bitstream of the frame.
    pub data: Vec<u8>,
    /// Whether the frame can be decoded without the ones before it.
    pub is_keyframe: bool,
}

impl EncodedFrame {
    /// The same frame again.
    pub fn duplicate(&self) -> (frame: EncodedFrame)
        ensures
            frame.codec == self.codec,
            frame.data@ == self.data@,
            frame.is_keyframe == self.is_keyframe,
    {
        EncodedFrame {
            codec: self.codec,
            data: crate::bytes::copy_all(self.data.as_slice()),
            is_keyframe: self.is_keyframe,
        }
    }
}

/// A frame and its duplicate are the same frame.
pub proof fn law_duplicate_is_the_same(frame: EncodedFrame, again: EncodedFrame)
    requires
        call_ensures(EncodedFrame::duplicate, (&frame,), again),
    ensures
        again.data@ == frame.data@,
        again.is_keyframe <==> frame.is_keyframe,
        again.codec is H264 <==> frame.codec is H264,
{
}

} // verus!
