//! Application message payloads and the mathematical model of transport frames.

use vstd::prelude::*;

verus! {

/// An application message handed to a push channel: either a text payload,
/// sent in the transport's dedicated text frame, or an uninterpreted byte
/// payload, sent in a binary frame.
#[derive(Debug, Clone)]
pub enum MessagePayload {
    Text(String),
    Binary(Vec<u8>),
}

/// The content of one transport frame, as a mathematical value: the character
/// sequence carried by a text frame, or the byte sequence carried by a binary
/// frame.
pub enum FrameContent {
    Text(Seq<char>),
    Binary(Seq<u8>),
}

impl MessagePayload {
    /// The frame content this payload maps to: the conversion preserves the
    /// character sequence of a text payload and the byte sequence of a binary
    /// payload exactly.
    pub open spec fn frame_content(self) -> FrameContent {
        match self {
            MessagePayload::Text(t) => FrameContent::Text(t@),
            MessagePayload::Binary(b) => FrameContent::Binary(b@),
        }
    }

    /// Whether this payload is a text payload.
    pub open spec fn is_text(self) -> bool {
        self is Text
    }
}

} // verus!
