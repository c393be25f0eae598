//! The push channel of a WebSocket connection.
//!
//! A `PushConnection` owns exclusive write access to one connection's
//! outbound sink — the write half of the split socket, a unique handle
//! produced once by the split — and exposes a single non-blocking push
//! operation: convert an application payload into a transport frame and hand
//! the frame to the transport's "start send" primitive.

use vstd::prelude::*;

use futures::Sink;

use crate::message::{FrameContent, MessagePayload};

verus! {

#[verifier::external_type_specification]
#[verifier::external_body]
pub struct ExWebSocket(warp::ws::WebSocket);

#[verifier::external_type_specification]
#[verifier::external_body]
pub struct ExWarpMessage(warp::ws::Message);

#[verifier::external_type_specification]
#[verifier::external_body]
pub struct ExWarpError(warp::Error);

#[verifier::external_type_specification]
#[verifier::external_body]
#[verifier::reject_recursive_types(S)]
pub struct ExSplitSink<S>(futures::stream::SplitSink<S>);

/// The content carried by one transport frame.
pub uninterp spec fn frame_content_of(m: warp::ws::Message) -> FrameContent;

/// The contents of the frames a sink has accepted for transmission, in the
/// order they were enqueued.
pub uninterp spec fn accepted_frames(
    s: futures::stream::SplitSink<warp::ws::WebSocket>,
) -> Seq<FrameContent>;

/// Relies on warp::ws::Message::text: builds the transport's dedicated text
/// frame, carrying exactly the given characters.
#[verifier::external_body]
fn text_frame(s: String) -> (m: warp::ws::Message)
    ensures
        frame_content_of(m) == FrameContent::Text(s@),
{
    warp::ws::Message::text(s)
}

/// Relies on warp::ws::Message::binary: builds a binary frame carrying
/// exactly the given bytes.
#[verifier::external_body]
fn binary_frame(v: Vec<u8>) -> (m: warp::ws::Message)
    ensures
        frame_content_of(m) == FrameContent::Binary(v@),
{
    warp::ws::Message::binary(v)
}

/// Converts an application payload into a transport frame. The mapping is
/// total over both variants and preserves the payload exactly: a text payload
/// becomes a text frame with the same character sequence, a binary payload a
/// binary frame with the same byte sequence.
pub fn payload_to_frame(payload: MessagePayload) -> (m: warp::ws::Message)
    ensures
        frame_content_of(m) == payload.frame_content(),
{
    match payload {
        MessagePayload::Text(t) => text_frame(t),
        MessagePayload::Binary(b) => binary_frame(b),
    }
}

/// What the transport's non-blocking enqueue primitive did with a frame.
pub enum StartSendOutcome {
    /// The sink accepted the frame into its internal buffer.
    Accepted,
    /// The sink is not ready to take a frame right now and handed the frame
    /// back untouched.
    NotReady(warp::ws::Message),
    /// The transport failed (closed connection, protocol error).
    Failed(warp::Error),
}

/// Why a push failed: the sink rejected the frame. Pushes are never retried
/// internally; retry policy, if any, belongs to the caller.
#[derive(Debug)]
pub enum EnqueueFailure {
    /// The sink's outbound buffer refused the frame for now; the connection
    /// itself is still up.
    Busy,
    /// The transport reported an error (closed or failing connection,
    /// protocol violation).
    Transport(warp::Error),
}

/// Relies on futures::stream::SplitSink::start_send over warp's websocket:
/// the frame is either accepted into the transport's internal buffer, handed
/// back untouched because the sink is not ready, or refused with a transport
/// error.
#[verifier::external_body]
fn sink_start_send(
    sink: &mut futures::stream::SplitSink<warp::ws::WebSocket>,
    m: warp::ws::Message,
) -> (r: StartSendOutcome)
    ensures
        r is Accepted ==> accepted_frames(*final(sink)) == accepted_frames(*old(sink)).push(
            frame_content_of(m),
        ),
        r is NotReady ==> accepted_frames(*final(sink)) == accepted_frames(*old(sink)),
        (r matches StartSendOutcome::NotReady(back) ==> frame_content_of(back)
            == frame_content_of(m)),
{
    match sink.start_send(m) {
        Ok(futures::AsyncSink::Ready) => StartSendOutcome::Accepted,
        Ok(futures::AsyncSink::NotReady(back)) => StartSendOutcome::NotReady(back),
        Err(e) => StartSendOutcome::Failed(e),
    }
}

/// The push result for each outcome of the transport's enqueue primitive:
/// acceptance of the frame is the only success; a sink that is not ready
/// rejects the push as busy, and a transport error is surfaced as an enqueue
/// failure wrapping it.
pub fn enqueue_result(outcome: StartSendOutcome) -> (r: Result<(), EnqueueFailure>)
    ensures
        r is Ok <==> outcome is Accepted,
        outcome is NotReady ==> (r matches Err(EnqueueFailure::Busy)),
        (outcome matches StartSendOutcome::Failed(e) ==> (r matches Err(
            EnqueueFailure::Transport(f),
        ) && f == e)),
{
    match outcome {
        StartSendOutcome::Accepted => Ok(()),
        StartSendOutcome::NotReady(_) => Err(EnqueueFailure::Busy),
        StartSendOutcome::Failed(e) => Err(EnqueueFailure::Transport(e)),
    }
}

/// The push channel of one WebSocket connection.
pub struct PushConnection {
    sink: futures::stream::SplitSink<warp::ws::WebSocket>,
}

impl PushConnection {
    /// The contents of the frames this channel has pushed into the
    /// transport's buffer, in push order.
    pub closed spec fn pushed(self) -> Seq<FrameContent> {
        accepted_frames(self.sink)
    }

    /// Wraps the write half of a split socket. The write half is a unique,
    /// non-duplicable handle, so at most one push channel exists per
    /// connection.
    pub fn new(sink: futures::stream::SplitSink<warp::ws::WebSocket>) -> (c: Self)
        ensures
            c.pushed() == accepted_frames(sink),
    {
        PushConnection { sink }
    }

    /// Converts the payload into a frame and attempts to enqueue it,
    /// non-blocking and fire-and-forget: on success the frame — carrying
    /// exactly the payload's content — has been accepted into the transport's
    /// internal buffer (not necessarily flushed); a busy sink leaves the
    /// buffer untouched. No retry is performed. The contract speaks only of
    /// this channel's own sink: a push can never reach, or disturb, any other
    /// connection's channel.
    pub fn push_message(&mut self, payload: MessagePayload) -> (r: Result<(), EnqueueFailure>)
        ensures
            r is Ok ==> final(self).pushed() == old(self).pushed().push(payload.frame_content()),
            (r matches Err(EnqueueFailure::Busy)) ==> final(self).pushed() == old(self).pushed(),
    {
        let frame = payload_to_frame(payload);
        let outcome = sink_start_send(&mut self.sink, frame);
        enqueue_result(outcome)
    }
}

} // verus!
