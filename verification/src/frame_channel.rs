use vstd::prelude::*;

verus! {

#[verifier::external_type_specification]
#[verifier::external_body]
#[verifier::reject_recursive_types(T)]
pub struct ExSender<T>(crossbeam_channel::Sender<T>);

#[verifier::external_type_specification]
#[verifier::external_body]
#[verifier::reject_recursive_types(T)]
pub struct ExReceiver<T>(crossbeam_channel::Receiver<T>);

/// How many decoded frames may wait in the queue between the decoder and the viewer.
pub const FRAME_QUEUE_CAPACITY: usize = 5;

/// The capacity that the channel behind a frame sender was made with
/// (`None` for an unbounded channel).
pub uninterp spec fn frame_channel_capacity(sender: crossbeam_channel::Sender<Vec<u8>>) -> Option<nat>;

/// Whether a sender and a receiver are the two ends of one channel, so that what is sent
/// on the one arrives on the other.
pub uninterp spec fn frame_channel_ends_joined(
    sender: crossbeam_channel::Sender<Vec<u8>>,
    receiver: crossbeam_channel::Receiver<Vec<u8>>,
) -> bool;

/// Calls `crossbeam_channel::bounded(cap)`, which makes a channel that holds at most `cap`
/// messages and hands back its two ends. The contract states the capacity of the channel
/// and that the two ends belong to it.
#[verifier::external_body]
fn bounded_frame_channel(cap: usize) -> (ends: (
    crossbeam_channel::Sender<Vec<u8>>,
    crossbeam_channel::Receiver<Vec<u8>>,
))
    ensures
        frame_channel_capacity(ends.0) == Some(cap as nat),
        frame_channel_ends_joined(ends.0, ends.1),
{
    crossbeam_channel::bounded(cap)
}

/// Calls `crossbeam_channel::Sender::is_full`. The channel is shared with a receiver on
/// another thread, so the answer depends on that thread; the contract states only what
/// holds for every outcome: a zero-capacity channel is always full, and an unbounded one
/// never is.
#[verifier::external_body]
fn sender_is_full(sender: &crossbeam_channel::Sender<Vec<u8>>) -> (full: bool)
    ensures
        frame_channel_capacity(*sender) == Some(0nat) ==> full,
        frame_channel_capacity(*sender) is None ==> !full,
{
    sender.is_full()
}

/// Why a frame could not be put into the channel.
#[derive(Debug, Clone, Copy, PartialEq, Eq, Structural)]
pub enum SendFailure {
    /// The channel held as many frames as it can.
    Full,
    /// The receiving end is gone.
    Disconnected,
}

/// Calls `crossbeam_channel::Sender::try_send`, which puts `frame` into the channel
/// without blocking or fails because the channel is full or disconnected. Whether it
/// succeeds depends on the receiving thread, so the contract states only what holds for
/// every outcome: an unbounded channel is never full, so sending into one fails only when
/// the receiving end is gone. The body only tells the two error variants apart.
#[verifier::external_body]
fn sender_try_send(
    sender: &crossbeam_channel::Sender<Vec<u8>>,
    frame: Vec<u8>,
) -> (sent: Result<(), SendFailure>)
    ensures
        frame_channel_capacity(*sender) is None ==> !(sent matches Err(SendFailure::Full)),
{
    match sender.try_send(frame) {
        Ok(()) => Ok(()),
        Err(crossbeam_channel::TrySendError::Full(_)) => Err(SendFailure::Full),
        Err(crossbeam_channel::TrySendError::Disconnected(_)) => Err(SendFailure::Disconnected),
    }
}

/// Makes the queue through which decoded frames go from the decoder to the viewer.
pub fn create_frame_channel() -> (ends: (
    crossbeam_channel::Sender<Vec<u8>>,
    crossbeam_channel::Receiver<Vec<u8>>,
))
    ensures
        frame_channel_capacity(ends.0) == Some(FRAME_QUEUE_CAPACITY as nat),
        frame_channel_ends_joined(ends.0, ends.1),
{
    bounded_frame_channel(FRAME_QUEUE_CAPACITY)
}

/// What became of a decoded frame that was offered to the viewer.
#[derive(Debug, Clone, Copy, PartialEq, Eq, Structural)]
pub enum FrameOffer {
    /// The frame was queued.
    Sent,
    /// The queue was full, so the frame was dropped without trying to send it.
    SkippedFull,
    /// Sending was tried and failed.
    Failed(SendFailure),
}

/// The outcome of offering a frame, given whether the queue was found full and, if it was
/// not, what the attempt to send returned.
pub open spec fn spec_frame_offer(full: bool, sent: Result<(), SendFailure>) -> FrameOffer {
    if full {
        FrameOffer::SkippedFull
    } else {
        match sent {
            Ok(()) => FrameOffer::Sent,
            Err(e) => FrameOffer::Failed(e),
        }
    }
}

/// The outcome of offering a frame, given whether the queue was found full and, if it was
/// not, what the attempt to send returned.
pub fn frame_offer_outcome(full: bool, sent: Result<(), SendFailure>) -> (offer: FrameOffer)
    ensures
        offer == spec_frame_offer(full, sent),
{
    if full {
        FrameOffer::SkippedFull
    } else {
        match sent {
            Ok(()) => FrameOffer::Sent,
            Err(e) => FrameOffer::Failed(e),
        }
    }
}

/// Offers a decoded frame to the viewer: the frame is sent only when the queue is not full,
/// so that a slow viewer drops frames instead of holding up the decoder.
pub fn offer_frame(sender: &crossbeam_channel::Sender<Vec<u8>>, frame: Vec<u8>) -> (offer: FrameOffer)
    ensures
        frame_channel_capacity(*sender) == Some(0nat) ==> offer == FrameOffer::SkippedFull,
        frame_channel_capacity(*sender) is None ==> (offer == FrameOffer::Sent || offer
            == FrameOffer::Failed(SendFailure::Disconnected)),
{
    let full = sender_is_full(sender);
    if full {
        frame_offer_outcome(true, Ok(()))
    } else {
        let sent = sender_try_send(sender, frame);
        frame_offer_outcome(false, sent)
    }
}

/// The steps of taking a decoded frame from the application sink that can fail.
#[derive(Debug, Clone, Copy, PartialEq, Eq, Structural)]
pub enum SampleFailure {
    /// No sample could be pulled from the sink.
    PullFailed,
    /// The sample holds no buffer.
    NoBuffer,
    /// The buffer cannot be mapped for reading.
    Unreadable,
    /// The sink has no sink pad.
    NoPad,
    /// The pad has no negotiated capabilities.
    NoCaps,
    /// The capabilities hold no structure.
    NoStructure,
    /// The structure tells no width.
    NoWidth,
    /// The structure tells no height.
    NoHeight,
}

/// How the sink answers the pipeline when taking a frame failed.
#[derive(Debug, Clone, Copy, PartialEq, Eq, Structural)]
pub enum FlowFailure {
    /// The stream has ended.
    Eos,
    /// Streaming failed.
    Error,
}

/// How the sink answers a failure: no sample to pull means the stream has ended; any
/// other failure is a streaming error.
pub open spec fn spec_flow_failure(failure: SampleFailure) -> FlowFailure {
    match failure {
        SampleFailure::PullFailed => FlowFailure::Eos,
        _ => FlowFailure::Error,
    }
}

/// How the sink answers the pipeline when taking a frame failed.
pub fn flow_failure(failure: SampleFailure) -> (flow: FlowFailure)
    ensures
        flow == spec_flow_failure(failure),
{
    match failure {
        SampleFailure::PullFailed => FlowFailure::Eos,
        _ => FlowFailure::Error,
    }
}

} // verus!
