//! One iteration of each loop of the bridge, as a step function from state
//! and received data to next state and action. The surrounding process runs
//! the loops: it blocks on the interface's receive call, hands each buffer to
//! `capture_step`, suspends while the queue is full or empty, and sends what
//! `transmit_step` hands back.

use vstd::prelude::*;
use crate::filter::FilterPolicy;
use crate::frame::{EthernetFrame, spec_valid_frame};
use crate::queue::ForwardingQueue;

verus! {

/// What one capture iteration did with one received buffer.
#[derive(Clone, Copy, Debug, PartialEq, Eq, Structural)]
pub enum CaptureOutcome {
    /// The buffer parsed, passed the filter, and was appended to the queue.
    Enqueued,
    /// The frame was well-formed but the policy refused it; it is dropped.
    Rejected,
    /// The buffer is shorter than the fixed header; it is dropped.
    Malformed,
    /// The frame passed the filter but the queue is filled to capacity: the
    /// producer must suspend and offer the same buffer again later.
    QueueFull,
}

/// The queue contents after one capture step: an accepted frame is appended
/// when a slot is free; in every other case the queue is unchanged.
pub open spec fn capture_transition(
    q: Seq<Seq<u8>>,
    policy: FilterPolicy,
    buf: Seq<u8>,
    cap: int,
) -> Seq<Seq<u8>> {
    if spec_valid_frame(buf) && policy.spec_accepts(buf) && q.len() < cap {
        q.push(buf)
    } else {
        q
    }
}

/// The outcome of one capture step on the given queue, policy and buffer.
pub open spec fn capture_outcome(
    q: Seq<Seq<u8>>,
    policy: FilterPolicy,
    buf: Seq<u8>,
    cap: int,
) -> CaptureOutcome {
    if !spec_valid_frame(buf) {
        CaptureOutcome::Malformed
    } else if !policy.spec_accepts(buf) {
        CaptureOutcome::Rejected
    } else if q.len() < cap {
        CaptureOutcome::Enqueued
    } else {
        CaptureOutcome::QueueFull
    }
}

/// One iteration of the capture loop, given the buffer one receive call
/// produced: parse it, apply the policy, and append the accepted frame —
/// copied into an owned buffer — to the forwarding queue.
///
/// Never panics and never terminates the loop: a short buffer or a refused
/// frame only yields its outcome, and a full queue hands the decision to
/// suspend back to the caller.
pub fn capture_step(
    queue: &mut ForwardingQueue,
    policy: &FilterPolicy,
    buf: &[u8],
) -> (r: CaptureOutcome)
    requires
        old(queue).wf(),
    ensures
        final(queue).wf(),
        final(queue).spec_capacity() == old(queue).spec_capacity(),
        r == capture_outcome(old(queue)@, *policy, buf@, old(queue).spec_capacity()),
        final(queue)@ == capture_transition(old(queue)@, *policy, buf@, old(queue).spec_capacity()),
{
    match EthernetFrame::parse(buf) {
        None => CaptureOutcome::Malformed,
        Some(frame) => {
            if policy.accepts(&frame) {
                match queue.try_enqueue(frame) {
                    Ok(()) => CaptureOutcome::Enqueued,
                    Err(_) => CaptureOutcome::QueueFull,
                }
            } else {
                CaptureOutcome::Rejected
            }
        },
    }
}

/// One iteration of the transmit loop: take the oldest queued frame and hand
/// back its bytes, copied into a buffer sized exactly to the frame's length,
/// for the destination interface's send call. Nothing is queued: the caller
/// suspends until a frame arrives.
pub fn transmit_step(queue: &mut ForwardingQueue) -> (r: Option<Vec<u8>>)
    requires
        old(queue).wf(),
    ensures
        final(queue).wf(),
        final(queue).spec_capacity() == old(queue).spec_capacity(),
        old(queue)@.len() == 0 ==> r is None && final(queue)@ == old(queue)@,
        old(queue)@.len() > 0 ==> {
            &&& r matches Some(bytes) && bytes@ == old(queue)@[0]
            &&& final(queue)@ == old(queue)@.skip(1)
        },
{
    match queue.dequeue() {
        None => None,
        Some(frame) => Some(frame.to_bytes()),
    }
}

} // verus!
