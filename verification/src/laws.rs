//! The guarantees of the pipeline as a whole, proved over the queue model:
//! what a run of capture steps puts into the queue, in what order frames
//! leave it, and that the capacity bound holds throughout.

use vstd::prelude::*;
use crate::filter::FilterPolicy;
use crate::frame::{spec_valid_frame, spec_ethertype, ETHERTYPE_IPV4};
use crate::pipeline::{capture_transition, capture_outcome, CaptureOutcome};

verus! {

/// The queue contents after capture steps consume the received buffers in
/// order, starting from the given queue.
pub open spec fn run_capture(
    q: Seq<Seq<u8>>,
    policy: FilterPolicy,
    bufs: Seq<Seq<u8>>,
    cap: int,
) -> Seq<Seq<u8>>
    decreases bufs.len(),
{
    if bufs.len() == 0 {
        q
    } else {
        run_capture(capture_transition(q, policy, bufs.first(), cap), policy, bufs.drop_first(), cap)
    }
}

/// The subsequence of received buffers that parse and that the policy
/// accepts, in arrival order.
pub open spec fn accepted_of(policy: FilterPolicy, bufs: Seq<Seq<u8>>) -> Seq<Seq<u8>>
    decreases bufs.len(),
{
    if bufs.len() == 0 {
        Seq::<Seq<u8>>::empty()
    } else if spec_valid_frame(bufs.first()) && policy.spec_accepts(bufs.first()) {
        seq![bufs.first()] + accepted_of(policy, bufs.drop_first())
    } else {
        accepted_of(policy, bufs.drop_first())
    }
}

/// An accepted frame is appended to the queue byte-identical, and once the
/// frames ahead of it have been taken, it is itself the one handed to
/// transmit, still byte-identical.
pub proof fn lemma_accepted_frame_delivered(
    q: Seq<Seq<u8>>,
    policy: FilterPolicy,
    buf: Seq<u8>,
    cap: int,
)
    requires
        spec_valid_frame(buf),
        policy.spec_accepts(buf),
        q.len() < cap,
    ensures
        capture_outcome(q, policy, buf, cap) == CaptureOutcome::Enqueued,
        capture_transition(q, policy, buf, cap) == q.push(buf),
        capture_transition(q, policy, buf, cap).skip(q.len() as int).first() == buf,
{
    assert(q.push(buf).skip(q.len() as int) =~= seq![buf]);
}

/// A frame the policy refuses is never enqueued; under the default policy
/// that is every frame whose EtherType is not IPv4.
pub proof fn lemma_rejected_frame_not_enqueued(
    q: Seq<Seq<u8>>,
    policy: FilterPolicy,
    buf: Seq<u8>,
    cap: int,
)
    requires
        spec_valid_frame(buf),
        !policy.spec_accepts(buf),
    ensures
        capture_outcome(q, policy, buf, cap) == CaptureOutcome::Rejected,
        capture_transition(q, policy, buf, cap) == q,
{
}

/// Under the default policy, a well-formed frame whose EtherType differs
/// from IPv4 leaves the queue unchanged.
pub proof fn lemma_non_ipv4_never_enqueued(q: Seq<Seq<u8>>, buf: Seq<u8>, cap: int)
    requires
        spec_valid_frame(buf),
        spec_ethertype(buf) != ETHERTYPE_IPV4 as int,
    ensures
        capture_outcome(q, FilterPolicy::EtherTypeIs(ETHERTYPE_IPV4), buf, cap)
            == CaptureOutcome::Rejected,
        capture_transition(q, FilterPolicy::EtherTypeIs(ETHERTYPE_IPV4), buf, cap) == q,
{
}

/// A buffer shorter than the fixed header is dropped before the filter: no
/// enqueue happens and the queue is unchanged, whatever the policy.
pub proof fn lemma_short_buffer_ignored(
    q: Seq<Seq<u8>>,
    policy: FilterPolicy,
    buf: Seq<u8>,
    cap: int,
)
    requires
        !spec_valid_frame(buf),
    ensures
        capture_outcome(q, policy, buf, cap) == CaptureOutcome::Malformed,
        capture_transition(q, policy, buf, cap) == q,
{
}

/// Backpressure: a queue filled to capacity refuses the frame. The queue is
/// unchanged — the frame is neither stored nor dropped, the producer keeps
/// it — and an accepted frame yields the outcome that tells the producer to
/// suspend and retry.
pub proof fn lemma_backpressure(q: Seq<Seq<u8>>, policy: FilterPolicy, buf: Seq<u8>, cap: int)
    requires
        q.len() == cap,
    ensures
        capture_transition(q, policy, buf, cap) == q,
        spec_valid_frame(buf) && policy.spec_accepts(buf) ==> capture_outcome(q, policy, buf, cap)
            == CaptureOutcome::QueueFull,
{
}

/// The capacity bound holds throughout any run: however many buffers arrive,
/// the queue never grows past the capacity it was built with.
pub proof fn lemma_capacity_never_exceeded(
    q: Seq<Seq<u8>>,
    policy: FilterPolicy,
    bufs: Seq<Seq<u8>>,
    cap: int,
)
    requires
        q.len() <= cap,
    ensures
        run_capture(q, policy, bufs, cap).len() <= cap,
    decreases bufs.len(),
{
    if bufs.len() > 0 {
        lemma_capacity_never_exceeded(
            capture_transition(q, policy, bufs.first(), cap),
            policy,
            bufs.drop_first(),
            cap,
        );
    }
}

/// FIFO: when the capacity is never hit, a run of capture steps appends
/// exactly the accepted frames, in arrival order, after what was already
/// queued. Since the transmit side always takes the head, the frames are
/// transmitted in the order the filter accepted them.
pub proof fn lemma_fifo_order(q: Seq<Seq<u8>>, policy: FilterPolicy, bufs: Seq<Seq<u8>>, cap: int)
    requires
        q.len() + accepted_of(policy, bufs).len() <= cap,
    ensures
        run_capture(q, policy, bufs, cap) == q + accepted_of(policy, bufs),
    decreases bufs.len(),
{
    if bufs.len() == 0 {
        assert(q + accepted_of(policy, bufs) =~= q);
    } else {
        let b = bufs.first();
        let rest = bufs.drop_first();
        if spec_valid_frame(b) && policy.spec_accepts(b) {
            assert(accepted_of(policy, bufs) == seq![b] + accepted_of(policy, rest));
            assert(accepted_of(policy, bufs).len() == 1 + accepted_of(policy, rest).len());
            lemma_fifo_order(q.push(b), policy, rest, cap);
            assert(q.push(b) =~= q + seq![b]);
            assert((q + seq![b]) + accepted_of(policy, rest) =~= q + accepted_of(policy, bufs));
        } else {
            assert(accepted_of(policy, bufs) == accepted_of(policy, rest));
            lemma_fifo_order(q, policy, rest, cap);
        }
    }
}

/// Draining in order: after the transmit side has taken k frames from a
/// queue that held the sequence s, the next frame handed out is s[k], and
/// one more take leaves the queue at s.skip(k + 1).
pub proof fn lemma_transmit_order(s: Seq<Seq<u8>>, k: int)
    requires
        0 <= k < s.len(),
    ensures
        s.skip(k).first() == s[k],
        s.skip(k).drop_first() == s.skip(k + 1),
{
    assert(s.skip(k).drop_first() =~= s.skip(k + 1));
}

} // verus!
