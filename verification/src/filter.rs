//! The forwarding policy: a pure, total predicate over a parsed frame that
//! decides forward-eligibility. The policy is pluggable: the capture step is
//! written against the policy value, not against any one rule.

use vstd::prelude::*;
use crate::frame::{EthernetFrame, ETHERTYPE_IPV4, spec_ethertype, spec_valid_frame};

verus! {

/// A stateless forwarding policy, constructed once at startup and shared by
/// every capture loop.
#[derive(Clone, Copy, PartialEq, Eq, Structural)]
pub enum FilterPolicy {
    /// Accept exactly the frames whose EtherType equals the given value.
    EtherTypeIs(u16),
    /// Accept every well-formed frame.
    AcceptAll,
}

impl FilterPolicy {
    /// What the policy decides on a raw frame.
    pub open spec fn spec_accepts(self, bytes: Seq<u8>) -> bool
        recommends
            spec_valid_frame(bytes),
    {
        match self {
            FilterPolicy::EtherTypeIs(t) => spec_ethertype(bytes) == t as int,
            FilterPolicy::AcceptAll => true,
        }
    }

    /// The default policy: accept exactly the IPv4 frames.
    pub fn ipv4_only() -> (p: FilterPolicy)
        ensures
            p == FilterPolicy::EtherTypeIs(ETHERTYPE_IPV4),
            forall|bytes: Seq<u8>|
                p.spec_accepts(bytes) <==> spec_ethertype(bytes) == ETHERTYPE_IPV4 as int,
    {
        FilterPolicy::EtherTypeIs(ETHERTYPE_IPV4)
    }

    /// Evaluate the policy on a parsed frame. Pure and total: the frame is
    /// not changed and the decision depends on its bytes alone.
    pub fn accepts(&self, frame: &EthernetFrame) -> (r: bool)
        requires
            frame.wf(),
        ensures
            r == self.spec_accepts(frame@),
    {
        match self {
            FilterPolicy::EtherTypeIs(t) => frame.ethertype() == *t,
            FilterPolicy::AcceptAll => true,
        }
    }
}

/// The default forwarding decision: forward exactly the IPv4 frames.
pub fn should_forward(frame: &EthernetFrame) -> (r: bool)
    requires
        frame.wf(),
    ensures
        r == (spec_ethertype(frame@) == ETHERTYPE_IPV4 as int),
{
    frame.ethertype() == ETHERTYPE_IPV4
}

} // verus!
