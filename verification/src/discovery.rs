//! The discovery contract: snapshot fetch, change-stream subscription, and
//! address-to-target resolution.

use vstd::prelude::*;
use crate::net::IpAddr;
use crate::outbound::OutboundPolicy;

verus! {

/// An upstream index failure, propagated opaquely to the caller. A
/// destination that is merely unknown is never reported this way.
#[derive(Clone, Debug, PartialEq, Eq)]
pub struct DiscoveryError {
    pub message: String,
}

/// An ordered sequence of full policy snapshots for one destination, drained
/// by a single consumer. Every item is a complete, self-consistent snapshot;
/// nothing is emitted before the first snapshot is published.
#[derive(Debug)]
pub struct OutboundPolicyStream {
    queue: Vec<OutboundPolicy>,
}

impl OutboundPolicyStream {
    /// The snapshots queued for the consumer, oldest first.
    pub closed spec fn model(self) -> Seq<OutboundPolicy> {
        self.queue@
    }

    /// Every queued snapshot is complete and self-consistent.
    pub open spec fn wf(self) -> bool {
        forall|i: int| 0 <= i < self.model().len() ==> (#[trigger] self.model()[i]).wf()
    }

    /// A fresh subscription: nothing can be emitted until a snapshot is
    /// published.
    pub fn new() -> (s: Self)
        ensures
            s.model() == Seq::<OutboundPolicy>::empty(),
            s.wf(),
    {
        OutboundPolicyStream { queue: Vec::new() }
    }

    /// The publisher hands the stream one complete snapshot; partial states
    /// are not representable here, and an ill-formed snapshot is refused by
    /// contract.
    pub fn publish(&mut self, snapshot: OutboundPolicy)
        requires
            old(self).wf(),
            snapshot.wf(),
        ensures
            final(self).wf(),
            final(self).model() == old(self).model().push(snapshot),
    {
        self.queue.push(snapshot);
        proof {
            assert forall|i: int|
                0 <= i < self.model().len() implies (#[trigger] self.model()[i]).wf() by {
                if i < old(self).model().len() {
                    assert(self.model()[i] == old(self).model()[i]);
                } else {
                    assert(self.model()[i] == snapshot);
                }
            }
        }
    }

    /// The consumer takes the oldest queued snapshot, if any; what comes out
    /// is always a complete, well-formed snapshot.
    pub fn next(&mut self) -> (r: Option<OutboundPolicy>)
        requires
            old(self).wf(),
        ensures
            final(self).wf(),
            old(self).model().len() == 0 ==> r is None && final(self).model() == old(self).model(),
            old(self).model().len() > 0 ==> r == Some(old(self).model()[0]) && final(self).model()
                == old(self).model().drop_first(),
            r matches Some(p) ==> p.wf(),
    {
        if self.queue.len() == 0 {
            None
        } else {
            let snapshot = self.queue.remove(0);
            proof {
                assert(self.queue@ =~= old(self).model().drop_first());
            }
            Some(snapshot)
        }
    }

    /// How many snapshots wait to be consumed.
    pub fn pending(&self) -> (n: usize)
        ensures
            n == self.model().len(),
    {
        self.queue.len()
    }
}

/// The target a connection's destination resolves to, for the common case of
/// a service destination.
#[derive(Clone, Debug, PartialEq, Eq)]
pub struct OutboundDiscoverTarget {
    pub service_name: String,
    pub service_namespace: String,
    pub service_port: u16,
    pub source_namespace: String,
}

impl OutboundDiscoverTarget {
    /// The service port is positive.
    pub open spec fn wf(self) -> bool {
        self.service_port >= 1
    }
}

/// The discovery capability over a target type, implemented once per concrete
/// target representation.
///
/// A destination that is unknown is a successful empty result, never an
/// error; an error is only an upstream index failure. Any snapshot handed
/// out, directly or through a stream, is complete and well formed.
pub trait DiscoverOutboundPolicy<T> {
    /// Point-in-time lookup of the policy for a target; none when the
    /// destination is unknown.
    fn get_outbound_policy(&self, target: T) -> (r: Result<Option<OutboundPolicy>, DiscoveryError>)
        ensures
            r matches Ok(Some(policy)) ==> policy.wf(),
    ;

    /// Subscribes to the full-snapshot change stream for a target; none when
    /// the destination is not currently known.
    fn watch_outbound_policy(&self, target: T) -> (r: Result<
        Option<OutboundPolicyStream>,
        DiscoveryError,
    >)
        ensures
            r matches Ok(Some(stream)) ==> stream.wf(),
    ;

    /// Reverse-resolves an accepted connection's destination address and port
    /// and the caller's namespace into a discovery target, honoring
    /// namespace-scoped visibility; none when nothing visible matches.
    fn lookup_ip(&self, addr: IpAddr, port: u16, source_namespace: String) -> (r: Option<T>)
        requires
            port >= 1,
    ;
}

/// A well-formed stream only ever emits complete, well-formed snapshots:
/// whatever position the consumer drains, the snapshot there is valid.
pub proof fn lemma_stream_snapshots_valid(s: OutboundPolicyStream, i: int)
    requires
        s.wf(),
        0 <= i < s.model().len(),
    ensures
        s.model()[i].wf(),
{
}

} // verus!
