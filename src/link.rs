use vstd::prelude::*;
use crate::packet::{FlushStep, IpPacketSink, MTU};

verus! {

/// The packets of `s` that fit the MTU, in their order: what a sink
/// transmits of them.
pub open spec fn within_mtu(s: Seq<Seq<u8>>) -> Seq<Seq<u8>>
    decreases s.len(),
{
    if s.len() == 0 {
        Seq::empty()
    } else {
        let rest = within_mtu(s.drop_last());
        if s.last().len() <= MTU {
            rest.push(s.last())
        } else {
            rest
        }
    }
}

/// What the forwarding of one direction does after taking an item from the
/// source stream.
#[derive(Clone, Copy, Debug, PartialEq, Eq, Structural)]
pub enum ForwardAction {
    /// A packet was handed to the destination sink: flush it.
    Flush,
    /// The source stream ended or failed: this direction is over.
    Stop,
}

/// One direction of a link: takes each packet that the source endpoint's
/// stream yields and submits it to the destination endpoint's sink.
pub struct LinkDirection {
    sink: IpPacketSink,
    open: bool,
    received: Ghost<Seq<Seq<u8>>>,
    delivered: Ghost<Seq<Seq<u8>>>,
}

impl LinkDirection {
    /// The packets taken from the source stream so far, in order.
    pub closed spec fn received(&self) -> Seq<Seq<u8>> {
        self.received@
    }

    /// The packets written whole to the destination interface so far, in order.
    pub closed spec fn delivered(&self) -> Seq<Seq<u8>> {
        self.delivered@
    }

    /// The packet that waits in the destination sink, if any.
    pub closed spec fn in_flight(&self) -> Option<Seq<u8>> {
        self.sink@
    }

    /// Whether the source stream has not ended yet.
    pub closed spec fn is_open(&self) -> bool {
        self.open
    }

    /// The forwarding invariant: with no packet in flight, what reached the
    /// destination is exactly what the source yielded, in order, less the
    /// packets over the MTU; a packet in flight is the last one received.
    pub open spec fn wf(&self) -> bool {
        &&& (self.in_flight() is None ==> self.delivered() == within_mtu(self.received()))
        &&& (self.in_flight() matches Some(p) ==> self.received().len() > 0
            && self.received().last() == p && self.delivered() == within_mtu(
            self.received().drop_last(),
        ))
        &&& (!self.is_open() ==> self.in_flight() is None)
    }

    /// Starts forwarding into `sink`, which must hold no packet.
    pub fn new(sink: IpPacketSink) -> (r: LinkDirection)
        requires
            sink@ is None,
        ensures
            r.wf(),
            r.is_open(),
            r.in_flight() is None,
            r.received() == Seq::<Seq<u8>>::empty(),
            r.delivered() == Seq::<Seq<u8>>::empty(),
    {
        LinkDirection {
            sink,
            open: true,
            received: Ghost(Seq::empty()),
            delivered: Ghost(Seq::empty()),
        }
    }

    /// Whether the source stream has not ended yet.
    pub fn open(&self) -> (r: bool)
        ensures
            r == self.is_open(),
    {
        self.open
    }

    /// Takes one item of the source stream: a packet goes to the destination
    /// sink, and the end of the stream or an error closes this direction.
    pub fn on_item(&mut self, item: Option<Result<Vec<u8>, i32>>) -> (r: ForwardAction)
        requires
            old(self).wf(),
            old(self).is_open(),
            old(self).in_flight() is None,
        ensures
            final(self).wf(),
            final(self).delivered() == old(self).delivered(),
            match item {
                Some(Ok(p)) => r == ForwardAction::Flush && final(self).is_open()
                    && final(self).received() == old(self).received().push(p@)
                    && final(self).in_flight() == Some(p@),
                _ => r == ForwardAction::Stop && !final(self).is_open()
                    && final(self).received() == old(self).received()
                    && final(self).in_flight() is None,
            },
    {
        match item {
            Some(Ok(p)) => {
                proof {
                    self.received@ = self.received@.push(p@);
                    assert(self.received@.drop_last() =~= old(self).received@);
                }
                self.sink.start_send(p);
                ForwardAction::Flush
            },
            _ => {
                self.open = false;
                ForwardAction::Stop
            },
        }
    }

    /// Decides the flush of the packet in flight, as the sink does.
    pub fn flush_step(&mut self) -> (r: FlushStep)
        requires
            old(self).wf(),
        ensures
            final(self).wf(),
            final(self).received() == old(self).received(),
            final(self).delivered() == old(self).delivered(),
            final(self).is_open() == old(self).is_open(),
            match old(self).in_flight() {
                None => r == FlushStep::Idle && final(self).in_flight() is None,
                Some(p) => if p.len() > MTU {
                    r == FlushStep::Dropped && final(self).in_flight() is None
                } else {
                    r == FlushStep::Write && final(self).in_flight() == Some(p)
                },
            },
    {
        let r = self.sink.flush_step();
        proof {
            if r == FlushStep::Dropped {
                let s = self.received@;
                assert(s.drop_last() =~= s.subrange(0, s.len() - 1));
            }
        }
        r
    }

    /// The bytes of the packet in flight.
    pub fn pending(&self) -> (r: &[u8])
        requires
            self.in_flight() is Some,
        ensures
            self.in_flight() == Some(r@),
    {
        self.sink.pending()
    }

    /// Records a completed write of the packet in flight; only a whole
    /// write delivers it.
    pub fn complete_write(&mut self, written: usize) -> (whole: bool)
        requires
            old(self).wf(),
            old(self).in_flight() matches Some(p) && p.len() <= MTU,
        ensures
            final(self).wf(),
            final(self).received() == old(self).received(),
            final(self).is_open() == old(self).is_open(),
            whole == (written == old(self).in_flight()->Some_0.len()),
            whole ==> final(self).in_flight() is None && final(self).delivered() == old(
                self,
            ).delivered().push(old(self).in_flight()->Some_0),
            !whole ==> final(self).in_flight() == old(self).in_flight() && final(self).delivered()
                == old(self).delivered(),
    {
        let ghost p = self.sink@->Some_0;
        let whole = self.sink.complete_write(written);
        if whole {
            proof {
                self.delivered@ = self.delivered@.push(p);
            }
        }
        whole
    }
}

/// When every packet of `s` fits the MTU, none is filtered out.
pub proof fn lemma_within_mtu_all_fit(s: Seq<Seq<u8>>)
    requires
        forall|i: int| 0 <= i < s.len() ==> (#[trigger] s[i]).len() <= MTU,
    ensures
        within_mtu(s) == s,
    decreases s.len(),
{
    if s.len() > 0 {
        let r = s.drop_last();
        assert forall|i: int| 0 <= i < r.len() implies (#[trigger] r[i]).len() <= MTU by {
            assert(r[i] == s[i]);
        }
        lemma_within_mtu_all_fit(r);
        assert(r.push(s.last()) =~= s);
    }
}

/// Forwarding keeps order: once a direction is idle, the packets that
/// reached the destination are those the source yielded that fit the MTU,
/// each once and in the order they were yielded; when all of them fit, the
/// destination got exactly the source's sequence.
pub proof fn lemma_forwarding_in_order(d: &LinkDirection)
    requires
        d.wf(),
        d.in_flight() is None,
    ensures
        d.delivered() == within_mtu(d.received()),
        (forall|i: int| 0 <= i < d.received().len() ==> (#[trigger] d.received()[i]).len() <= MTU)
            ==> d.delivered() == d.received(),
{
    if forall|i: int| 0 <= i < d.received().len() ==> (#[trigger] d.received()[i]).len() <= MTU {
        lemma_within_mtu_all_fit(d.received());
    }
}

} // verus!
