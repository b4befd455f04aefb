use vstd::prelude::*;
use crate::sys::eth_frame_len;

verus! {

/// Largest packet that a sink transmits; longer ones are dropped.
pub const MTU: usize = 1500;

/// Size of the buffer that one read of an interface fills at most.
pub const READ_BUF_LEN: usize = 1514;

/// What a flush of a sink has to do next.
#[derive(Clone, Copy, Debug, PartialEq, Eq, Structural)]
pub enum FlushStep {
    /// No packet was pending: the flush is done.
    Idle,
    /// The pending packet exceeded the MTU and was discarded: the flush is done.
    Dropped,
    /// The pending packet must be written whole, in one write call.
    Write,
}

/// What flushing does with a pending packet: the step taken and what stays
/// pending. A packet over the MTU is discarded; one that fits stays pending
/// until it has been written whole.
pub open spec fn flush_outcome(pending: Option<Seq<u8>>) -> (FlushStep, Option<Seq<u8>>) {
    match pending {
        None => (FlushStep::Idle, None),
        Some(p) => if p.len() > MTU {
            (FlushStep::Dropped, None)
        } else {
            (FlushStep::Write, Some(p))
        },
    }
}

/// The outbound half of a packet endpoint: holds at most one packet that
/// waits to be written to the interface.
pub struct IpPacketSink {
    packet_opt: Option<Vec<u8>>,
}

impl View for IpPacketSink {
    type V = Option<Seq<u8>>;

    closed spec fn view(&self) -> Option<Seq<u8>> {
        match self.packet_opt {
            Some(p) => Some(p@),
            None => None,
        }
    }
}

impl IpPacketSink {
    /// A sink with no pending packet.
    pub fn new() -> (r: IpPacketSink)
        ensures
            r@ == None::<Seq<u8>>,
    {
        IpPacketSink { packet_opt: None }
    }

    /// Whether a packet can be submitted, that is no packet is pending.
    pub fn is_ready(&self) -> (r: bool)
        ensures
            r == (self@ is None),
    {
        self.packet_opt.is_none()
    }

    /// Queues one packet. Only one packet may be pending at a time.
    pub fn start_send(&mut self, item: Vec<u8>)
        requires
            old(self)@ is None,
        ensures
            final(self)@ == Some(item@),
    {
        self.packet_opt = Some(item);
    }

    /// Decides the flush of the pending packet: nothing to do, drop it for
    /// exceeding the MTU, or write it. A packet to write stays pending until
    /// the write completes.
    pub fn flush_step(&mut self) -> (r: FlushStep)
        ensures
            (r, final(self)@) == flush_outcome(old(self)@),
    {
        let oversized = match &self.packet_opt {
            None => {
                return FlushStep::Idle;
            },
            Some(packet) => packet.len() > MTU,
        };
        if oversized {
            self.packet_opt = None;
            FlushStep::Dropped
        } else {
            FlushStep::Write
        }
    }

    /// The bytes of the pending packet.
    pub fn pending(&self) -> (r: &[u8])
        requires
            self@ is Some,
        ensures
            self@ == Some(r@),
    {
        match &self.packet_opt {
            Some(packet) => packet.as_slice(),
            None => {
                proof {
                    assert(false);
                }
                &[]
            },
        }
    }

    /// Discards the pending packet, if any, after a failed write.
    pub fn abandon(&mut self)
        ensures
            final(self)@ == None::<Seq<u8>>,
    {
        self.packet_opt = None;
    }

    /// Records that a write of `written` bytes completed. A packet is only
    /// ever written whole: anything else leaves it pending and returns false.
    pub fn complete_write(&mut self, written: usize) -> (whole: bool)
        requires
            old(self)@ is Some,
        ensures
            whole == (written == old(self)@->Some_0.len()),
            whole ==> final(self)@ == None::<Seq<u8>>,
            !whole ==> final(self)@ == old(self)@,
    {
        let whole = match &self.packet_opt {
            Some(packet) => written == packet.len(),
            None => false,
        };
        if whole {
            self.packet_opt = None;
        }
        whole
    }
}

/// What one non-blocking read of the interface returned.
#[derive(Clone, Copy, Debug, PartialEq, Eq, Structural)]
pub enum ReadResult {
    /// The read filled this many bytes of the buffer.
    Read(usize),
    /// The descriptor was not ready after all.
    WouldBlock,
    /// The read failed with this OS error code.
    Failed(i32),
}

/// What a stream makes of one read.
#[derive(Debug)]
pub enum StreamEvent {
    /// Nothing to yield: read again once the descriptor is ready.
    Retry,
    /// One inbound packet.
    Packet(Vec<u8>),
    /// A terminal error item.
    Failed(i32),
    /// The interface was closed: the stream is over.
    End,
}

/// The inbound half of a packet endpoint: turns reads of the interface
/// into packets, and ends at the first end-of-file or error.
pub struct IpPacketStream {
    ended: bool,
}

impl IpPacketStream {
    /// Whether the stream has yielded its last item.
    pub closed spec fn spec_ended(&self) -> bool {
        self.ended
    }

    /// A stream that has not ended.
    pub fn new() -> (r: IpPacketStream)
        ensures
            !r.spec_ended(),
    {
        IpPacketStream { ended: false }
    }

    /// Whether the stream has yielded its last item.
    pub fn is_ended(&self) -> (r: bool)
        ensures
            r == self.spec_ended(),
    {
        self.ended
    }

    /// A zeroed buffer large enough for the largest frame one read returns.
    pub fn read_buffer() -> (r: Vec<u8>)
        ensures
            r@.len() == READ_BUF_LEN,
            forall|i: int| 0 <= i < r@.len() ==> r@[i] == 0u8,
    {
        let n = eth_frame_len();
        let mut v: Vec<u8> = Vec::new();
        while v.len() < n
            invariant
                n == READ_BUF_LEN,
                v@.len() <= n,
                forall|i: int| 0 <= i < v@.len() ==> v@[i] == 0u8,
            decreases n - v@.len(),
        {
            v.push(0u8);
        }
        v
    }

    /// Interprets one read into `buf`: zero bytes end the stream, a positive
    /// count yields exactly those bytes as one packet, a spurious not-ready
    /// result asks for another read, and an error is the last item.
    pub fn on_read(&mut self, buf: &[u8], res: ReadResult) -> (r: StreamEvent)
        requires
            !old(self).spec_ended(),
            res matches ReadResult::Read(n) ==> n <= buf@.len(),
        ensures
            match res {
                ReadResult::Read(n) => if n == 0 {
                    r is End && final(self).spec_ended()
                } else {
                    r matches StreamEvent::Packet(p) && p@ == buf@.take(n as int)
                        && !final(self).spec_ended()
                },
                ReadResult::WouldBlock => r is Retry && !final(self).spec_ended(),
                ReadResult::Failed(code) => r == StreamEvent::Failed(code)
                    && final(self).spec_ended(),
            },
    {
        match res {
            ReadResult::Read(n) => {
                if n == 0 {
                    self.ended = true;
                    StreamEvent::End
                } else {
                    let mut p: Vec<u8> = Vec::new();
                    let mut k: usize = 0;
                    while k < n
                        invariant
                            k <= n <= buf@.len(),
                            p@ == buf@.take(k as int),
                        decreases n - k,
                    {
                        p.push(buf[k]);
                        k = k + 1;
                        assert(p@ =~= buf@.take(k as int));
                    }
                    StreamEvent::Packet(p)
                }
            },
            ReadResult::WouldBlock => StreamEvent::Retry,
            ReadResult::Failed(code) => {
                self.ended = true;
                StreamEvent::Failed(code)
            },
        }
    }
}

/// A packet submitted to an idle sink and then flushed is written in one
/// write of exactly its length when it fits the MTU, after which the sink is
/// idle again; a longer one is dropped with no error and nothing written.
pub proof fn lemma_submit_then_flush(p: Seq<u8>)
    ensures
        p.len() <= MTU ==> flush_outcome(Some(p)) == (FlushStep::Write, Some(p)),
        p.len() > MTU ==> flush_outcome(Some(p)) == (FlushStep::Dropped, None::<Seq<u8>>),
{
}

} // verus!
