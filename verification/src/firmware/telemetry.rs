//! The telemetry TX queue: Core 1 pushes packets after each loop tick and
//! the radio task drains them.  Pushing never blocks: a full queue drops the
//! new packet.
use vstd::prelude::*;

use heapless::Deque;

use crate::abi::{TelemetryPacket, TELEMETRY_TX_CAPACITY};

verus! {

/// The packets held by a telemetry queue, oldest first.
pub uninterp spec fn queued_packets(q: Deque<TelemetryPacket, 32>) -> Seq<TelemetryPacket>;

/// `heapless::Deque::new`: an empty queue.
#[verifier::external_body]
fn packet_queue_new() -> (q: Deque<TelemetryPacket, 32>)
    ensures
        queued_packets(q) == Seq::<TelemetryPacket>::empty(),
{
    Deque::new()
}

/// `heapless::Deque::push_back`: appends the packet unless the queue holds
/// its capacity, in which case it hands the packet back and changes nothing.
#[verifier::external_body]
fn packet_queue_push_back(
    q: &mut Deque<TelemetryPacket, 32>,
    item: TelemetryPacket,
) -> (r: Result<(), TelemetryPacket>)
    ensures
        queued_packets(*old(q)).len() < 32 ==> r is Ok,
        queued_packets(*old(q)).len() < 32 ==> queued_packets(*final(q)) == queued_packets(*old(q)).push(item),
        queued_packets(*old(q)).len() >= 32 ==> r is Err,
        queued_packets(*old(q)).len() >= 32 ==> queued_packets(*final(q)) == queued_packets(*old(q)),
        queued_packets(*final(q)).len() <= 32,
{
    q.push_back(item)
}

/// `heapless::Deque::pop_front`: removes and returns the oldest packet, or
/// `None` when the queue is empty.
#[verifier::external_body]
fn packet_queue_pop_front(q: &mut Deque<TelemetryPacket, 32>) -> (r: Option<TelemetryPacket>)
    ensures
        queued_packets(*old(q)).len() == 0 ==> r is None,
        queued_packets(*old(q)).len() == 0 ==> queued_packets(*final(q)) == queued_packets(*old(q)),
        queued_packets(*old(q)).len() > 0 ==> r == Some(queued_packets(*old(q))[0]),
        queued_packets(*old(q)).len() > 0 ==> queued_packets(*final(q)) == queued_packets(*old(q)).drop_first(),
{
    q.pop_front()
}

/// `heapless::Deque::len`: the number of queued packets, never above the
/// capacity.
#[verifier::external_body]
fn packet_queue_len(q: &Deque<TelemetryPacket, 32>) -> (n: usize)
    ensures
        n == queued_packets(*q).len(),
        n <= 32,
{
    q.len()
}

/// The telemetry transmit queue.
pub struct TelemetryQueue {
    packets: Deque<TelemetryPacket, 32>,
}

impl TelemetryQueue {
    /// The queued packets, oldest first.
    pub closed spec fn pending(&self) -> Seq<TelemetryPacket> {
        queued_packets(self.packets)
    }

    /// An empty queue.
    pub fn new() -> (q: Self)
        ensures
            q.pending() == Seq::<TelemetryPacket>::empty(),
    {
        TelemetryQueue { packets: packet_queue_new() }
    }

    /// Push a packet (best effort): `false` and no change when
    /// `TELEMETRY_TX_CAPACITY` packets are already queued.
    pub fn push_telemetry(&mut self, packet: TelemetryPacket) -> (ok: bool)
        ensures
            ok == (old(self).pending().len() < TELEMETRY_TX_CAPACITY),
            ok ==> final(self).pending() == old(self).pending().push(packet),
            !ok ==> final(self).pending() == old(self).pending(),
    {
        match packet_queue_push_back(&mut self.packets, packet) {
            Ok(()) => true,
            Err(_) => false,
        }
    }

    /// Take the oldest packet for transmission, if any.
    pub fn next_packet(&mut self) -> (r: Option<TelemetryPacket>)
        ensures
            old(self).pending().len() == 0 ==> r is None && final(self).pending() == old(self).pending(),
            old(self).pending().len() > 0 ==> r == Some(old(self).pending()[0]) && final(self).pending() == old(self).pending().drop_first(),
    {
        packet_queue_pop_front(&mut self.packets)
    }

    /// Number of queued packets.
    pub fn len(&self) -> (n: usize)
        ensures
            n == self.pending().len(),
            n <= TELEMETRY_TX_CAPACITY,
    {
        packet_queue_len(&self.packets)
    }
}

} // verus!
