//! The OS message bus: the bounded queue of movement intents from the Wasm
//! ABI to the router, and the routing mode.
//!
//! The queue is a `heapless::Deque`, the fixed-capacity ring buffer that
//! also backs the firmware's inter-task channels.
use vstd::prelude::*;

use heapless::Deque;

use crate::abi::{MovementIntent, RoutingMode};

verus! {

/// Depth of the movement-intent queue.
pub const INTENT_QUEUE_DEPTH: usize = 8;

#[verifier::external_type_specification]
#[verifier::external_body]
#[verifier::reject_recursive_types(T)]
pub struct ExDeque<T, const N: usize>(Deque<T, N>);

/// The intents held by an intent queue, oldest first.
pub uninterp spec fn queued_intents(q: Deque<MovementIntent, 8>) -> Seq<MovementIntent>;

/// `heapless::Deque::new`: an empty queue.
#[verifier::external_body]
fn intent_queue_new() -> (q: Deque<MovementIntent, 8>)
    ensures
        queued_intents(q) == Seq::<MovementIntent>::empty(),
{
    Deque::new()
}

/// `heapless::Deque::push_back`: appends the item unless the queue holds
/// its capacity, in which case it hands the item back and changes nothing.
#[verifier::external_body]
fn intent_queue_push_back(
    q: &mut Deque<MovementIntent, 8>,
    item: MovementIntent,
) -> (r: Result<(), MovementIntent>)
    ensures
        queued_intents(*old(q)).len() < 8 ==> r is Ok,
        queued_intents(*old(q)).len() < 8 ==> queued_intents(*final(q)) == queued_intents(*old(q)).push(item),
        queued_intents(*old(q)).len() >= 8 ==> (r matches Err(v) && v == item),
        queued_intents(*old(q)).len() >= 8 ==> queued_intents(*final(q)) == queued_intents(*old(q)),
        queued_intents(*final(q)).len() <= 8,
{
    q.push_back(item)
}

/// `heapless::Deque::pop_front`: removes and returns the oldest item, or
/// `None` when the queue is empty.
#[verifier::external_body]
fn intent_queue_pop_front(q: &mut Deque<MovementIntent, 8>) -> (r: Option<MovementIntent>)
    ensures
        queued_intents(*old(q)).len() == 0 ==> r is None,
        queued_intents(*old(q)).len() == 0 ==> queued_intents(*final(q)) == queued_intents(*old(q)),
        queued_intents(*old(q)).len() > 0 ==> r == Some(queued_intents(*old(q))[0]),
        queued_intents(*old(q)).len() > 0 ==> queued_intents(*final(q)) == queued_intents(*old(q)).drop_first(),
{
    q.pop_front()
}

/// `heapless::Deque::len`: the number of queued items.
#[verifier::external_body]
fn intent_queue_len(q: &Deque<MovementIntent, 8>) -> (n: usize)
    ensures
        n == queued_intents(*q).len(),
{
    q.len()
}

/// The storage code of a routing mode.
pub open spec fn routing_code(mode: RoutingMode) -> u8 {
    match mode {
        RoutingMode::SingleBoard => 0,
        RoutingMode::Distributed => 1,
    }
}

/// The routing mode a storage code reads as: 1 is Distributed, anything
/// else Single-Board.
pub open spec fn routing_of_code(code: u8) -> RoutingMode {
    if code == 1 {
        RoutingMode::Distributed
    } else {
        RoutingMode::SingleBoard
    }
}

/// The message bus shared by the ABI (publisher) and the router (consumer).
pub struct MessageBus {
    intents: Deque<MovementIntent, 8>,
    routing_mode: u8,
}

impl MessageBus {
    /// The queued intents, oldest first.
    pub closed spec fn pending(&self) -> Seq<MovementIntent> {
        queued_intents(self.intents)
    }

    /// The stored routing-mode code.
    pub closed spec fn mode_code(&self) -> u8 {
        self.routing_mode
    }

    /// An empty bus in Single-Board mode.
    pub fn new() -> (b: Self)
        ensures
            b.pending() == Seq::<MovementIntent>::empty(),
            routing_of_code(b.mode_code()) == RoutingMode::SingleBoard,
    {
        MessageBus { intents: intent_queue_new(), routing_mode: 0 }
    }

    /// Switch the routing mode.
    pub fn set_routing_mode(&mut self, mode: RoutingMode)
        ensures
            final(self).mode_code() == routing_code(mode),
            final(self).pending() == old(self).pending(),
    {
        self.routing_mode = match mode {
            RoutingMode::SingleBoard => 0,
            RoutingMode::Distributed => 1,
        };
    }

    /// The current routing mode.
    pub fn get_routing_mode(&self) -> (m: RoutingMode)
        ensures
            m == routing_of_code(self.mode_code()),
    {
        match self.routing_mode {
            1 => RoutingMode::Distributed,
            _ => RoutingMode::SingleBoard,
        }
    }

    /// Queue an intent for the router; `false` (back-pressure) and no change
    /// when `INTENT_QUEUE_DEPTH` intents are already waiting.
    pub fn publish_intent(&mut self, intent: MovementIntent) -> (ok: bool)
        ensures
            ok == (old(self).pending().len() < INTENT_QUEUE_DEPTH),
            ok ==> final(self).pending() == old(self).pending().push(intent),
            !ok ==> final(self).pending() == old(self).pending(),
            final(self).mode_code() == old(self).mode_code(),
    {
        match intent_queue_push_back(&mut self.intents, intent) {
            Ok(()) => true,
            Err(_) => false,
        }
    }

    /// Take the oldest queued intent, if any.
    pub fn next_intent(&mut self) -> (r: Option<MovementIntent>)
        ensures
            old(self).pending().len() == 0 ==> r is None && final(self).pending() == old(self).pending(),
            old(self).pending().len() > 0 ==> r == Some(old(self).pending()[0]) && final(self).pending() == old(self).pending().drop_first(),
            final(self).mode_code() == old(self).mode_code(),
    {
        intent_queue_pop_front(&mut self.intents)
    }

    /// Number of queued intents.
    pub fn pending_len(&self) -> (n: usize)
        ensures
            n == self.pending().len(),
    {
        intent_queue_len(&self.intents)
    }
}

/// Reading the routing mode gives back the mode last set.
pub proof fn lemma_routing_mode_roundtrip(mode: RoutingMode)
    ensures
        routing_of_code(routing_code(mode)) == mode,
{
}

} // verus!
