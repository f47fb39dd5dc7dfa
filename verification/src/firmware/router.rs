//! The router's decisions: where a movement intent goes, and what happens
//! when the dead-man's switch fires (motors stop; with the radio silent, the
//! local inference fallback runs on the oldest queued audio snapshot).
//!
//! The waiting itself (a receive with a `DEAD_MANS_SWITCH_MS` timeout) is
//! the caller's; it hands each outcome to [`route_intent`] or
//! [`on_dead_mans_switch`].
use vstd::prelude::*;

use heapless::Deque;

use crate::abi::worker::{motor_speed_frame, WorkerPacket};
use crate::abi::{MovementIntent, RoutingMode};
use crate::firmware::bus::{routing_of_code, MessageBus};
use crate::firmware::inference::{inference_of, store_inference_result, InferenceCell, TinyMlEngine};
use crate::firmware::links::{ms_since, RadioLink, RADIO_ALIVE_WINDOW_MS};
use crate::firmware::motors::MotorBridge;
use crate::worker::motors::{packed_command, unpacked_command};

verus! {

/// Audio snapshots waiting for the fallback inference.
pub const AUDIO_INFERENCE_QUEUE_DEPTH: usize = 2;

/// One window of microphone samples for the inference engine.
pub type AudioSnapshot = heapless::Vec<i8, 256>;

#[verifier::external_type_specification]
#[verifier::external_body]
#[verifier::reject_recursive_types(T)]
pub struct ExHeaplessVec<T, const N: usize>(heapless::Vec<T, N>);

/// The samples held by a snapshot.
pub uninterp spec fn snapshot_samples(v: heapless::Vec<i8, 256>) -> Seq<i8>;

/// The snapshots held by a snapshot queue, oldest first.
pub uninterp spec fn queued_snapshots(q: Deque<heapless::Vec<i8, 256>, 2>) -> Seq<heapless::Vec<i8, 256>>;

/// `heapless::Vec::new`: an empty snapshot.
#[verifier::external_body]
fn snapshot_new() -> (v: heapless::Vec<i8, 256>)
    ensures
        snapshot_samples(v) == Seq::<i8>::empty(),
{
    heapless::Vec::new()
}

/// `heapless::Vec::push`: appends the sample unless the snapshot holds its
/// capacity, in which case it hands the sample back and changes nothing.
#[verifier::external_body]
fn snapshot_push(v: &mut heapless::Vec<i8, 256>, x: i8) -> (r: Result<(), i8>)
    ensures
        snapshot_samples(*old(v)).len() < 256 ==> r is Ok,
        snapshot_samples(*old(v)).len() < 256 ==> snapshot_samples(*final(v)) == snapshot_samples(*old(v)).push(x),
        snapshot_samples(*old(v)).len() >= 256 ==> r is Err,
        snapshot_samples(*old(v)).len() >= 256 ==> snapshot_samples(*final(v)) == snapshot_samples(*old(v)),
{
    v.push(x)
}

/// `heapless::Vec::as_slice`: the samples.
#[verifier::external_body]
fn snapshot_as_slice(v: &heapless::Vec<i8, 256>) -> (s: &[i8])
    ensures
        s@ == snapshot_samples(*v),
{
    v.as_slice()
}

/// `heapless::Deque::new`: an empty queue.
#[verifier::external_body]
fn snapshot_queue_new() -> (q: Deque<heapless::Vec<i8, 256>, 2>)
    ensures
        queued_snapshots(q).len() == 0,
{
    Deque::new()
}

/// `heapless::Deque::push_back`: appends the snapshot unless the queue
/// holds its capacity, in which case it hands it back and changes nothing.
#[verifier::external_body]
fn snapshot_queue_push_back(
    q: &mut Deque<heapless::Vec<i8, 256>, 2>,
    item: heapless::Vec<i8, 256>,
) -> (r: Result<(), heapless::Vec<i8, 256>>)
    ensures
        queued_snapshots(*old(q)).len() < 2 ==> r is Ok,
        queued_snapshots(*old(q)).len() < 2 ==> queued_snapshots(*final(q)) == queued_snapshots(*old(q)).push(item),
        queued_snapshots(*old(q)).len() >= 2 ==> r is Err,
        queued_snapshots(*old(q)).len() >= 2 ==> queued_snapshots(*final(q)) == queued_snapshots(*old(q)),
        queued_snapshots(*final(q)).len() <= 2,
{
    q.push_back(item)
}

/// `heapless::Deque::pop_front`: removes and returns the oldest snapshot,
/// or `None` when the queue is empty.
#[verifier::external_body]
fn snapshot_queue_pop_front(q: &mut Deque<heapless::Vec<i8, 256>, 2>) -> (r: Option<heapless::Vec<i8, 256>>)
    ensures
        queued_snapshots(*old(q)).len() == 0 ==> r is None,
        queued_snapshots(*old(q)).len() == 0 ==> queued_snapshots(*final(q)) == queued_snapshots(*old(q)),
        queued_snapshots(*old(q)).len() > 0 ==> r == Some(queued_snapshots(*old(q))[0]),
        queued_snapshots(*old(q)).len() > 0 ==> queued_snapshots(*final(q)) == queued_snapshots(*old(q)).drop_first(),
{
    q.pop_front()
}

/// The sample a raw PCM byte stands for (two's complement).
pub open spec fn sample_of_byte(b: u8) -> i8 {
    if b < 128 { b as i8 } else { (b - 256) as i8 }
}

/// The samples of a snapshot of `audio`: its first (at most 256) bytes,
/// each read as a signed sample.
pub open spec fn snapshot_of(audio: Seq<u8>) -> Seq<i8> {
    let n: int = if audio.len() < 256 { audio.len() as int } else { 256 };
    Seq::new(n as nat, |i: int| sample_of_byte(audio[i]))
}

/// Snapshot the oldest audio bytes for the inference engine; `None` when
/// there is no audio.
pub fn audio_snapshot(audio: &[u8]) -> (r: Option<AudioSnapshot>)
    ensures
        audio@.len() == 0 ==> r is None,
        audio@.len() > 0 ==> (r matches Some(s) && snapshot_samples(s) == snapshot_of(audio@)),
{
    let n: usize = if audio.len() < 256 { audio.len() } else { 256 };
    if n == 0 {
        return None;
    }
    let mut snap = snapshot_new();
    let mut i: usize = 0;
    while i < n
        invariant
            n <= audio@.len(),
            n <= 256,
            i <= n,
            snapshot_samples(snap) == snapshot_of(audio@).subrange(0, i as int),
        decreases n - i,
    {
        let b = audio[i];
        let x: i8 = if b < 128 { b as i8 } else { (b as i16 - 256) as i8 };
        let _ = snapshot_push(&mut snap, x);
        i += 1;
        assert(snapshot_samples(snap) =~= snapshot_of(audio@).subrange(0, i as int));
    }
    assert(snapshot_of(audio@).subrange(0, n as int) =~= snapshot_of(audio@));
    Some(snap)
}

/// Audio snapshots queued for the fallback inference.
pub struct SnapshotQueue {
    snapshots: Deque<AudioSnapshot, 2>,
}

impl SnapshotQueue {
    /// The samples of the queued snapshots, oldest first.
    pub closed spec fn pending(&self) -> Seq<Seq<i8>> {
        queued_snapshots(self.snapshots).map_values(|v: heapless::Vec<i8, 256>| snapshot_samples(v))
    }

    /// An empty queue.
    pub fn new() -> (q: Self)
        ensures
            q.pending() == Seq::<Seq<i8>>::empty(),
    {
        let q = SnapshotQueue { snapshots: snapshot_queue_new() };
        assert(q.pending() =~= Seq::<Seq<i8>>::empty());
        q
    }

    /// Queue a snapshot (best effort): `false` and no change when
    /// `AUDIO_INFERENCE_QUEUE_DEPTH` snapshots are waiting.
    pub fn offer(&mut self, snapshot: AudioSnapshot) -> (ok: bool)
        ensures
            ok == (old(self).pending().len() < AUDIO_INFERENCE_QUEUE_DEPTH),
            ok ==> final(self).pending() == old(self).pending().push(snapshot_samples(snapshot)),
            !ok ==> final(self).pending() == old(self).pending(),
    {
        let r = snapshot_queue_push_back(&mut self.snapshots, snapshot);
        assert(self.pending() =~= (if r is Ok { old(self).pending().push(snapshot_samples(snapshot)) } else { old(self).pending() }));
        r.is_ok()
    }
}

/// Run the inference engine on the oldest queued snapshot and publish the
/// result; `false` and no change when no snapshot is queued.
pub fn run_fallback_inference(snapshots: &mut SnapshotQueue, cell: &mut InferenceCell) -> (ran: bool)
    ensures
        ran == (old(snapshots).pending().len() > 0),
        !ran ==> final(snapshots).pending() == old(snapshots).pending() && *final(cell) == *old(cell),
        ran ==> final(snapshots).pending() == old(snapshots).pending().drop_first(),
        ran ==> final(cell).raw == crate::abi::records::inference_packed(inference_of(old(snapshots).pending()[0])),
{
    match snapshot_queue_pop_front(&mut snapshots.snapshots) {
        Some(snapshot) => {
            assert(snapshots.pending() =~= old(snapshots).pending().drop_first());
            let engine = TinyMlEngine::new();
            let result = engine.run(snapshot_as_slice(&snapshot));
            store_inference_result(cell, result);
            true
        },
        None => false,
    }
}

/// Dispatch an intent by the bus's routing mode.  Single-Board: the speeds
/// go to the local motor bridge and nothing is sent (`None`).  Distributed:
/// the motors are left alone and the motor-speed frame for the Worker is
/// returned.
pub fn route_intent(bus: &MessageBus, motors: &mut MotorBridge, intent: MovementIntent) -> (frame: Option<Vec<u8>>)
    ensures
        routing_of_code(bus.mode_code()) == RoutingMode::SingleBoard ==> frame is None
            && final(motors).command == packed_command(intent.left_speed, intent.right_speed)
            && unpacked_command(final(motors).command) == (intent.left_speed, intent.right_speed)
            && final(motors).enabled == old(motors).enabled,
        routing_of_code(bus.mode_code()) == RoutingMode::Distributed ==> (frame matches Some(f)
            && f@ == motor_speed_frame(intent.left_speed, intent.right_speed))
            && *final(motors) == *old(motors),
{
    match bus.get_routing_mode() {
        RoutingMode::SingleBoard => {
            motors.store_motor_command(intent.left_speed, intent.right_speed);
            None
        },
        RoutingMode::Distributed => Some(WorkerPacket::motor_speed(intent.left_speed, intent.right_speed)),
    }
}

/// The dead-man's switch fired at `now_ms`: zero the motor command; when the
/// radio link is also silent, run the fallback inference.  Returns whether
/// the inference ran.
pub fn on_dead_mans_switch(
    motors: &mut MotorBridge,
    radio: &RadioLink,
    now_ms: u64,
    snapshots: &mut SnapshotQueue,
    cell: &mut InferenceCell,
) -> (ran: bool)
    ensures
        final(motors).command == packed_command(0, 0),
        unpacked_command(final(motors).command) == (0i16, 0i16),
        final(motors).enabled == old(motors).enabled,
        ms_since(radio.last_rx_ms, now_ms) < RADIO_ALIVE_WINDOW_MS ==> !ran
            && final(snapshots).pending() == old(snapshots).pending() && *final(cell) == *old(cell),
        ms_since(radio.last_rx_ms, now_ms) >= RADIO_ALIVE_WINDOW_MS ==> {
            &&& ran == (old(snapshots).pending().len() > 0)
            &&& !ran ==> final(snapshots).pending() == old(snapshots).pending() && *final(cell) == *old(cell)
            &&& ran ==> final(snapshots).pending() == old(snapshots).pending().drop_first()
            &&& ran ==> final(cell).raw == crate::abi::records::inference_packed(inference_of(old(snapshots).pending()[0]))
        },
{
    motors.store_motor_command(0, 0);
    if radio.is_radio_link_alive(now_ms) {
        false
    } else {
        run_fallback_inference(snapshots, cell)
    }
}

} // verus!
