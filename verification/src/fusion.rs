//! Event fusion state machine: turns decoded packets into an ordered
//! sequence of domain events.
//!
//! The machine keeps the last unmatched accelerometer and gyroscope samples
//! of the split sensor stream, the previous key bitmask and the previous
//! proximity state. Key events fire only on the rising edge of a bit,
//! proximity events only when the far/near state changes, and a paired
//! sensor event only when an accelerometer and a gyroscope sample carry an
//! identical timestamp.

use vstd::prelude::*;
use crate::wire::{DecodedPacket, SensorKind, Vector3Bits};

verus! {

/// One event of the output stream.
#[derive(Clone, Copy, Debug, PartialEq, Eq, Structural)]
pub enum GlassesEvent {
    /// Key with the given bit index went from released to pressed.
    KeyPress(u8),
    /// The proximity sensor now sees something near.
    ProximityNear,
    /// The proximity sensor no longer sees anything near.
    ProximityFar,
    /// A matched accelerometer/gyroscope pair.
    AccGyro { accelerometer: Vector3Bits, gyroscope: Vector3Bits, timestamp: u64 },
    /// A magnetometer sample.
    Magnetometer { magnetometer: Vector3Bits, timestamp: u64 },
}

/// The short-lived state the fusion keeps between packets.
#[derive(Clone, Copy, Debug)]
pub struct FusionState {
    /// Last split-stream accelerometer sample still waiting for its pair.
    pub pending_accelerometer: Option<(Vector3Bits, u64)>,
    /// Last split-stream gyroscope sample still waiting for its pair.
    pub pending_gyroscope: Option<(Vector3Bits, u64)>,
    /// The key bitmask seen by the previous key/proximity update.
    pub previous_key_bitmask: u8,
    /// Whether the previous proximity reading was "far" (nonzero raw value).
    pub previous_proximity_is_far: bool,
}

impl FusionState {
    /// Two samples waiting with the same timestamp would already have been
    /// paired, so a well-formed state never holds such a pair.
    pub open spec fn wf(self) -> bool {
        match (self.pending_accelerometer, self.pending_gyroscope) {
            (Some(a), Some(g)) => a.1 != g.1,
            _ => true,
        }
    }

    /// The state a fresh session starts from: nothing pending, no key held,
    /// proximity near.
    pub fn new() -> (r: FusionState)
        ensures
            r == initial_fusion_state(),
    {
        FusionState {
            pending_accelerometer: None,
            pending_gyroscope: None,
            previous_key_bitmask: 0,
            previous_proximity_is_far: false,
        }
    }
}

/// The zero/empty state a session is created with.
pub open spec fn initial_fusion_state() -> FusionState {
    FusionState {
        pending_accelerometer: None,
        pending_gyroscope: None,
        previous_key_bitmask: 0,
        previous_proximity_is_far: false,
    }
}

/// Whether bit `i` of `x` is set.
pub open spec fn get_bit(x: u8, i: u8) -> bool
    recommends
        i < 8,
{
    x & (1u8 << i) != 0
}

/// The key events for the bits below `n`: one `KeyPress(i)` for every bit
/// `i < n` that is set in `keys` but not in `prev`, in ascending bit order.
pub open spec fn key_events_upto(prev: u8, keys: u8, n: int) -> Seq<GlassesEvent>
    decreases n,
{
    if n <= 0 {
        Seq::empty()
    } else {
        key_events_upto(prev, keys, n - 1) + if get_bit(keys & !prev, (n - 1) as u8) {
            seq![GlassesEvent::KeyPress((n - 1) as u8)]
        } else {
            Seq::empty()
        }
    }
}

/// The key events one bitmask update emits: a rising edge on each of the
/// eight bits, in ascending bit order.
pub open spec fn key_events(prev: u8, keys: u8) -> Seq<GlassesEvent> {
    key_events_upto(prev, keys, 8)
}

/// The proximity events one reading emits: one event when the far/near
/// state changes, nothing when it stays.
pub open spec fn prox_events(was_far: bool, is_far: bool) -> Seq<GlassesEvent> {
    if was_far == is_far {
        Seq::empty()
    } else if is_far {
        seq![GlassesEvent::ProximityFar]
    } else {
        seq![GlassesEvent::ProximityNear]
    }
}

/// State and events after a key/proximity update: the key and proximity
/// memories are overwritten unconditionally, the pending sensor samples are
/// untouched.
pub open spec fn spec_key_prox(s: FusionState, keys: u8, prox_raw: u8) -> (FusionState, Seq<
    GlassesEvent,
>) {
    (
        FusionState {
            previous_key_bitmask: keys,
            previous_proximity_is_far: prox_raw != 0,
            ..s
        },
        key_events(s.previous_key_bitmask, keys) + prox_events(
            s.previous_proximity_is_far,
            prox_raw != 0,
        ),
    )
}

/// State and events after a split accelerometer sample: pair and clear when
/// a gyroscope sample with the identical timestamp waits, else the sample
/// replaces any pending accelerometer (last sample wins).
pub open spec fn spec_store_accelerometer(s: FusionState, v: Vector3Bits, ts: u64) -> (
    FusionState,
    Seq<GlassesEvent>,
) {
    match s.pending_gyroscope {
        Some(g) => if g.1 == ts {
            (
                FusionState { pending_accelerometer: None, pending_gyroscope: None, ..s },
                seq![
                    GlassesEvent::AccGyro { accelerometer: v, gyroscope: g.0, timestamp: ts }
                ],
            )
        } else {
            (FusionState { pending_accelerometer: Some((v, ts)), ..s }, Seq::empty())
        },
        None => (FusionState { pending_accelerometer: Some((v, ts)), ..s }, Seq::empty()),
    }
}

/// Symmetric to `spec_store_accelerometer`, for a gyroscope sample.
pub open spec fn spec_store_gyroscope(s: FusionState, v: Vector3Bits, ts: u64) -> (
    FusionState,
    Seq<GlassesEvent>,
) {
    match s.pending_accelerometer {
        Some(a) => if a.1 == ts {
            (
                FusionState { pending_accelerometer: None, pending_gyroscope: None, ..s },
                seq![
                    GlassesEvent::AccGyro { accelerometer: a.0, gyroscope: v, timestamp: ts }
                ],
            )
        } else {
            (FusionState { pending_gyroscope: Some((v, ts)), ..s }, Seq::empty())
        },
        None => (FusionState { pending_gyroscope: Some((v, ts)), ..s }, Seq::empty()),
    }
}

/// The full fusion step: the state after one decoded packet and the events
/// it emits, in order.
pub open spec fn spec_process(s: FusionState, p: DecodedPacket) -> (FusionState, Seq<
    GlassesEvent,
>) {
    match p {
        DecodedPacket::KeyAndProximity { keys_pressed, proximity_raw, .. } => spec_key_prox(
            s,
            keys_pressed,
            proximity_raw,
        ),
        DecodedPacket::SensorSample { kind, timestamp, vector, .. } => match kind {
            SensorKind::Accelerometer => spec_store_accelerometer(s, vector, timestamp),
            SensorKind::Gyroscope => spec_store_gyroscope(s, vector, timestamp),
            SensorKind::Magnetometer => (
                s,
                seq![GlassesEvent::Magnetometer { magnetometer: vector, timestamp }],
            ),
        },
        DecodedPacket::CombinedFrame {
            timestamp,
            accelerometer,
            gyroscope,
            magnetometer,
            keys_pressed,
            proximity_raw,
            ..
        } => {
            let fused_ts = timestamp / 1000;
            let kp = spec_key_prox(s, keys_pressed, proximity_raw);
            (
                kp.0,
                seq![
                    GlassesEvent::AccGyro { accelerometer, gyroscope, timestamp: fused_ts },
                    GlassesEvent::Magnetometer { magnetometer, timestamp: fused_ts },
                ] + kp.1,
            )
        },
        DecodedPacket::Ignored => (s, Seq::empty()),
    }
}

/// How many times event `e` occurs in `s`.
pub open spec fn count_event(s: Seq<GlassesEvent>, e: GlassesEvent) -> int
    decreases s.len(),
{
    if s.len() == 0 {
        0
    } else {
        count_event(s.drop_last(), e) + if s.last() == e {
            1int
        } else {
            0int
        }
    }
}

proof fn lemma_count_key_events_upto(prev: u8, keys: u8, i: u8, n: int)
    requires
        i < 8,
        0 <= n <= 8,
    ensures
        count_event(key_events_upto(prev, keys, n), GlassesEvent::KeyPress(i)) == if i < n
            && get_bit(keys & !prev, i) {
            1int
        } else {
            0int
        },
    decreases n,
{
    if n > 0 {
        lemma_count_key_events_upto(prev, keys, i, n - 1);
        let s = key_events_upto(prev, keys, n - 1);
        if get_bit(keys & !prev, (n - 1) as u8) {
            let e = seq![GlassesEvent::KeyPress((n - 1) as u8)];
            assert((s + e).drop_last() =~= s);
        } else {
            assert(s + Seq::<GlassesEvent>::empty() =~= s);
        }
    }
}

/// A key-press event fires exactly once per rising transition of its bit:
/// one bitmask update emits `KeyPress(i)` exactly once when bit `i` is set
/// in the new mask but was not in the previous one, and never when the bit
/// is held or released.
pub proof fn lemma_key_press_rising_edge(prev: u8, keys: u8, i: u8)
    requires
        i < 8,
    ensures
        count_event(key_events(prev, keys), GlassesEvent::KeyPress(i)) == if get_bit(keys, i)
            && !get_bit(prev, i) {
            1int
        } else {
            0int
        },
{
    assert(((keys & !prev) & (1u8 << i) != 0) == (keys & (1u8 << i) != 0 && !(prev & (1u8 << i)
        != 0))) by (bit_vector);
    lemma_count_key_events_upto(prev, keys, i, 8);
}

proof fn lemma_count_event_concat(a: Seq<GlassesEvent>, b: Seq<GlassesEvent>, e: GlassesEvent)
    ensures
        count_event(a + b, e) == count_event(a, e) + count_event(b, e),
    decreases b.len(),
{
    if b.len() == 0 {
        assert(a + b =~= a);
    } else {
        lemma_count_event_concat(a, b.drop_last(), e);
        assert((a + b).drop_last() =~= a + b.drop_last());
    }
}

/// The key events of a whole run of bitmask updates, starting from the
/// bitmask `prev`: each update emits against the mask before it, exactly as
/// consecutive key/proximity fusion steps do.
pub open spec fn key_events_for_masks(prev: u8, masks: Seq<u8>) -> Seq<GlassesEvent>
    decreases masks.len(),
{
    if masks.len() == 0 {
        Seq::empty()
    } else {
        key_events(prev, masks[0]) + key_events_for_masks(masks[0], masks.drop_first())
    }
}

/// How often bit `i` goes from clear to set along `prev` followed by
/// `masks`.
pub open spec fn rising_transitions(prev: u8, masks: Seq<u8>, i: u8) -> int
    decreases masks.len(),
{
    if masks.len() == 0 {
        0
    } else {
        (if get_bit(masks[0], i) && !get_bit(prev, i) {
            1int
        } else {
            0int
        }) + rising_transitions(masks[0], masks.drop_first(), i)
    }
}

/// Over any run of bitmask updates, `KeyPress(i)` fires exactly once per
/// rising transition of bit `i` — never on a held or falling bit.
pub proof fn lemma_key_press_once_per_rising_transition(prev: u8, masks: Seq<u8>, i: u8)
    requires
        i < 8,
    ensures
        count_event(key_events_for_masks(prev, masks), GlassesEvent::KeyPress(i))
            == rising_transitions(prev, masks, i),
    decreases masks.len(),
{
    if masks.len() > 0 {
        lemma_key_press_rising_edge(prev, masks[0], i);
        lemma_key_press_once_per_rising_transition(masks[0], masks.drop_first(), i);
        lemma_count_event_concat(
            key_events(prev, masks[0]),
            key_events_for_masks(masks[0], masks.drop_first()),
            GlassesEvent::KeyPress(i),
        );
        let m = masks[0];
        assert(get_bit(m & !prev, i) == (get_bit(m, i) && !get_bit(prev, i))) by (bit_vector);
    }
}

proof fn lemma_key_events_upto_same(m: u8, n: int)
    requires
        0 <= n <= 8,
    ensures
        key_events_upto(m, m, n) =~= Seq::<GlassesEvent>::empty(),
    decreases n,
{
    if n > 0 {
        lemma_key_events_upto_same(m, n - 1);
        let i = (n - 1) as u8;
        assert(!get_bit(m & !m, i)) by (bit_vector);
    }
}

/// A held bit never re-fires: an update that repeats the stored bitmask
/// emits no key event at all.
pub proof fn lemma_held_keys_do_not_refire(m: u8)
    ensures
        key_events(m, m) =~= Seq::<GlassesEvent>::empty(),
{
    lemma_key_events_upto_same(m, 8);
}

/// Every event a bitmask update emits is a key press.
pub proof fn lemma_key_events_only_key_presses(prev: u8, keys: u8, n: int)
    requires
        0 <= n <= 8,
    ensures
        forall|k: int|
            0 <= k < key_events_upto(prev, keys, n).len() ==> (#[trigger] key_events_upto(
                prev,
                keys,
                n,
            )[k]) matches GlassesEvent::KeyPress(_),
    decreases n,
{
    if n > 0 {
        lemma_key_events_only_key_presses(prev, keys, n - 1);
    }
}

/// Proximity events alternate strictly: a reading emits an event exactly
/// when the far/near state changes, and two consecutive emitted events are
/// always opposite.
pub proof fn lemma_proximity_alternates(was_far: bool, first_far: bool, second_far: bool)
    ensures
        prox_events(was_far, first_far).len() > 0 <==> first_far != was_far,
        (prox_events(was_far, first_far) =~= seq![GlassesEvent::ProximityFar] && prox_events(
            first_far,
            second_far,
        ).len() > 0) ==> prox_events(first_far, second_far) =~= seq![GlassesEvent::ProximityNear],
        (prox_events(was_far, first_far) =~= seq![GlassesEvent::ProximityNear] && prox_events(
            first_far,
            second_far,
        ).len() > 0) ==> prox_events(first_far, second_far) =~= seq![GlassesEvent::ProximityFar],
{
}

/// The proximity events of a whole run of raw readings, starting from the
/// far/near state `was_far`: each reading is judged against the state left
/// by the one before it, exactly as consecutive fusion steps do.
pub open spec fn prox_events_for_raws(was_far: bool, raws: Seq<u8>) -> Seq<GlassesEvent>
    decreases raws.len(),
{
    if raws.len() == 0 {
        Seq::empty()
    } else {
        prox_events(was_far, raws[0] != 0) + prox_events_for_raws(raws[0] != 0, raws.drop_first())
    }
}

/// Over any run of raw readings, the emitted proximity events alternate
/// strictly: the first one leaves the starting state, and no two
/// consecutive emitted events are equal.
pub proof fn lemma_proximity_run_alternates(was_far: bool, raws: Seq<u8>)
    ensures
        ({
            let run = prox_events_for_raws(was_far, raws);
            &&& forall|k: int|
                0 <= k < run.len() ==> #[trigger] run[k] == GlassesEvent::ProximityFar || run[k]
                    == GlassesEvent::ProximityNear
            &&& run.len() > 0 ==> ((run[0] == GlassesEvent::ProximityFar) <==> !was_far)
            &&& forall|k: int| 0 <= k < run.len() - 1 ==> run[k] != #[trigger] run[k + 1]
        }),
    decreases raws.len(),
{
    if raws.len() > 0 {
        let now_far = raws[0] != 0;
        let first = prox_events(was_far, now_far);
        let rest = prox_events_for_raws(now_far, raws.drop_first());
        let run = prox_events_for_raws(was_far, raws);
        lemma_proximity_run_alternates(now_far, raws.drop_first());
        assert(run =~= first + rest);
        assert forall|k: int| 0 <= k < run.len() - 1 implies run[k] != #[trigger] run[k + 1] by {
            if first.len() == 1 && k == 0 {
                assert(run[k] == first[0]);
                assert(run[k + 1] == rest[0]);
                assert(rest[0] == GlassesEvent::ProximityFar || rest[0]
                    == GlassesEvent::ProximityNear);
            } else {
                let j = k - first.len();
                assert(run[k] == rest[j]);
                assert(run[k + 1] == rest[j + 1]);
                assert(rest[j] != rest[j + 1]);
            }
        }
    }
}

/// Split-stream pairing: an accelerometer sample at timestamp `t1` followed
/// by a gyroscope sample at `t2`, with no gyroscope pending beforehand,
/// emits exactly one paired event when `t2 == t1` — and clears both pending
/// slots — and no paired event when `t2 != t1`, both samples then waiting.
pub proof fn lemma_fusion_pairing(
    s: FusionState,
    v1: Vector3Bits,
    t1: u64,
    v2: Vector3Bits,
    t2: u64,
)
    requires
        s.wf(),
        s.pending_gyroscope is None,
    ensures
        ({
            let first = spec_store_accelerometer(s, v1, t1);
            let second = spec_store_gyroscope(first.0, v2, t2);
            &&& first.1 =~= Seq::<GlassesEvent>::empty()
            &&& t2 == t1 ==> second.1 =~= seq![
                GlassesEvent::AccGyro { accelerometer: v1, gyroscope: v2, timestamp: t1 }
            ] && second.0.pending_accelerometer is None && second.0.pending_gyroscope is None
            &&& t2 != t1 ==> second.1 =~= Seq::<GlassesEvent>::empty()
                && second.0.pending_accelerometer == Some((v1, t1))
                && second.0.pending_gyroscope == Some((v2, t2))
        }),
{
}

/// A combined frame never consults or changes the split-stream pending
/// samples, and always emits exactly one paired-sensor event and one
/// magnetometer event, first in its event sequence.
pub proof fn lemma_combined_frame_independent(s: FusionState, p: DecodedPacket)
    requires
        p matches DecodedPacket::CombinedFrame { .. },
    ensures
        spec_process(s, p).0.pending_accelerometer == s.pending_accelerometer,
        spec_process(s, p).0.pending_gyroscope == s.pending_gyroscope,
        spec_process(s, p).1.len() >= 2,
        spec_process(s, p).1[0] matches GlassesEvent::AccGyro { .. },
        spec_process(s, p).1[1] matches GlassesEvent::Magnetometer { .. },
        forall|k: int|
            2 <= k < spec_process(s, p).1.len() ==> !((#[trigger] spec_process(
                s,
                p,
            ).1[k]) matches GlassesEvent::AccGyro { .. }) && !(spec_process(
                s,
                p,
            ).1[k] matches GlassesEvent::Magnetometer { .. }),
{
    match p {
        DecodedPacket::CombinedFrame { keys_pressed, proximity_raw, .. } => {
            lemma_key_events_only_key_presses(s.previous_key_bitmask, keys_pressed, 8);
            let kp = key_events(s.previous_key_bitmask, keys_pressed);
            let pe = prox_events(s.previous_proximity_is_far, proximity_raw != 0);
            assert forall|k: int| 0 <= k < (kp + pe).len() implies !((#[trigger] (kp + pe)[k])
                matches GlassesEvent::AccGyro { .. }) && !((kp + pe)[k]
                matches GlassesEvent::Magnetometer { .. }) by {
                if k < kp.len() {
                    assert(kp[k] matches GlassesEvent::KeyPress(_));
                }
            }
        },
        _ => {},
    }
}

/// Append the rising-edge key events of a bitmask update and store the new
/// bitmask.
fn handle_key_press(state: &mut FusionState, events: &mut Vec<GlassesEvent>, keys_pressed: u8)
    ensures
        *final(state) == (FusionState { previous_key_bitmask: keys_pressed, ..*old(state) }),
        final(events)@ == old(events)@ + key_events(old(state).previous_key_bitmask, keys_pressed),
{
    let new_presses = keys_pressed & !state.previous_key_bitmask;
    let ghost prev = state.previous_key_bitmask;
    let mut bit: u8 = 0;
    while bit < 8
        invariant
            bit <= 8,
            new_presses == keys_pressed & !prev,
            state.previous_key_bitmask == prev,
            state.pending_accelerometer == old(state).pending_accelerometer,
            state.pending_gyroscope == old(state).pending_gyroscope,
            state.previous_proximity_is_far == old(state).previous_proximity_is_far,
            prev == old(state).previous_key_bitmask,
            events@ == old(events)@ + key_events_upto(prev, keys_pressed, bit as int),
        decreases 8 - bit,
    {
        if new_presses & (1u8 << bit) != 0 {
            events.push(GlassesEvent::KeyPress(bit));
        }
        proof {
            if !get_bit(keys_pressed & !prev, bit) {
                assert(events@ =~= old(events)@ + key_events_upto(
                    prev,
                    keys_pressed,
                    bit as int + 1,
                ));
            }
        }
        bit = bit + 1;
    }
    state.previous_key_bitmask = keys_pressed;
}

/// Append the proximity event of a reading, if the far/near state changed,
/// and store the new state.
fn handle_proximity(state: &mut FusionState, events: &mut Vec<GlassesEvent>, proximity_raw: u8)
    ensures
        *final(state) == (FusionState {
            previous_proximity_is_far: proximity_raw != 0,
            ..*old(state)
        }),
        final(events)@ == old(events)@ + prox_events(
            old(state).previous_proximity_is_far,
            proximity_raw != 0,
        ),
{
    let is_far = proximity_raw != 0;
    let send_event = is_far != state.previous_proximity_is_far;
    state.previous_proximity_is_far = is_far;
    if send_event {
        if is_far {
            events.push(GlassesEvent::ProximityFar);
        } else {
            events.push(GlassesEvent::ProximityNear);
        }
    } else {
        proof {
            assert(events@ =~= events@ + prox_events(
                old(state).previous_proximity_is_far,
                proximity_raw != 0,
            ));
        }
    }
}

/// Run one decoded packet through the fusion: mutates the state and returns
/// the events the packet emits, in order. Unrecognized packets emit nothing
/// and leave the state unchanged.
pub fn process(state: &mut FusionState, packet: DecodedPacket) -> (events: Vec<GlassesEvent>)
    requires
        old(state).wf(),
    ensures
        final(state).wf(),
        *final(state) == spec_process(*old(state), packet).0,
        events@ == spec_process(*old(state), packet).1,
{
    let mut events: Vec<GlassesEvent> = Vec::new();
    match packet {
        DecodedPacket::KeyAndProximity { keys_pressed, proximity_raw, .. } => {
            handle_key_press(state, &mut events, keys_pressed);
            handle_proximity(state, &mut events, proximity_raw);
        },
        DecodedPacket::SensorSample { kind, timestamp, vector, .. } => {
            match kind {
                SensorKind::Accelerometer => {
                    let paired: Option<Vector3Bits> = match state.pending_gyroscope {
                        Some((gv, gt)) => if gt == timestamp {
                            Some(gv)
                        } else {
                            None
                        },
                        None => None,
                    };
                    match paired {
                        Some(gv) => {
                            state.pending_accelerometer = None;
                            state.pending_gyroscope = None;
                            events.push(
                                GlassesEvent::AccGyro {
                                    accelerometer: vector,
                                    gyroscope: gv,
                                    timestamp,
                                },
                            );
                        },
                        None => {
                            state.pending_accelerometer = Some((vector, timestamp));
                        },
                    }
                },
                SensorKind::Gyroscope => {
                    let paired: Option<Vector3Bits> = match state.pending_accelerometer {
                        Some((av, at)) => if at == timestamp {
                            Some(av)
                        } else {
                            None
                        },
                        None => None,
                    };
                    match paired {
                        Some(av) => {
                            state.pending_accelerometer = None;
                            state.pending_gyroscope = None;
                            events.push(
                                GlassesEvent::AccGyro {
                                    accelerometer: av,
                                    gyroscope: vector,
                                    timestamp,
                                },
                            );
                        },
                        None => {
                            state.pending_gyroscope = Some((vector, timestamp));
                        },
                    }
                },
                SensorKind::Magnetometer => {
                    events.push(GlassesEvent::Magnetometer { magnetometer: vector, timestamp });
                },
            }
        },
        DecodedPacket::CombinedFrame {
            timestamp,
            accelerometer,
            gyroscope,
            magnetometer,
            keys_pressed,
            proximity_raw,
            ..
        } => {
            let fused_ts = timestamp / 1000;
            events.push(
                GlassesEvent::AccGyro { accelerometer, gyroscope, timestamp: fused_ts },
            );
            events.push(
                GlassesEvent::Magnetometer { magnetometer, timestamp: fused_ts },
            );
            handle_key_press(state, &mut events, keys_pressed);
            handle_proximity(state, &mut events, proximity_raw);
            proof {
                assert(events@ =~= spec_process(*old(state), packet).1);
            }
        },
        DecodedPacket::Ignored => {},
    }
    events
}

} // verus!
