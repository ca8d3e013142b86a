use rokid_air::fusion::{process, FusionState, GlassesEvent};
use rokid_air::session::{model_from_product_name, DeviceModel, EventStream};
use rokid_air::wire::{decode_packet, DecodedPacket, SensorKind, Vector3Bits};

fn key_proximity_packet(keys: u8, proximity: u8) -> [u8; 64] {
    let mut buf = [0u8; 64];
    buf[0] = 2;
    buf[1..5].copy_from_slice(&7u32.to_le_bytes());
    buf[47] = keys;
    buf[51] = proximity;
    buf
}

fn sensor_packet(kind: u8, timestamp: u64, vector: (f32, f32, f32)) -> [u8; 64] {
    let mut buf = [0u8; 64];
    buf[0] = 4;
    buf[1] = kind;
    buf[2..6].copy_from_slice(&9u32.to_le_bytes());
    buf[9..17].copy_from_slice(&timestamp.to_le_bytes());
    buf[21..25].copy_from_slice(&vector.0.to_le_bytes());
    buf[25..29].copy_from_slice(&vector.1.to_le_bytes());
    buf[29..33].copy_from_slice(&vector.2.to_le_bytes());
    buf
}

fn combined_packet(timestamp: u64, keys: u8, proximity: u8) -> [u8; 64] {
    let mut buf = [0u8; 64];
    buf[0] = 17;
    buf[1..9].copy_from_slice(&timestamp.to_le_bytes());
    buf[9..13].copy_from_slice(&1.5f32.to_le_bytes());
    buf[21..25].copy_from_slice(&2.5f32.to_le_bytes());
    buf[33..37].copy_from_slice(&3.5f32.to_le_bytes());
    buf[45] = keys;
    buf[46] = proximity;
    buf[48..56].copy_from_slice(&42u64.to_le_bytes());
    buf[59] = 3;
    buf[60] = 7;
    buf
}

fn bits(v: (f32, f32, f32)) -> Vector3Bits {
    Vector3Bits { x: v.0.to_bits(), y: v.1.to_bits(), z: v.2.to_bits() }
}

#[test]
fn decode_key_proximity_fields() {
    let buf = key_proximity_packet(0b101, 9);
    match decode_packet(&buf) {
        DecodedPacket::KeyAndProximity { sequence, keys_pressed, proximity_raw } => {
            assert_eq!(sequence, 7);
            assert_eq!(keys_pressed, 0b101);
            assert_eq!(proximity_raw, 9);
        }
        other => panic!("wrong packet: {:?}", other),
    }
}

#[test]
fn decode_sensor_sample_fields() {
    let buf = sensor_packet(2, 123456, (0.25, -1.0, 4.0));
    match decode_packet(&buf) {
        DecodedPacket::SensorSample { kind, sequence, timestamp, vector } => {
            assert_eq!(kind, SensorKind::Gyroscope);
            assert_eq!(sequence, 9);
            assert_eq!(timestamp, 123456);
            assert_eq!(vector, bits((0.25, -1.0, 4.0)));
        }
        other => panic!("wrong packet: {:?}", other),
    }
}

#[test]
fn decode_combined_frame_fields() {
    let buf = combined_packet(5000, 1, 0);
    match decode_packet(&buf) {
        DecodedPacket::CombinedFrame {
            timestamp,
            accelerometer,
            gyroscope,
            magnetometer,
            keys_pressed,
            proximity_raw,
            vsync_timestamp,
            display_brightness,
            volume,
        } => {
            assert_eq!(timestamp, 5000);
            assert_eq!(accelerometer.x, 1.5f32.to_bits());
            assert_eq!(gyroscope.x, 2.5f32.to_bits());
            assert_eq!(magnetometer.x, 3.5f32.to_bits());
            assert_eq!(keys_pressed, 1);
            assert_eq!(proximity_raw, 0);
            assert_eq!(vsync_timestamp, 42);
            assert_eq!(display_brightness, 3);
            assert_eq!(volume, 7);
        }
        other => panic!("wrong packet: {:?}", other),
    }
}

#[test]
fn decode_unrecognized_tag_is_ignored() {
    let mut buf = [0u8; 64];
    buf[0] = 99;
    assert_eq!(decode_packet(&buf), DecodedPacket::Ignored);
}

#[test]
fn decode_unknown_sensor_kind_is_ignored() {
    let buf = sensor_packet(7, 1, (0.0, 0.0, 0.0));
    assert_eq!(decode_packet(&buf), DecodedPacket::Ignored);
}

#[test]
fn key_press_fires_once_per_rising_edge() {
    let mut st = FusionState::new();
    let masks = [0b0000_0001u8, 0b0000_0001, 0b0000_0011, 0b0000_0000];
    let mut emitted: Vec<Vec<GlassesEvent>> = Vec::new();
    for m in masks {
        emitted.push(process(&mut st, decode_packet(&key_proximity_packet(m, 0))));
    }
    assert_eq!(emitted[0], vec![GlassesEvent::KeyPress(0)]);
    assert_eq!(emitted[1], vec![]);
    assert_eq!(emitted[2], vec![GlassesEvent::KeyPress(1)]);
    assert_eq!(emitted[3], vec![]);
}

#[test]
fn key_press_events_come_in_ascending_bit_order() {
    let mut st = FusionState::new();
    let events = process(&mut st, decode_packet(&key_proximity_packet(0b1010_0101, 0)));
    assert_eq!(
        events,
        vec![
            GlassesEvent::KeyPress(0),
            GlassesEvent::KeyPress(2),
            GlassesEvent::KeyPress(5),
            GlassesEvent::KeyPress(7),
        ]
    );
}

#[test]
fn proximity_events_alternate_strictly() {
    let mut st = FusionState::new();
    let raws = [0u8, 0, 5, 5, 0];
    let mut emitted: Vec<Vec<GlassesEvent>> = Vec::new();
    for r in raws {
        emitted.push(process(&mut st, decode_packet(&key_proximity_packet(0, r))));
    }
    assert_eq!(emitted[0], vec![]);
    assert_eq!(emitted[1], vec![]);
    assert_eq!(emitted[2], vec![GlassesEvent::ProximityFar]);
    assert_eq!(emitted[3], vec![]);
    assert_eq!(emitted[4], vec![GlassesEvent::ProximityNear]);
}

#[test]
fn accelerometer_sample_becomes_pending() {
    let mut st = FusionState::new();
    let events = process(&mut st, decode_packet(&sensor_packet(1, 1000, (1.0, 2.0, 3.0))));
    assert_eq!(events, vec![]);
    assert_eq!(st.pending_accelerometer, Some((bits((1.0, 2.0, 3.0)), 1000)));
    assert_eq!(st.pending_gyroscope, None);
}

#[test]
fn matching_timestamps_fuse_and_clear() {
    let mut st = FusionState::new();
    let acc = decode_packet(&sensor_packet(1, 77, (1.0, 2.0, 3.0)));
    let gyro = decode_packet(&sensor_packet(2, 77, (4.0, 5.0, 6.0)));
    assert_eq!(process(&mut st, acc), vec![]);
    let events = process(&mut st, gyro);
    assert_eq!(
        events,
        vec![GlassesEvent::AccGyro {
            accelerometer: bits((1.0, 2.0, 3.0)),
            gyroscope: bits((4.0, 5.0, 6.0)),
            timestamp: 77,
        }]
    );
    assert_eq!(st.pending_accelerometer, None);
    assert_eq!(st.pending_gyroscope, None);
    // a later unrelated sample does not reuse the consumed pair
    let late = decode_packet(&sensor_packet(2, 78, (9.0, 9.0, 9.0)));
    assert_eq!(process(&mut st, late), vec![]);
    assert_eq!(st.pending_gyroscope, Some((bits((9.0, 9.0, 9.0)), 78)));
}

#[test]
fn different_timestamps_do_not_fuse() {
    let mut st = FusionState::new();
    let acc = decode_packet(&sensor_packet(1, 10, (1.0, 2.0, 3.0)));
    let gyro = decode_packet(&sensor_packet(2, 11, (4.0, 5.0, 6.0)));
    assert_eq!(process(&mut st, acc), vec![]);
    assert_eq!(process(&mut st, gyro), vec![]);
    assert_eq!(st.pending_accelerometer, Some((bits((1.0, 2.0, 3.0)), 10)));
    assert_eq!(st.pending_gyroscope, Some((bits((4.0, 5.0, 6.0)), 11)));
}

#[test]
fn newer_sample_of_same_kind_wins() {
    let mut st = FusionState::new();
    process(&mut st, decode_packet(&sensor_packet(1, 10, (1.0, 1.0, 1.0))));
    process(&mut st, decode_packet(&sensor_packet(1, 20, (2.0, 2.0, 2.0))));
    assert_eq!(st.pending_accelerometer, Some((bits((2.0, 2.0, 2.0)), 20)));
}

#[test]
fn magnetometer_emits_immediately() {
    let mut st = FusionState::new();
    let events = process(&mut st, decode_packet(&sensor_packet(3, 555, (1.0, 0.0, 0.0))));
    assert_eq!(
        events,
        vec![GlassesEvent::Magnetometer { magnetometer: bits((1.0, 0.0, 0.0)), timestamp: 555 }]
    );
    assert_eq!(st.pending_accelerometer, None);
    assert_eq!(st.pending_gyroscope, None);
}

#[test]
fn combined_frame_emits_pair_and_magnetometer() {
    let mut st = FusionState::new();
    // leave a pending accelerometer in place first
    process(&mut st, decode_packet(&sensor_packet(1, 10, (1.0, 1.0, 1.0))));
    let before = st.pending_accelerometer;
    let events = process(&mut st, decode_packet(&combined_packet(5000, 0, 0)));
    assert_eq!(events.len(), 2);
    match events[0] {
        GlassesEvent::AccGyro { timestamp, .. } => assert_eq!(timestamp, 5),
        other => panic!("wrong first event: {:?}", other),
    }
    match events[1] {
        GlassesEvent::Magnetometer { timestamp, .. } => assert_eq!(timestamp, 5),
        other => panic!("wrong second event: {:?}", other),
    }
    // the split-stream pending state is untouched
    assert_eq!(st.pending_accelerometer, before);
    assert_eq!(st.pending_gyroscope, None);
}

#[test]
fn combined_frame_key_and_proximity_events_follow() {
    let mut st = FusionState::new();
    let events = process(&mut st, decode_packet(&combined_packet(2000, 0b1, 3)));
    assert_eq!(events.len(), 4);
    assert_eq!(events[2], GlassesEvent::KeyPress(0));
    assert_eq!(events[3], GlassesEvent::ProximityFar);
}

#[test]
fn unrecognized_packet_leaves_state_unchanged() {
    let mut st = FusionState::new();
    process(&mut st, decode_packet(&sensor_packet(1, 10, (1.0, 1.0, 1.0))));
    process(&mut st, decode_packet(&key_proximity_packet(0b1, 5)));
    let pending = st.pending_accelerometer;
    let mut buf = [0u8; 64];
    buf[0] = 99;
    buf[47] = 0xff;
    let events = process(&mut st, decode_packet(&buf));
    assert_eq!(events, vec![]);
    assert_eq!(st.pending_accelerometer, pending);
    assert_eq!(st.pending_gyroscope, None);
    assert_eq!(st.previous_key_bitmask, 0b1);
    assert!(st.previous_proximity_is_far);
}

#[test]
fn event_stream_queues_in_order() {
    let mut stream = EventStream::new();
    assert_eq!(stream.next_event(), None);
    let buf = key_proximity_packet(0b11, 4);
    stream.feed(&buf);
    assert_eq!(stream.next_event(), Some(GlassesEvent::KeyPress(0)));
    assert_eq!(stream.next_event(), Some(GlassesEvent::KeyPress(1)));
    assert_eq!(stream.next_event(), Some(GlassesEvent::ProximityFar));
    assert_eq!(stream.next_event(), None);
}

#[test]
fn event_stream_ignores_unknown_packets() {
    let mut stream = EventStream::new();
    let mut buf = [0u8; 64];
    buf[0] = 42;
    stream.feed(&buf);
    assert_eq!(stream.next_event(), None);
}

#[test]
fn model_selection_by_product_name() {
    assert_eq!(model_from_product_name(b"Rokid Max"), DeviceModel::Max);
    assert_eq!(model_from_product_name(b"Rokid Air"), DeviceModel::Air);
    assert_eq!(model_from_product_name(b"Maximum"), DeviceModel::Max);
    assert_eq!(model_from_product_name(b""), DeviceModel::Air);
    assert_eq!(model_from_product_name(b"Ma"), DeviceModel::Air);
}

#[test]
fn model_constants() {
    assert_eq!(DeviceModel::Air.name(), "Rokid Air");
    assert_eq!(DeviceModel::Max.name(), "Rokid Max");
    assert_eq!(DeviceModel::Air.display_delay(), 15000);
    assert_eq!(DeviceModel::Max.display_delay(), 13000);
}
