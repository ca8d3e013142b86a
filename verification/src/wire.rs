//! Wire packet decoder: interprets the fixed-size 64-byte interrupt packets
//! by their leading type tag and extracts typed fields at fixed byte offsets.
//!
//! Multi-byte fields are little-endian and packed without padding, so every
//! field is read byte-by-byte at its known offset; nothing aliases the raw
//! buffer. Sensor vector components travel as raw 32-bit patterns: this
//! layer never interprets them as numbers.

use vstd::prelude::*;
use vstd::bytes::{spec_u32_from_le_bytes, spec_u64_from_le_bytes, u32_from_le_bytes, u64_from_le_bytes};
use vstd::slice::slice_subrange;

verus! {

/// The length of every interrupt packet, in bytes.
pub const PACKET_LEN: usize = 64;

/// Which sensor a split sample belongs to.
#[derive(Clone, Copy, Debug, PartialEq, Eq, Structural)]
pub enum SensorKind {
    Accelerometer,
    Gyroscope,
    Magnetometer,
}

/// A three-component sensor reading, each component the raw 32-bit pattern
/// of the wire value. Interpreting the patterns as floating-point numbers is
/// the I/O layer's business.
#[derive(Clone, Copy, Debug, PartialEq, Eq, Structural)]
pub struct Vector3Bits {
    pub x: u32,
    pub y: u32,
    pub z: u32,
}

/// A classified interrupt packet.
#[derive(Clone, Copy, Debug, PartialEq, Eq, Structural)]
pub enum DecodedPacket {
    /// Tag 2: key matrix bitmask and proximity sensor reading.
    KeyAndProximity { sequence: u32, keys_pressed: u8, proximity_raw: u8 },
    /// Tag 4: one sample of one sensor on the split stream.
    SensorSample { kind: SensorKind, sequence: u32, timestamp: u64, vector: Vector3Bits },
    /// Tag 17: all sensor channels plus device status in one payload.
    CombinedFrame {
        timestamp: u64,
        accelerometer: Vector3Bits,
        gyroscope: Vector3Bits,
        magnetometer: Vector3Bits,
        keys_pressed: u8,
        proximity_raw: u8,
        vsync_timestamp: u64,
        display_brightness: u8,
        volume: u8,
    },
    /// Any other tag: dropped silently, produces no event.
    Ignored,
}

/// The 32-bit little-endian field at byte offset `off`.
pub open spec fn le32_at(b: Seq<u8>, off: int) -> u32 {
    spec_u32_from_le_bytes(b.subrange(off, off + 4))
}

/// The 64-bit little-endian field at byte offset `off`.
pub open spec fn le64_at(b: Seq<u8>, off: int) -> u64 {
    spec_u64_from_le_bytes(b.subrange(off, off + 8))
}

/// The three consecutive 32-bit fields starting at byte offset `off`.
pub open spec fn vector_at(b: Seq<u8>, off: int) -> Vector3Bits {
    Vector3Bits { x: le32_at(b, off), y: le32_at(b, off + 4), z: le32_at(b, off + 8) }
}

/// What a 64-byte buffer decodes to: byte 0 selects the layout, any
/// unrecognized tag (or unrecognized sensor kind under tag 4) is ignored.
pub open spec fn spec_decode(b: Seq<u8>) -> DecodedPacket
    recommends
        b.len() == PACKET_LEN,
{
    if b[0] == 2 {
        DecodedPacket::KeyAndProximity {
            sequence: le32_at(b, 1),
            keys_pressed: b[47],
            proximity_raw: b[51],
        }
    } else if b[0] == 4 {
        if b[1] == 1 || b[1] == 2 || b[1] == 3 {
            DecodedPacket::SensorSample {
                kind: if b[1] == 1 {
                    SensorKind::Accelerometer
                } else if b[1] == 2 {
                    SensorKind::Gyroscope
                } else {
                    SensorKind::Magnetometer
                },
                sequence: le32_at(b, 2),
                timestamp: le64_at(b, 9),
                vector: vector_at(b, 21),
            }
        } else {
            DecodedPacket::Ignored
        }
    } else if b[0] == 17 {
        DecodedPacket::CombinedFrame {
            timestamp: le64_at(b, 1),
            accelerometer: vector_at(b, 9),
            gyroscope: vector_at(b, 21),
            magnetometer: vector_at(b, 33),
            keys_pressed: b[45],
            proximity_raw: b[46],
            vsync_timestamp: le64_at(b, 48),
            display_brightness: b[59],
            volume: b[60],
        }
    } else {
        DecodedPacket::Ignored
    }
}

fn read_u32_at(data: &[u8], off: usize) -> (r: u32)
    requires
        data@.len() == PACKET_LEN,
        off + 4 <= data@.len(),
    ensures
        r == le32_at(data@, off as int),
{
    u32_from_le_bytes(slice_subrange(data, off, off + 4))
}

fn read_u64_at(data: &[u8], off: usize) -> (r: u64)
    requires
        data@.len() == PACKET_LEN,
        off + 8 <= data@.len(),
    ensures
        r == le64_at(data@, off as int),
{
    u64_from_le_bytes(slice_subrange(data, off, off + 8))
}

fn read_vector_at(data: &[u8], off: usize) -> (r: Vector3Bits)
    requires
        data@.len() == PACKET_LEN,
        off + 12 <= data@.len(),
    ensures
        r == vector_at(data@, off as int),
{
    Vector3Bits {
        x: read_u32_at(data, off),
        y: read_u32_at(data, off + 4),
        z: read_u32_at(data, off + 8),
    }
}

fn read_byte_at(data: &[u8], off: usize) -> (r: u8)
    requires
        data@.len() == PACKET_LEN,
        off < data@.len(),
    ensures
        r == data@[off as int],
{
    *vstd::slice::slice_index_get(data, off)
}

/// Classify a raw 64-byte interrupt packet by its leading tag and extract
/// the fields of the selected layout.
pub fn decode_packet(data: &[u8]) -> (r: DecodedPacket)
    requires
        data@.len() == PACKET_LEN,
    ensures
        r == spec_decode(data@),
{
    let tag = read_byte_at(data, 0);
    if tag == 2 {
        DecodedPacket::KeyAndProximity {
            sequence: read_u32_at(data, 1),
            keys_pressed: read_byte_at(data, 47),
            proximity_raw: read_byte_at(data, 51),
        }
    } else if tag == 4 {
        let sensor = read_byte_at(data, 1);
        let kind = if sensor == 1 {
            SensorKind::Accelerometer
        } else if sensor == 2 {
            SensorKind::Gyroscope
        } else if sensor == 3 {
            SensorKind::Magnetometer
        } else {
            return DecodedPacket::Ignored;
        };
        DecodedPacket::SensorSample {
            kind,
            sequence: read_u32_at(data, 2),
            timestamp: read_u64_at(data, 9),
            vector: read_vector_at(data, 21),
        }
    } else if tag == 17 {
        DecodedPacket::CombinedFrame {
            timestamp: read_u64_at(data, 1),
            accelerometer: read_vector_at(data, 9),
            gyroscope: read_vector_at(data, 21),
            magnetometer: read_vector_at(data, 33),
            keys_pressed: read_byte_at(data, 45),
            proximity_raw: read_byte_at(data, 46),
            vsync_timestamp: read_u64_at(data, 48),
            display_brightness: read_byte_at(data, 59),
            volume: read_byte_at(data, 60),
        }
    } else {
        DecodedPacket::Ignored
    }
}

} // verus!
