//! Session-side logic that needs no I/O: the event queue a session drains,
//! fed by raw interrupt packets, and the device model selection with its
//! per-model constants.
//!
//! The I/O layer reads one raw packet at a time and feeds it in; events come
//! out in order, exactly as the fusion emits them.

use vstd::prelude::*;
use crate::fusion::{
    initial_fusion_state, process, spec_process, FusionState, GlassesEvent,
};
use crate::wire::{decode_packet, spec_decode, PACKET_LEN};

verus! {

/// The USB vendor ID the glasses enumerate with.
pub const VID: u16 = 0x04d2;

/// The USB product ID the glasses enumerate with.
pub const PID: u16 = 0x162f;

/// The address of the interrupt-in endpoint the packets arrive on.
pub const INTERRUPT_IN_ENDPOINT: u8 = 0x82;

/// The per-transfer timeout, in milliseconds.
pub const TIMEOUT_MS: u64 = 250;

/// Fusion state plus the FIFO queue of events not yet handed out.
pub struct EventStream {
    /// The fusion state the next packet will be processed against.
    pub fusion: FusionState,
    /// Events already produced and not yet handed to the caller, oldest first.
    pub queue: Vec<GlassesEvent>,
}

impl EventStream {
    /// The stream is well-formed exactly when its fusion state is.
    pub open spec fn wf(self) -> bool {
        self.fusion.wf()
    }

    /// A fresh stream: initial fusion state, nothing queued.
    pub fn new() -> (r: EventStream)
        ensures
            r.wf(),
            r.fusion == initial_fusion_state(),
            r.queue@ == Seq::<GlassesEvent>::empty(),
    {
        EventStream { fusion: FusionState::new(), queue: Vec::new() }
    }

    /// Decode one raw 64-byte interrupt packet and append whatever events it
    /// produces — possibly none — to the queue.
    pub fn feed(&mut self, data: &[u8])
        requires
            old(self).wf(),
            data@.len() == PACKET_LEN,
        ensures
            final(self).wf(),
            final(self).fusion == spec_process(
                old(self).fusion,
                spec_decode(data@),
            ).0,
            final(self).queue@ == old(self).queue@ + spec_process(
                old(self).fusion,
                spec_decode(data@),
            ).1,
    {
        let packet = decode_packet(data);
        let mut fusion = self.fusion;
        let mut events = process(&mut fusion, packet);
        self.fusion = fusion;
        self.queue.append(&mut events);
    }

    /// Hand out the oldest queued event, or nothing when the queue is empty
    /// (the caller then feeds further packets).
    pub fn next_event(&mut self) -> (r: Option<GlassesEvent>)
        requires
            old(self).wf(),
        ensures
            final(self).wf(),
            final(self).fusion == old(self).fusion,
            match r {
                None => old(self).queue@.len() == 0 && final(self).queue@ == old(self).queue@,
                Some(e) => old(self).queue@.len() > 0 && e == old(self).queue@[0]
                    && final(self).queue@ == old(self).queue@.drop_first(),
            },
    {
        if self.queue.len() == 0 {
            None
        } else {
            let e = self.queue.remove(0);
            proof {
                assert(self.queue@ =~= old(self).queue@.drop_first());
            }
            Some(e)
        }
    }
}

/// The two supported hardware variants.
#[derive(Clone, Copy, Debug, PartialEq, Eq, Structural)]
pub enum DeviceModel {
    Air,
    Max,
}

/// The three bytes of the product-name marker that distinguishes the second
/// model: `M`, `a`, `x`.
pub open spec fn marker_at(b: Seq<u8>, i: int) -> bool {
    b[i] == 77u8 && b[i + 1] == 97u8 && b[i + 2] == 120u8
}

/// Whether the product-name bytes contain the model marker anywhere.
pub open spec fn contains_marker(b: Seq<u8>) -> bool {
    exists|i: int| 0 <= i && i + 3 <= b.len() && #[trigger] marker_at(b, i)
}

/// Select the device model from the product-name bytes: the marker selects
/// the second variant, its absence the default one.
pub fn model_from_product_name(name: &[u8]) -> (r: DeviceModel)
    ensures
        r == (if contains_marker(name@) {
            DeviceModel::Max
        } else {
            DeviceModel::Air
        }),
{
    let len = name.len();
    if len < 3 {
        return DeviceModel::Air;
    }
    let mut i: usize = 0;
    while i <= len - 3
        invariant
            len == name@.len(),
            3 <= len,
            i <= len,
            forall|j: int| 0 <= j < i ==> !#[trigger] marker_at(name@, j),
        decreases len - i,
    {
        let b0 = *vstd::slice::slice_index_get(name, i);
        let b1 = *vstd::slice::slice_index_get(name, i + 1);
        let b2 = *vstd::slice::slice_index_get(name, i + 2);
        if b0 == 77 && b1 == 97 && b2 == 120 {
            proof {
                assert(marker_at(name@, i as int));
            }
            return DeviceModel::Max;
        }
        i = i + 1;
    }
    DeviceModel::Air
}

/// The product name each model reports.
pub open spec fn model_name(m: DeviceModel) -> Seq<char> {
    match m {
        DeviceModel::Air => "Rokid Air"@,
        DeviceModel::Max => "Rokid Max"@,
    }
}

/// The display latency of each model, in microseconds.
pub open spec fn model_display_delay(m: DeviceModel) -> u64 {
    match m {
        DeviceModel::Air => 15000,
        DeviceModel::Max => 13000,
    }
}

impl DeviceModel {
    /// The human-readable product name of this model.
    pub fn name(&self) -> (r: &'static str)
        ensures
            r@ == model_name(*self),
    {
        proof {
            reveal_strlit("Rokid Air");
            reveal_strlit("Rokid Max");
        }
        match self {
            DeviceModel::Air => "Rokid Air",
            DeviceModel::Max => "Rokid Max",
        }
    }

    /// The display latency of this model, in microseconds.
    pub fn display_delay(&self) -> (r: u64)
        ensures
            r == model_display_delay(*self),
    {
        match self {
            DeviceModel::Air => 15000,
            DeviceModel::Max => 13000,
        }
    }
}

} // verus!
