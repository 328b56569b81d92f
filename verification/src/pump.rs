//! The decisions of the worker loop: whether a capture packet is processed
//! and rendered, and when the loop pumps, sleeps or ends.
//!
//! The caller talks to the audio subsystem. It reports what it saw and does
//! what these functions answer.

use crate::wave_format::{SampleEncoding, WaveFormat};
use vstd::prelude::*;

verus! {

/// Time that the worker loop sleeps after a pump that found no packet, in
/// milliseconds.
pub const IDLE_SLEEP_MILLIS: u64 = 10;

/// What one pump did.
#[derive(Debug, Clone, Copy, PartialEq, Eq, Structural)]
pub enum PumpOutcome {
    /// No packet was pending.
    Idle,
    /// A packet was taken from the capture buffer.
    Processed,
}

/// How a capture packet is processed.
#[derive(Debug, Clone, Copy, PartialEq, Eq, Structural)]
pub struct PacketPlan {
    /// Bytes that the packet holds.
    pub byte_len: u64,
    /// Encoding by which the packet is decoded, and the mixed samples are
    /// encoded again.
    pub encoding: SampleEncoding,
}

/// The plan for a capture buffer of `frames` frames; none for a buffer
/// without frames or without data, which is released unread.
pub open spec fn planned_packet(format: WaveFormat, frames: u32, has_data: bool) -> Option<
    PacketPlan,
> {
    if frames > 0 && has_data {
        Some(
            PacketPlan {
                byte_len: (frames * format.block_align) as u64,
                encoding: format.spec_encoding(),
            },
        )
    } else {
        None
    }
}

/// Whether the capture buffer is asked for: only where frames are pending.
/// Else the pump is idle.
pub fn has_packet(pending_frames: u32) -> (pending: bool)
    ensures
        pending == (pending_frames != 0),
{
    pending_frames != 0
}

/// Plans the processing of a capture buffer that holds `frames` frames.
/// `has_data` says whether the buffer has an address.
pub fn plan_packet(format: &WaveFormat, frames: u32, has_data: bool) -> (plan: Option<PacketPlan>)
    ensures
        plan == planned_packet(*format, frames, has_data),
{
    if frames > 0 && has_data {
        Some(PacketPlan { byte_len: format.packet_bytes(frames), encoding: format.encoding() })
    } else {
        None
    }
}

impl PacketPlan {
    /// What the pump reports for a buffer with this plan, or with none.
    pub fn outcome(plan: Option<PacketPlan>) -> (outcome: PumpOutcome)
        ensures
            outcome == (if plan is Some {
                PumpOutcome::Processed
            } else {
                PumpOutcome::Idle
            }),
    {
        match plan {
            Some(_) => PumpOutcome::Processed,
            None => PumpOutcome::Idle,
        }
    }

    /// Whether the packet is decoded, mixed and rendered. A packet in an
    /// encoding that the router does not read is dropped: nothing is decoded
    /// and no target receives anything for it.
    pub open spec fn spec_is_rendered(&self) -> bool {
        self.encoding != SampleEncoding::Unsupported
    }

    /// Whether the packet is decoded, mixed and rendered.
    #[verifier::when_used_as_spec(spec_is_rendered)]
    pub fn is_rendered(&self) -> (rendered: bool)
        ensures
            rendered == self.spec_is_rendered(),
    {
        match self.encoding {
            SampleEncoding::Unsupported => false,
            _ => true,
        }
    }

    /// Bytes that are copied into a render buffer that was claimed for the
    /// frames of the packet, from a payload of `payload_len` bytes: all of
    /// the payload, but no more than the packet holds.
    pub fn copy_len(&self, payload_len: usize) -> (len: usize)
        ensures
            len == if payload_len <= self.byte_len {
                payload_len as int
            } else {
                self.byte_len as int
            },
    {
        if payload_len as u64 <= self.byte_len {
            payload_len
        } else {
            self.byte_len as usize
        }
    }
}

/// What the worker loop has just seen.
#[derive(Debug, Clone, Copy, PartialEq, Eq, Structural)]
pub enum WorkerEvent {
    /// The loop was entered.
    Started,
    /// A pump came back.
    Pumped(PumpOutcome),
    /// A pump failed.
    PumpFailed,
    /// The idle sleep is over.
    Slept,
}

/// What the worker loop does next.
#[derive(Debug, Clone, Copy, PartialEq, Eq, Structural)]
pub enum WorkerAction {
    /// Ask for the next pump.
    Pump,
    /// Sleep, then report `Slept`.
    Sleep { millis: u64 },
    /// Leave the loop and release the endpoints.
    Finish,
}

/// The next action of the worker loop. The cancellation flag is looked at
/// once for each turn of the loop, before the pump; after an idle pump the
/// loop sleeps first. A failed pump ends the loop.
pub open spec fn next_action(event: WorkerEvent, cancelled: bool) -> WorkerAction {
    match event {
        WorkerEvent::PumpFailed => WorkerAction::Finish,
        WorkerEvent::Pumped(PumpOutcome::Idle) => WorkerAction::Sleep { millis: IDLE_SLEEP_MILLIS },
        WorkerEvent::Started | WorkerEvent::Slept | WorkerEvent::Pumped(PumpOutcome::Processed) => {
            if cancelled {
                WorkerAction::Finish
            } else {
                WorkerAction::Pump
            }
        },
    }
}

/// Decides what the worker loop does after `event`. `cancelled` is the
/// cancellation flag as it stands now.
pub fn worker_action(event: WorkerEvent, cancelled: bool) -> (action: WorkerAction)
    ensures
        action == next_action(event, cancelled),
{
    match event {
        WorkerEvent::PumpFailed => WorkerAction::Finish,
        WorkerEvent::Pumped(PumpOutcome::Idle) => WorkerAction::Sleep { millis: IDLE_SLEEP_MILLIS },
        _ => {
            if cancelled {
                WorkerAction::Finish
            } else {
                WorkerAction::Pump
            }
        },
    }
}

/// Once the cancellation flag is set no further pump is asked for: the loop
/// ends at once, or after the one idle sleep that had been due.
pub proof fn lemma_cancelled_loop_ends(event: WorkerEvent)
    ensures
        next_action(event, true) != WorkerAction::Pump,
        next_action(event, true) != WorkerAction::Finish ==> next_action(
            WorkerEvent::Slept,
            true,
        ) == WorkerAction::Finish,
{
}

} // verus!
