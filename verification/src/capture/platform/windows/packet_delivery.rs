//! Sizing of WASAPI capture packet reads.

use vstd::prelude::*;

verus! {

/// What to do with one captured packet.
#[derive(Debug, Clone, Copy, PartialEq, Eq, Structural)]
pub enum PacketReadPlan {
    Empty,
    Read { packet_bytes: usize },
    Oversized { required_bytes: Option<usize> },
}

/// Bytes of sample storage that holds `sample_count` 32-bit float samples.
/// Storage that exists never exceeds the address space, so the product fits.
pub fn sample_buffer_capacity_bytes(sample_count: usize) -> (r: usize)
    requires
        sample_count * 4 <= usize::MAX,
    ensures
        r == sample_count * 4,
{
    sample_count * 4
}

/// Bytes a packet of `packet_frames` frames occupies, when that fits a usize.
pub open spec fn packet_bytes(packet_frames: u32, channel_count: u8, sample_size_bytes: usize) -> Option<usize> {
    let samples = packet_frames as int * channel_count as int;
    if samples > usize::MAX {
        None
    } else if samples * sample_size_bytes > usize::MAX {
        None
    } else {
        Some((samples * sample_size_bytes) as usize)
    }
}

/// Plans the read of one packet: nothing for an empty packet, the exact byte
/// count when it fits the buffer, and otherwise the byte count it would need
/// (none when that count overflows).
pub fn plan_packet_read(
    packet_frames: u32,
    channel_count: u8,
    sample_size_bytes: usize,
    buffer_capacity_bytes: usize,
) -> (r: PacketReadPlan)
    ensures
        r == (if packet_frames == 0 {
            PacketReadPlan::Empty
        } else {
            match packet_bytes(packet_frames, channel_count, sample_size_bytes) {
                Some(bytes) => if bytes <= buffer_capacity_bytes {
                    PacketReadPlan::Read { packet_bytes: bytes }
                } else {
                    PacketReadPlan::Oversized { required_bytes: Some(bytes) }
                },
                None => PacketReadPlan::Oversized { required_bytes: None },
            }
        }),
{
    if packet_frames == 0 {
        return PacketReadPlan::Empty;
    }
    let required = match (packet_frames as usize).checked_mul(channel_count as usize) {
        Some(sample_count) => sample_count.checked_mul(sample_size_bytes),
        None => None,
    };
    match required {
        Some(bytes) => if bytes <= buffer_capacity_bytes {
            PacketReadPlan::Read { packet_bytes: bytes }
        } else {
            PacketReadPlan::Oversized { required_bytes: Some(bytes) }
        },
        None => PacketReadPlan::Oversized { required_bytes: None },
    }
}

} // verus!
