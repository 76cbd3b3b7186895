//! The layout of RTP packets.

use crate::bytes::{be16_at, read_be16};
use vstd::prelude::*;

verus! {

/// Length of the fixed RTP header.
pub const RTP_HEADER_LEN: usize = 12;

/// Whether the packet begins with a whole fixed header of RTP version 2.
pub open spec fn rtp_version_two(p: Seq<u8>) -> bool {
    p.len() >= 12 && p[0] / 64 == 2
}

/// Where the contributing sources end.
pub open spec fn sources_end(p: Seq<u8>) -> int {
    12 + 4 * (p[0] % 16)
}

pub open spec fn has_extension(p: Seq<u8>) -> bool {
    (p[0] / 16) % 2 == 1
}

pub open spec fn has_padding(p: Seq<u8>) -> bool {
    (p[0] / 32) % 2 == 1
}

/// Where the payload begins: behind the fixed header, the contributing sources
/// and the header extension. `None` where the packet is no RTP version 2 packet
/// or ends before its header does.
pub open spec fn payload_start(p: Seq<u8>) -> Option<int> {
    if !rtp_version_two(p) || sources_end(p) > p.len() {
        None
    } else if !has_extension(p) {
        Some(sources_end(p))
    } else if sources_end(p) + 4 > p.len() {
        None
    } else {
        let end = sources_end(p) + 4 + 4 * be16_at(p, sources_end(p) + 2);
        if end > p.len() {
            None
        } else {
            Some(end)
        }
    }
}

/// Finds where the payload begins.
pub fn find_payload_start(packet: &[u8]) -> (start: Option<usize>)
    ensures
        start is Some <==> payload_start(packet@) is Some,
        start matches Some(at) ==> at == payload_start(packet@)->Some_0 && 12 <= at <= packet@.len(),
{
    if packet.len() < 12 || packet[0] / 64 != 2 {
        return None;
    }
    let base: usize = 12 + 4 * (packet[0] % 16) as usize;
    if base > packet.len() {
        return None;
    }
    if (packet[0] / 16) % 2 == 0 {
        return Some(base);
    }
    if packet.len() - base < 4 {
        return None;
    }
    let words = read_be16(packet, base + 2);
    let extension: usize = 4 * words as usize;
    if packet.len() - base - 4 < extension {
        return None;
    }
    Some(base + 4 + extension)
}

} // verus!
