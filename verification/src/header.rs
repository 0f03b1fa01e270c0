//! The header classifier: a pure function from one header byte to either an
//! immediately complete packet, a payload-collecting state transition, or an
//! error.
//!
//! Classification is bit-pattern matching against a fixed, ordered list of
//! templates, first match wins, so that a fully fixed pattern (a global
//! timestamp header) takes precedence over a wildcard pattern (the short
//! local timestamp) that would otherwise also match:
//!
//! - `0000_0000`: synchronization lead-in;
//! - `0111_0000`: overflow;
//! - `11rr_0000`: local timestamp, delayed form;
//! - `0ttt_0000`: local timestamp, short form;
//! - `1001_0100`: global timestamp, low bits;
//! - `1011_0100`: global timestamp, high bits;
//! - `0ppp_1000`: extension;
//! - `aaaa_a0ss`: instrumentation;
//! - `aaaa_a1ss`: hardware source.

use crate::decoder::DecoderState;
use crate::decoder::SpecState;
use crate::packet::DecoderError;
use crate::packet::SpecError;
use crate::packet::SpecPacket;
use crate::packet::TimestampDataRelation;
use crate::packet::TracePacket;
use crate::packet::output_view;
use vstd::prelude::*;

verus! {

/// The timestamp/data relation encoded by the two `rr` bits of a delayed
/// local timestamp header.
pub open spec fn spec_data_relation(rr: u8) -> TimestampDataRelation {
    if rr == 0 {
        TimestampDataRelation::Sync
    } else if rr == 1 {
        TimestampDataRelation::UnknownDelay
    } else if rr == 2 {
        TimestampDataRelation::AssocEventDelay
    } else {
        TimestampDataRelation::UnknownAssocEventDelay
    }
}

/// The payload byte count that an instrumentation size selector stands for:
/// the encoded total packet size, less the already consumed header byte.
pub open spec fn spec_instrumentation_size(ss: u8) -> usize
    recommends
        1 <= ss <= 3,
{
    if ss == 1 {
        1usize
    } else if ss == 2 {
        2usize
    } else {
        4usize
    }
}

/// Whether a hardware source discriminator is one the protocol defines.
pub open spec fn spec_valid_disc(disc_id: u8) -> bool {
    disc_id <= 2 || (8 <= disc_id && disc_id <= 23)
}

/// The state transition and output of the engine on header byte `header`:
/// the state to enter, and the packet or error produced, if any.
pub open spec fn spec_decode_header(header: u8) -> (SpecState, Result<
    Option<SpecPacket>,
    SpecError,
>) {
    if header == 0x00 {
        // Synchronization lead-in: eight zero bits already seen.
        (SpecState::Syncing(8), Ok(None))
    } else if header == 0x70 {
        (SpecState::Header, Ok(Some(SpecPacket::Overflow)))
    } else if header & 0xcf == 0xc0 {
        // Local timestamp, delayed form.
        (
            SpecState::LocalTimestamp {
                data_relation: spec_data_relation((header >> 4) & 3),
                payload: Seq::<u8>::empty(),
            },
            Ok(None),
        )
    } else if header & 0x8f == 0x00 {
        // Local timestamp, short form.
        (SpecState::Header, Ok(Some(SpecPacket::LocalTimestamp2 { ts: (header >> 4) & 7 })))
    } else if header == 0x94 {
        (SpecState::GlobalTimestamp1 { payload: Seq::<u8>::empty() }, Ok(None))
    } else if header == 0xb4 {
        (SpecState::GlobalTimestamp2 { payload: Seq::<u8>::empty() }, Ok(None))
    } else if header & 0x8f == 0x08 {
        // Extension.
        (SpecState::Header, Ok(Some(SpecPacket::Extension { page: (header >> 4) & 7 })))
    } else if header & 0x04 == 0 {
        // Instrumentation.
        let port = header >> 3;
        let ss = header & 3;
        if ss == 0 {
            (
                SpecState::Header,
                Err(SpecError::InvalidInstumentationSize { port, expected_size: 0 }),
            )
        } else {
            (
                SpecState::Instrumentation {
                    port,
                    payload: Seq::<u8>::empty(),
                    expected_size: spec_instrumentation_size(ss),
                },
                Ok(None),
            )
        }
    } else {
        // Hardware source.
        let disc_id = header >> 3;
        let size = (header & 3) as usize;
        if spec_valid_disc(disc_id) {
            (
                SpecState::HardwareSource {
                    disc_id,
                    payload: Seq::<u8>::empty(),
                    expected_size: size,
                },
                Ok(None),
            )
        } else {
            (SpecState::Header, Err(SpecError::InvalidHardwareDisc { disc_id, size }))
        }
    }
}

/// The timestamp/data relation encoded by the two `rr` bits of a delayed
/// local timestamp header.
fn data_relation(rr: u8) -> (r: TimestampDataRelation)
    ensures
        r == spec_data_relation(rr),
{
    if rr == 0 {
        TimestampDataRelation::Sync
    } else if rr == 1 {
        TimestampDataRelation::UnknownDelay
    } else if rr == 2 {
        TimestampDataRelation::AssocEventDelay
    } else {
        TimestampDataRelation::UnknownAssocEventDelay
    }
}

/// Classify the header byte of a packet: the state the engine enters, and
/// the packet or error produced, if any.
pub fn decode_header(header: u8) -> (r: (DecoderState, Result<Option<TracePacket>, DecoderError>))
    ensures
        r.0@ == spec_decode_header(header).0,
        output_view(r.1) == spec_decode_header(header).1,
{
    if header == 0x00 {
        // Synchronization lead-in: eight zero bits already seen.
        (DecoderState::Syncing(8), Ok(None))
    } else if header == 0x70 {
        (DecoderState::Header, Ok(Some(TracePacket::Overflow)))
    } else if header & 0xcf == 0xc0 {
        // Local timestamp, delayed form.
        (
            DecoderState::LocalTimestamp {
                data_relation: data_relation((header >> 4) & 3),
                payload: Vec::new(),
            },
            Ok(None),
        )
    } else if header & 0x8f == 0x00 {
        // Local timestamp, short form.
        (DecoderState::Header, Ok(Some(TracePacket::LocalTimestamp2 { ts: (header >> 4) & 7 })))
    } else if header == 0x94 {
        (DecoderState::GlobalTimestamp1 { payload: Vec::new() }, Ok(None))
    } else if header == 0xb4 {
        (DecoderState::GlobalTimestamp2 { payload: Vec::new() }, Ok(None))
    } else if header & 0x8f == 0x08 {
        // Extension.
        (DecoderState::Header, Ok(Some(TracePacket::Extension { page: (header >> 4) & 7 })))
    } else if header & 0x04 == 0 {
        // Instrumentation.
        let port = header >> 3;
        let ss = header & 3;
        if ss == 0 {
            (
                DecoderState::Header,
                Err(DecoderError::InvalidInstumentationSize { port, expected_size: 0 }),
            )
        } else {
            let expected_size: usize = if ss == 1 {
                1
            } else if ss == 2 {
                2
            } else {
                4
            };
            (
                DecoderState::Instrumentation { port, payload: Vec::new(), expected_size },
                Ok(None),
            )
        }
    } else {
        // Hardware source.
        let disc_id = header >> 3;
        let size = (header & 3) as usize;
        if disc_id <= 2 || (8 <= disc_id && disc_id <= 23) {
            (
                DecoderState::HardwareSource { disc_id, payload: Vec::new(), expected_size: size },
                Ok(None),
            )
        } else {
            (DecoderState::Header, Err(DecoderError::InvalidHardwareDisc { disc_id, size }))
        }
    }
}

} // verus!
