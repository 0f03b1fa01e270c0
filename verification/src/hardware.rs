//! The hardware-source payload decoder: a pure function from a discriminator
//! ID and its full payload to a packet variant.
//!
//! Discriminator 0 is an event counter wrap, 1 an exception trace, 2 a PC
//! sample, and 8 through 23 a data trace whose low bits select the packet
//! kind, the comparator and the access direction. (Appendix D4.3)

use crate::packet::DecoderError;
use crate::packet::ExceptionAction;
use crate::packet::ExceptionType;
use crate::packet::MemoryAccessType;
use crate::packet::SpecError;
use crate::packet::SpecPacket;
use crate::packet::TracePacket;
use crate::packet::packet_result_view;
use vstd::prelude::*;

verus! {

/// The little-endian 16-bit value of a two-byte sequence.
pub open spec fn spec_le_u16(p: Seq<u8>) -> u16
    recommends
        p.len() == 2,
{
    (p[0] as u16) | ((p[1] as u16) << 8)
}

/// The little-endian 32-bit value of a four-byte sequence.
pub open spec fn spec_le_u32(p: Seq<u8>) -> u32
    recommends
        p.len() == 4,
{
    (p[0] as u32) | ((p[1] as u32) << 8) | ((p[2] as u32) << 16) | ((p[3] as u32) << 24)
}

/// The exception type named by an exception number, if the number is valid.
/// Numbers of 16 and above are external interrupts. (Table B1-4)
pub open spec fn spec_exception_type(number: u16) -> Option<ExceptionType> {
    if number == 1 {
        Some(ExceptionType::Reset)
    } else if number == 2 {
        Some(ExceptionType::Nmi)
    } else if number == 3 {
        Some(ExceptionType::HardFault)
    } else if number == 4 {
        Some(ExceptionType::MemManage)
    } else if number == 5 {
        Some(ExceptionType::BusFault)
    } else if number == 6 {
        Some(ExceptionType::UsageFault)
    } else if number == 11 {
        Some(ExceptionType::SVCall)
    } else if number == 12 {
        Some(ExceptionType::DebugMonitor)
    } else if number == 14 {
        Some(ExceptionType::PendSV)
    } else if number == 15 {
        Some(ExceptionType::SysTick)
    } else if number >= 16 {
        Some(ExceptionType::ExternalInterrupt((number - 16) as usize))
    } else {
        None
    }
}

/// The exception action named by the two function bits, if they are valid.
/// (Table D4-6)
pub open spec fn spec_exception_action(function: u8) -> Option<ExceptionAction> {
    if function == 1 {
        Some(ExceptionAction::Entered)
    } else if function == 2 {
        Some(ExceptionAction::Exited)
    } else if function == 3 {
        Some(ExceptionAction::Returned)
    } else {
        None
    }
}

/// The packet, or error, that a hardware source packet with discriminator
/// `disc_id` and complete payload `payload` decodes to.
pub open spec fn spec_handle_hardware_source(disc_id: u8, payload: Seq<u8>) -> Result<
    SpecPacket,
    SpecError,
> {
    if disc_id == 0 {
        // Event counter wrap: six independent flags in one byte.
        if payload.len() != 1 {
            Err(SpecError::InvalidHardwarePacket { disc_id, payload })
        } else {
            Ok(
                SpecPacket::EventCounterWrap {
                    cyc: payload[0] & 0x20 != 0,
                    fold: payload[0] & 0x10 != 0,
                    lsu: payload[0] & 0x08 != 0,
                    sleep: payload[0] & 0x04 != 0,
                    exc: payload[0] & 0x02 != 0,
                    cpi: payload[0] & 0x01 != 0,
                },
            )
        }
    } else if disc_id == 1 {
        // Exception trace: a 9-bit exception number and two function bits.
        if payload.len() != 2 {
            Err(SpecError::InvalidHardwarePacket { disc_id, payload })
        } else {
            let number = (((payload[1] & 1) as u16) << 8) | (payload[0] as u16);
            let function = (payload[1] >> 4) & 3;
            match (spec_exception_type(number), spec_exception_action(function)) {
                (Some(exception), Some(action)) => Ok(
                    SpecPacket::ExceptionTrace { exception, action },
                ),
                _ => Err(SpecError::InvalidExceptionTrace { exception: number, function }),
            }
        }
    } else if disc_id == 2 {
        // PC sample: a zero byte is a sleep sample, four bytes are a PC.
        if payload.len() == 1 && payload[0] == 0 {
            Ok(SpecPacket::PCSample { pc: None })
        } else if payload.len() == 4 {
            Ok(SpecPacket::PCSample { pc: Some(spec_le_u32(payload)) })
        } else {
            Err(SpecError::InvalidPCSampleSize { payload })
        }
    } else if 8 <= disc_id && disc_id <= 23 {
        // Data trace: the discriminator's low bits are ???ttccd.
        let kind = (disc_id >> 3) & 3;
        let comparator = (disc_id >> 1) & 3;
        let direction = disc_id & 1;
        if kind == 1 && direction == 0 && payload.len() == 4 {
            Ok(SpecPacket::DataTracePC { comparator, pc: spec_le_u32(payload) })
        } else if kind == 1 && direction == 1 && payload.len() == 2 {
            Ok(SpecPacket::DataTraceAddress { comparator, address: spec_le_u16(payload) })
        } else if kind == 2 {
            Ok(
                SpecPacket::DataTraceValue {
                    comparator,
                    access_type: if direction == 0 {
                        MemoryAccessType::Write
                    } else {
                        MemoryAccessType::Read
                    },
                    value: payload,
                },
            )
        } else {
            Err(SpecError::InvalidHardwarePacket { disc_id, payload })
        }
    } else {
        // The header classifier admits no other discriminator.
        Err(SpecError::InvalidHardwarePacket { disc_id, payload })
    }
}

/// The little-endian 16-bit value of a two-byte payload.
fn le_u16(p: &Vec<u8>) -> (v: u16)
    requires
        p@.len() == 2,
    ensures
        v == spec_le_u16(p@),
{
    (p[0] as u16) | ((p[1] as u16) << 8)
}

/// The little-endian 32-bit value of a four-byte payload.
fn le_u32(p: &Vec<u8>) -> (v: u32)
    requires
        p@.len() == 4,
    ensures
        v == spec_le_u32(p@),
{
    (p[0] as u32) | ((p[1] as u32) << 8) | ((p[2] as u32) << 16) | ((p[3] as u32) << 24)
}

/// The exception type named by an exception number, if the number is valid.
fn exception_type(number: u16) -> (t: Option<ExceptionType>)
    ensures
        t == spec_exception_type(number),
{
    if number == 1 {
        Some(ExceptionType::Reset)
    } else if number == 2 {
        Some(ExceptionType::Nmi)
    } else if number == 3 {
        Some(ExceptionType::HardFault)
    } else if number == 4 {
        Some(ExceptionType::MemManage)
    } else if number == 5 {
        Some(ExceptionType::BusFault)
    } else if number == 6 {
        Some(ExceptionType::UsageFault)
    } else if number == 11 {
        Some(ExceptionType::SVCall)
    } else if number == 12 {
        Some(ExceptionType::DebugMonitor)
    } else if number == 14 {
        Some(ExceptionType::PendSV)
    } else if number == 15 {
        Some(ExceptionType::SysTick)
    } else if number >= 16 {
        Some(ExceptionType::ExternalInterrupt((number - 16) as usize))
    } else {
        None
    }
}

/// The exception action named by the two function bits, if they are valid.
fn exception_action(function: u8) -> (a: Option<ExceptionAction>)
    ensures
        a == spec_exception_action(function),
{
    if function == 1 {
        Some(ExceptionAction::Entered)
    } else if function == 2 {
        Some(ExceptionAction::Exited)
    } else if function == 3 {
        Some(ExceptionAction::Returned)
    } else {
        None
    }
}

/// Decode the payload of a hardware source packet.
pub fn handle_hardware_source(disc_id: u8, payload: Vec<u8>) -> (r: Result<
    TracePacket,
    DecoderError,
>)
    ensures
        packet_result_view(r) == spec_handle_hardware_source(disc_id, payload@),
{
    if disc_id == 0 {
        // Event counter wrap.
        if payload.len() != 1 {
            return Err(DecoderError::InvalidHardwarePacket { disc_id, payload });
        }
        let b = payload[0];
        Ok(
            TracePacket::EventCounterWrap {
                cyc: b & 0x20 != 0,
                fold: b & 0x10 != 0,
                lsu: b & 0x08 != 0,
                sleep: b & 0x04 != 0,
                exc: b & 0x02 != 0,
                cpi: b & 0x01 != 0,
            },
        )
    } else if disc_id == 1 {
        // Exception trace.
        if payload.len() != 2 {
            return Err(DecoderError::InvalidHardwarePacket { disc_id, payload });
        }
        let number = (((payload[1] & 1) as u16) << 8) | (payload[0] as u16);
        let function = (payload[1] >> 4) & 3;
        match (exception_type(number), exception_action(function)) {
            (Some(exception), Some(action)) => Ok(
                TracePacket::ExceptionTrace { exception, action },
            ),
            _ => Err(DecoderError::InvalidExceptionTrace { exception: number, function }),
        }
    } else if disc_id == 2 {
        // PC sample.
        if payload.len() == 1 && payload[0] == 0 {
            Ok(TracePacket::PCSample { pc: None })
        } else if payload.len() == 4 {
            let pc = le_u32(&payload);
            Ok(TracePacket::PCSample { pc: Some(pc) })
        } else {
            Err(DecoderError::InvalidPCSampleSize { payload })
        }
    } else if 8 <= disc_id && disc_id <= 23 {
        // Data trace.
        let kind = (disc_id >> 3) & 3;
        let comparator = (disc_id >> 1) & 3;
        let direction = disc_id & 1;
        if kind == 1 && direction == 0 && payload.len() == 4 {
            let pc = le_u32(&payload);
            Ok(TracePacket::DataTracePC { comparator, pc })
        } else if kind == 1 && direction == 1 && payload.len() == 2 {
            let address = le_u16(&payload);
            Ok(TracePacket::DataTraceAddress { comparator, address })
        } else if kind == 2 {
            Ok(
                TracePacket::DataTraceValue {
                    comparator,
                    access_type: if direction == 0 {
                        MemoryAccessType::Write
                    } else {
                        MemoryAccessType::Read
                    },
                    value: payload,
                },
            )
        } else {
            Err(DecoderError::InvalidHardwarePacket { disc_id, payload })
        }
    } else {
        // The header classifier admits no other discriminator.
        Err(DecoderError::InvalidHardwarePacket { disc_id, payload })
    }
}

} // verus!
