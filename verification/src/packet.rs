//! The packet data model: every packet variant the protocol can produce, the
//! error taxonomy for malformed input, and the ghost mirrors of both.
//!
//! The executable types ([`TracePacket`], [`DecoderError`]) carry their
//! payloads in `Vec<u8>`; the ghost mirrors ([`SpecPacket`], [`SpecError`])
//! carry them as `Seq<u8>`, so that the decoder's contracts can speak of them
//! in specifications. [`View`] connects the two.

use vstd::prelude::*;

verus! {

/// The set of possible packet types that may be decoded.
///
/// A synchronization packet is a unique pattern in the bitstream, identified
/// and used to provide the alignment of other packet bytes in the bitstream
/// (Appendix D4.2.1 of the ARMv7-M architecture reference manual; all
/// appendix references below are to that document).
#[derive(Debug, Clone, PartialEq)]
pub enum TracePacket {
    /// Synchronization packet: at least 47 zero bits followed by a one bit.
    /// (Appendix D4.2.1)
    Sync,

    /// Found in the bitstream if software wrote to a full stimulus port
    /// output buffer, the DWT output buffer was full, or the local timestamp
    /// counter overflowed. (Appendix D4.2.3)
    Overflow,

    /// A delta timestamp that measures the interval since the generation of
    /// the last local timestamp and its relation to the corresponding
    /// ITM/DWT data packets. (Appendix D4.2.4)
    LocalTimestamp1 {
        /// Timestamp value; at most 27 bits of magnitude.
        ts: u32,
        /// The relationship between the generation of `ts` and the
        /// corresponding ITM or DWT data packet.
        data_relation: TimestampDataRelation,
    },

    /// A derivative of `LocalTimestamp1` for timestamp values between 1-6,
    /// always synchronous to the associated data. (Appendix D4.2.4)
    LocalTimestamp2 {
        /// Timestamp value.
        ts: u8,
    },

    /// An absolute timestamp based on the global timestamp clock that
    /// contains the timestamp's lower-order bits. (Appendix D4.2.5)
    GlobalTimestamp1 {
        /// Lower-order bits of the timestamp; at most 25 bits of magnitude.
        ts: usize,
        /// Set if the higher-order bits output by the last GlobalTimestamp2
        /// have changed.
        wrap: bool,
        /// Set if the system has asserted a clock change input to the
        /// processor since the last generated global timestamp.
        clkch: bool,
    },

    /// An absolute timestamp based on the global timestamp clock that
    /// contains the timestamp's higher-order bits. (Appendix D4.2.5)
    GlobalTimestamp2 {
        /// Higher-order bits of the timestamp value; bits [63:26] or
        /// bits [47:26] depending on implementation.
        ts: usize,
    },

    /// A packet that provides additional information about the identified
    /// source; on ARMv7-M it only denotes the stimulus port page number.
    /// (Appendix D4.2.6)
    Extension {
        /// Source port page number.
        page: u8,
    },

    /// Contains the payload written to the ITM stimulus ports.
    Instrumentation {
        /// Stimulus port number.
        port: u8,
        /// Instrumentation data written to the stimulus port, in the order
        /// received.
        payload: Vec<u8>,
    },

    /// One or more event counters have wrapped. (Appendix D4.3.1)
    EventCounterWrap {
        /// POSTCNT wrap.
        cyc: bool,
        /// FOLDCNT wrap.
        fold: bool,
        /// LSUCNT wrap.
        lsu: bool,
        /// SLEEPCNT wrap.
        sleep: bool,
        /// EXCCNT wrap.
        exc: bool,
        /// CPICNT wrap.
        cpi: bool,
    },

    /// The processor has entered, exited, or returned to an exception.
    /// (Appendix D4.3.2)
    ExceptionTrace {
        exception: ExceptionType,
        action: ExceptionAction,
    },

    /// Periodic PC sample. (Appendix D4.3.3)
    PCSample {
        /// The value of the PC; `None` if the sample is a periodic PC sleep
        /// packet.
        pc: Option<u32>,
    },

    /// A DWT comparator matched a PC value. (Appendix D4.3.4)
    DataTracePC {
        /// The comparator number that generated the data.
        comparator: u8,
        /// The PC value for the instruction that caused the successful
        /// address comparison.
        pc: u32,
    },

    /// A DWT comparator matched an address. (Appendix D4.3.4)
    DataTraceAddress {
        /// The comparator number that generated the data.
        comparator: u8,
        /// Data address content; bits [15:0].
        address: u16,
    },

    /// A data trace packet with a value. (Appendix D4.3.4)
    DataTraceValue {
        /// The comparator number that generated the data.
        comparator: u8,
        /// Whether the data was read or written.
        access_type: MemoryAccessType,
        /// The data value, in the order received.
        value: Vec<u8>,
    },
}

/// The exception action taken by the processor. (Table D4-6)
#[derive(Debug, Clone, PartialEq, Eq, Structural)]
pub enum ExceptionAction {
    /// Exception was entered.
    Entered,
    /// Exception was exited.
    Exited,
    /// Exception was returned to.
    Returned,
}

/// The exception type (interrupt event) of the processor. (Table B1-4)
#[derive(Debug, Clone, PartialEq)]
pub enum ExceptionType {
    Reset,
    Nmi,
    HardFault,
    MemManage,
    BusFault,
    UsageFault,
    SVCall,
    DebugMonitor,
    PendSV,
    SysTick,
    /// An external interrupt: exception numbers of 16 and above, stored with
    /// 16 already subtracted.
    ExternalInterrupt(usize),
}

/// The type of memory access that generated a data trace packet.
#[derive(Debug, Clone, PartialEq, Eq, Structural)]
pub enum MemoryAccessType {
    /// Memory was read.
    Read,
    /// Memory was written.
    Write,
}

/// The relationship between the generation of a local timestamp packet and
/// the corresponding ITM or DWT data packet. (Appendix D4.2.4)
#[derive(Debug, Clone, PartialEq, Eq, Structural)]
pub enum TimestampDataRelation {
    /// The local timestamp value is synchronous to the corresponding ITM or
    /// DWT data.
    Sync,

    /// The local timestamp value is delayed relative to the ITM or DWT data;
    /// the value is the timestamp counter value when the local timestamp
    /// packet is generated.
    UnknownDelay,

    /// Output of the ITM or DWT packet corresponding to this local timestamp
    /// packet is delayed relative to the associated event.
    AssocEventDelay,

    /// Both of the delays described by `UnknownDelay` and `AssocEventDelay`
    /// apply.
    UnknownAssocEventDelay,
}

/// A header or payload byte failed to decode. The decoder is then in an
/// unknown state and manual intervention is required: errors are terminal
/// for the engine instance and are never retried internally.
#[derive(Debug, Clone, PartialEq)]
pub enum DecoderError {
    /// Header is invalid and cannot be decoded.
    InvalidHeader(u8),

    /// The discriminator ID in a hardware source packet header is invalid or
    /// the associated payload is of wrong size.
    InvalidHardwarePacket {
        /// The discriminator ID; potentially invalid.
        disc_id: u8,
        /// Associated payload; potentially of invalid length.
        payload: Vec<u8>,
    },

    /// The discriminator ID in a hardware source packet header is invalid.
    InvalidHardwareDisc {
        /// The discriminator ID; potentially invalid.
        disc_id: u8,
        /// Associated payload length.
        size: usize,
    },

    /// The expected payload size of an instrumentation packet is invalid.
    InvalidInstumentationSize {
        /// The port from which the instrumentation packet is sourced.
        port: u8,
        /// The invalid expected payload size.
        expected_size: usize,
    },

    /// An exception trace packet refers to an invalid action or an invalid
    /// exception number.
    InvalidExceptionTrace {
        /// The exception number.
        exception: u16,
        /// Numerical representation of the function associated with the
        /// exception number.
        function: u8,
    },

    /// The payload length of a PC sample packet is invalid.
    InvalidPCSampleSize {
        /// The payload constituting the PC value, of invalid size.
        payload: Vec<u8>,
    },

    /// A GlobalTimestamp2 packet does not contain a 48-bit or 64-bit
    /// timestamp.
    InvalidGTS2Size {
        /// The payload constituting the timestamp, of invalid size.
        payload: Vec<u8>,
    },

    /// The number of zeroes scanned for a synchronization packet does not
    /// permit the scan to finish.
    InvalidSyncSize(usize),
}

/// Ghost mirror of [`TracePacket`], with byte payloads as sequences.
pub enum SpecPacket {
    Sync,
    Overflow,
    LocalTimestamp1 { ts: u32, data_relation: TimestampDataRelation },
    LocalTimestamp2 { ts: u8 },
    GlobalTimestamp1 { ts: usize, wrap: bool, clkch: bool },
    GlobalTimestamp2 { ts: usize },
    Extension { page: u8 },
    Instrumentation { port: u8, payload: Seq<u8> },
    EventCounterWrap { cyc: bool, fold: bool, lsu: bool, sleep: bool, exc: bool, cpi: bool },
    ExceptionTrace { exception: ExceptionType, action: ExceptionAction },
    PCSample { pc: Option<u32> },
    DataTracePC { comparator: u8, pc: u32 },
    DataTraceAddress { comparator: u8, address: u16 },
    DataTraceValue { comparator: u8, access_type: MemoryAccessType, value: Seq<u8> },
}

/// Ghost mirror of [`DecoderError`], with byte payloads as sequences.
pub enum SpecError {
    InvalidHeader(u8),
    InvalidHardwarePacket { disc_id: u8, payload: Seq<u8> },
    InvalidHardwareDisc { disc_id: u8, size: usize },
    InvalidInstumentationSize { port: u8, expected_size: usize },
    InvalidExceptionTrace { exception: u16, function: u8 },
    InvalidPCSampleSize { payload: Seq<u8> },
    InvalidGTS2Size { payload: Seq<u8> },
    InvalidSyncSize(usize),
}

impl View for TracePacket {
    type V = SpecPacket;

    open spec fn view(&self) -> SpecPacket {
        match self {
            TracePacket::Sync => SpecPacket::Sync,
            TracePacket::Overflow => SpecPacket::Overflow,
            TracePacket::LocalTimestamp1 { ts, data_relation } => SpecPacket::LocalTimestamp1 {
                ts: *ts,
                data_relation: *data_relation,
            },
            TracePacket::LocalTimestamp2 { ts } => SpecPacket::LocalTimestamp2 { ts: *ts },
            TracePacket::GlobalTimestamp1 { ts, wrap, clkch } => SpecPacket::GlobalTimestamp1 {
                ts: *ts,
                wrap: *wrap,
                clkch: *clkch,
            },
            TracePacket::GlobalTimestamp2 { ts } => SpecPacket::GlobalTimestamp2 { ts: *ts },
            TracePacket::Extension { page } => SpecPacket::Extension { page: *page },
            TracePacket::Instrumentation { port, payload } => SpecPacket::Instrumentation {
                port: *port,
                payload: payload@,
            },
            TracePacket::EventCounterWrap { cyc, fold, lsu, sleep, exc, cpi } => {
                SpecPacket::EventCounterWrap {
                    cyc: *cyc,
                    fold: *fold,
                    lsu: *lsu,
                    sleep: *sleep,
                    exc: *exc,
                    cpi: *cpi,
                }
            },
            TracePacket::ExceptionTrace { exception, action } => SpecPacket::ExceptionTrace {
                exception: *exception,
                action: *action,
            },
            TracePacket::PCSample { pc } => SpecPacket::PCSample { pc: *pc },
            TracePacket::DataTracePC { comparator, pc } => SpecPacket::DataTracePC {
                comparator: *comparator,
                pc: *pc,
            },
            TracePacket::DataTraceAddress { comparator, address } => SpecPacket::DataTraceAddress {
                comparator: *comparator,
                address: *address,
            },
            TracePacket::DataTraceValue { comparator, access_type, value } => {
                SpecPacket::DataTraceValue {
                    comparator: *comparator,
                    access_type: *access_type,
                    value: value@,
                }
            },
        }
    }
}

impl View for DecoderError {
    type V = SpecError;

    open spec fn view(&self) -> SpecError {
        match self {
            DecoderError::InvalidHeader(header) => SpecError::InvalidHeader(*header),
            DecoderError::InvalidHardwarePacket { disc_id, payload } => {
                SpecError::InvalidHardwarePacket { disc_id: *disc_id, payload: payload@ }
            },
            DecoderError::InvalidHardwareDisc { disc_id, size } => SpecError::InvalidHardwareDisc {
                disc_id: *disc_id,
                size: *size,
            },
            DecoderError::InvalidInstumentationSize { port, expected_size } => {
                SpecError::InvalidInstumentationSize {
                    port: *port,
                    expected_size: *expected_size,
                }
            },
            DecoderError::InvalidExceptionTrace { exception, function } => {
                SpecError::InvalidExceptionTrace { exception: *exception, function: *function }
            },
            DecoderError::InvalidPCSampleSize { payload } => SpecError::InvalidPCSampleSize {
                payload: payload@,
            },
            DecoderError::InvalidGTS2Size { payload } => SpecError::InvalidGTS2Size {
                payload: payload@,
            },
            DecoderError::InvalidSyncSize(count) => SpecError::InvalidSyncSize(*count),
        }
    }
}

/// The ghost value of a completed decode: a packet or a decode error, each
/// seen through its view.
pub open spec fn packet_result_view(r: Result<TracePacket, DecoderError>) -> Result<
    SpecPacket,
    SpecError,
> {
    match r {
        Ok(packet) => Ok(packet@),
        Err(error) => Err(error@),
    }
}

/// The ghost value of one `pull` outcome: no packet yet, a packet, or a
/// decode error, with the packet or error seen through its view.
pub open spec fn output_view(r: Result<Option<TracePacket>, DecoderError>) -> Result<
    Option<SpecPacket>,
    SpecError,
> {
    match r {
        Ok(None) => Ok(None),
        Ok(Some(packet)) => Ok(Some(packet@)),
        Err(error) => Err(error@),
    }
}

} // verus!
