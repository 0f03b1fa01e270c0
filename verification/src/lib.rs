//! A sans-I/O decoder for the ITM and DWT packet protocol of the ARMv7-M
//! architecture (Appendix D4 of the architecture reference manual): a
//! byte-oriented, self-synchronizing binary stream carrying interleaved
//! instrumentation data, timestamps, exception events, and data-watchpoint
//! traces.
//!
//! The decoder is driven incrementally: [`Decoder::feed`] appends raw trace
//! bytes to an internal bit buffer, and [`Decoder::pull`] consumes buffered
//! bits to produce at most one [`TracePacket`] per call, without blocking and
//! without any I/O.
//!
//! Every exported operation carries a contract that ties it to a mathematical
//! model of the protocol: [`decoder::spec_pull`] describes the whole
//! byte/bit-level state machine, and the lemmas in [`laws`] prove the
//! stream-level properties (chunking independence, synchronization recovery,
//! idempotence of an empty pull) on top of it.
//!
//! Common abbreviations:
//!
//! - ITM: instrumentation trace macrocell;
//! - DWT: data watchpoint and trace unit;
//! - PC: program counter;
//! - MSB: most significant bit.

pub mod bits;
pub mod decoder;
pub mod hardware;
pub mod header;
pub mod laws;
pub mod packet;
pub mod timestamp;

pub use decoder::Decoder;
pub use decoder::DecoderState;

pub use packet::DecoderError;
pub use packet::ExceptionAction;
pub use packet::ExceptionType;
pub use packet::MemoryAccessType;
pub use packet::TimestampDataRelation;
pub use packet::TracePacket;
