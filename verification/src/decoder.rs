//! The decoder engine: the only stateful component.
//!
//! A [`Decoder`] owns a bit buffer and a current [`DecoderState`].
//! [`Decoder::feed`] appends raw bytes to the tail of the buffer;
//! [`Decoder::pull`] consumes whole bytes from the head (or single bits
//! while re-synchronizing) until it produces one packet, one error, or runs
//! out of buffered data. The whole behaviour of `pull` is captured by the
//! ghost state machine [`spec_pull`].

use crate::bits::byte_bits;
use crate::bits::byte_of_bits;
use crate::bits::bytes_to_bits;
use crate::bits::push_byte_bits;
use crate::bits::take_bit;
use crate::bits::take_byte;
use crate::hardware::handle_hardware_source;
use crate::hardware::spec_handle_hardware_source;
use crate::header::decode_header;
use crate::header::spec_decode_header;
use crate::packet::DecoderError;
use crate::packet::SpecError;
use crate::packet::SpecPacket;
use crate::packet::TimestampDataRelation;
use crate::packet::TracePacket;
use crate::packet::output_view;
use crate::timestamp::extract_timestamp;
use crate::timestamp::spec_extract_timestamp;
use vstd::prelude::*;

verus! {

/// The decoder's possible states. The default state is `Header`; every
/// payload-collecting state returns to `Header` on the step that emits its
/// packet.
#[derive(Debug, Clone, PartialEq)]
pub enum DecoderState {
    /// The next byte is decoded as a header byte.
    Header,

    /// Bits are consumed one at a time and counted as part of a
    /// synchronization packet until a one bit is found.
    Syncing(usize),

    /// The next bytes belong to an instrumentation packet, until `payload`
    /// contains `expected_size` bytes.
    Instrumentation { port: u8, payload: Vec<u8>, expected_size: usize },

    /// The next bytes belong to a hardware source packet, until `payload`
    /// contains `expected_size` bytes.
    HardwareSource { disc_id: u8, payload: Vec<u8>, expected_size: usize },

    /// The next bytes belong to a LocalTimestamp1 packet, until a byte with
    /// a clear top bit arrives.
    LocalTimestamp { data_relation: TimestampDataRelation, payload: Vec<u8> },

    /// The next bytes belong to a GlobalTimestamp1 packet, until a byte with
    /// a clear top bit arrives.
    GlobalTimestamp1 { payload: Vec<u8> },

    /// The next bytes belong to a GlobalTimestamp2 packet, until a byte with
    /// a clear top bit arrives.
    GlobalTimestamp2 { payload: Vec<u8> },
}

/// Ghost mirror of [`DecoderState`], with byte payloads as sequences.
pub enum SpecState {
    Header,
    Syncing(usize),
    Instrumentation { port: u8, payload: Seq<u8>, expected_size: usize },
    HardwareSource { disc_id: u8, payload: Seq<u8>, expected_size: usize },
    LocalTimestamp { data_relation: TimestampDataRelation, payload: Seq<u8> },
    GlobalTimestamp1 { payload: Seq<u8> },
    GlobalTimestamp2 { payload: Seq<u8> },
}

/// ITM and DWT packet protocol decoder.
///
/// The buffer `incoming` holds the not-yet-consumed bits of the fed byte
/// stream, oldest first, each fed byte least significant bit first. `state`
/// is the current mode of the byte-consumption state machine.
pub struct Decoder {
    /// The bits fed to the decoder and not yet consumed.
    pub incoming: Vec<bool>,

    /// The current state of the decoder.
    pub state: DecoderState,
}

impl View for DecoderState {
    type V = SpecState;

    open spec fn view(&self) -> SpecState {
        match self {
            DecoderState::Header => SpecState::Header,
            DecoderState::Syncing(count) => SpecState::Syncing(*count),
            DecoderState::Instrumentation { port, payload, expected_size } => {
                SpecState::Instrumentation {
                    port: *port,
                    payload: payload@,
                    expected_size: *expected_size,
                }
            },
            DecoderState::HardwareSource { disc_id, payload, expected_size } => {
                SpecState::HardwareSource {
                    disc_id: *disc_id,
                    payload: payload@,
                    expected_size: *expected_size,
                }
            },
            DecoderState::LocalTimestamp { data_relation, payload } => {
                SpecState::LocalTimestamp { data_relation: *data_relation, payload: payload@ }
            },
            DecoderState::GlobalTimestamp1 { payload } => SpecState::GlobalTimestamp1 {
                payload: payload@,
            },
            DecoderState::GlobalTimestamp2 { payload } => SpecState::GlobalTimestamp2 {
                payload: payload@,
            },
        }
    }
}

/// The zero count carried by a `Syncing` state.
pub open spec fn sync_count_of(state: SpecState) -> usize {
    match state {
        SpecState::Syncing(count) => count,
        _ => 0,
    }
}

/// The state transition and output of one byte-processing step: the state
/// entered, and the packet or error produced, if any.
///
/// Every payload-collecting state appends the byte; a step that completes a
/// packet, or fails, returns the engine to `Header`.
pub open spec fn spec_process_byte(state: SpecState, b: u8) -> (SpecState, Result<
    Option<SpecPacket>,
    SpecError,
>) {
    match state {
        SpecState::Header => spec_decode_header(b),
        // The engine consumes single bits, never whole bytes, while syncing.
        SpecState::Syncing(_) => (state, Ok(None)),
        SpecState::Instrumentation { port, payload, expected_size } => {
            let p = payload.push(b);
            if p.len() == expected_size {
                (SpecState::Header, Ok(Some(SpecPacket::Instrumentation { port, payload: p })))
            } else {
                (SpecState::Instrumentation { port, payload: p, expected_size }, Ok(None))
            }
        },
        SpecState::HardwareSource { disc_id, payload, expected_size } => {
            let p = payload.push(b);
            if p.len() == expected_size {
                match spec_handle_hardware_source(disc_id, p) {
                    Ok(packet) => (SpecState::Header, Ok(Some(packet))),
                    Err(error) => (SpecState::Header, Err(error)),
                }
            } else {
                (SpecState::HardwareSource { disc_id, payload: p, expected_size }, Ok(None))
            }
        },
        SpecState::LocalTimestamp { data_relation, payload } => {
            let p = payload.push(b);
            if b < 0x80 {
                (
                    SpecState::Header,
                    Ok(
                        Some(
                            SpecPacket::LocalTimestamp1 {
                                ts: spec_extract_timestamp(p, 27) as u32,
                                data_relation,
                            },
                        ),
                    ),
                )
            } else {
                (SpecState::LocalTimestamp { data_relation, payload: p }, Ok(None))
            }
        },
        SpecState::GlobalTimestamp1 { payload } => {
            let p = payload.push(b);
            if b < 0x80 {
                (
                    SpecState::Header,
                    Ok(
                        Some(
                            SpecPacket::GlobalTimestamp1 {
                                ts: spec_extract_timestamp(p, 25) as usize,
                                clkch: b & 0x20 != 0,
                                wrap: b & 0x40 != 0,
                            },
                        ),
                    ),
                )
            } else {
                (SpecState::GlobalTimestamp1 { payload: p }, Ok(None))
            }
        },
        SpecState::GlobalTimestamp2 { payload } => {
            let p = payload.push(b);
            if b < 0x80 {
                if p.len() == 4 {
                    (
                        SpecState::Header,
                        Ok(
                            Some(
                                SpecPacket::GlobalTimestamp2 {
                                    ts: spec_extract_timestamp(p, 21) as usize,
                                },
                            ),
                        ),
                    )
                } else if p.len() == 6 {
                    (
                        SpecState::Header,
                        Ok(
                            Some(
                                SpecPacket::GlobalTimestamp2 {
                                    ts: spec_extract_timestamp(p, 37) as usize,
                                },
                            ),
                        ),
                    )
                } else {
                    (SpecState::Header, Err(SpecError::InvalidGTS2Size { payload: p }))
                }
            } else {
                (SpecState::GlobalTimestamp2 { payload: p }, Ok(None))
            }
        },
    }
}

/// The outcome of one `pull`: the state and buffer left behind, and the
/// packet, error, or absence of output produced.
#[verifier::ext_equal]
pub struct PullResult {
    /// The engine state after the call.
    pub state: SpecState,
    /// The bits left in the buffer after the call.
    pub bits: Seq<bool>,
    /// The output of the call.
    pub out: Result<Option<SpecPacket>, SpecError>,
}

/// The bit-level synchronization scan, starting with `count` zero bits
/// already seen: each zero bit below the threshold of 47 is counted; once
/// the threshold is reached, a one bit ends the scan with a `Sync` packet;
/// a one bit below the threshold, or a zero bit at the threshold, is a
/// protocol violation. An exhausted buffer preserves the count.
pub open spec fn spec_sync_scan(count: usize, bits: Seq<bool>) -> PullResult
    decreases bits.len(),
{
    if bits.len() == 0 {
        PullResult { state: SpecState::Syncing(count), bits, out: Ok(None) }
    } else if !bits[0] && count < 47 {
        spec_sync_scan((count + 1) as usize, bits.skip(1))
    } else if bits[0] && count >= 47 {
        PullResult { state: SpecState::Header, bits: bits.skip(1), out: Ok(Some(SpecPacket::Sync)) }
    } else {
        PullResult {
            state: SpecState::Syncing(count),
            bits: bits.skip(1),
            out: Err(SpecError::InvalidSyncSize(count)),
        }
    }
}

/// The whole behaviour of one `pull`: while the buffer holds at least eight
/// bits and the engine is not syncing, consume one byte and step the state
/// machine, stopping at the first packet or error; while syncing, scan
/// single bits.
pub open spec fn spec_pull(state: SpecState, bits: Seq<bool>) -> PullResult
    decreases bits.len(),
{
    if state is Syncing {
        spec_sync_scan(sync_count_of(state), bits)
    } else if bits.len() < 8 {
        PullResult { state, bits, out: Ok(None) }
    } else {
        let stepped = spec_process_byte(state, byte_of_bits(bits.take(8)));
        match stepped.1 {
            Ok(None) => spec_pull(stepped.0, bits.skip(8)),
            _ => PullResult { state: stepped.0, bits: bits.skip(8), out: stepped.1 },
        }
    }
}

impl Decoder {
    /// A fresh decoder: empty buffer, `Header` state.
    pub fn new() -> (decoder: Decoder)
        ensures
            decoder.state@ == SpecState::Header,
            decoder.incoming@ == Seq::<bool>::empty(),
    {
        Decoder { incoming: Vec::new(), state: DecoderState::Header }
    }

    /// Feed trace data into the decoder: the bytes' bits are appended to the
    /// tail of the bit buffer, least significant bit of each byte first.
    /// Feeding has no parsing side effect and never fails.
    pub fn feed(&mut self, data: Vec<u8>)
        ensures
            final(self).state == old(self).state,
            final(self).incoming@ == old(self).incoming@ + bytes_to_bits(data@),
    {
        let ghost bits0 = self.incoming@;
        let mut i: usize = 0;
        while i < data.len()
            invariant
                i <= data@.len(),
                self.state == old(self).state,
                self.incoming@ == bits0 + bytes_to_bits(data@.take(i as int)),
            decreases data@.len() - i,
        {
            push_byte_bits(&mut self.incoming, data[i]);
            proof {
                assert(data@.take(i + 1).drop_last() =~= data@.take(i as int));
                assert(bits0 + bytes_to_bits(data@.take(i + 1)) =~= (bits0 + bytes_to_bits(
                    data@.take(i as int),
                )) + byte_bits(data@[i as int]));
            }
            i = i + 1;
        }
        proof {
            assert(data@.take(data@.len() as int) =~= data@);
        }
    }

    /// Whether the engine is in the middle of a synchronization scan.
    fn is_syncing(&self) -> (syncing: bool)
        ensures
            syncing == (self.state@ is Syncing),
    {
        match &self.state {
            DecoderState::Syncing(_) => true,
            _ => false,
        }
    }

    /// Process a single byte from the bitstream, stepping the state machine.
    fn process_byte(&mut self, b: u8) -> (r: Result<Option<TracePacket>, DecoderError>)
        requires
            !(old(self).state@ is Syncing),
        ensures
            final(self).incoming@ == old(self).incoming@,
            final(self).state@ == spec_process_byte(old(self).state@, b).0,
            output_view(r) == spec_process_byte(old(self).state@, b).1,
    {
        let mut taken = DecoderState::Header;
        core::mem::swap(&mut taken, &mut self.state);
        // `self.state` is now `Header`; a branch that moves on to another
        // state assigns it below.
        match taken {
            DecoderState::Header => {
                let (next, r) = decode_header(b);
                self.state = next;
                r
            },
            DecoderState::Syncing(_) => {
                // Excluded by the precondition: bytes are never processed
                // while syncing.
                proof {
                    assert(false);
                }
                Ok(None)
            },
            DecoderState::Instrumentation { port, payload, expected_size } => {
                let mut payload = payload;
                payload.push(b);
                if payload.len() == expected_size {
                    Ok(Some(TracePacket::Instrumentation { port, payload }))
                } else {
                    self.state = DecoderState::Instrumentation { port, payload, expected_size };
                    Ok(None)
                }
            },
            DecoderState::HardwareSource { disc_id, payload, expected_size } => {
                let mut payload = payload;
                payload.push(b);
                if payload.len() == expected_size {
                    match handle_hardware_source(disc_id, payload) {
                        Ok(packet) => Ok(Some(packet)),
                        Err(error) => Err(error),
                    }
                } else {
                    self.state = DecoderState::HardwareSource { disc_id, payload, expected_size };
                    Ok(None)
                }
            },
            DecoderState::LocalTimestamp { data_relation, payload } => {
                let mut payload = payload;
                payload.push(b);
                if b < 0x80 {
                    let ts = extract_timestamp(&payload, 27) as u32;
                    Ok(Some(TracePacket::LocalTimestamp1 { ts, data_relation }))
                } else {
                    self.state = DecoderState::LocalTimestamp { data_relation, payload };
                    Ok(None)
                }
            },
            DecoderState::GlobalTimestamp1 { payload } => {
                let mut payload = payload;
                payload.push(b);
                if b < 0x80 {
                    let ts = extract_timestamp(&payload, 25) as usize;
                    Ok(
                        Some(
                            TracePacket::GlobalTimestamp1 {
                                ts,
                                clkch: b & 0x20 != 0,
                                wrap: b & 0x40 != 0,
                            },
                        ),
                    )
                } else {
                    self.state = DecoderState::GlobalTimestamp1 { payload };
                    Ok(None)
                }
            },
            DecoderState::GlobalTimestamp2 { payload } => {
                let mut payload = payload;
                payload.push(b);
                if b < 0x80 {
                    if payload.len() == 4 {
                        let ts = extract_timestamp(&payload, 21) as usize;
                        Ok(Some(TracePacket::GlobalTimestamp2 { ts }))
                    } else if payload.len() == 6 {
                        let ts = extract_timestamp(&payload, 37) as usize;
                        Ok(Some(TracePacket::GlobalTimestamp2 { ts }))
                    } else {
                        Err(DecoderError::InvalidGTS2Size { payload })
                    }
                } else {
                    self.state = DecoderState::GlobalTimestamp2 { payload };
                    Ok(None)
                }
            },
        }
    }

    /// Pull the next decoded packet from the decoder, if any and able.
    ///
    /// Consumes whole bytes from the head of the buffer (single bits while
    /// syncing) until one packet or one error is produced; returns
    /// `Ok(None)` when the buffered data does not suffice to make progress.
    /// The behaviour, including the exact state and buffer left behind, is
    /// [`spec_pull`] of the state and buffer at entry.
    pub fn pull(&mut self) -> (r: Result<Option<TracePacket>, DecoderError>)
        ensures
            ({
                let step = spec_pull(old(self).state@, old(self).incoming@);
                &&& final(self).state@ == step.state
                &&& final(self).incoming@ == step.bits
                &&& output_view(r) == step.out
            }),
    {
        let ghost state0 = self.state@;
        let ghost bits0 = self.incoming@;
        // Decode whole bytes until a packet or error is produced, the
        // buffer runs short, or a synchronization scan begins.
        loop
            invariant
                state0 == old(self).state@,
                bits0 == old(self).incoming@,
                spec_pull(state0, bits0) == spec_pull(self.state@, self.incoming@),
            ensures
                spec_pull(state0, bits0) == spec_pull(self.state@, self.incoming@),
                self.state@ is Syncing || self.incoming@.len() < 8,
            decreases self.incoming@.len(),
        {
            if self.is_syncing() || self.incoming.len() < 8 {
                break ;
            }
            let b = take_byte(&mut self.incoming);
            let r = self.process_byte(b);
            match r {
                Ok(None) => {},
                _ => {
                    return r;
                },
            }
        }
        if !self.is_syncing() {
            // Fewer than eight bits left: no progress to make.
            return Ok(None);
        }
        // Read zeros from the bitstream until the first one bit. This
        // realigns the incoming bitstream for further processing, which may
        // not be 8-bit aligned.
        let mut count: usize = match &self.state {
            DecoderState::Syncing(count) => *count,
            _ => 0,
        };
        while self.incoming.len() > 0
            invariant
                state0 == old(self).state@,
                bits0 == old(self).incoming@,
                self.state@ is Syncing,
                spec_pull(state0, bits0) == spec_sync_scan(count, self.incoming@),
            decreases self.incoming@.len(),
        {
            let bit = take_bit(&mut self.incoming);
            if !bit && count < 47 {
                count = count + 1;
            } else if bit && count >= 47 {
                self.state = DecoderState::Header;
                return Ok(Some(TracePacket::Sync));
            } else {
                self.state = DecoderState::Syncing(count);
                return Err(DecoderError::InvalidSyncSize(count));
            }
        }
        // Buffer exhausted mid-scan: preserve the zero count for the next
        // call.
        self.state = DecoderState::Syncing(count);
        Ok(None)
    }
}

impl Default for Decoder {
    /// A fresh decoder, as [`Decoder::new`] returns.
    fn default() -> (decoder: Decoder)
        ensures
            decoder.state@ == SpecState::Header,
            decoder.incoming@ == Seq::<bool>::empty(),
    {
        Decoder::new()
    }
}

} // verus!
