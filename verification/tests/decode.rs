//! End-to-end tests of the decoder: one scenario per header template of the
//! protocol, the documented codec examples, every reachable error variant,
//! and chunking independence on concrete streams.

use itm::decoder::Decoder;
use itm::decoder::DecoderState;
use itm::hardware::handle_hardware_source;
use itm::packet::DecoderError;
use itm::packet::ExceptionAction;
use itm::packet::ExceptionType;
use itm::packet::MemoryAccessType;
use itm::packet::TimestampDataRelation;
use itm::packet::TracePacket;
use itm::timestamp::extract_timestamp;

/// Feed `bytes` in chunks of `chunk` bytes, pulling to exhaustion after
/// every feed, and collect every packet produced.
fn decode_chunked(bytes: &[u8], chunk: usize) -> Vec<TracePacket> {
    let mut decoder = Decoder::new();
    let mut packets = Vec::new();
    for piece in bytes.chunks(chunk) {
        decoder.feed(piece.to_vec());
        loop {
            match decoder.pull() {
                Ok(Some(packet)) => packets.push(packet),
                Ok(None) => break,
                Err(e) => panic!("unexpected decode error: {:?}", e),
            }
        }
    }
    packets
}

#[test]
fn timestamp_codec_example() {
    // 0x81 & 0x7F | (0x02 << 7) == 1 | 256 == 257.
    assert_eq!(extract_timestamp(&vec![0x81, 0x02], 27), 257);
}

#[test]
fn timestamp_codec_single_byte() {
    assert_eq!(extract_timestamp(&vec![0x05], 27), 5);
}

#[test]
fn timestamp_codec_masks_gts1_status_bits() {
    // For the 25-bit width, bits 5 and 6 of the final byte are the
    // clock-change and wrap flags and are no part of the magnitude.
    assert_eq!(extract_timestamp(&vec![0x64], 25), 0x04);
}

#[test]
fn timestamp_codec_truncates_to_max_len() {
    // Three continuation bytes put the final byte's bits at offset 21; its
    // bit 6 would land at bit 27, beyond a 27-bit magnitude.
    assert_eq!(extract_timestamp(&vec![0x80, 0x80, 0x80, 0x40], 27), 0);
    assert_eq!(extract_timestamp(&vec![0x80, 0x80, 0x80, 0x20], 27), 1 << 26);
}

#[test]
fn sync_packet_after_47_zero_bits() {
    // Five zero bytes and 0x80: 47 zero bits, then a one bit.
    let mut decoder = Decoder::new();
    decoder.feed(vec![0x00, 0x00, 0x00, 0x00, 0x00, 0x80]);
    assert_eq!(decoder.pull(), Ok(Some(TracePacket::Sync)));
    assert_eq!(decoder.state, DecoderState::Header);
    assert_eq!(decoder.pull(), Ok(None));
}

#[test]
fn sync_too_short_is_an_error() {
    // Four zero bytes and 0x80: only 39 zero bits before the one bit.
    let mut decoder = Decoder::new();
    decoder.feed(vec![0x00, 0x00, 0x00, 0x00, 0x80]);
    assert_eq!(decoder.pull(), Err(DecoderError::InvalidSyncSize(39)));
}

#[test]
fn sync_count_is_preserved_across_pulls() {
    let mut decoder = Decoder::new();
    decoder.feed(vec![0x00, 0x00, 0x00]);
    assert_eq!(decoder.pull(), Ok(None));
    assert_eq!(decoder.state, DecoderState::Syncing(24));
    decoder.feed(vec![0x00, 0x00, 0x80]);
    assert_eq!(decoder.pull(), Ok(Some(TracePacket::Sync)));
    assert_eq!(decoder.state, DecoderState::Header);
}

#[test]
fn overflow_packet() {
    let mut decoder = Decoder::new();
    decoder.feed(vec![0x70]);
    assert_eq!(decoder.pull(), Ok(Some(TracePacket::Overflow)));
}

#[test]
fn local_timestamp_delayed_form() {
    // 11rr_0000 with rr == 00, then a continuation byte and a final byte.
    let mut decoder = Decoder::new();
    decoder.feed(vec![0xC0, 0x81, 0x02]);
    assert_eq!(
        decoder.pull(),
        Ok(Some(TracePacket::LocalTimestamp1 {
            ts: 257,
            data_relation: TimestampDataRelation::Sync,
        }))
    );
}

#[test]
fn local_timestamp_delayed_relations() {
    let mut decoder = Decoder::new();
    decoder.feed(vec![0xD0, 0x05, 0xE0, 0x05, 0xF0, 0x05]);
    assert_eq!(
        decoder.pull(),
        Ok(Some(TracePacket::LocalTimestamp1 {
            ts: 5,
            data_relation: TimestampDataRelation::UnknownDelay,
        }))
    );
    assert_eq!(
        decoder.pull(),
        Ok(Some(TracePacket::LocalTimestamp1 {
            ts: 5,
            data_relation: TimestampDataRelation::AssocEventDelay,
        }))
    );
    assert_eq!(
        decoder.pull(),
        Ok(Some(TracePacket::LocalTimestamp1 {
            ts: 5,
            data_relation: TimestampDataRelation::UnknownAssocEventDelay,
        }))
    );
}

#[test]
fn local_timestamp_short_form() {
    // 0ttt_0000 with t == 3.
    let mut decoder = Decoder::new();
    decoder.feed(vec![0x30]);
    assert_eq!(decoder.pull(), Ok(Some(TracePacket::LocalTimestamp2 { ts: 3 })));
}

#[test]
fn global_timestamp_low_bits() {
    let mut decoder = Decoder::new();
    decoder.feed(vec![0x94, 0x01]);
    assert_eq!(
        decoder.pull(),
        Ok(Some(TracePacket::GlobalTimestamp1 { ts: 1, wrap: false, clkch: false }))
    );
}

#[test]
fn global_timestamp_low_bits_flags() {
    // Final byte 0x64: bit 6 (wrap) and bit 5 (clkch) set; both status bits
    // are delivered as flags and masked out of the magnitude.
    let mut decoder = Decoder::new();
    decoder.feed(vec![0x94, 0x64]);
    assert_eq!(
        decoder.pull(),
        Ok(Some(TracePacket::GlobalTimestamp1 { ts: 0x04, wrap: true, clkch: true }))
    );
}

#[test]
fn global_timestamp_low_status_bits_never_leak() {
    // Even on a short payload, whose final byte sits at a low group offset,
    // its bits 5 and 6 belong to the flags, not to the magnitude.
    let mut decoder = Decoder::new();
    decoder.feed(vec![0x94, 0x81, 0x21]);
    assert_eq!(
        decoder.pull(),
        Ok(Some(TracePacket::GlobalTimestamp1 { ts: 0x81, wrap: false, clkch: true }))
    );
}

#[test]
fn global_timestamp_low_magnitude_is_25_bits() {
    // Three continuation bytes put the final byte at offset 21; its bit 5
    // would land at bit 26, beyond the 25-bit magnitude.
    let mut decoder = Decoder::new();
    decoder.feed(vec![0x94, 0x80, 0x80, 0x80, 0x20]);
    assert_eq!(
        decoder.pull(),
        Ok(Some(TracePacket::GlobalTimestamp1 { ts: 0, wrap: false, clkch: true }))
    );
}

#[test]
fn local_timestamp_magnitude_is_27_bits() {
    // The final byte's bit 6 at group offset 21 would be bit 27: beyond the
    // 27-bit magnitude of a delayed local timestamp.
    let mut decoder = Decoder::new();
    decoder.feed(vec![0xC0, 0x80, 0x80, 0x80, 0x40]);
    assert_eq!(
        decoder.pull(),
        Ok(Some(TracePacket::LocalTimestamp1 {
            ts: 0,
            data_relation: TimestampDataRelation::Sync,
        }))
    );
}

#[test]
fn global_timestamp_high_bits_48() {
    // Four payload bytes: a 48-bit total timestamp.
    let mut decoder = Decoder::new();
    decoder.feed(vec![0xB4, 0x81, 0x81, 0x81, 0x01]);
    // 1 | 1 << 7 | 1 << 14; the final byte's bits lie at offset 21 and
    // beyond, past the 21-bit high part of a 48-bit timestamp.
    assert_eq!(
        decoder.pull(),
        Ok(Some(TracePacket::GlobalTimestamp2 { ts: 0x4081 }))
    );
}

#[test]
fn global_timestamp_high_bits_64() {
    // Six payload bytes: a 64-bit total timestamp.
    let mut decoder = Decoder::new();
    decoder.feed(vec![0xB4, 0x81, 0x81, 0x81, 0x81, 0x81, 0x01]);
    // 1 | 1 << 7 | 1 << 14 | 1 << 21 | 1 << 28 | 1 << 35.
    assert_eq!(
        decoder.pull(),
        Ok(Some(TracePacket::GlobalTimestamp2 { ts: 34630287489 }))
    );
}

#[test]
fn global_timestamp_high_bad_length() {
    // A final byte at two payload bytes: neither 4 nor 6.
    let mut decoder = Decoder::new();
    decoder.feed(vec![0xB4, 0x81, 0x01]);
    assert_eq!(
        decoder.pull(),
        Err(DecoderError::InvalidGTS2Size { payload: vec![0x81, 0x01] })
    );
}

#[test]
fn extension_packet() {
    // 0ppp_1000 with p == 7.
    let mut decoder = Decoder::new();
    decoder.feed(vec![0x78]);
    assert_eq!(decoder.pull(), Ok(Some(TracePacket::Extension { page: 7 })));
}

#[test]
fn instrumentation_one_byte() {
    // aaaa_a0ss with port 0 and size selector 01: one payload byte.
    let mut decoder = Decoder::new();
    decoder.feed(vec![0x01, 0x41]);
    assert_eq!(
        decoder.pull(),
        Ok(Some(TracePacket::Instrumentation { port: 0, payload: vec![0x41] }))
    );
    assert_eq!(decoder.state, DecoderState::Header);
}

#[test]
fn instrumentation_four_bytes() {
    // Size selector 11: four payload bytes, port 3.
    let mut decoder = Decoder::new();
    decoder.feed(vec![0x1B, 0x64, 0x65, 0x66, 0x67]);
    assert_eq!(
        decoder.pull(),
        Ok(Some(TracePacket::Instrumentation {
            port: 3,
            payload: vec![0x64, 0x65, 0x66, 0x67],
        }))
    );
}

#[test]
fn instrumentation_bad_size_selector() {
    // aaaa_a000 with a == 17: size selector 00 is invalid.
    let mut decoder = Decoder::new();
    decoder.feed(vec![0x88]);
    assert_eq!(
        decoder.pull(),
        Err(DecoderError::InvalidInstumentationSize { port: 17, expected_size: 0 })
    );
}

#[test]
fn event_counter_wrap() {
    // Hardware source, discriminator 0, one payload byte 0b101010.
    let mut decoder = Decoder::new();
    decoder.feed(vec![0x05, 0x2A]);
    assert_eq!(
        decoder.pull(),
        Ok(Some(TracePacket::EventCounterWrap {
            cyc: true,
            fold: false,
            lsu: true,
            sleep: false,
            exc: true,
            cpi: false,
        }))
    );
}

#[test]
fn exception_trace_systick_entered() {
    // Discriminator 1, payload [0x0F, 0x10]: exception 15, function 01.
    assert_eq!(
        handle_hardware_source(1, vec![0x0F, 0x10]),
        Ok(TracePacket::ExceptionTrace {
            exception: ExceptionType::SysTick,
            action: ExceptionAction::Entered,
        })
    );
}

#[test]
fn exception_trace_through_decoder() {
    // Hardware source header, discriminator 1, two payload bytes.
    let mut decoder = Decoder::new();
    decoder.feed(vec![0x0E, 0x0F, 0x20]);
    assert_eq!(
        decoder.pull(),
        Ok(Some(TracePacket::ExceptionTrace {
            exception: ExceptionType::SysTick,
            action: ExceptionAction::Exited,
        }))
    );
}

#[test]
fn exception_trace_external_interrupt() {
    // Exception number 16: external interrupt 0; function 11: returned.
    assert_eq!(
        handle_hardware_source(1, vec![0x10, 0x30]),
        Ok(TracePacket::ExceptionTrace {
            exception: ExceptionType::ExternalInterrupt(0),
            action: ExceptionAction::Returned,
        })
    );
}

#[test]
fn exception_trace_ninth_bit() {
    // Bit 0 of the second payload byte is bit 8 of the exception number.
    assert_eq!(
        handle_hardware_source(1, vec![0x00, 0x11]),
        Ok(TracePacket::ExceptionTrace {
            exception: ExceptionType::ExternalInterrupt(240),
            action: ExceptionAction::Entered,
        })
    );
}

#[test]
fn exception_trace_invalid() {
    // Exception number 0 and function 0 are both invalid.
    assert_eq!(
        handle_hardware_source(1, vec![0x00, 0x00]),
        Err(DecoderError::InvalidExceptionTrace { exception: 0, function: 0 })
    );
}

#[test]
fn pc_sample_sleep() {
    assert_eq!(
        handle_hardware_source(2, vec![0x00]),
        Ok(TracePacket::PCSample { pc: None })
    );
}

#[test]
fn pc_sample_full() {
    assert_eq!(
        handle_hardware_source(2, vec![0x78, 0x56, 0x34, 0x12]),
        Ok(TracePacket::PCSample { pc: Some(0x12345678) })
    );
}

#[test]
fn pc_sample_sleep_through_decoder() {
    // Hardware source header, discriminator 2, one payload byte of zero.
    let mut decoder = Decoder::new();
    decoder.feed(vec![0x15, 0x00]);
    assert_eq!(decoder.pull(), Ok(Some(TracePacket::PCSample { pc: None })));
}

#[test]
fn pc_sample_bad_size() {
    assert_eq!(
        handle_hardware_source(2, vec![0x01, 0x02]),
        Err(DecoderError::InvalidPCSampleSize { payload: vec![0x01, 0x02] })
    );
}

#[test]
fn data_trace_pc() {
    // Discriminator 8: kind 01, comparator 0, direction 0; four bytes.
    assert_eq!(
        handle_hardware_source(8, vec![0x78, 0x56, 0x34, 0x12]),
        Ok(TracePacket::DataTracePC { comparator: 0, pc: 0x12345678 })
    );
}

#[test]
fn data_trace_address() {
    // Discriminator 11: kind 01, comparator 1, direction 1; two bytes.
    assert_eq!(
        handle_hardware_source(11, vec![0x34, 0x12]),
        Ok(TracePacket::DataTraceAddress { comparator: 1, address: 0x1234 })
    );
}

#[test]
fn data_trace_value_write_through_decoder() {
    // Discriminator 16: kind 10, comparator 0, direction 0 (write).
    let mut decoder = Decoder::new();
    decoder.feed(vec![0x85, 0xAB]);
    assert_eq!(
        decoder.pull(),
        Ok(Some(TracePacket::DataTraceValue {
            comparator: 0,
            access_type: MemoryAccessType::Write,
            value: vec![0xAB],
        }))
    );
}

#[test]
fn data_trace_value_read() {
    // Discriminator 17: kind 10, comparator 0, direction 1 (read); the
    // payload bytes are kept in the order received.
    assert_eq!(
        handle_hardware_source(17, vec![0x01, 0x02]),
        Ok(TracePacket::DataTraceValue {
            comparator: 0,
            access_type: MemoryAccessType::Read,
            value: vec![0x01, 0x02],
        })
    );
}

#[test]
fn data_trace_bad_combination() {
    // Kind 01, direction 0 demands four bytes.
    assert_eq!(
        handle_hardware_source(8, vec![0x01]),
        Err(DecoderError::InvalidHardwarePacket { disc_id: 8, payload: vec![0x01] })
    );
}

#[test]
fn event_counter_wrap_bad_size() {
    assert_eq!(
        handle_hardware_source(0, vec![0x01, 0x02]),
        Err(DecoderError::InvalidHardwarePacket { disc_id: 0, payload: vec![0x01, 0x02] })
    );
}

#[test]
fn invalid_hardware_discriminator() {
    // aaaa_a1ss with a == 3: not a defined discriminator.
    let mut decoder = Decoder::new();
    decoder.feed(vec![0x1C]);
    assert_eq!(
        decoder.pull(),
        Err(DecoderError::InvalidHardwareDisc { disc_id: 3, size: 0 })
    );
}

#[test]
fn pull_without_data_is_idempotent() {
    let mut decoder = Decoder::new();
    assert_eq!(decoder.pull(), Ok(None));
    assert_eq!(decoder.state, DecoderState::Header);
    assert_eq!(decoder.incoming.len(), 0);
    // A pull that consumed a header but lacks the payload makes no further
    // progress and changes nothing, however often it is repeated.
    decoder.feed(vec![0x01]);
    assert_eq!(decoder.pull(), Ok(None));
    let state_before = decoder.state.clone();
    let len_before = decoder.incoming.len();
    assert_eq!(decoder.pull(), Ok(None));
    assert_eq!(decoder.pull(), Ok(None));
    assert_eq!(decoder.state, state_before);
    assert_eq!(decoder.incoming.len(), len_before);
}

#[test]
fn chunking_independence() {
    // A stream of several packets decodes identically whether fed in one
    // call, one byte at a time, or in odd-sized pieces.
    let stream: Vec<u8> = vec![
        0x00, 0x00, 0x00, 0x00, 0x00, 0x80, // sync
        0x70, // overflow
        0x01, 0x41, // instrumentation, port 0
        0xC0, 0x81, 0x02, // local timestamp, delta 257
        0x94, 0x01, // global timestamp, low bits
        0x05, 0x2A, // event counter wrap
        0x30, // local timestamp, short form
    ];
    let whole = decode_chunked(&stream, stream.len());
    assert_eq!(whole.len(), 7);
    assert_eq!(whole, decode_chunked(&stream, 1));
    assert_eq!(whole, decode_chunked(&stream, 2));
    assert_eq!(whole, decode_chunked(&stream, 3));
    assert_eq!(whole, decode_chunked(&stream, 5));
}

#[test]
fn default_decoder_is_fresh() {
    let decoder = Decoder::default();
    assert_eq!(decoder.state, DecoderState::Header);
    assert_eq!(decoder.incoming.len(), 0);
}
