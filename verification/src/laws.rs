//! Stream-level laws of the decoder, proved over the ghost state machine
//! [`spec_pull`]: idempotence of a pull that lacks data, synchronization
//! recovery, and independence of the decoded packet sequence from how the
//! input bytes were chunked across feed calls.

use crate::bits::byte_bits;
use crate::bits::byte_of_bits;
use crate::bits::lemma_byte_of_byte_bits;
use crate::decoder::PullResult;
use crate::decoder::SpecState;
use crate::decoder::spec_process_byte;
use crate::decoder::spec_pull;
use crate::decoder::spec_sync_scan;
use crate::decoder::sync_count_of;
use crate::packet::SpecError;
use crate::packet::SpecPacket;
use vstd::prelude::*;

verus! {

/// A run of `count` zero bits.
pub open spec fn zero_bits(count: nat) -> Seq<bool> {
    Seq::new(count, |i: int| false)
}

/// Idempotence of an empty pull: with fewer than eight buffered bits and no
/// synchronization scan in progress, a pull returns nothing and leaves the
/// engine exactly as it was, however often it is repeated.
pub proof fn lemma_pull_insufficient(state: SpecState, bits: Seq<bool>)
    requires
        !(state is Syncing),
        bits.len() < 8,
    ensures
        spec_pull(state, bits) == (PullResult {
            state,
            bits,
            out: Ok::<Option<SpecPacket>, SpecError>(None),
        }),
{
}

/// Whether two states are in the same mode, whatever their accumulated
/// payloads or counts.
pub open spec fn same_mode(a: SpecState, b: SpecState) -> bool {
    match (a, b) {
        (SpecState::Header, SpecState::Header) => true,
        (SpecState::Syncing(_), SpecState::Syncing(_)) => true,
        (SpecState::Instrumentation { .. }, SpecState::Instrumentation { .. }) => true,
        (SpecState::HardwareSource { .. }, SpecState::HardwareSource { .. }) => true,
        (SpecState::LocalTimestamp { .. }, SpecState::LocalTimestamp { .. }) => true,
        (SpecState::GlobalTimestamp1 { .. }, SpecState::GlobalTimestamp1 { .. }) => true,
        (SpecState::GlobalTimestamp2 { .. }, SpecState::GlobalTimestamp2 { .. }) => true,
        _ => false,
    }
}

/// The engine's mode invariant: from any payload-collecting mode, one
/// byte-processing step either stays in that mode and produces nothing (the
/// payload is still short of its target) or produces exactly one output —
/// packet or error — and returns to `Header`; and a step enters `Syncing`
/// only from `Header`.
pub proof fn lemma_mode_invariant(state: SpecState, b: u8)
    ensures
        ({
            let stepped = spec_process_byte(state, b);
            &&& (!(state is Header) && !(state is Syncing)) ==> {
                ||| (stepped.1 == Ok::<Option<SpecPacket>, SpecError>(None) && same_mode(
                    stepped.0,
                    state,
                ))
                ||| (stepped.0 is Header && stepped.1 != Ok::<Option<SpecPacket>, SpecError>(None))
            }
            &&& stepped.0 is Syncing ==> (state is Header || state is Syncing)
        }),
{
}

/// A fed byte is consumed as itself: with a byte's eight bits at the head
/// of the buffer and no synchronization scan in progress, a pull steps the
/// state machine with that very byte. Together with the chunking laws
/// below, this reads the bit-level model at byte granularity: each header
/// or payload byte fed to the decoder drives exactly one state-machine
/// step.
pub proof fn lemma_pull_reads_fed_byte(state: SpecState, b: u8, rest: Seq<bool>)
    requires
        !(state is Syncing),
    ensures
        ({
            let stepped = spec_process_byte(state, b);
            spec_pull(state, byte_bits(b) + rest) == (match stepped.1 {
                Ok(None) => spec_pull(stepped.0, rest),
                _ => PullResult { state: stepped.0, bits: rest, out: stepped.1 },
            })
        }),
{
    lemma_byte_of_byte_bits(b);
    assert((byte_bits(b) + rest).take(8) =~= byte_bits(b));
    assert((byte_bits(b) + rest).skip(8) =~= rest);
}

/// A synchronization scan over `j` zero bits and then a one bit, starting
/// with `count` zeros already seen: exactly 47 zeros in total end the scan
/// with a `Sync` packet; fewer end it with `InvalidSyncSize` at the total
/// reached; more end it with `InvalidSyncSize` at the threshold.
proof fn lemma_sync_scan_zeros(count: usize, j: nat, rest: Seq<bool>)
    requires
        count <= 47,
    ensures
        ({
            let result = spec_sync_scan(count, zero_bits(j) + seq![true] + rest);
            &&& count + j == 47 ==> result == PullResult {
                state: SpecState::Header,
                bits: rest,
                out: Ok::<Option<SpecPacket>, SpecError>(Some(SpecPacket::Sync)),
            }
            &&& count + j < 47 ==> result == PullResult {
                state: SpecState::Syncing((count + j) as usize),
                bits: rest,
                out: Err::<Option<SpecPacket>, SpecError>(
                    SpecError::InvalidSyncSize((count + j) as usize),
                ),
            }
            &&& count + j > 47 ==> result == PullResult {
                state: SpecState::Syncing(47),
                bits: zero_bits((count + j - 48) as nat) + seq![true] + rest,
                out: Err::<Option<SpecPacket>, SpecError>(SpecError::InvalidSyncSize(47)),
            }
        }),
    decreases j,
{
    let bits = zero_bits(j) + seq![true] + rest;
    if j == 0 {
        assert(bits =~= seq![true] + rest);
        assert(bits[0]);
        assert(bits.skip(1) =~= rest);
    } else {
        assert(!bits[0]);
        assert(bits.skip(1) =~= zero_bits((j - 1) as nat) + seq![true] + rest);
        if count < 47 {
            lemma_sync_scan_zeros((count + 1) as usize, (j - 1) as nat, rest);
        }
    }
}

/// Synchronization recovery: from `Header`, a stream of `zeros` zero bits
/// followed by a one bit yields exactly one `Sync` packet and returns the
/// engine to `Header` when `zeros` is exactly 47. Fewer than 47 zero bits
/// (but at least the 8 that form the lead-in header byte) yield
/// `InvalidSyncSize` with the count reached; more than 47 yield
/// `InvalidSyncSize` at the threshold, on the zero bit that follows it.
pub proof fn lemma_sync_recovery(zeros: usize, rest: Seq<bool>)
    requires
        8 <= zeros,
    ensures
        ({
            let result = spec_pull(SpecState::Header, zero_bits(zeros as nat) + seq![true] + rest);
            &&& zeros == 47 ==> result == PullResult {
                state: SpecState::Header,
                bits: rest,
                out: Ok::<Option<SpecPacket>, SpecError>(Some(SpecPacket::Sync)),
            }
            &&& zeros < 47 ==> result == PullResult {
                state: SpecState::Syncing(zeros),
                bits: rest,
                out: Err::<Option<SpecPacket>, SpecError>(SpecError::InvalidSyncSize(zeros)),
            }
            &&& zeros > 47 ==> result == PullResult {
                state: SpecState::Syncing(47),
                bits: zero_bits((zeros - 48) as nat) + seq![true] + rest,
                out: Err::<Option<SpecPacket>, SpecError>(SpecError::InvalidSyncSize(47)),
            }
        }),
{
    let bits = zero_bits(zeros as nat) + seq![true] + rest;
    // The first eight zero bits form the 0x00 lead-in header byte.
    assert(bits.take(8) =~= zero_bits(8));
    assert(byte_of_bits(zero_bits(8)) == 0) by {
        assert(0u8 | 0u8 == 0u8) by (bit_vector);
    }
    assert(byte_of_bits(bits.take(8)) == 0);
    assert(spec_pull(SpecState::Header, bits) == spec_pull(SpecState::Syncing(8), bits.skip(8)));
    assert(spec_pull(SpecState::Syncing(8), bits.skip(8)) == spec_sync_scan(8, bits.skip(8)));
    assert(bits.skip(8) =~= zero_bits((zeros - 8) as nat) + seq![true] + rest);
    lemma_sync_scan_zeros(8, (zeros - 8) as nat, rest);
}

/// A synchronization scan that exhausts its buffer ends in a `Syncing`
/// state with an empty buffer, and appending more bits afterwards scans
/// them from the preserved count.
proof fn lemma_sync_scan_extend(count: usize, bits: Seq<bool>, more: Seq<bool>)
    requires
        spec_sync_scan(count, bits).out == Ok::<Option<SpecPacket>, SpecError>(None),
    ensures
        spec_sync_scan(count, bits).state is Syncing,
        spec_sync_scan(count, bits).bits == Seq::<bool>::empty(),
        spec_sync_scan(count, bits + more) == spec_sync_scan(
            sync_count_of(spec_sync_scan(count, bits).state),
            more,
        ),
    decreases bits.len(),
{
    if bits.len() == 0 {
        assert(bits =~= Seq::<bool>::empty());
        assert(bits + more =~= more);
    } else {
        assert((bits + more)[0] == bits[0]);
        assert((bits + more).skip(1) =~= bits.skip(1) + more);
        if !bits[0] && count < 47 {
            lemma_sync_scan_extend((count + 1) as usize, bits.skip(1), more);
        }
    }
}

/// A synchronization scan that produced output is unchanged by bits
/// appended behind the buffer it scanned.
proof fn lemma_sync_scan_extend_out(count: usize, bits: Seq<bool>, more: Seq<bool>)
    requires
        spec_sync_scan(count, bits).out != Ok::<Option<SpecPacket>, SpecError>(None),
    ensures
        ({
            let r = spec_sync_scan(count, bits);
            spec_sync_scan(count, bits + more) == PullResult {
                state: r.state,
                bits: r.bits + more,
                out: r.out,
            }
        }),
    decreases bits.len(),
{
    if bits.len() == 0 {
        assert(false);
    } else {
        assert((bits + more)[0] == bits[0]);
        assert((bits + more).skip(1) =~= bits.skip(1) + more);
        if !bits[0] && count < 47 {
            lemma_sync_scan_extend_out((count + 1) as usize, bits.skip(1), more);
        }
    }
}

/// Appending bits behind a buffer on which a pull produced nothing gives
/// the same result as pulling with the appended bits available from the
/// start: a pull that lacks data loses nothing.
pub proof fn lemma_pull_extend(state: SpecState, bits: Seq<bool>, more: Seq<bool>)
    requires
        spec_pull(state, bits).out == Ok::<Option<SpecPacket>, SpecError>(None),
    ensures
        ({
            let r = spec_pull(state, bits);
            spec_pull(state, bits + more) == spec_pull(r.state, r.bits + more)
        }),
    decreases bits.len(),
{
    if state is Syncing {
        lemma_sync_scan_extend(sync_count_of(state), bits, more);
        let r = spec_pull(state, bits);
        assert(r.bits + more =~= more);
    } else if bits.len() < 8 {
        // Nothing was consumed; both sides pull on `bits + more`.
    } else {
        assert((bits + more).take(8) =~= bits.take(8));
        assert((bits + more).skip(8) =~= bits.skip(8) + more);
        let stepped = spec_process_byte(state, byte_of_bits(bits.take(8)));
        match stepped.1 {
            Ok(None) => {
                lemma_pull_extend(stepped.0, bits.skip(8), more);
            },
            _ => {
                assert(false);
            },
        }
    }
}

/// A pull that produced a packet or an error is unchanged by bits appended
/// behind the buffer: only the remaining buffer grows.
pub proof fn lemma_pull_extend_out(state: SpecState, bits: Seq<bool>, more: Seq<bool>)
    requires
        spec_pull(state, bits).out != Ok::<Option<SpecPacket>, SpecError>(None),
    ensures
        ({
            let r = spec_pull(state, bits);
            spec_pull(state, bits + more) == PullResult {
                state: r.state,
                bits: r.bits + more,
                out: r.out,
            }
        }),
    decreases bits.len(),
{
    if state is Syncing {
        lemma_sync_scan_extend_out(sync_count_of(state), bits, more);
    } else if bits.len() < 8 {
        assert(false);
    } else {
        assert((bits + more).take(8) =~= bits.take(8));
        assert((bits + more).skip(8) =~= bits.skip(8) + more);
        let stepped = spec_process_byte(state, byte_of_bits(bits.take(8)));
        match stepped.1 {
            Ok(None) => {
                lemma_pull_extend_out(stepped.0, bits.skip(8), more);
            },
            _ => {},
        }
    }
}

/// A synchronization scan never leaves more bits than it was given, and
/// consumes at least one bit whenever it produces output.
proof fn lemma_sync_scan_consumes(count: usize, bits: Seq<bool>)
    ensures
        spec_sync_scan(count, bits).bits.len() <= bits.len(),
        spec_sync_scan(count, bits).out != Ok::<Option<SpecPacket>, SpecError>(None)
            ==> spec_sync_scan(count, bits).bits.len() < bits.len(),
    decreases bits.len(),
{
    if bits.len() > 0 && !bits[0] && count < 47 {
        lemma_sync_scan_consumes((count + 1) as usize, bits.skip(1));
    }
}

/// A pull never leaves more bits than it was given, and consumes at least
/// one bit whenever it produces a packet or an error.
pub proof fn lemma_pull_consumes(state: SpecState, bits: Seq<bool>)
    ensures
        spec_pull(state, bits).bits.len() <= bits.len(),
        spec_pull(state, bits).out != Ok::<Option<SpecPacket>, SpecError>(None) ==> spec_pull(
            state,
            bits,
        ).bits.len() < bits.len(),
    decreases bits.len(),
{
    if state is Syncing {
        lemma_sync_scan_consumes(sync_count_of(state), bits);
    } else if bits.len() < 8 {
    } else {
        let stepped = spec_process_byte(state, byte_of_bits(bits.take(8)));
        match stepped.1 {
            Ok(None) => {
                lemma_pull_consumes(stepped.0, bits.skip(8));
            },
            _ => {},
        }
    }
}

/// The outcome of pulling repeatedly until no more output comes: the
/// sequence of packets and errors produced, and the engine state and buffer
/// left behind. An error ends the run, since errors are terminal for the
/// engine.
#[verifier::ext_equal]
pub struct RunResult {
    /// The packets and errors produced, in order.
    pub outputs: Seq<Result<SpecPacket, SpecError>>,
    /// The engine state after the run.
    pub state: SpecState,
    /// The bits left in the buffer after the run.
    pub bits: Seq<bool>,
}

/// Pull until a pull produces nothing, collecting every packet produced;
/// stop at the first error.
pub open spec fn spec_run(state: SpecState, bits: Seq<bool>) -> RunResult
    decreases bits.len(),
    via spec_run_decreases
{
    let step = spec_pull(state, bits);
    match step.out {
        Ok(None) => RunResult { outputs: Seq::empty(), state: step.state, bits: step.bits },
        Ok(Some(packet)) => {
            let rest = spec_run(step.state, step.bits);
            RunResult {
                outputs: seq![Ok(packet)] + rest.outputs,
                state: rest.state,
                bits: rest.bits,
            }
        },
        Err(error) => RunResult { outputs: seq![Err(error)], state: step.state, bits: step.bits },
    }
}

#[via_fn]
proof fn spec_run_decreases(state: SpecState, bits: Seq<bool>) {
    lemma_pull_consumes(state, bits);
}

/// Whether a run produced no error.
pub open spec fn run_ok(r: RunResult) -> bool {
    forall|i: int| 0 <= i < r.outputs.len() ==> r.outputs[i] is Ok
}

/// Chunking independence: when a run on `bits` ends without error, feeding
/// `more` afterwards and running again continues exactly where the first
/// run stopped, and together the two runs produce precisely the outputs of
/// one run on the whole stream. Applied once per feed call, this shows that
/// any way of splitting a byte stream across feed calls — one call, or one
/// byte at a time — yields the identical sequence of decoded packets.
pub proof fn lemma_run_extend(state: SpecState, bits: Seq<bool>, more: Seq<bool>)
    requires
        run_ok(spec_run(state, bits)),
    ensures
        ({
            let first = spec_run(state, bits);
            let second = spec_run(first.state, first.bits + more);
            spec_run(state, bits + more) == RunResult {
                outputs: first.outputs + second.outputs,
                state: second.state,
                bits: second.bits,
            }
        }),
    decreases bits.len(),
{
    let step = spec_pull(state, bits);
    let first = spec_run(state, bits);
    match step.out {
        Ok(None) => {
            lemma_pull_extend(state, bits, more);
            let second = spec_run(first.state, first.bits + more);
            assert(spec_run(state, bits + more) == second);
            assert(first.outputs + second.outputs =~= second.outputs);
            assert(spec_run(state, bits + more) =~= RunResult {
                outputs: first.outputs + second.outputs,
                state: second.state,
                bits: second.bits,
            });
        },
        Ok(Some(packet)) => {
            let rest = spec_run(step.state, step.bits);
            assert(run_ok(rest)) by {
                assert forall|i: int| 0 <= i < rest.outputs.len() implies rest.outputs[i] is Ok by {
                    assert(first.outputs[i + 1] == rest.outputs[i]);
                    assert(first.outputs[i + 1] is Ok);
                }
            }
            lemma_pull_extend_out(state, bits, more);
            lemma_pull_consumes(state, bits);
            lemma_run_extend(step.state, step.bits, more);
            let second = spec_run(first.state, first.bits + more);
            assert(spec_run(state, bits + more).outputs =~= first.outputs + second.outputs);
            assert(spec_run(state, bits + more) =~= RunResult {
                outputs: first.outputs + second.outputs,
                state: second.state,
                bits: second.bits,
            });
        },
        Err(error) => {
            // Excluded: the first run would contain the error.
            assert(first.outputs[0] is Ok);
            assert(false);
        },
    }
}

} // verus!
