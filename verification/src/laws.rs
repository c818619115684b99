//! Facts that hold of every input, proved over the specifications that the
//! contracts of the library are written in.

use crate::encoding::{lemma_bytes_of_le_u32, lemma_le_u32_of_bytes};
use crate::instructions::{decode_instruction, CounterInstructions, UpdateArgs};
use crate::processor::processed;
use crate::state::{next_counter, parse_record, record_bytes, CounterAccount, RecordError};
use vstd::math::{max, min};
use vstd::prelude::*;

verus! {

/// Two increments in a row, starting from zero, give the sum of the two
/// arguments, or `u32::MAX` where the sum is larger.
pub proof fn lemma_increments_from_zero(v1: u32, v2: u32)
    ensures
        next_counter(
            next_counter(0, CounterInstructions::Increment(UpdateArgs { value: v1 })),
            CounterInstructions::Increment(UpdateArgs { value: v2 }),
        ) == min(v1 + v2, u32::MAX as int),
{
}

/// Two increments in a row act as one increment by the sum of their
/// arguments: clamping after each step or once at the end is the same.
pub proof fn lemma_increments_compose(record: CounterAccount, v1: u32, v2: u32)
    ensures
        next_counter(
            next_counter(record@, CounterInstructions::Increment(UpdateArgs { value: v1 })),
            CounterInstructions::Increment(UpdateArgs { value: v2 }),
        ) == min(record@ + v1 + v2, u32::MAX as int),
{
}

/// Two decrements in a row act as one decrement by the sum of their
/// arguments: clamping after each step or once at the end is the same.
pub proof fn lemma_decrements_compose(record: CounterAccount, v1: u32, v2: u32)
    ensures
        next_counter(
            next_counter(record@, CounterInstructions::Decrement(UpdateArgs { value: v1 })),
            CounterInstructions::Decrement(UpdateArgs { value: v2 }),
        ) == max(record@ - v1 - v2, 0),
{
}

/// No instruction takes the counter out of the range of a `u32`.
pub proof fn lemma_next_counter_fits(record: CounterAccount, command: CounterInstructions)
    ensures
        next_counter(record@, command) <= u32::MAX,
{
}

/// `Reset` gives zero and `Update` gives its argument, whatever the counter
/// was before; so `Reset` does what `Update` with the argument zero does.
pub proof fn lemma_overwrites_forget(record: CounterAccount, value: u32)
    ensures
        next_counter(record@, CounterInstructions::Reset) == 0,
        next_counter(record@, CounterInstructions::Update(UpdateArgs { value })) == value,
        next_counter(record@, CounterInstructions::Reset) == next_counter(
            record@,
            CounterInstructions::Update(UpdateArgs { value: 0 }),
        ),
{
}

/// Decoding the stored form of a record gives the record back.
pub proof fn lemma_record_round_trip(record: CounterAccount)
    ensures
        parse_record(record_bytes(record)) == Ok::<CounterAccount, RecordError>(record),
{
    lemma_le_u32_of_bytes(record.counter);
    assert(record_bytes(record).take(4) =~= record_bytes(record));
}

/// A record buffer of exactly four bytes is the stored form of the record
/// that it decodes to.
pub proof fn lemma_buffer_round_trip(buffer: Seq<u8>)
    requires
        buffer.len() == 4,
    ensures
        parse_record(buffer) matches Ok(record) && record_bytes(record) == buffer,
{
    assert(buffer.take(4) =~= buffer);
    lemma_bytes_of_le_u32(buffer);
}

/// After a successful invocation the buffer stores the record that the
/// instruction makes of the one stored before, and keeps its length and every
/// byte beyond the fourth.
pub proof fn lemma_processed_record(buffer: Seq<u8>, input: Seq<u8>)
    requires
        buffer.len() >= 4,
        decode_instruction(input) is Ok,
    ensures
        parse_record(buffer) matches Ok(before) && parse_record(processed(buffer, input))
            matches Ok(after) && after@ == next_counter(before@, decode_instruction(input)->Ok_0),
        processed(buffer, input).len() == buffer.len(),
        processed(buffer, input).skip(4) == buffer.skip(4),
{
    let before = parse_record(buffer)->Ok_0;
    let command = decode_instruction(input)->Ok_0;
    let after = CounterAccount { counter: next_counter(before@, command) as u32 };
    lemma_record_round_trip(after);
    assert(processed(buffer, input).take(4) =~= record_bytes(after));
    assert(processed(buffer, input).skip(4) =~= buffer.skip(4));
}

/// An invocation that fails, on either buffer, leaves the record buffer as it
/// was.
pub proof fn lemma_failure_writes_nothing(buffer: Seq<u8>, input: Seq<u8>)
    requires
        decode_instruction(input) is Err || parse_record(buffer) is Err,
    ensures
        processed(buffer, input) == buffer,
{
}

} // verus!
