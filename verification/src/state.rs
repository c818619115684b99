//! The stored counter: its four-byte layout and the transitions that the
//! instructions make on it.

use crate::encoding::{borsh_u32_from_slice, borsh_u32_to_vec, le_u32, u32_le_bytes, U32_LEN};
use crate::instructions::CounterInstructions;
use vstd::prelude::*;
use vstd::slice::slice_subrange;

verus! {

/// The stored record: one counter.
#[derive(Debug, Clone, Copy, PartialEq, Eq, Structural)]
pub struct CounterAccount {
    pub counter: u32,
}

/// Why a record buffer was rejected.
#[derive(Debug, Clone, Copy, PartialEq, Eq, Structural)]
pub enum RecordError {
    /// The buffer holds fewer than four bytes.
    Truncated,
    /// The stored bytes are not a counter. Every four bytes are one, so the
    /// present layout never gives this error.
    Malformed,
}

impl View for CounterAccount {
    type V = nat;

    /// A record is its counter, as a natural number.
    open spec fn view(&self) -> nat {
        self.counter as nat
    }
}

/// The saturating sum of a counter and an increment.
pub open spec fn saturating_sum(counter: nat, value: nat) -> nat {
    if counter + value > u32::MAX {
        u32::MAX as nat
    } else {
        counter + value
    }
}

/// The saturating difference of a counter and a decrement.
pub open spec fn saturating_difference(counter: nat, value: nat) -> nat {
    if value > counter {
        0
    } else {
        (counter - value) as nat
    }
}

/// The counter that `command` leaves behind when it finds `counter`.
pub open spec fn next_counter(counter: nat, command: CounterInstructions) -> nat {
    match command {
        CounterInstructions::Increment(args) => saturating_sum(counter, args.value as nat),
        CounterInstructions::Decrement(args) => saturating_difference(counter, args.value as nat),
        CounterInstructions::Update(args) => args.value as nat,
        CounterInstructions::Reset => 0,
    }
}

/// What a record buffer decodes to: the little-endian value of its first four
/// bytes. Bytes beyond the fourth belong to the host and are not read.
pub open spec fn parse_record(bytes: Seq<u8>) -> Result<CounterAccount, RecordError> {
    if bytes.len() < 4 {
        Err(RecordError::Truncated)
    } else {
        Ok(CounterAccount { counter: le_u32(bytes.take(4)) as u32 })
    }
}

/// The stored form of a record.
pub open spec fn record_bytes(record: CounterAccount) -> Seq<u8> {
    u32_le_bytes(record.counter)
}

/// Adds `value` to the counter, stopping at `u32::MAX`.
pub fn increment_counter(counter_account: &mut CounterAccount, value: u32)
    ensures
        final(counter_account)@ == saturating_sum(old(counter_account)@, value as nat),
{
    counter_account.counter = counter_account.counter.saturating_add(value);
}

/// Subtracts `value` from the counter, stopping at zero.
pub fn decrement_counter(counter_account: &mut CounterAccount, value: u32)
    ensures
        final(counter_account)@ == saturating_difference(old(counter_account)@, value as nat),
{
    counter_account.counter = counter_account.counter.saturating_sub(value);
}

/// Sets the counter to zero, whatever it was.
pub fn reset_counter(counter_account: &mut CounterAccount)
    ensures
        final(counter_account)@ == 0,
{
    counter_account.counter = 0;
}

/// Overwrites the counter with `value`, whatever it was.
pub fn update_counter(counter_account: &mut CounterAccount, value: u32)
    ensures
        final(counter_account)@ == value,
{
    counter_account.counter = value;
}

/// Applies one instruction to the record. Every instruction applies to every
/// record: there is nothing to fail.
pub fn apply(record: &mut CounterAccount, command: CounterInstructions)
    ensures
        final(record)@ == next_counter(old(record)@, command),
        command is Reset ==> final(record)@ == 0,
        command matches CounterInstructions::Update(args) ==> final(record)@ == args.value,
{
    match command {
        CounterInstructions::Increment(args) => increment_counter(record, args.value),
        CounterInstructions::Decrement(args) => decrement_counter(record, args.value),
        CounterInstructions::Reset => reset_counter(record),
        CounterInstructions::Update(args) => update_counter(record, args.value),
    }
}

/// Reads the record that a buffer stores.
pub fn decode_record(bytes: &[u8]) -> (r: Result<CounterAccount, RecordError>)
    ensures
        r == parse_record(bytes@),
{
    if bytes.len() < U32_LEN {
        return Err(RecordError::Truncated);
    }
    let stored = slice_subrange(bytes, 0, U32_LEN);
    match borsh_u32_from_slice(stored) {
        Ok(counter) => Ok(CounterAccount { counter }),
        Err(_) => Err(RecordError::Malformed),
    }
}

/// Gives the stored form of a record: always four bytes.
pub fn encode_record(record: &CounterAccount) -> (bytes: Vec<u8>)
    ensures
        bytes@ == record_bytes(*record),
        bytes@.len() == 4,
{
    borsh_u32_to_vec(record.counter).unwrap()
}

} // verus!
