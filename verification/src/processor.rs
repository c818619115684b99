//! One invocation: decode the instruction, decode the record, apply, and write
//! the record back into the first four bytes of its buffer.

use crate::encoding::U32_LEN;
use crate::instructions::{decode_instruction, CounterInstructions, DecodeError};
use crate::state::{
    apply, decode_record, encode_record, next_counter, parse_record, record_bytes, CounterAccount,
    RecordError,
};
use vstd::prelude::*;

verus! {

/// Why an invocation failed. A failed invocation has written nothing.
#[derive(Debug, Clone, Copy, PartialEq, Eq, Structural)]
pub enum ProcessError {
    /// The instruction buffer was rejected.
    Instruction(DecodeError),
    /// The record buffer was rejected.
    Record(RecordError),
}

/// The record buffer after `record` has been written back into it: the first
/// four bytes are the record, the others are as they were.
pub open spec fn stored(buffer: Seq<u8>, record: CounterAccount) -> Seq<u8> {
    record_bytes(record) + buffer.skip(4)
}

/// The record buffer after `command` has run on it. A buffer that holds no
/// record is left as it is.
pub open spec fn executed(buffer: Seq<u8>, command: CounterInstructions) -> Seq<u8> {
    match parse_record(buffer) {
        Ok(record) => stored(
            buffer,
            CounterAccount { counter: next_counter(record@, command) as u32 },
        ),
        Err(_) => buffer,
    }
}

/// The outcome of an invocation. The instruction is decoded first, so its
/// error wins where both buffers are bad.
pub open spec fn outcome(buffer: Seq<u8>, input: Seq<u8>) -> Result<(), ProcessError> {
    match decode_instruction(input) {
        Err(e) => Err(ProcessError::Instruction(e)),
        Ok(_) => match parse_record(buffer) {
            Err(e) => Err(ProcessError::Record(e)),
            Ok(_) => Ok(()),
        },
    }
}

/// The record buffer after an invocation. Only a successful one writes.
pub open spec fn processed(buffer: Seq<u8>, input: Seq<u8>) -> Seq<u8> {
    match decode_instruction(input) {
        Ok(command) => executed(buffer, command),
        Err(_) => buffer,
    }
}

/// Writes `record` into the first four bytes of `buffer`.
pub fn store_record(buffer: &mut [u8], record: &CounterAccount) -> (r: Result<(), RecordError>)
    ensures
        old(buffer)@.len() < 4 ==> r == Err::<(), RecordError>(RecordError::Truncated),
        old(buffer)@.len() < 4 ==> final(buffer)@ == old(buffer)@,
        old(buffer)@.len() >= 4 ==> r is Ok && final(buffer)@ == stored(old(buffer)@, *record),
{
    if buffer.len() < U32_LEN {
        return Err(RecordError::Truncated);
    }
    let encoded = encode_record(record);
    let mut i: usize = 0;
    while i < U32_LEN
        invariant
            i <= U32_LEN,
            encoded@ == record_bytes(*record),
            buffer@.len() == old(buffer)@.len(),
            buffer@.len() >= 4,
            forall|j: int| 0 <= j < i ==> buffer@[j] == encoded@[j],
            forall|j: int| i <= j < buffer@.len() ==> buffer@[j] == old(buffer)@[j],
        decreases U32_LEN - i,
    {
        buffer[i] = encoded[i];
        i += 1;
    }
    assert(buffer@ =~= stored(old(buffer)@, *record));
    Ok(())
}

/// Runs a decoded instruction on the record that `record_buffer` stores.
pub fn execute(record_buffer: &mut [u8], command: CounterInstructions) -> (r: Result<
    (),
    RecordError,
>)
    ensures
        r is Ok <==> old(record_buffer)@.len() >= 4,
        r is Err ==> r == Err::<(), RecordError>(RecordError::Truncated),
        final(record_buffer)@ == executed(old(record_buffer)@, command),
{
    let mut record = match decode_record(record_buffer) {
        Ok(record) => record,
        Err(e) => {
            return Err(e);
        },
    };
    apply(&mut record, command);
    store_record(record_buffer, &record)
}

/// Runs one invocation: decodes `instructions_data`, and runs the instruction
/// on the record that `record_buffer` stores.
///
/// On success the first four bytes of the buffer hold the new record and the
/// rest is untouched. On failure the whole buffer is untouched.
pub fn process_instruction(record_buffer: &mut [u8], instructions_data: &[u8]) -> (r: Result<
    (),
    ProcessError,
>)
    ensures
        r == outcome(old(record_buffer)@, instructions_data@),
        final(record_buffer)@ == processed(old(record_buffer)@, instructions_data@),
        r is Err ==> final(record_buffer)@ == old(record_buffer)@,
        instructions_data@.len() == 0 ==> r == Err::<(), ProcessError>(
            ProcessError::Instruction(DecodeError::MissingTag),
        ),
        instructions_data@.len() == 0 ==> final(record_buffer)@ == old(record_buffer)@,
        instructions_data@.len() > 0 && instructions_data@[0] >= 4 ==> r == Err::<
            (),
            ProcessError,
        >(ProcessError::Instruction(DecodeError::UnknownTag(instructions_data@[0]))),
        instructions_data@.len() > 0 && instructions_data@[0] >= 4 ==> final(record_buffer)@
            == old(record_buffer)@,
{
    let command = match CounterInstructions::unpack_instruction(instructions_data) {
        Ok(command) => command,
        Err(e) => {
            return Err(ProcessError::Instruction(e));
        },
    };
    match execute(record_buffer, command) {
        Ok(()) => Ok(()),
        Err(e) => Err(ProcessError::Record(e)),
    }
}

} // verus!
