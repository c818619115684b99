//! A counter that lives in four bytes of storage and is driven by tagged
//! binary instructions.
//!
//! An invocation decodes an instruction buffer into a [`CounterInstructions`]
//! value, decodes the stored [`CounterAccount`], applies the instruction with
//! saturating arithmetic and writes the new counter back. Every step is
//! specified over byte sequences and proved against that specification.

pub mod encoding;
pub mod instructions;
pub mod laws;
pub mod processor;
pub mod state;

pub use instructions::{CounterInstructions, DecodeError, UpdateArgs};
pub use processor::{execute, process_instruction, store_record, ProcessError};
pub use state::{
    apply, decode_record, decrement_counter, encode_record, increment_counter, reset_counter,
    update_counter, CounterAccount, RecordError,
};
