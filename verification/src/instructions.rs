//! The instruction set of the counter and its wire format.
//!
//! An instruction buffer starts with a one-byte tag. The tags that carry an
//! argument are followed by that argument as a little-endian `u32`, and by
//! nothing else.

use crate::encoding::{borsh_u32_from_slice, le_u32};
use vstd::prelude::*;
use vstd::slice::slice_subrange;

verus! {

/// Tag of [`CounterInstructions::Increment`].
pub const INCREMENT: u8 = 0;

/// Tag of [`CounterInstructions::Decrement`].
pub const DECREMENT: u8 = 1;

/// Tag of [`CounterInstructions::Update`].
pub const UPDATE: u8 = 2;

/// Tag of [`CounterInstructions::Reset`].
pub const RESET: u8 = 3;

/// The argument of an instruction that carries one.
#[derive(Debug, Clone, Copy, PartialEq, Eq, Structural)]
pub struct UpdateArgs {
    pub value: u32,
}

/// One decoded instruction.
#[derive(Debug, Clone, Copy, PartialEq, Eq, Structural)]
pub enum CounterInstructions {
    /// Add the argument to the counter, stopping at `u32::MAX`.
    Increment(UpdateArgs),
    /// Subtract the argument from the counter, stopping at zero.
    Decrement(UpdateArgs),
    /// Replace the counter by the argument.
    Update(UpdateArgs),
    /// Set the counter to zero.
    Reset,
}

/// Why an instruction buffer was rejected.
#[derive(Debug, Clone, Copy, PartialEq, Eq, Structural)]
pub enum DecodeError {
    /// The buffer is empty, so there is no tag to read.
    MissingTag,
    /// The tag, held here, names no instruction.
    UnknownTag(u8),
    /// The tag asks for an argument and what follows it is not exactly the
    /// four bytes of one.
    MalformedPayload,
}

/// What a payload decodes to: its little-endian value if it has exactly four
/// bytes. Trailing bytes are not tolerated.
pub open spec fn decode_args(payload: Seq<u8>) -> Result<UpdateArgs, DecodeError> {
    if payload.len() == 4 {
        Ok(UpdateArgs { value: le_u32(payload) as u32 })
    } else {
        Err(DecodeError::MalformedPayload)
    }
}

/// What an instruction buffer decodes to. The tag is judged first: an unknown
/// tag is reported whatever follows it, and `Reset` ignores what follows it.
pub open spec fn decode_instruction(input: Seq<u8>) -> Result<CounterInstructions, DecodeError> {
    if input.len() == 0 {
        Err(DecodeError::MissingTag)
    } else if input[0] == RESET {
        Ok(CounterInstructions::Reset)
    } else if input[0] > RESET {
        Err(DecodeError::UnknownTag(input[0]))
    } else {
        match decode_args(input.skip(1)) {
            Ok(args) => Ok(
                if input[0] == INCREMENT {
                    CounterInstructions::Increment(args)
                } else if input[0] == DECREMENT {
                    CounterInstructions::Decrement(args)
                } else {
                    CounterInstructions::Update(args)
                },
            ),
            Err(e) => Err(e),
        }
    }
}

impl UpdateArgs {
    /// Decodes the payload of an instruction that carries an argument.
    pub fn decode(payload: &[u8]) -> (r: Result<UpdateArgs, DecodeError>)
        ensures
            r == decode_args(payload@),
    {
        match borsh_u32_from_slice(payload) {
            Ok(value) => Ok(UpdateArgs { value }),
            Err(_) => Err(DecodeError::MalformedPayload),
        }
    }
}

impl CounterInstructions {
    /// Decodes an instruction buffer.
    ///
    /// An empty buffer has no tag, and a tag above [`RESET`] is unknown; both
    /// are reported before the payload is looked at. `Reset` accepts any
    /// payload. The other three instructions accept a payload of exactly four
    /// bytes: a shorter one, and one with bytes after the argument, is
    /// malformed.
    pub fn unpack_instruction(input: &[u8]) -> (r: Result<Self, DecodeError>)
        ensures
            r == decode_instruction(input@),
            input@.len() == 0 ==> r == Err::<Self, DecodeError>(DecodeError::MissingTag),
            input@.len() > 0 && input@[0] > RESET ==> r == Err::<Self, DecodeError>(
                DecodeError::UnknownTag(input@[0]),
            ),
            input@.len() > 0 && input@[0] < RESET && input@.len() != 5 ==> r == Err::<
                Self,
                DecodeError,
            >(DecodeError::MalformedPayload),
            r is Ok <==> input@.len() > 0 && (input@[0] == RESET || (input@[0] < RESET
                && input@.len() == 5)),
    {
        if input.len() == 0 {
            return Err(DecodeError::MissingTag);
        }
        let variant: u8 = input[0];
        let rest = slice_subrange(input, 1, input.len());
        match variant {
            INCREMENT => match UpdateArgs::decode(rest) {
                Ok(args) => Ok(CounterInstructions::Increment(args)),
                Err(e) => Err(e),
            },
            DECREMENT => match UpdateArgs::decode(rest) {
                Ok(args) => Ok(CounterInstructions::Decrement(args)),
                Err(e) => Err(e),
            },
            UPDATE => match UpdateArgs::decode(rest) {
                Ok(args) => Ok(CounterInstructions::Update(args)),
                Err(e) => Err(e),
            },
            RESET => Ok(CounterInstructions::Reset),
            _ => Err(DecodeError::UnknownTag(variant)),
        }
    }
}

} // verus!
