use borsh::BorshDeserialize;
use counter_program::{
    decode_record, encode_record, execute, store_record, CounterAccount, CounterInstructions,
    RecordError, UpdateArgs,
};

#[test]
fn record_is_four_little_endian_bytes() {
    assert_eq!(encode_record(&CounterAccount { counter: 0 }), vec![0, 0, 0, 0]);
    assert_eq!(encode_record(&CounterAccount { counter: 25 }), vec![25, 0, 0, 0]);
    assert_eq!(encode_record(&CounterAccount { counter: 258 }), vec![2, 1, 0, 0]);
    assert_eq!(
        encode_record(&CounterAccount { counter: 0x1234_5678 }),
        vec![0x78, 0x56, 0x34, 0x12]
    );
    assert_eq!(
        encode_record(&CounterAccount { counter: u32::MAX }),
        vec![0xff, 0xff, 0xff, 0xff]
    );
}

#[test]
fn record_decodes_from_little_endian() {
    assert_eq!(decode_record(&[0, 0, 0, 0]), Ok(CounterAccount { counter: 0 }));
    assert_eq!(decode_record(&[1, 2, 3, 4]), Ok(CounterAccount { counter: 0x0403_0201 }));
    assert_eq!(decode_record(&[0, 0, 1, 0]), Ok(CounterAccount { counter: 65_536 }));
    assert_eq!(decode_record(&[0xff, 0xff, 0xff, 0xff]), Ok(CounterAccount { counter: u32::MAX }));
}

#[test]
fn record_round_trips() {
    for counter in [0u32, 1, 3, 25, 33, 255, 256, 0x00ff_ff00, 0x8000_0000, u32::MAX] {
        let record = CounterAccount { counter };
        let bytes = encode_record(&record);
        assert_eq!(bytes.len(), 4);
        assert_eq!(decode_record(&bytes), Ok(record));
    }
}

#[test]
fn buffer_round_trips() {
    for buffer in [[0u8, 0, 0, 0], [9, 8, 7, 6], [0xff, 0, 0xff, 0], [0x80, 0x80, 0x80, 0x80]] {
        let record = decode_record(&buffer).unwrap();
        assert_eq!(encode_record(&record), buffer.to_vec());
    }
}

#[test]
fn encoded_record_is_what_borsh_reads() {
    for counter in [0u32, 25, 0x0102_0304, u32::MAX] {
        let bytes = encode_record(&CounterAccount { counter });
        assert_eq!(u32::try_from_slice(&bytes).unwrap(), counter);
        assert_eq!(bytes, counter.to_le_bytes().to_vec());
    }
}

#[test]
fn short_record_buffer_is_truncated() {
    assert_eq!(decode_record(&[]), Err(RecordError::Truncated));
    assert_eq!(decode_record(&[1]), Err(RecordError::Truncated));
    assert_eq!(decode_record(&[1, 2]), Err(RecordError::Truncated));
    assert_eq!(decode_record(&[1, 2, 3]), Err(RecordError::Truncated));
}

#[test]
fn long_record_buffer_is_read_from_its_first_four_bytes() {
    assert_eq!(decode_record(&[5, 0, 0, 0, 0xaa]), Ok(CounterAccount { counter: 5 }));
    assert_eq!(
        decode_record(&[0, 1, 0, 0, 0xff, 0xff, 0xff, 0xff]),
        Ok(CounterAccount { counter: 256 })
    );
}

#[test]
fn store_overwrites_the_first_four_bytes() {
    let mut buffer: Vec<u8> = vec![1, 1, 1, 1, 1, 1];
    assert_eq!(store_record(&mut buffer, &CounterAccount { counter: 0x0a0b_0c0d }), Ok(()));
    assert_eq!(buffer, vec![0x0d, 0x0c, 0x0b, 0x0a, 1, 1]);
    let mut buffer: Vec<u8> = vec![1, 1, 1, 1];
    assert_eq!(store_record(&mut buffer, &CounterAccount { counter: 2 }), Ok(()));
    assert_eq!(buffer, vec![2, 0, 0, 0]);
}

#[test]
fn store_refuses_a_short_buffer() {
    for len in 0..4usize {
        let mut buffer: Vec<u8> = vec![1; len];
        assert_eq!(
            store_record(&mut buffer, &CounterAccount { counter: 2 }),
            Err(RecordError::Truncated)
        );
        assert_eq!(buffer, vec![1; len]);
    }
}

#[test]
fn execute_runs_a_decoded_instruction() {
    let mut buffer: Vec<u8> = vec![25, 0, 0, 0, 0x77];
    let command = CounterInstructions::Decrement(UpdateArgs { value: 22 });
    assert_eq!(execute(&mut buffer, command), Ok(()));
    assert_eq!(buffer, vec![3, 0, 0, 0, 0x77]);
    let command = CounterInstructions::Increment(UpdateArgs { value: 0x0100_0000 });
    assert_eq!(execute(&mut buffer, command), Ok(()));
    assert_eq!(buffer, vec![3, 0, 0, 1, 0x77]);
    assert_eq!(execute(&mut buffer, CounterInstructions::Reset), Ok(()));
    assert_eq!(buffer, vec![0, 0, 0, 0, 0x77]);
}

#[test]
fn execute_refuses_a_short_buffer() {
    let mut buffer: Vec<u8> = vec![25, 0, 0];
    assert_eq!(execute(&mut buffer, CounterInstructions::Reset), Err(RecordError::Truncated));
    assert_eq!(buffer, vec![25, 0, 0]);
}
