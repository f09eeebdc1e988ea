use transfer_core::codec::{decode, encode, DecodeError, ProgramInstruction, TransferInstruction};

fn transfer(amount: u64) -> ProgramInstruction {
    ProgramInstruction::Transfer(TransferInstruction { amount })
}

#[test]
fn round_trip_transfer() {
    for amount in [0u64, 1, 255, 256, 2_000_000, 0xdead_beef_0123_4567, u64::MAX] {
        let bytes = encode(&transfer(amount));
        assert_eq!(decode(&bytes), Ok(transfer(amount)));
    }
}

#[test]
fn exact_wire_bytes() {
    let bytes = encode(&transfer(2_000_000));
    assert_eq!(bytes, vec![0u8, 0x80, 0x84, 0x1e, 0x00, 0x00, 0x00, 0x00, 0x00]);
}

#[test]
fn encode_matches_borsh_layout() {
    // Wire layout: a one-byte variant index followed by the borsh
    // (little-endian) encoding of the body.
    for amount in [0u64, 7, 2_000_000, u64::MAX] {
        let ours = encode(&transfer(amount));
        let reference = borsh::to_vec(&(0u8, amount)).unwrap();
        assert_eq!(ours, reference);
        let (tag, back): (u8, u64) = borsh::from_slice(&ours).unwrap();
        assert_eq!(tag, 0);
        assert_eq!(back, amount);
    }
}

#[test]
fn short_input_is_decode_error() {
    assert_eq!(decode(&vec![]), Err(DecodeError::Truncated));
    for len in 1..9usize {
        let bytes = vec![0u8; len];
        assert_eq!(decode(&bytes), Err(DecodeError::Truncated));
    }
}

#[test]
fn unknown_tag_is_decode_error() {
    let mut bytes = encode(&transfer(2_000_000));
    bytes[0] = 1;
    assert_eq!(decode(&bytes), Err(DecodeError::UnknownTag));
    bytes[0] = 255;
    assert_eq!(decode(&bytes), Err(DecodeError::UnknownTag));
    // An unknown tag is reported even when the input is short.
    assert_eq!(decode(&vec![9u8]), Err(DecodeError::UnknownTag));
}

#[test]
fn trailing_bytes_are_a_decode_error() {
    let mut bytes = encode(&transfer(42));
    bytes.push(0);
    assert_eq!(decode(&bytes), Err(DecodeError::TrailingBytes));
}
