//! Binary codec for wire instructions.
//!
//! A wire instruction body is the variant tag (one byte) followed by the
//! fixed-width little-endian fields of that variant's body, with no padding.
//! Decoding is the exact inverse on well-formed input and fails with a
//! [`DecodeError`] on anything else; no account validation happens here.

use vstd::bytes::*;
use vstd::prelude::*;

verus! {

/// Wire tag of the `Transfer` variant.
pub const TRANSFER_TAG: u8 = 0;

/// Length in bytes of an encoded `Transfer` instruction: one tag byte
/// followed by a little-endian unsigned 64-bit amount.
pub const TRANSFER_WIRE_LEN: usize = 9;

/// A request to move `amount` units of value from the payer to the
/// recipient.
///
/// # Accounts
///
/// - 0: payer - writable, signer
/// - 1: recipient - writable
/// - 2: native transfer authority - executable
#[derive(Clone, Copy, Debug, PartialEq, Eq, Structural)]
pub struct TransferInstruction {
    pub amount: u64,
}

/// The closed set of instruction variants the program understands. The tag
/// uniquely determines the shape and size of the body that follows it;
/// unknown tags are invalid.
#[derive(Clone, Copy, Debug, PartialEq, Eq, Structural)]
pub enum ProgramInstruction {
    Transfer(TransferInstruction),
}

/// Why a byte sequence failed to decode as a [`ProgramInstruction`].
#[derive(Clone, Copy, Debug, PartialEq, Eq, Structural)]
pub enum DecodeError {
    /// The bytes end before the fixed-size body of the tagged variant does
    /// (or before the tag itself).
    Truncated,
    /// The leading tag byte selects no known variant.
    UnknownTag,
    /// Bytes remain after the fixed-size body.
    TrailingBytes,
}

/// The byte sequence that encodes `i`: its tag followed by the little-endian
/// fields of its body.
pub open spec fn spec_encode(i: ProgramInstruction) -> Seq<u8> {
    match i {
        ProgramInstruction::Transfer(t) => seq![TRANSFER_TAG] + spec_u64_to_le_bytes(t.amount),
    }
}

/// The instruction encoded by `bytes`, or the reason there is none.
pub open spec fn spec_decode(bytes: Seq<u8>) -> Result<ProgramInstruction, DecodeError> {
    if bytes.len() == 0 {
        Err(DecodeError::Truncated)
    } else if bytes[0] != TRANSFER_TAG {
        Err(DecodeError::UnknownTag)
    } else if bytes.len() < TRANSFER_WIRE_LEN {
        Err(DecodeError::Truncated)
    } else if bytes.len() > TRANSFER_WIRE_LEN {
        Err(DecodeError::TrailingBytes)
    } else {
        Ok(
            ProgramInstruction::Transfer(
                TransferInstruction {
                    amount: spec_u64_from_le_bytes(bytes.subrange(1, TRANSFER_WIRE_LEN as int)),
                },
            ),
        )
    }
}

/// Serializes an instruction into its wire bytes.
pub fn encode(i: &ProgramInstruction) -> (r: Vec<u8>)
    ensures
        r@ == spec_encode(*i),
{
    match i {
        ProgramInstruction::Transfer(t) => {
            let mut out: Vec<u8> = Vec::new();
            out.push(TRANSFER_TAG);
            let mut body = u64_to_le_bytes(t.amount);
            out.append(&mut body);
            proof {
                assert(out@ =~= spec_encode(*i));
            }
            out
        },
    }
}

/// Parses wire bytes back into an instruction; the exact inverse of
/// [`encode`] on well-formed input, an error on truncated input, an unknown
/// tag, or trailing bytes.
pub fn decode(bytes: &Vec<u8>) -> (r: Result<ProgramInstruction, DecodeError>)
    ensures
        r == spec_decode(bytes@),
{
    if bytes.len() == 0 {
        Err(DecodeError::Truncated)
    } else if bytes[0] != TRANSFER_TAG {
        Err(DecodeError::UnknownTag)
    } else if bytes.len() < TRANSFER_WIRE_LEN {
        Err(DecodeError::Truncated)
    } else if bytes.len() > TRANSFER_WIRE_LEN {
        Err(DecodeError::TrailingBytes)
    } else {
        let body = vstd::slice::slice_subrange(bytes.as_slice(), 1, TRANSFER_WIRE_LEN);
        let amount = u64_from_le_bytes(body);
        Ok(ProgramInstruction::Transfer(TransferInstruction { amount }))
    }
}

/// Law: decoding an encoding yields the instruction that was encoded,
/// whatever its amount.
pub proof fn lemma_encode_decode_round_trip(i: ProgramInstruction)
    ensures
        spec_decode(spec_encode(i)) == Ok::<ProgramInstruction, DecodeError>(i),
{
    lemma_auto_spec_u64_to_from_le_bytes();
    match i {
        ProgramInstruction::Transfer(t) => {
            let enc = spec_encode(i);
            assert(enc.subrange(1, TRANSFER_WIRE_LEN as int) =~= spec_u64_to_le_bytes(t.amount));
        },
    }
}

/// Law: a byte sequence shorter than the encoded `Transfer` size never
/// decodes successfully.
pub proof fn lemma_decode_rejects_short_input(bytes: Seq<u8>)
    requires
        bytes.len() < TRANSFER_WIRE_LEN,
    ensures
        spec_decode(bytes) is Err,
{
}

/// Law: a byte sequence whose leading tag selects no known variant never
/// decodes successfully.
pub proof fn lemma_decode_rejects_unknown_tag(bytes: Seq<u8>)
    requires
        bytes.len() > 0,
        bytes[0] != TRANSFER_TAG,
    ensures
        spec_decode(bytes) == Err::<ProgramInstruction, DecodeError>(DecodeError::UnknownTag),
{
}

} // verus!
