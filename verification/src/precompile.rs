//! Reading an Ed25519 signature-verification instruction.
//!
//! A transaction that carries an instruction for the Ed25519 native program
//! only lands when every signature that instruction names verifies. So a
//! program that finds such an instruction in its own transaction, naming a
//! given key, message and signature, knows that the signature is valid. Its
//! data is a count of signatures, a padding byte, then for each signature
//! seven little-endian `u16`s: signature offset, signature instruction index,
//! key offset, key instruction index, message offset, message size, message
//! instruction index. An index of `u16::MAX` points into the same
//! instruction's data.
use vstd::prelude::*;

verus! {

/// The address of the Ed25519 native program,
/// `Ed25519SigVerify111111111111111111111111111`.
pub const ED25519_PROGRAM_ID: [u8; 32] = [
    3, 125, 70, 214, 124, 147, 251, 190, 18, 249, 66, 143, 131, 141, 64, 255, 5, 112, 116, 73, 39, 244, 138, 100,
    252, 202, 112, 68, 128, 0, 0, 0,
];

/// The little-endian `u16` at byte `i` of `data`.
pub open spec fn u16_at(data: Seq<u8>, i: int) -> int {
    data[i] + 256 * data[i + 1]
}

/// `data` holds `expected` starting at byte `offset`.
pub open spec fn holds_at(data: Seq<u8>, offset: int, expected: Seq<u8>) -> bool {
    &&& 0 <= offset
    &&& offset + expected.len() <= data.len()
    &&& data.subrange(offset, offset + expected.len()) == expected
}

/// The instruction data asks the Ed25519 program to verify exactly one
/// signature, `signature` by `public_key` over the 32-byte `message`, all
/// three held in the instruction's own data.
pub open spec fn ed25519_attests(data: Seq<u8>, public_key: Seq<u8>, message: Seq<u8>, signature: Seq<u8>) -> bool {
    &&& data.len() >= 16
    &&& data[0] == 1
    &&& u16_at(data, 4) == 0xFFFF
    &&& u16_at(data, 8) == 0xFFFF
    &&& u16_at(data, 14) == 0xFFFF
    &&& u16_at(data, 12) == message.len()
    &&& holds_at(data, u16_at(data, 2), signature)
    &&& holds_at(data, u16_at(data, 6), public_key)
    &&& holds_at(data, u16_at(data, 10), message)
}

/// Read the little-endian `u16` at byte `i`.
fn read_u16(data: &[u8], i: usize) -> (r: usize)
    requires
        i + 1 < data@.len(),
    ensures
        r == u16_at(data@, i as int),
{
    (data[i] as usize) + 256 * (data[i + 1] as usize)
}

/// Whether `data` holds `expected` starting at byte `offset`.
fn region_matches(data: &[u8], offset: usize, expected: &[u8]) -> (r: bool)
    ensures
        r == holds_at(data@, offset as int, expected@),
{
    if offset > data.len() || expected.len() > data.len() - offset {
        return false;
    }
    let mut i: usize = 0;
    while i < expected.len()
        invariant
            0 <= i <= expected@.len(),
            offset + expected@.len() <= data@.len(),
            data@.len() == data.len(),
            expected@.len() == expected.len(),
            forall|j: int| 0 <= j < i ==> data@[offset + j] == expected@[j],
        decreases expected.len() - i,
    {
        if data[offset + i] != expected[i] {
            assert(data@.subrange(offset as int, offset + expected@.len())[i as int] != expected@[i as int]);
            return false;
        }
        i = i + 1;
    }
    assert(data@.subrange(offset as int, offset + expected@.len()) =~= expected@);
    true
}

/// Whether the data of an Ed25519 program instruction verifies `signature` by
/// `public_key` over `message`, as `ed25519_attests` says.
pub fn ed25519_instruction_attests(data: &[u8], public_key: &[u8], message: &[u8], signature: &[u8]) -> (r: bool)
    ensures
        r == ed25519_attests(data@, public_key@, message@, signature@),
{
    if data.len() < 16 {
        return false;
    }
    if data[0] != 1 {
        return false;
    }
    if read_u16(data, 4) != 0xFFFF || read_u16(data, 8) != 0xFFFF || read_u16(data, 14) != 0xFFFF {
        return false;
    }
    if read_u16(data, 12) != message.len() {
        return false;
    }
    region_matches(data, read_u16(data, 2), signature) && region_matches(data, read_u16(data, 6), public_key)
        && region_matches(data, read_u16(data, 10), message)
}

} // verus!
