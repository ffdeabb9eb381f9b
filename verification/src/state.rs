use vstd::prelude::*;

use crate::error::ProgramError;

verus! {

/// The stored record: the last computed result, kept as an unsigned
/// 32-bit integer.
///
/// Wire layout (fixed, versionless): exactly four bytes, the value in
/// little-endian order. Storage of any other length is malformed.
#[derive(Clone, Copy, Debug, PartialEq, Eq, Structural)]
pub struct CalculatorAccount {
    /// calculated value
    pub result: u32,
}

/// The four little-endian bytes that encode a stored value.
pub open spec fn spec_le_bytes(v: u32) -> Seq<u8> {
    seq![
        (v % 0x100) as u8,
        ((v / 0x100) % 0x100) as u8,
        ((v / 0x10000) % 0x100) as u8,
        ((v / 0x1000000) % 0x100) as u8,
    ]
}

/// The value that four little-endian bytes decode to.
pub open spec fn spec_le_value(b: Seq<u8>) -> u32
    recommends
        b.len() == 4,
{
    (b[0] + b[1] * 0x100 + b[2] * 0x10000 + b[3] * 0x1000000) as u32
}

/// Law: decoding the four bytes that encode a stored value yields that
/// value back, for every 32-bit value.
pub proof fn lemma_le_round_trip(v: u32)
    ensures
        spec_le_bytes(v).len() == 4,
        spec_le_value(spec_le_bytes(v)) == v,
{
    assert(v % 0x100 + (v / 0x100) % 0x100 * 0x100 + (v / 0x10000) % 0x100 * 0x10000 + (v
        / 0x1000000) % 0x100 * 0x1000000 == v) by (bit_vector);
}

impl CalculatorAccount {
    /// Encode the record into its four-byte little-endian wire form.
    pub fn serialize(&self) -> (r: Vec<u8>)
        ensures
            r@ == spec_le_bytes(self.result),
    {
        let v = self.result;
        let mut out: Vec<u8> = Vec::new();
        out.push((v % 0x100) as u8);
        out.push((v / 0x100 % 0x100) as u8);
        out.push((v / 0x10000 % 0x100) as u8);
        out.push((v / 0x1000000 % 0x100) as u8);
        proof {
            assert(out@ =~= spec_le_bytes(self.result));
        }
        out
    }

    /// Decode a record from its wire form.
    ///
    /// Succeeds exactly on buffers of length four; every other length is
    /// reported as malformed account data.
    pub fn try_from_slice(bytes: &Vec<u8>) -> (r: Result<CalculatorAccount, ProgramError>)
        ensures
            bytes@.len() == 4 ==> r == Ok::<CalculatorAccount, ProgramError>(
                (CalculatorAccount { result: spec_le_value(bytes@) }),
            ),
            bytes@.len() != 4 ==> r == Err::<CalculatorAccount, ProgramError>(
                ProgramError::InvalidAccountData,
            ),
    {
        if bytes.len() != 4 {
            return Err(ProgramError::InvalidAccountData);
        }
        let b0 = bytes[0] as u32;
        let b1 = bytes[1] as u32;
        let b2 = bytes[2] as u32;
        let b3 = bytes[3] as u32;
        Ok(CalculatorAccount { result: b0 + b1 * 0x100 + b2 * 0x10000 + b3 * 0x1000000 })
    }

    /// Law, at the level of the executable codec: a record that is
    /// serialized and decoded again comes back identical.
    pub proof fn lemma_serialize_round_trip(self)
        ensures
            spec_le_bytes(self.result).len() == 4,
            (CalculatorAccount { result: spec_le_value(spec_le_bytes(self.result)) }) == self,
    {
        lemma_le_round_trip(self.result);
    }
}

} // verus!
