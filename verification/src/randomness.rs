use vstd::prelude::*;

use crate::errors::LotteryError;

verus! {

/// Byte length of a randomness account: an 8-byte discriminator followed
/// by the 400-byte record.
pub const RANDOMNESS_DATA_LEN: usize = 408;

/// The 8-byte discriminator that opens a well-formed randomness account.
pub open spec fn randomness_discriminator() -> Seq<u8> {
    seq![10u8, 66u8, 229u8, 135u8, 220u8, 239u8, 217u8, 114u8]
}

/// The account bytes are long enough and open with the right discriminator.
pub open spec fn randomness_data_well_formed(data: Seq<u8>) -> bool {
    data.len() >= RANDOMNESS_DATA_LEN && data.subrange(0, 8) == randomness_discriminator()
}

/// The slot at which the random value was revealed, as stored in the
/// account bytes: a little-endian word at a fixed offset of the record.
pub open spec fn spec_reveal_slot(data: Seq<u8>) -> u64 {
    vstd::bytes::spec_u64_from_le_bytes(data.subrange(144, 152))
}

/// The 32-byte random value stored in the account bytes.
pub open spec fn spec_random_value(data: Seq<u8>) -> Seq<u8> {
    data.subrange(152, 184)
}

/// The two fields of an oracle randomness account that winner selection
/// reads: the slot at which the value was revealed, and the value itself.
#[derive(Clone, Copy, Debug)]
pub struct RandomnessSnapshot {
    pub reveal_slot: u64,
    pub value: [u8; 32],
}

/// Relies on switchboard_on_demand::RandomnessAccountData::parse: it
/// accepts only data that opens with the account discriminator and holds
/// the full record, and on success reinterprets the bytes after the
/// discriminator as the plain `repr(C)` record, in which `reveal_slot` is
/// a little-endian word at offset 136 and `value` the 32 bytes at offset
/// 144 (the supported targets are little-endian). Parsing may also fail
/// on well-formed bytes when the buffer is not aligned for the record.
#[verifier::external_body]
pub(crate) fn parse_randomness(data: &Vec<u8>) -> (r: Result<RandomnessSnapshot, LotteryError>)
    ensures
        match r {
            Ok(s) => randomness_data_well_formed(data@) && s.reveal_slot == spec_reveal_slot(
                data@,
            ) && s.value@ == spec_random_value(data@),
            Err(e) => e == LotteryError::RandomnessUnavailable,
        },
{
    let mut buf = data.clone();
    let cell = std::cell::RefCell::new(buf.as_mut_slice());
    let parsed = match switchboard_on_demand::accounts::RandomnessAccountData::parse(
        cell.borrow(),
    ) {
        Ok(acc) => Ok(RandomnessSnapshot { reveal_slot: acc.reveal_slot, value: acc.value }),
        Err(_) => Err(LotteryError::RandomnessUnavailable),
    };
    parsed
}

impl RandomnessSnapshot {
    /// The published random value, available exactly when the oracle's
    /// reveal slot is the current slot; mirrors the oracle account's own
    /// currency check.
    pub fn get_value(&self, clock_slot: u64) -> (r: Result<[u8; 32], LotteryError>)
        ensures
            clock_slot == self.reveal_slot ==> (r matches Ok(v) && v@ == self.value@),
            clock_slot != self.reveal_slot ==> r == Err::<[u8; 32], LotteryError>(
                LotteryError::RandomnessNotResolved,
            ),
    {
        if clock_slot != self.reveal_slot {
            return Err(LotteryError::RandomnessNotResolved);
        }
        Ok(self.value)
    }
}

} // verus!
