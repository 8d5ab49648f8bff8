//! Words and bytes: how a 16-bit value is split into two bytes and joined
//! again, with the facts about these operations that the other modules use.
use vstd::prelude::*;

verus! {

/// The 16-bit value whose upper byte is `high` and whose lower byte is `low`.
pub open spec fn spec_word(high: u8, low: u8) -> u16 {
    ((high as u16) << 8) | (low as u16)
}

/// The upper byte of `value`.
pub open spec fn spec_high(value: u16) -> u8 {
    (value >> 8) as u8
}

/// The lower byte of `value`.
pub open spec fn spec_low(value: u16) -> u8 {
    value as u8
}

#[verifier::when_used_as_spec(spec_word)]
pub fn word(high: u8, low: u8) -> (w: u16)
    ensures
        w == spec_word(high, low),
{
    ((high as u16) << 8) | (low as u16)
}

#[verifier::when_used_as_spec(spec_high)]
pub fn high(value: u16) -> (b: u8)
    ensures
        b == spec_high(value),
{
    (value >> 8) as u8
}

#[verifier::when_used_as_spec(spec_low)]
pub fn low(value: u16) -> (b: u8)
    ensures
        b == spec_low(value),
{
    value as u8
}

/// Splitting a word and joining the halves gives the word back.
pub proof fn lemma_split_join(value: u16)
    by (bit_vector)
    ensures
        spec_word(spec_high(value), spec_low(value)) == value,
{
}

} // verus!
