use vstd::prelude::*;

verus! {

/// One 128-bit key for an ordered pair of 64-bit ids: the first id in the
/// high half, the second in the low half.
pub open spec fn pair_key(first: u64, second: u64) -> u128 {
    (first as int * 0x1_0000_0000_0000_0000 + second as int) as u128
}

/// Computes `pair_key`.
pub fn make_pair_key(first: u64, second: u64) -> (key: u128)
    ensures
        key == pair_key(first, second),
{
    let high: u128 = first as u128;
    let low: u128 = second as u128;
    high * 0x1_0000_0000_0000_0000u128 + low
}

} // verus!
