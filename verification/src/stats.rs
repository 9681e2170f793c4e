//! Size statistics for one pipeline run: the signed compression ratio.

use vstd::prelude::*;

verus! {

/// The signed compression ratio in hundredths of a percent.
///
/// Positive means the output shrank, negative means it grew; a zero
/// original size yields zero (guards the division).
pub open spec fn ratio_spec(original: u64, new: u64) -> int {
    if original == 0 {
        0
    } else if new <= original {
        ((original - new) * 10000) / (original as int)
    } else {
        -(((new - original) * 10000) / (original as int))
    }
}

/// Computes the signed compression ratio in hundredths of a percent:
/// `6000` stands for a 60.00% saving, `-15000` for 150.00% growth.
pub fn compression_ratio(original: u64, new: u64) -> (r: i128)
    ensures
        r == ratio_spec(original, new),
{
    if original == 0 {
        0
    } else if new <= original {
        (((original - new) as u128 * 10000) / (original as u128)) as i128
    } else {
        let grew: i128 = (((new - original) as u128 * 10000) / (original as u128)) as i128;
        -grew
    }
}

} // verus!
