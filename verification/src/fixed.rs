use vstd::prelude::*;

verus! {

/// Fixed-point steps in one whole unit: `1.0` is held as `1_000_000`.
pub const UNIT: i64 = 1_000_000;

/// The value of `v`, held to the range of an `i64`.
pub open spec fn saturated(v: int) -> i64 {
    if v > i64::MAX {
        i64::MAX
    } else if v < i64::MIN {
        i64::MIN
    } else {
        v as i64
    }
}

} // verus!
