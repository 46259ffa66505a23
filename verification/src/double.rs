use crate::fun::Fun;
use vstd::prelude::*;

verus! {

/// The wrapper that doubles an unsigned integer. It may be invoked on every
/// argument whose double fits in a `u64`, and returns that double.
pub fn doubling() -> (r: Fun<u64, u64>)
    ensures
        forall|x: u64| 2 * x <= u64::MAX ==> #[trigger] r@.accepts(x),
        forall|x: u64, y: u64| #[trigger] r@.yields(x, y) ==> y == 2 * x,
{
    let double = |x: u64| -> (y: u64)
        requires
            2 * x <= u64::MAX,
        ensures
            y == 2 * x,
        {
            2 * x
        };
    Fun::new(double)
}

/// Doubles one by invoking a doubling wrapper on it.
pub fn double_one() -> (r: u64)
    ensures
        r == 2,
{
    doubling().call(1)
}

} // verus!
