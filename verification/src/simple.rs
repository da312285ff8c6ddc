use vstd::prelude::*;

verus! {

/// One more than the argument.
pub fn add_one(i: i32) -> (r: i32)
    requires
        i < i32::MAX,
    ensures
        r == i + 1,
{
    i + 1
}

/// Twice the argument.
pub fn times_two(i: i32) -> (r: i32)
    requires
        i32::MIN <= 2 * i <= i32::MAX,
    ensures
        r == 2 * i,
{
    i * 2
}

/// Applies the given function to the given argument.
pub fn do_this<F: Fn(i32) -> i32>(i: i32, f: F) -> (r: i32)
    requires
        call_requires(f, (i,)),
    ensures
        call_ensures(f, (i,), r),
{
    f(i)
}

} // verus!
