//! Calls that are remembered: what is stated of a result can name the call that
//! gave it, also where nothing is known of what the call gives.
use vstd::prelude::*;

verus! {

/// Calls a function without arguments.
pub(crate) fn call0<F: Fn() -> R, R>(f: F) -> (r: R)
    requires
        call_requires(f, ()),
    ensures
        call_ensures(f, (), r),
{
    f()
}

/// Calls a function of one argument.
pub(crate) fn call1<F: Fn(A) -> R, A, R>(f: F, a: A) -> (r: R)
    requires
        call_requires(f, (a,)),
    ensures
        call_ensures(f, (a,), r),
{
    f(a)
}

/// Calls a function of two arguments.
pub(crate) fn call2<F: Fn(A, B) -> R, A, B, R>(f: F, a: A, b: B) -> (r: R)
    requires
        call_requires(f, (a, b)),
    ensures
        call_ensures(f, (a, b), r),
{
    f(a, b)
}

} // verus!
