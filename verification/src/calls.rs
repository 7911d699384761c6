//! Calling a function that is handed over as a value.
//!
//! A contract can then speak of what the call gave, even where nothing can be
//! said of it in general: a reading of a clock, a random name, a message of
//! another thread.

use vstd::prelude::*;

verus! {

/// Calls a function without arguments.
pub(crate) fn outcome_of<T, F: Fn() -> T>(f: F) -> (r: T)
    requires
        call_requires(f, ()),
    ensures
        call_ensures(f, (), r),
{
    f()
}

/// Calls a function with a reference to its argument.
pub(crate) fn outcome_on<A, T, F: Fn(&A) -> T>(f: F, argument: &A) -> (r: T)
    requires
        call_requires(f, (argument,)),
    ensures
        call_ensures(f, (argument,), r),
{
    f(argument)
}

} // verus!
