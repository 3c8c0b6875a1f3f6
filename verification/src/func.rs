//! Closures as functions: what the library asks of the closures it is given,
//! and the names by which contracts speak of their results.
//!
//! A widget that holds a closure has the closure's type as a type
//! parameter. The verifier unfolds the model of such a widget, and of every
//! tree that it stands in, only where that type is opaque, as the type that
//! a function returns for `impl Fn` is. Verified code that writes a closure
//! in place therefore hands it through [`function2`] or [`function1`] on
//! the way into a widget; the closure that comes back is the same, under an
//! opaque type. Code that is not verified has no need of this.

use vstd::prelude::*;

verus! {

/// That `f` may be called on every pair of arguments.
pub open spec fn callable2<A, B, R, F: Fn(&A, &B) -> R>(f: F) -> bool {
    forall|a: &A, b: &B| call_requires(f, (a, b))
}

/// That `f` has at most one result for each pair of arguments.
pub open spec fn single_valued2<A, B, R, F: Fn(&A, &B) -> R>(f: F) -> bool {
    forall|a: &A, b: &B, r1: R, r2: R|
        #![trigger call_ensures(f, (a, b), r1), call_ensures(f, (a, b), r2)]
        call_ensures(f, (a, b), r1) && call_ensures(f, (a, b), r2) ==> r1 == r2
}

/// That `f` is a function of its two arguments: it may be called on all of
/// them and its result depends on nothing else.
pub open spec fn is_function2<A, B, R, F: Fn(&A, &B) -> R>(f: F) -> bool {
    callable2(f) && single_valued2(f)
}

/// The result of `f` on `a` and `b`, for an `f` that is a function.
pub open spec fn result2<A, B, R, F: Fn(&A, &B) -> R>(f: F, a: A, b: B) -> R {
    choose|r: R| call_ensures(f, (&a, &b), r)
}

/// Whatever a call of a single-valued `f` returned is its result.
pub proof fn lemma_result2<A, B, R, F: Fn(&A, &B) -> R>(f: F, a: A, b: B, r: R)
    requires
        single_valued2(f),
        call_ensures(f, (&a, &b), r),
    ensures
        result2(f, a, b) == r,
{
}

/// That `f` may be called on every argument.
pub open spec fn callable1<A, R, F: Fn(A) -> R>(f: F) -> bool {
    forall|a: A| call_requires(f, (a,))
}

/// That `f` has at most one result for each argument.
pub open spec fn single_valued1<A, R, F: Fn(A) -> R>(f: F) -> bool {
    forall|a: A, r1: R, r2: R|
        #![trigger call_ensures(f, (a,), r1), call_ensures(f, (a,), r2)]
        call_ensures(f, (a,), r1) && call_ensures(f, (a,), r2) ==> r1 == r2
}

/// That `f` is a function of its argument.
pub open spec fn is_function1<A, R, F: Fn(A) -> R>(f: F) -> bool {
    callable1(f) && single_valued1(f)
}

/// The result of `f` on `a`, for an `f` that is a function.
pub open spec fn result1<A, R, F: Fn(A) -> R>(f: F, a: A) -> R {
    choose|r: R| call_ensures(f, (a,), r)
}

/// Whatever a call of a single-valued `f` returned is its result.
pub proof fn lemma_result1<A, R, F: Fn(A) -> R>(f: F, a: A, r: R)
    requires
        single_valued1(f),
        call_ensures(f, (a,), r),
    ensures
        result1(f, a) == r,
{
}

/// Hands `f` back under an opaque type: what comes back may be called
/// where `f` may, and returns what `f` returns.
pub fn function2<A, B, R, F: Fn(&A, &B) -> R>(f: F) -> (g: impl Fn(&A, &B) -> R)
    ensures
        forall|a: &A, b: &B|
            #![trigger call_requires(g, (a, b))]
            #![trigger call_requires(f, (a, b))]
            call_requires(g, (a, b)) <==> call_requires(f, (a, b)),
        forall|a: &A, b: &B, r: R|
            #![trigger call_ensures(g, (a, b), r)]
            #![trigger call_ensures(f, (a, b), r)]
            call_ensures(g, (a, b), r) <==> call_ensures(f, (a, b), r),
        is_function2(f) ==> is_function2(g),
{
    f
}

/// Hands `f` back under an opaque type: what comes back may be called
/// where `f` may, and returns what `f` returns.
pub fn function1<A, R, F: Fn(A) -> R>(f: F) -> (g: impl Fn(A) -> R)
    ensures
        forall|a: A|
            #![trigger call_requires(g, (a,))]
            #![trigger call_requires(f, (a,))]
            call_requires(g, (a,)) <==> call_requires(f, (a,)),
        forall|a: A, r: R|
            #![trigger call_ensures(g, (a,), r)]
            #![trigger call_ensures(f, (a,), r)]
            call_ensures(g, (a,), r) <==> call_ensures(f, (a,), r),
        is_function1(f) ==> is_function1(g),
{
    f
}

} // verus!
