//! Types and values chosen by a boolean constant.
//!
//! [`CondType<B, T, F>`] is `T` when `B` is `true` and `F` when it is `false`,
//! decided entirely by the type checker. [`condval`] builds a value of that
//! type from two arms of different types: it runs the picked arm only and
//! hands its value back unchanged. [`select`] does the same with two values
//! that are already computed.
use vstd::prelude::*;

pub mod branch;
pub mod selector;
pub mod type_eq;

pub use branch::{EitherTypeEq, If};
pub use selector::AssocType;
pub use type_eq::{Itself, TypeEq};

verus! {

/// `T` when `B` is `true`, `F` when it is `false`.
///
/// Either type may be unsized, as long as it is only used behind a
/// reference. `B` must be a concrete constant where the alias is used: with
/// a generic `B` neither impl of the selector applies and the program does
/// not compile.
pub type CondType<const B: bool, T, F> = <selector::CondType<B, T, F> as AssocType>::Type;

/// The value of `then_arm` when `B` holds, else the value of `else_arm`.
///
/// Only the picked arm is called: the other one's precondition is never
/// asked for, and nothing it would do happens. For a concrete `B` the result
/// type is `CondType<B, T, F>`.
pub fn condval<const B: bool, T, F, TA: FnOnce() -> T, EA: FnOnce() -> F>(
    then_arm: TA,
    else_arm: EA,
) -> (r: <() as If<B, T, F>>::Chosen) where (): If<B, T, F>
    requires
        B ==> then_arm.requires(()),
        !B ==> else_arm.requires(()),
    ensures
        B ==> exists|t: T| then_arm.ensures((), t) && <() as If<B, T, F>>::picks_then(t, r),
        !B ==> exists|f: F| else_arm.ensures((), f) && <() as If<B, T, F>>::picks_else(f, r),
{
    <() as If<B, T, F>>::pick(then_arm, else_arm)
}

/// `then_value` when `B` holds, else `else_value`.
pub fn select<const B: bool, T, F>(then_value: T, else_value: F) -> (r: <() as If<B, T, F>>::Chosen) where
    (): If<B, T, F>,
    ensures
        B ==> <() as If<B, T, F>>::picks_then(then_value, r),
        !B ==> <() as If<B, T, F>>::picks_else(else_value, r),
{
    let then_arm = move || -> (v: T)
        ensures
            v == then_value,
        { then_value };
    let else_arm = move || -> (v: F)
        ensures
            v == else_value,
        { else_value };
    <() as If<B, T, F>>::pick(then_arm, else_arm)
}

/// With a true condition the selector is exactly the first type: a value of
/// `T` stands, unchanged, as a value of `CondType<true, T, F>`.
pub proof fn lemma_cond_type_true<T, F>(t: T) -> (c: CondType<true, T, F>)
    ensures
        c == t,
{
    t
}

/// With a false condition the selector is exactly the second type: a value
/// of `F` stands, unchanged, as a value of `CondType<false, T, F>`.
pub proof fn lemma_cond_type_false<T, F>(f: F) -> (c: CondType<false, T, F>)
    ensures
        c == f,
{
    f
}

/// With a true condition the result of [`condval`] or [`select`] is the
/// then-arm's value itself, and never comes from the else-arm.
pub proof fn lemma_pick_true<T, F>(t: T, f: F, r: CondType<true, T, F>)
    ensures
        <() as If<true, T, F>>::picks_then(t, r) <==> r == t,
        !<() as If<true, T, F>>::picks_else(f, r),
{
}

/// With a false condition the result of [`condval`] or [`select`] is the
/// else-arm's value itself, and never comes from the then-arm.
pub proof fn lemma_pick_false<T, F>(t: T, f: F, r: CondType<false, T, F>)
    ensures
        <() as If<false, T, F>>::picks_else(f, r) <==> r == f,
        !<() as If<false, T, F>>::picks_then(t, r),
{
}

} // verus!
