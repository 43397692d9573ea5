use vstd::prelude::*;
use crate::type_eq::TypeEq;

verus! {

/// Which arm a condition picked, with the proof that the arm's type is the
/// chosen type `C`.
pub enum EitherTypeEq<L, R, C> {
    Left(TypeEq<L, C>),
    Right(TypeEq<R, C>),
}

/// The choice between a then-arm of type `T` and an else-arm of type `F`,
/// resolved by the constant `B`.
///
/// It is implemented for `()` once for `true` and once for `false`, so a
/// concrete condition always has exactly one impl and no choice is left for
/// run time.
pub trait If<const B: bool, T, F> {
    /// The type of the picked arm: `T` when `B` holds, `F` otherwise.
    type Chosen;

    /// `r` is the then-arm's value `t`, seen as the chosen type.
    spec fn picks_then(t: T, r: Self::Chosen) -> bool;

    /// `r` is the else-arm's value `f`, seen as the chosen type.
    spec fn picks_else(f: F, r: Self::Chosen) -> bool;

    /// The proof that the picked arm's type is the chosen type.
    fn witness() -> (r: EitherTypeEq<T, F, Self::Chosen>)
        ensures
            B ==> r is Left,
            !B ==> r is Right;

    /// Runs the picked arm, and only that one, and returns its value.
    fn pick<TA: FnOnce() -> T, EA: FnOnce() -> F>(then_arm: TA, else_arm: EA) -> (r: Self::Chosen)
        requires
            B ==> then_arm.requires(()),
            !B ==> else_arm.requires(()),
        ensures
            B ==> exists|t: T| then_arm.ensures((), t) && Self::picks_then(t, r),
            !B ==> exists|f: F| else_arm.ensures((), f) && Self::picks_else(f, r);
}

impl<T, F> If<true, T, F> for () {
    type Chosen = T;

    open spec fn picks_then(t: T, r: T) -> bool {
        r == t
    }

    open spec fn picks_else(f: F, r: T) -> bool {
        false
    }

    fn witness() -> (r: EitherTypeEq<T, F, T>) {
        EitherTypeEq::Left(TypeEq::new())
    }

    fn pick<TA: FnOnce() -> T, EA: FnOnce() -> F>(then_arm: TA, else_arm: EA) -> (r: T) {
        let t = then_arm();
        let r = TypeEq::new().coerce(t);
        assert(<() as If<true, T, F>>::picks_then(t, r));
        r
    }
}

impl<T, F> If<false, T, F> for () {
    type Chosen = F;

    open spec fn picks_then(t: T, r: F) -> bool {
        false
    }

    open spec fn picks_else(f: F, r: F) -> bool {
        r == f
    }

    fn witness() -> (r: EitherTypeEq<T, F, F>) {
        EitherTypeEq::Right(TypeEq::new())
    }

    fn pick<TA: FnOnce() -> T, EA: FnOnce() -> F>(then_arm: TA, else_arm: EA) -> (r: F) {
        let f = else_arm();
        let r = TypeEq::new().coerce(f);
        assert(<() as If<false, T, F>>::picks_else(f, r));
        r
    }
}

} // verus!
