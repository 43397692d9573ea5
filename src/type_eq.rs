use vstd::prelude::*;

verus! {

/// Names a type through a projection.
///
/// A type parameter that appears only inside `<T as Itself>::This` is
/// invariant, which is what [`TypeEq`] needs: neither of its parameters may
/// be widened or narrowed by subtyping.
pub trait Itself {
    type This: ?Sized;
}

impl<T: ?Sized> Itself for T {
    type This = T;
}

/// A zero-size witness that `T` and `U` are one and the same type.
///
/// The only way to build one is [`TypeEq::new`], which exists only where the
/// type checker has already unified the two parameters.
pub struct TypeEq<T, U> {
    marker: core::marker::PhantomData<(<T as Itself>::This, <U as Itself>::This)>,
}

impl<T> TypeEq<T, T> {
    /// The witness that a type equals itself.
    pub fn new() -> (r: Self) {
        TypeEq { marker: core::marker::PhantomData }
    }

    /// Hands `from` back as a value of the second type, unchanged.
    pub fn coerce(self, from: T) -> (r: T)
        ensures
            r == from,
    {
        from
    }
}

} // verus!
