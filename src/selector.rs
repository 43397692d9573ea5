use vstd::prelude::*;

verus! {

/// The type-level tag that [`crate::CondType`] resolves through.
///
/// It carries no data; only its `AssocType` impls matter.
pub struct CondType<const B: bool, T: ?Sized, F: ?Sized>(
    core::marker::PhantomData<F>,
    core::marker::PhantomData<T>,
);

/// A type-level function: `Type` is the result for the implementing tag.
pub trait AssocType {
    type Type: ?Sized;
}

impl<T: ?Sized, F: ?Sized> AssocType for CondType<false, T, F> {
    type Type = F;
}

impl<T: ?Sized, F: ?Sized> AssocType for CondType<true, T, F> {
    type Type = T;
}

} // verus!
