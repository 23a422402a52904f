//! Conversions from references to derived script classes to references to
//! their base classes.
use core::marker::PhantomData;
use vstd::prelude::*;

use crate::types::{IScriptable, Ref};

verus! {

/// A reference to a script object, typed as the class `T`.
#[derive(Debug)]
pub struct TypedRef<T>(Ref<IScriptable>, PhantomData<T>);

impl<T> TypedRef<T> {
    /// The untyped reference.
    pub closed spec fn spec_inner(&self) -> Ref<IScriptable> {
        self.0
    }

    /// Types `reference` as the class `T`.
    pub fn new(reference: Ref<IScriptable>) -> (r: TypedRef<T>)
        ensures
            r.spec_inner() == reference,
    {
        TypedRef(reference, PhantomData)
    }

    /// The untyped reference.
    pub fn into_inner(self) -> (r: Ref<IScriptable>)
        ensures
            r == self.spec_inner(),
    {
        self.0
    }
}

/// A wrapper of a reference to a class derived from `Parent`. Implement it
/// only for classes that do derive from `Parent`.
pub trait IntoTypedRef<Parent> {
    /// The reference, typed as its base class.
    fn into_typed_ref(self) -> TypedRef<Parent>;
}

/// A wrapper of a reference that can be made from a typed reference.
pub trait FromTypedRef<Parent>: Sized {
    fn from_typed_ref(reference: TypedRef<Parent>) -> Self;
}

/// Conversion of a wrapper of a reference to a derived class into the
/// wrapper of its base class.
pub trait Downcast<Parent>: IntoTypedRef<Parent> {
    /// The same object, seen as an instance of `Parent`: the wrapper that
    /// `Parent::from_typed_ref` makes of the typed reference that
    /// `into_typed_ref` gives of `self`.
    fn downcast(self) -> (parent: Parent) where Self: Sized, Parent: FromTypedRef<Parent>
        ensures
            exists|typed: TypedRef<Parent>|
                #[trigger] call_ensures(Self::into_typed_ref, (self,), typed) && call_ensures(
                    Parent::from_typed_ref,
                    (typed,),
                    parent,
                ),
    ;
}

impl<Child, Parent> Downcast<Parent> for Child where Child: IntoTypedRef<Parent> {
    fn downcast(self) -> (parent: Parent) where Parent: FromTypedRef<Parent> {
        let typed = self.into_typed_ref();
        Parent::from_typed_ref(typed)
    }
}

} // verus!
