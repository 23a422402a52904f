//! Rust types that stand for classes of the game's scripts.
use vstd::prelude::*;

verus! {

/// A Rust type that stands for a script class. `Kind` tells whether the
/// class is native or scripted.
pub trait ScriptClass: Sized {
    type Kind;

    /// The name of the class in the game.
    fn class_name() -> String;
}

/// How the fields of an instance of `T` are reached from the game's
/// representation of the instance.
pub trait ClassKind<T> {
    type NativeType;

    spec fn spec_fields(inst: Self::NativeType) -> T;

    /// The instance with its fields replaced by `fields`.
    spec fn spec_with_fields(inst: Self::NativeType, fields: T) -> Self::NativeType;

    fn fields(inst: &Self::NativeType) -> (fields: &T)
        ensures
            *fields == Self::spec_fields(*inst),
    ;

    /// The fields of the instance, to be changed in place.
    fn fields_mut(inst: &mut Self::NativeType) -> (fields: &mut T)
        ensures
            *fields == Self::spec_fields(*old(inst)),
            *final(inst) == Self::spec_with_fields(*old(inst), *final(fields)),
    ;
}

/// The kind of scripted classes, whose fields the game keeps behind an
/// additional indirection inside the script object.
#[derive(Debug)]
pub struct Scripted;

/// The kind of native classes, which the game represents directly.
#[derive(Debug)]
pub struct Native;

impl<T> ClassKind<T> for Native {
    type NativeType = T;

    /// A native instance is its own fields.
    open spec fn spec_fields(inst: T) -> T {
        inst
    }

    /// A native instance is replaced by its fields.
    open spec fn spec_with_fields(inst: T, fields: T) -> T {
        fields
    }

    fn fields(inst: &T) -> (fields: &T) {
        inst
    }

    fn fields_mut(inst: &mut T) -> (fields: &mut T) {
        inst
    }
}

/// A Rust type that stands for a class of the game, with the class it
/// derives from.
pub trait ClassType {
    type BaseClass;
}

} // verus!
