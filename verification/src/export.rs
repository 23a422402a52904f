//! Lists of definitions that a plugin exports to the game.
use vstd::prelude::*;

use crate::invocable::{GlobalMetadata, MethodMetadata};

verus! {

/// A definition that is registered with the game's RTTI: once when types
/// are registered, and once after all of them were.
pub trait Exportable {
    fn register(&self);

    fn post_register(&self);
}

/// A list of exports: a head and the rest of the list.
#[derive(Debug)]
pub struct ExportList<H, T> {
    head: H,
    tail: T,
}

impl<H, T> ExportList<H, T> {
    /// The head of the list.
    pub closed spec fn spec_head(&self) -> H {
        self.head
    }

    /// The rest of the list.
    pub closed spec fn spec_tail(&self) -> T {
        self.tail
    }

    /// A list with `head` in front of `tail`.
    pub fn new(head: H, tail: T) -> (l: ExportList<H, T>)
        ensures
            l.spec_head() == head,
            l.spec_tail() == tail,
    {
        ExportList { head, tail }
    }
}

impl<H: Exportable, T: Exportable> Exportable for ExportList<H, T> {
    /// Registers the head, then the rest of the list.
    fn register(&self) {
        self.head.register();
        self.tail.register();
    }

    /// Runs the head's post-registration, then the rest of the list's.
    fn post_register(&self) {
        self.head.post_register();
        self.tail.post_register();
    }
}

/// The empty list of exports.
#[derive(Debug)]
pub struct ExportNil;

impl Exportable for ExportNil {
    fn register(&self) {
    }

    fn post_register(&self) {
    }
}

/// A class to be exported to the game: the name of its base class, if it
/// has one, and its methods (with handlers of type `H`).
#[derive(Debug)]
pub struct ClassExport<C: 'static, H: 'static> {
    base: Option<&'static str>,
    methods: &'static [MethodMetadata<C, H>],
}

impl<C, H> ClassExport<C, H> {
    /// The base class.
    pub closed spec fn spec_base(&self) -> Option<&'static str> {
        self.base
    }

    /// The methods.
    pub closed spec fn spec_methods(&self) -> Seq<MethodMetadata<C, H>> {
        self.methods@
    }

    /// A builder of a class with no base class and no method.
    pub fn builder() -> (b: ClassExportBuilder<C, H>)
        ensures
            b.spec_base() is None,
            b.spec_methods().len() == 0,
    {
        ClassExportBuilder { base: None, methods: &[] }
    }

    /// The base class.
    pub fn base(&self) -> (base: Option<&'static str>)
        ensures
            base == self.spec_base(),
    {
        self.base
    }

    /// The methods.
    pub fn methods(&self) -> (methods: &'static [MethodMetadata<C, H>])
        ensures
            methods@ == self.spec_methods(),
    {
        self.methods
    }
}

/// A builder of a [`ClassExport`].
#[derive(Debug)]
pub struct ClassExportBuilder<C: 'static, H: 'static> {
    base: Option<&'static str>,
    methods: &'static [MethodMetadata<C, H>],
}

impl<C, H> ClassExportBuilder<C, H> {
    /// The base class set so far.
    pub closed spec fn spec_base(&self) -> Option<&'static str> {
        self.base
    }

    /// The methods set so far.
    pub closed spec fn spec_methods(&self) -> Seq<MethodMetadata<C, H>> {
        self.methods@
    }

    /// Sets the base class. A class (rather than a struct) must have one,
    /// `IScriptable` or a class derived from it.
    pub fn base(self, base: &'static str) -> (b: ClassExportBuilder<C, H>)
        ensures
            b.spec_base() == Some(base),
            b.spec_methods() == self.spec_methods(),
    {
        ClassExportBuilder { base: Some(base), methods: self.methods }
    }

    /// Sets the methods.
    pub fn methods(self, methods: &'static [MethodMetadata<C, H>]) -> (b: ClassExportBuilder<C, H>)
        ensures
            b.spec_base() == self.spec_base(),
            b.spec_methods() == methods@,
    {
        ClassExportBuilder { base: self.base, methods }
    }

    /// The class export.
    pub fn build(self) -> (e: ClassExport<C, H>)
        ensures
            e.spec_base() == self.spec_base(),
            e.spec_methods() == self.spec_methods(),
    {
        ClassExport { base: self.base, methods: self.methods }
    }
}

/// A global function to be exported to the game.
#[derive(Debug)]
pub struct GlobalExport<H>(pub GlobalMetadata<H>);

} // verus!
