//! Conversions in which a type's redscript name and its representation are
//! given together: a type is either its own representation (`IsoRED`), or
//! converts into one (`IntoRED`) and back (`FromRED`).
use vstd::prelude::*;

use crate::types::IScriptable;

pub use crate::cname::CName;
pub use crate::hash::fnv1a64;
pub use crate::types::{Color, RefCount, Variant};

verus! {

/// A type that is its own representation in the game, under the redscript
/// name `name`.
pub trait IsoRED: Sized {
    spec fn spec_name() -> Seq<char>;

    fn name() -> (r: String)
        ensures
            r@ == Self::spec_name(),
    ;
}

impl IsoRED for i64 {
    open spec fn spec_name() -> Seq<char> {
        "Int64"@
    }

    fn name() -> (r: String) {
        String::from_str("Int64")
    }
}

impl IsoRED for i32 {
    open spec fn spec_name() -> Seq<char> {
        "Int32"@
    }

    fn name() -> (r: String) {
        String::from_str("Int32")
    }
}

impl IsoRED for i16 {
    open spec fn spec_name() -> Seq<char> {
        "Int16"@
    }

    fn name() -> (r: String) {
        String::from_str("Int16")
    }
}

impl IsoRED for i8 {
    open spec fn spec_name() -> Seq<char> {
        "Int8"@
    }

    fn name() -> (r: String) {
        String::from_str("Int8")
    }
}

impl IsoRED for u64 {
    open spec fn spec_name() -> Seq<char> {
        "Uint64"@
    }

    fn name() -> (r: String) {
        String::from_str("Uint64")
    }
}

impl IsoRED for u32 {
    open spec fn spec_name() -> Seq<char> {
        "Uint32"@
    }

    fn name() -> (r: String) {
        String::from_str("Uint32")
    }
}

impl IsoRED for u16 {
    open spec fn spec_name() -> Seq<char> {
        "Uint16"@
    }

    fn name() -> (r: String) {
        String::from_str("Uint16")
    }
}

impl IsoRED for u8 {
    open spec fn spec_name() -> Seq<char> {
        "Uint8"@
    }

    fn name() -> (r: String) {
        String::from_str("Uint8")
    }
}

impl IsoRED for bool {
    open spec fn spec_name() -> Seq<char> {
        "Bool"@
    }

    fn name() -> (r: String) {
        String::from_str("Bool")
    }
}

impl IsoRED for CName {
    open spec fn spec_name() -> Seq<char> {
        "CName"@
    }

    fn name() -> (r: String) {
        String::from_str("CName")
    }
}

impl IsoRED for Color {
    open spec fn spec_name() -> Seq<char> {
        "Color"@
    }

    fn name() -> (r: String) {
        String::from_str("Color")
    }
}

impl IsoRED for Ref<IScriptable> {
    open spec fn spec_name() -> Seq<char> {
        "ref:IScriptable"@
    }

    fn name() -> (r: String) {
        String::from_str("ref:IScriptable")
    }
}


/// A reference to a script object: the object's address and the address
/// of its reference counts, `0` when null.
#[derive(Debug)]
pub struct Ref<A> {
    instance: usize,
    count: usize,
    marker: core::marker::PhantomData<A>,
}

impl<A> Ref<A> {
    /// The address of the object.
    pub closed spec fn spec_instance(&self) -> usize {
        self.instance
    }

    /// The address of the reference counts.
    pub closed spec fn spec_count(&self) -> usize {
        self.count
    }

    /// The address of the object.
    pub fn instance(&self) -> (a: usize)
        ensures
            a == self.spec_instance(),
    {
        self.instance
    }

    /// The address of the reference counts.
    pub fn count(&self) -> (a: usize)
        ensures
            a == self.spec_count(),
    {
        self.count
    }

    /// A reference that points at nothing.
    pub fn null() -> (r: Ref<A>)
        ensures
            r.spec_instance() == 0,
            r.spec_count() == 0,
    {
        Ref { instance: 0, count: 0, marker: core::marker::PhantomData }
    }
}

impl<A> Default for Ref<A> {
    fn default() -> (r: Ref<A>)
        ensures
            r.spec_instance() == 0,
            r.spec_count() == 0,
    {
        Ref::null()
    }
}

impl<A> Clone for Ref<A> {
    fn clone(&self) -> (r: Ref<A>)
        ensures
            r.spec_instance() == self.spec_instance(),
            r.spec_count() == self.spec_count(),
    {
        Ref { instance: self.instance, count: self.count, marker: core::marker::PhantomData }
    }
}

/// A string owned by the game.
#[derive(Debug)]
pub struct REDString {
    contents: String,
}

impl View for REDString {
    type V = Seq<char>;

    closed spec fn view(&self) -> Seq<char> {
        self.contents@
    }
}

impl REDString {
    /// The contents of the string.
    pub fn as_str(&self) -> (s: &str)
        ensures
            s@ == self@,
    {
        self.contents.as_str()
    }
}

impl Default for REDString {
    fn default() -> (s: REDString)
        ensures
            s@ == Seq::<char>::empty(),
    {
        REDString { contents: String::new() }
    }
}

/// A dynamic array.
#[derive(Debug)]
pub struct REDArray<A> {
    entries: Vec<A>,
    cap: u32,
}

impl<A> View for REDArray<A> {
    type V = Seq<A>;

    closed spec fn view(&self) -> Seq<A> {
        self.entries@
    }
}

impl<A> REDArray<A> {
    /// The number of elements the array was allocated for.
    pub closed spec fn capacity(&self) -> u32 {
        self.cap
    }

    /// The elements of the array as a slice.
    pub fn as_slice(&self) -> (s: &[A])
        ensures
            s@ == self@,
    {
        self.entries.as_slice()
    }

    /// Allocates an empty array for `count` elements, counted in 32 bits.
    pub fn with_capacity(count: usize) -> (arr: REDArray<A>)
        ensures
            arr@ == Seq::<A>::empty(),
            arr.capacity() == count as u32,
    {
        REDArray { entries: Vec::new(), cap: count as u32 }
    }

    /// Creates an array holding `items`, in order.
    pub fn from_sized_iter(items: Vec<A>) -> (arr: REDArray<A>)
        requires
            items@.len() <= u32::MAX,
        ensures
            arr@ == items@,
            arr.capacity() == items@.len(),
    {
        let n = items.len();
        REDArray { entries: items, cap: n as u32 }
    }

    /// Takes the elements out of the array.
    pub fn into_vec(self) -> (v: Vec<A>)
        ensures
            v@ == self@,
    {
        self.entries
    }
}

impl<A> Default for REDArray<A> {
    fn default() -> (arr: REDArray<A>)
        ensures
            arr@ == Seq::<A>::empty(),
            arr.capacity() == 0,
    {
        REDArray { entries: Vec::new(), cap: 0 }
    }
}

impl<A: IsoRED> IsoRED for REDArray<A> {
    open spec fn spec_name() -> Seq<char> {
        "array:"@ + A::spec_name()
    }

    fn name() -> (r: String) {
        let mut r = String::from_str("array:");
        r.append(A::name().as_str());
        r
    }
}

/// A type that can be passed to the game under the redscript name `name`,
/// converted to its representation.
pub trait IntoRED: Sized {
    type Repr;

    spec fn spec_name() -> Seq<char>;

    spec fn into_repr_requires(self) -> bool;

    spec fn into_repr_ensures(self, repr: Self::Repr) -> bool;

    fn name() -> (r: String)
        ensures
            r@ == Self::spec_name(),
    ;

    fn into_repr(self) -> (repr: Self::Repr)
        requires
            self.into_repr_requires(),
        ensures
            self.into_repr_ensures(repr),
    ;
}

impl<A: IsoRED> IntoRED for A {
    type Repr = A;

    open spec fn spec_name() -> Seq<char> {
        <A as IsoRED>::spec_name()
    }

    open spec fn into_repr_requires(self) -> bool {
        true
    }

    open spec fn into_repr_ensures(self, repr: A) -> bool {
        repr == self
    }

    fn name() -> (r: String) {
        <A as IsoRED>::name()
    }

    fn into_repr(self) -> (repr: A) {
        self
    }
}

impl IntoRED for () {
    type Repr = ();

    open spec fn spec_name() -> Seq<char> {
        "Void"@
    }

    open spec fn into_repr_requires(self) -> bool {
        true
    }

    open spec fn into_repr_ensures(self, repr: ()) -> bool {
        true
    }

    fn name() -> (r: String) {
        String::from_str("Void")
    }

    fn into_repr(self) -> (repr: ()) {
    }
}

impl IntoRED for String {
    type Repr = REDString;

    open spec fn spec_name() -> Seq<char> {
        "String"@
    }

    open spec fn into_repr_requires(self) -> bool {
        true
    }

    open spec fn into_repr_ensures(self, repr: REDString) -> bool {
        repr@ == self@
    }

    fn name() -> (r: String) {
        String::from_str("String")
    }

    fn into_repr(self) -> (repr: REDString) {
        REDString { contents: self }
    }
}

impl<'a> IntoRED for &'a str {
    type Repr = REDString;

    open spec fn spec_name() -> Seq<char> {
        "String"@
    }

    open spec fn into_repr_requires(self) -> bool {
        true
    }

    open spec fn into_repr_ensures(self, repr: REDString) -> bool {
        repr@ == self@
    }

    fn name() -> (r: String) {
        String::from_str("String")
    }

    fn into_repr(self) -> (repr: REDString) {
        REDString { contents: String::from_str(self) }
    }
}

impl<A: IntoRED> IntoRED for Vec<A> {
    type Repr = REDArray<A::Repr>;

    open spec fn spec_name() -> Seq<char> {
        "array:"@ + A::spec_name()
    }

    /// The array's length must fit its 32-bit size, and each element must
    /// be convertible.
    open spec fn into_repr_requires(self) -> bool {
        &&& self@.len() <= u32::MAX
        &&& forall|i: int| 0 <= i < self@.len() ==> (#[trigger] self@[i]).into_repr_requires()
    }

    /// Each element is converted in place.
    open spec fn into_repr_ensures(self, repr: REDArray<A::Repr>) -> bool {
        &&& repr@.len() == self@.len()
        &&& forall|i: int| 0 <= i < self@.len() ==> (#[trigger] self@[i]).into_repr_ensures(repr@[i])
    }

    fn name() -> (r: String) {
        let mut r = String::from_str("array:");
        r.append(A::name().as_str());
        r
    }

    fn into_repr(self) -> (repr: REDArray<A::Repr>) {
        let ghost src = self@;
        let mut items = self;
        let mut rest: Vec<A> = Vec::new();
        while items.len() > 0
            invariant
                src == items@ + rest@.reverse(),
            decreases items@.len(),
        {
            let ghost before = items@;
            let x = items.pop().unwrap();
            proof {
                assert(before =~= items@.push(x));
            }
            rest.push(x);
            proof {
                assert(rest@.reverse() =~= seq![x] + rest@.drop_last().reverse());
            }
        }
        assert(src =~= rest@.reverse());
        let mut out: Vec<A::Repr> = Vec::new();
        let n = rest.len();
        while rest.len() > 0
            invariant
                src.len() == n,
                n <= u32::MAX,
                out@.len() + rest@.len() == n,
                forall|i: int| 0 <= i < src.len() ==> (#[trigger] src[i]).into_repr_requires(),
                forall|i: int| 0 <= i < out@.len() ==> (#[trigger] src[i]).into_repr_ensures(out@[i]),
                forall|i: int| 0 <= i < rest@.len() ==> (#[trigger] rest@[i]) == src[n - 1 - i],
            decreases rest@.len(),
        {
            let ghost before = rest@;
            let x = rest.pop().unwrap();
            proof {
                assert(before =~= rest@.push(x));
                assert(x == before[before.len() - 1]);
                assert(x == src[out@.len() as int]);
            }
            let r = x.into_repr();
            out.push(r);
        }
        REDArray::from_sized_iter(out)
    }
}

/// A type that can be made from its representation in the game.
pub trait FromRED: Sized {
    type Repr: Default;

    spec fn from_repr_ensures(repr: Self::Repr, value: Self) -> bool;

    fn from_repr(repr: Self::Repr) -> (value: Self)
        ensures
            Self::from_repr_ensures(repr, value),
    ;
}

impl<A: IsoRED + Default> FromRED for A {
    type Repr = A;

    open spec fn from_repr_ensures(repr: A, value: A) -> bool {
        value == repr
    }

    fn from_repr(repr: A) -> (value: A) {
        repr
    }
}

impl FromRED for String {
    type Repr = REDString;

    open spec fn from_repr_ensures(repr: REDString, value: String) -> bool {
        value@ == repr@
    }

    fn from_repr(repr: REDString) -> (value: String) {
        repr.contents
    }
}

impl<A: FromRED> FromRED for Vec<A> {
    type Repr = REDArray<A::Repr>;

    /// Each element is converted in place.
    open spec fn from_repr_ensures(repr: REDArray<A::Repr>, value: Vec<A>) -> bool {
        &&& value@.len() == repr@.len()
        &&& forall|i: int| 0 <= i < repr@.len() ==> A::from_repr_ensures(#[trigger] repr@[i], value@[i])
    }

    fn from_repr(repr: REDArray<A::Repr>) -> (value: Vec<A>) {
        let ghost src = repr@;
        let mut items = repr.into_vec();
        let mut rest: Vec<A::Repr> = Vec::new();
        while items.len() > 0
            invariant
                src == items@ + rest@.reverse(),
            decreases items@.len(),
        {
            let ghost before = items@;
            let x = items.pop().unwrap();
            proof {
                assert(before =~= items@.push(x));
            }
            rest.push(x);
            proof {
                assert(rest@.reverse() =~= seq![x] + rest@.drop_last().reverse());
            }
        }
        assert(src =~= rest@.reverse());
        let mut out: Vec<A> = Vec::new();
        let n = rest.len();
        while rest.len() > 0
            invariant
                src.len() == n,
                out@.len() + rest@.len() == n,
                forall|i: int| 0 <= i < out@.len() ==> A::from_repr_ensures(#[trigger] src[i], out@[i]),
                forall|i: int| 0 <= i < rest@.len() ==> (#[trigger] rest@[i]) == src[n - 1 - i],
            decreases rest@.len(),
        {
            let ghost before = rest@;
            let x = rest.pop().unwrap();
            proof {
                assert(before =~= rest@.push(x));
                assert(x == before[before.len() - 1]);
                assert(x == src[out@.len() as int]);
            }
            let v = A::from_repr(x);
            out.push(v);
        }
        out
    }
}

/// The names under which the game knows the types that are passed as they
/// are: the redscript names of the scalars, `CName` and `Color`, and
/// `ref:IScriptable` for a reference to a script object; an array of `A` is
/// `array:` followed by the name of `A`.
pub proof fn lemma_iso_type_names<A: IsoRED>()
    ensures
        <i64 as IsoRED>::spec_name() == "Int64"@,
        <i32 as IsoRED>::spec_name() == "Int32"@,
        <i16 as IsoRED>::spec_name() == "Int16"@,
        <i8 as IsoRED>::spec_name() == "Int8"@,
        <u64 as IsoRED>::spec_name() == "Uint64"@,
        <u32 as IsoRED>::spec_name() == "Uint32"@,
        <u16 as IsoRED>::spec_name() == "Uint16"@,
        <u8 as IsoRED>::spec_name() == "Uint8"@,
        <bool as IsoRED>::spec_name() == "Bool"@,
        <CName as IsoRED>::spec_name() == "CName"@,
        <Color as IsoRED>::spec_name() == "Color"@,
        <Ref<IScriptable> as IsoRED>::spec_name() == "ref:IScriptable"@,
        <REDArray<A> as IsoRED>::spec_name() == "array:"@ + A::spec_name(),
{
}

} // verus!
