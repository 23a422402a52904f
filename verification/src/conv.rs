//! How values are represented in the game's memory, and the names the
//! game's RTTI gives to their types.
use vstd::prelude::*;

use vstd::utf8::encode_utf8;

use crate::cname::CName;
use crate::hash::spec_fnv1a64;
use crate::res::ResRef;
use crate::types::{
    Color, EntityId, IScriptable, ItemId, MaybeUninitRef, RedArray, RedString, Ref, ScriptRef,
    TweakDbId, Variant, WRef,
};

verus! {

/// A type whose values have the memory representation of a type the game
/// knows by name.
///
/// `name` is the type's name in redscript, `native_name` its name in the
/// game's RTTI, and `mangled_name` the name used when it appears in the
/// signature of a scripted function.
pub trait NativeRepr {
    spec fn spec_name() -> Seq<char>;

    spec fn spec_native_name() -> Seq<char>;

    spec fn spec_mangled_name() -> Seq<char>;

    fn name() -> (r: String)
        ensures
            r@ == Self::spec_name(),
    ;

    fn native_name() -> (r: String)
        ensures
            r@ == Self::spec_native_name(),
    ;

    fn mangled_name() -> (r: String)
        ensures
            r@ == Self::spec_mangled_name(),
    ;
}

/// `prefix` followed by `name`.
fn prefixed(prefix: &str, name: String) -> (r: String)
    ensures
        r@ == prefix@ + name@,
{
    let mut r = String::from_str(prefix);
    r.append(name.as_str());
    r
}

impl NativeRepr for () {
    open spec fn spec_name() -> Seq<char> {
        "Void"@
    }

    open spec fn spec_native_name() -> Seq<char> {
        Self::spec_name()
    }

    open spec fn spec_mangled_name() -> Seq<char> {
        Self::spec_name()
    }

    fn name() -> (r: String) {
        String::from_str("Void")
    }

    fn native_name() -> (r: String) {
        Self::name()
    }

    fn mangled_name() -> (r: String) {
        Self::name()
    }
}

impl NativeRepr for i64 {
    open spec fn spec_name() -> Seq<char> {
        "Int64"@
    }

    open spec fn spec_native_name() -> Seq<char> {
        Self::spec_name()
    }

    open spec fn spec_mangled_name() -> Seq<char> {
        Self::spec_name()
    }

    fn name() -> (r: String) {
        String::from_str("Int64")
    }

    fn native_name() -> (r: String) {
        Self::name()
    }

    fn mangled_name() -> (r: String) {
        Self::name()
    }
}

impl NativeRepr for i32 {
    open spec fn spec_name() -> Seq<char> {
        "Int32"@
    }

    open spec fn spec_native_name() -> Seq<char> {
        Self::spec_name()
    }

    open spec fn spec_mangled_name() -> Seq<char> {
        Self::spec_name()
    }

    fn name() -> (r: String) {
        String::from_str("Int32")
    }

    fn native_name() -> (r: String) {
        Self::name()
    }

    fn mangled_name() -> (r: String) {
        Self::name()
    }
}

impl NativeRepr for i16 {
    open spec fn spec_name() -> Seq<char> {
        "Int16"@
    }

    open spec fn spec_native_name() -> Seq<char> {
        Self::spec_name()
    }

    open spec fn spec_mangled_name() -> Seq<char> {
        Self::spec_name()
    }

    fn name() -> (r: String) {
        String::from_str("Int16")
    }

    fn native_name() -> (r: String) {
        Self::name()
    }

    fn mangled_name() -> (r: String) {
        Self::name()
    }
}

impl NativeRepr for i8 {
    open spec fn spec_name() -> Seq<char> {
        "Int8"@
    }

    open spec fn spec_native_name() -> Seq<char> {
        Self::spec_name()
    }

    open spec fn spec_mangled_name() -> Seq<char> {
        Self::spec_name()
    }

    fn name() -> (r: String) {
        String::from_str("Int8")
    }

    fn native_name() -> (r: String) {
        Self::name()
    }

    fn mangled_name() -> (r: String) {
        Self::name()
    }
}

impl NativeRepr for u64 {
    open spec fn spec_name() -> Seq<char> {
        "Uint64"@
    }

    open spec fn spec_native_name() -> Seq<char> {
        Self::spec_name()
    }

    open spec fn spec_mangled_name() -> Seq<char> {
        Self::spec_name()
    }

    fn name() -> (r: String) {
        String::from_str("Uint64")
    }

    fn native_name() -> (r: String) {
        Self::name()
    }

    fn mangled_name() -> (r: String) {
        Self::name()
    }
}

impl NativeRepr for u32 {
    open spec fn spec_name() -> Seq<char> {
        "Uint32"@
    }

    open spec fn spec_native_name() -> Seq<char> {
        Self::spec_name()
    }

    open spec fn spec_mangled_name() -> Seq<char> {
        Self::spec_name()
    }

    fn name() -> (r: String) {
        String::from_str("Uint32")
    }

    fn native_name() -> (r: String) {
        Self::name()
    }

    fn mangled_name() -> (r: String) {
        Self::name()
    }
}

impl NativeRepr for u16 {
    open spec fn spec_name() -> Seq<char> {
        "Uint16"@
    }

    open spec fn spec_native_name() -> Seq<char> {
        Self::spec_name()
    }

    open spec fn spec_mangled_name() -> Seq<char> {
        Self::spec_name()
    }

    fn name() -> (r: String) {
        String::from_str("Uint16")
    }

    fn native_name() -> (r: String) {
        Self::name()
    }

    fn mangled_name() -> (r: String) {
        Self::name()
    }
}

impl NativeRepr for u8 {
    open spec fn spec_name() -> Seq<char> {
        "Uint8"@
    }

    open spec fn spec_native_name() -> Seq<char> {
        Self::spec_name()
    }

    open spec fn spec_mangled_name() -> Seq<char> {
        Self::spec_name()
    }

    fn name() -> (r: String) {
        String::from_str("Uint8")
    }

    fn native_name() -> (r: String) {
        Self::name()
    }

    fn mangled_name() -> (r: String) {
        Self::name()
    }
}

impl NativeRepr for bool {
    open spec fn spec_name() -> Seq<char> {
        "Bool"@
    }

    open spec fn spec_native_name() -> Seq<char> {
        Self::spec_name()
    }

    open spec fn spec_mangled_name() -> Seq<char> {
        Self::spec_name()
    }

    fn name() -> (r: String) {
        String::from_str("Bool")
    }

    fn native_name() -> (r: String) {
        Self::name()
    }

    fn mangled_name() -> (r: String) {
        Self::name()
    }
}

impl NativeRepr for CName {
    open spec fn spec_name() -> Seq<char> {
        "CName"@
    }

    open spec fn spec_native_name() -> Seq<char> {
        Self::spec_name()
    }

    open spec fn spec_mangled_name() -> Seq<char> {
        Self::spec_name()
    }

    fn name() -> (r: String) {
        String::from_str("CName")
    }

    fn native_name() -> (r: String) {
        Self::name()
    }

    fn mangled_name() -> (r: String) {
        Self::name()
    }
}

impl NativeRepr for ResRef {
    open spec fn spec_name() -> Seq<char> {
        "ResRef"@
    }

    open spec fn spec_native_name() -> Seq<char> {
        "redResourceReferenceScriptToken"@
    }

    open spec fn spec_mangled_name() -> Seq<char> {
        Self::spec_name()
    }

    fn name() -> (r: String) {
        String::from_str("ResRef")
    }

    fn native_name() -> (r: String) {
        String::from_str("redResourceReferenceScriptToken")
    }

    fn mangled_name() -> (r: String) {
        Self::name()
    }
}

impl NativeRepr for TweakDbId {
    open spec fn spec_name() -> Seq<char> {
        "TweakDBID"@
    }

    open spec fn spec_native_name() -> Seq<char> {
        Self::spec_name()
    }

    open spec fn spec_mangled_name() -> Seq<char> {
        Self::spec_name()
    }

    fn name() -> (r: String) {
        String::from_str("TweakDBID")
    }

    fn native_name() -> (r: String) {
        Self::name()
    }

    fn mangled_name() -> (r: String) {
        Self::name()
    }
}

impl NativeRepr for ItemId {
    open spec fn spec_name() -> Seq<char> {
        "ItemID"@
    }

    open spec fn spec_native_name() -> Seq<char> {
        "gameItemID"@
    }

    open spec fn spec_mangled_name() -> Seq<char> {
        Self::spec_name()
    }

    fn name() -> (r: String) {
        String::from_str("ItemID")
    }

    fn native_name() -> (r: String) {
        String::from_str("gameItemID")
    }

    fn mangled_name() -> (r: String) {
        Self::name()
    }
}

impl NativeRepr for EntityId {
    open spec fn spec_name() -> Seq<char> {
        "EntityID"@
    }

    open spec fn spec_native_name() -> Seq<char> {
        "entEntityID"@
    }

    open spec fn spec_mangled_name() -> Seq<char> {
        Self::spec_name()
    }

    fn name() -> (r: String) {
        String::from_str("EntityID")
    }

    fn native_name() -> (r: String) {
        String::from_str("entEntityID")
    }

    fn mangled_name() -> (r: String) {
        Self::name()
    }
}

impl NativeRepr for Color {
    open spec fn spec_name() -> Seq<char> {
        "Color"@
    }

    open spec fn spec_native_name() -> Seq<char> {
        Self::spec_name()
    }

    open spec fn spec_mangled_name() -> Seq<char> {
        Self::spec_name()
    }

    fn name() -> (r: String) {
        String::from_str("Color")
    }

    fn native_name() -> (r: String) {
        Self::name()
    }

    fn mangled_name() -> (r: String) {
        Self::name()
    }
}

impl NativeRepr for IScriptable {
    open spec fn spec_name() -> Seq<char> {
        "IScriptable"@
    }

    open spec fn spec_native_name() -> Seq<char> {
        Self::spec_name()
    }

    open spec fn spec_mangled_name() -> Seq<char> {
        Self::spec_name()
    }

    fn name() -> (r: String) {
        String::from_str("IScriptable")
    }

    fn native_name() -> (r: String) {
        Self::name()
    }

    fn mangled_name() -> (r: String) {
        Self::name()
    }
}

impl NativeRepr for RedString {
    open spec fn spec_name() -> Seq<char> {
        "String"@
    }

    open spec fn spec_native_name() -> Seq<char> {
        Self::spec_name()
    }

    open spec fn spec_mangled_name() -> Seq<char> {
        Self::spec_name()
    }

    fn name() -> (r: String) {
        String::from_str("String")
    }

    fn native_name() -> (r: String) {
        Self::name()
    }

    fn mangled_name() -> (r: String) {
        Self::name()
    }
}

impl NativeRepr for Variant {
    open spec fn spec_name() -> Seq<char> {
        "Variant"@
    }

    open spec fn spec_native_name() -> Seq<char> {
        Self::spec_name()
    }

    open spec fn spec_mangled_name() -> Seq<char> {
        Self::spec_name()
    }

    fn name() -> (r: String) {
        String::from_str("Variant")
    }

    fn native_name() -> (r: String) {
        Self::name()
    }

    fn mangled_name() -> (r: String) {
        Self::name()
    }
}

impl<A: NativeRepr> NativeRepr for RedArray<A> {
    open spec fn spec_name() -> Seq<char> {
        "array:"@ + A::spec_name()
    }

    open spec fn spec_native_name() -> Seq<char> {
        "array:"@ + A::spec_native_name()
    }

    open spec fn spec_mangled_name() -> Seq<char> {
        "array<"@ + A::spec_mangled_name() + ">"@
    }

    fn name() -> (r: String) {
        prefixed("array:", A::name())
    }

    fn native_name() -> (r: String) {
        prefixed("array:", A::native_name())
    }

    fn mangled_name() -> (r: String) {
        let mut r = prefixed("array<", A::mangled_name());
        r.append(">");
        r
    }
}

impl<A: NativeRepr> NativeRepr for MaybeUninitRef<A> {
    open spec fn spec_name() -> Seq<char> {
        "handle:"@ + A::spec_name()
    }

    open spec fn spec_native_name() -> Seq<char> {
        "handle:"@ + A::spec_native_name()
    }

    open spec fn spec_mangled_name() -> Seq<char> {
        A::spec_mangled_name()
    }

    fn name() -> (r: String) {
        prefixed("handle:", A::name())
    }

    fn native_name() -> (r: String) {
        prefixed("handle:", A::native_name())
    }

    fn mangled_name() -> (r: String) {
        A::mangled_name()
    }
}

impl<A: NativeRepr> NativeRepr for WRef<A> {
    open spec fn spec_name() -> Seq<char> {
        "whandle:"@ + A::spec_name()
    }

    open spec fn spec_native_name() -> Seq<char> {
        "whandle:"@ + A::spec_native_name()
    }

    open spec fn spec_mangled_name() -> Seq<char> {
        A::spec_mangled_name()
    }

    fn name() -> (r: String) {
        prefixed("whandle:", A::name())
    }

    fn native_name() -> (r: String) {
        prefixed("whandle:", A::native_name())
    }

    fn mangled_name() -> (r: String) {
        A::mangled_name()
    }
}


/// A type whose values can be converted into a representation that the game
/// understands.
pub trait IntoRepr: Sized {
    type Repr: NativeRepr;

    /// What a value needs for the conversion to be possible.
    spec fn into_repr_requires(self) -> bool;

    /// How the representation relates to the value.
    spec fn into_repr_ensures(self, repr: Self::Repr) -> bool;

    fn into_repr(self) -> (repr: Self::Repr)
        requires
            self.into_repr_requires(),
        ensures
            self.into_repr_ensures(repr),
    ;
}

impl<A: NativeRepr> IntoRepr for A {
    type Repr = A;

    open spec fn into_repr_requires(self) -> bool {
        true
    }

    open spec fn into_repr_ensures(self, repr: A) -> bool {
        repr == self
    }

    fn into_repr(self) -> (repr: A) {
        self
    }
}

impl IntoRepr for String {
    type Repr = RedString;

    open spec fn into_repr_requires(self) -> bool {
        true
    }

    open spec fn into_repr_ensures(self, repr: RedString) -> bool {
        repr@ == self@
    }

    fn into_repr(self) -> (repr: RedString) {
        RedString::from_string(self)
    }
}

impl<'a> IntoRepr for &'a str {
    type Repr = RedString;

    open spec fn into_repr_requires(self) -> bool {
        true
    }

    open spec fn into_repr_ensures(self, repr: RedString) -> bool {
        repr@ == self@
    }

    fn into_repr(self) -> (repr: RedString) {
        RedString::new(self)
    }
}

impl<A: IntoRepr> IntoRepr for Vec<A> {
    type Repr = RedArray<A::Repr>;

    /// The array's length must fit its 32-bit size, and each element must be
    /// convertible.
    open spec fn into_repr_requires(self) -> bool {
        &&& self@.len() <= u32::MAX
        &&& forall|i: int| 0 <= i < self@.len() ==> (#[trigger] self@[i]).into_repr_requires()
    }

    /// Each element is converted in place.
    open spec fn into_repr_ensures(self, repr: RedArray<A::Repr>) -> bool {
        &&& repr@.len() == self@.len()
        &&& forall|i: int| 0 <= i < self@.len() ==> (#[trigger] self@[i]).into_repr_ensures(repr@[i])
    }

    fn into_repr(self) -> (repr: RedArray<A::Repr>) {
        let ghost src = self@;
        let mut items = self;
        let mut rest: Vec<A> = Vec::new();
        while items.len() > 0
            invariant
                src == items@ + rest@.reverse(),
            decreases items@.len(),
        {
            let ghost before = items@;
            let x = items.pop().unwrap();
            proof {
                assert(before =~= items@.push(x));
            }
            rest.push(x);
            proof {
                assert(rest@.reverse() =~= seq![x] + rest@.drop_last().reverse());
            }
        }
        assert(src =~= rest@.reverse());
        let mut out: Vec<A::Repr> = Vec::new();
        let n = rest.len();
        while rest.len() > 0
            invariant
                src.len() == n,
                n <= u32::MAX,
                out@.len() + rest@.len() == n,
                forall|i: int| 0 <= i < src.len() ==> (#[trigger] src[i]).into_repr_requires(),
                forall|i: int| 0 <= i < out@.len() ==> (#[trigger] src[i]).into_repr_ensures(out@[i]),
                forall|i: int| 0 <= i < rest@.len() ==> (#[trigger] rest@[i]) == src[n - 1 - i],
            decreases rest@.len(),
        {
            let ghost before = rest@;
            let x = rest.pop().unwrap();
            proof {
                assert(before =~= rest@.push(x));
                assert(x == before[before.len() - 1]);
                assert(x == src[out@.len() as int]);
            }
            let r = x.into_repr();
            out.push(r);
        }
        RedArray::from_sized_iter(out)
    }
}

/// `r` is the representation of some clone of `a`.
pub open spec fn converted_clone<A: IntoRepr + Clone>(a: A, r: A::Repr) -> bool {
    exists|c: A| cloned(a, c) && #[trigger] c.into_repr_ensures(r)
}

impl<'a, A: IntoRepr + Clone> IntoRepr for &'a [A] {
    type Repr = RedArray<A::Repr>;

    /// The array's length must fit its 32-bit size, and a clone of each
    /// element must be convertible.
    open spec fn into_repr_requires(self) -> bool {
        &&& self@.len() <= u32::MAX
        &&& forall|i: int, c: A|
            0 <= i < self@.len() && cloned(#[trigger] self@[i], c) ==> #[trigger] c.into_repr_requires()
    }

    /// Each element is cloned and the clone converted.
    open spec fn into_repr_ensures(self, repr: RedArray<A::Repr>) -> bool {
        &&& repr@.len() == self@.len()
        &&& forall|i: int| 0 <= i < self@.len() ==> converted_clone(self@[i], #[trigger] repr@[i])
    }

    fn into_repr(self) -> (repr: RedArray<A::Repr>) {
        let mut out: Vec<A::Repr> = Vec::new();
        let n = self.len();
        let mut i: usize = 0;
        let ghost mut clones: Seq<A> = Seq::empty();
        while i < n
            invariant
                n == self@.len(),
                n <= u32::MAX,
                i <= n,
                out@.len() == i,
                clones.len() == i,
                forall|k: int, c: A|
                    0 <= k < n && cloned(#[trigger] self@[k], c) ==> #[trigger] c.into_repr_requires(),
                forall|k: int|
                    0 <= k < i ==> cloned(self@[k], #[trigger] clones[k])
                        && clones[k].into_repr_ensures(out@[k]),
            decreases n - i,
        {
            let c = self[i].clone();
            let r = c.into_repr();
            out.push(r);
            proof {
                clones = clones.push(c);
            }
            i = i + 1;
        }
        let repr = RedArray::from_sized_iter(out);
        proof {
            assert forall|k: int| 0 <= k < self@.len() implies converted_clone(
                self@[k],
                #[trigger] repr@[k],
            ) by {
                assert(cloned(self@[k], clones[k]) && clones[k].into_repr_ensures(repr@[k]));
            }
        }
        repr
    }
}

impl<A: NativeRepr> IntoRepr for Ref<A> {
    type Repr = MaybeUninitRef<A>;

    open spec fn into_repr_requires(self) -> bool {
        true
    }

    /// The representation refers to the same object.
    open spec fn into_repr_ensures(self, repr: MaybeUninitRef<A>) -> bool {
        &&& repr.shared().spec_ptr() == self.shared().spec_ptr()
        &&& repr.shared().spec_count() == self.shared().spec_count()
    }

    fn into_repr(self) -> (repr: MaybeUninitRef<A>) {
        MaybeUninitRef::new(Ref::as_shared(&self).clone())
    }
}

/// A type whose values can be created from a representation that the game
/// passes.
pub trait FromRepr: Sized {
    type Repr: NativeRepr;

    /// What a representation needs for a value to be made from it.
    spec fn from_repr_requires(repr: Self::Repr) -> bool;

    /// How the value relates to the representation.
    spec fn from_repr_ensures(repr: Self::Repr, value: Self) -> bool;

    fn from_repr(repr: &Self::Repr) -> (value: Self)
        requires
            Self::from_repr_requires(*repr),
        ensures
            Self::from_repr_ensures(*repr, value),
    ;
}

impl<A: NativeRepr + Clone> FromRepr for A {
    type Repr = A;

    open spec fn from_repr_requires(repr: A) -> bool {
        true
    }

    /// The value is a clone of the representation.
    open spec fn from_repr_ensures(repr: A, value: A) -> bool {
        cloned(repr, value)
    }

    fn from_repr(repr: &A) -> (value: A) {
        repr.clone()
    }
}

impl FromRepr for String {
    type Repr = RedString;

    open spec fn from_repr_requires(repr: RedString) -> bool {
        true
    }

    open spec fn from_repr_ensures(repr: RedString, value: String) -> bool {
        value@ == repr@
    }

    fn from_repr(repr: &RedString) -> (value: String) {
        String::from_str(repr.as_str())
    }
}

impl<A: FromRepr> FromRepr for Vec<A> {
    type Repr = RedArray<A::Repr>;

    /// Each element must be convertible.
    open spec fn from_repr_requires(repr: RedArray<A::Repr>) -> bool {
        forall|i: int| 0 <= i < repr@.len() ==> A::from_repr_requires(#[trigger] repr@[i])
    }

    /// Each element is converted in place.
    open spec fn from_repr_ensures(repr: RedArray<A::Repr>, value: Vec<A>) -> bool {
        &&& value@.len() == repr@.len()
        &&& forall|i: int| 0 <= i < repr@.len() ==> A::from_repr_ensures(#[trigger] repr@[i], value@[i])
    }

    fn from_repr(repr: &RedArray<A::Repr>) -> (value: Vec<A>) {
        let items = repr.as_slice();
        let mut out: Vec<A> = Vec::new();
        let mut i: usize = 0;
        while i < items.len()
            invariant
                items@ == repr@,
                i <= items@.len(),
                out@.len() == i,
                forall|j: int| 0 <= j < items@.len() ==> A::from_repr_requires(#[trigger] items@[j]),
                forall|j: int| 0 <= j < i ==> A::from_repr_ensures(#[trigger] items@[j], out@[j]),
            decreases items@.len() - i,
        {
            let v = A::from_repr(&items[i]);
            out.push(v);
            i = i + 1;
        }
        out
    }
}

impl<A: NativeRepr> FromRepr for Ref<A> {
    type Repr = MaybeUninitRef<A>;

    /// The reference must not be null.
    open spec fn from_repr_requires(repr: MaybeUninitRef<A>) -> bool {
        repr.shared().spec_ptr() != 0
    }

    /// The value refers to the same object.
    open spec fn from_repr_ensures(repr: MaybeUninitRef<A>, value: Ref<A>) -> bool {
        &&& value.shared().spec_ptr() == repr.shared().spec_ptr()
        &&& value.shared().spec_count() == repr.shared().spec_count()
    }

    fn from_repr(repr: &MaybeUninitRef<A>) -> (value: Ref<A>) {
        let r = MaybeUninitRef::new(repr.as_shared().clone()).into_ref();
        r.unwrap()
    }
}


impl<'a, A: NativeRepr> NativeRepr for ScriptRef<'a, A> {
    open spec fn spec_name() -> Seq<char> {
        "script_ref:"@ + A::spec_name()
    }

    open spec fn spec_native_name() -> Seq<char> {
        "script_ref:"@ + A::spec_native_name()
    }

    open spec fn spec_mangled_name() -> Seq<char> {
        "script_ref<"@ + A::spec_mangled_name() + ">"@
    }

    fn name() -> (r: String) {
        prefixed("script_ref:", A::name())
    }

    fn native_name() -> (r: String) {
        prefixed("script_ref:", A::native_name())
    }

    fn mangled_name() -> (r: String) {
        let mut r = prefixed("script_ref<", A::mangled_name());
        r.append(">");
        r
    }
}

/// The type `T` is called `name` in redscript, `native_name` in the game's
/// RTTI and `mangled` in mangled signatures.
pub open spec fn type_names_are<T: NativeRepr>(name: Seq<char>, native_name: Seq<char>, mangled: Seq<char>) -> bool {
    &&& T::spec_name() == name
    &&& T::spec_native_name() == native_name
    &&& T::spec_mangled_name() == mangled
}

/// The names of the built-in types. The RTTI knows most of them by their
/// redscript name; references to resources, item identifiers and entity
/// identifiers go by other names there. Every built-in type is mangled by
/// its redscript name.
pub proof fn lemma_builtin_type_names()
    ensures
        type_names_are::<()>("Void"@, "Void"@, "Void"@),
        type_names_are::<i64>("Int64"@, "Int64"@, "Int64"@),
        type_names_are::<i32>("Int32"@, "Int32"@, "Int32"@),
        type_names_are::<i16>("Int16"@, "Int16"@, "Int16"@),
        type_names_are::<i8>("Int8"@, "Int8"@, "Int8"@),
        type_names_are::<u64>("Uint64"@, "Uint64"@, "Uint64"@),
        type_names_are::<u32>("Uint32"@, "Uint32"@, "Uint32"@),
        type_names_are::<u16>("Uint16"@, "Uint16"@, "Uint16"@),
        type_names_are::<u8>("Uint8"@, "Uint8"@, "Uint8"@),
        type_names_are::<bool>("Bool"@, "Bool"@, "Bool"@),
        type_names_are::<CName>("CName"@, "CName"@, "CName"@),
        type_names_are::<ResRef>("ResRef"@, "redResourceReferenceScriptToken"@, "ResRef"@),
        type_names_are::<TweakDbId>("TweakDBID"@, "TweakDBID"@, "TweakDBID"@),
        type_names_are::<ItemId>("ItemID"@, "gameItemID"@, "ItemID"@),
        type_names_are::<EntityId>("EntityID"@, "entEntityID"@, "EntityID"@),
        type_names_are::<Color>("Color"@, "Color"@, "Color"@),
        type_names_are::<IScriptable>("IScriptable"@, "IScriptable"@, "IScriptable"@),
        type_names_are::<RedString>("String"@, "String"@, "String"@),
        type_names_are::<Variant>("Variant"@, "Variant"@, "Variant"@),
{
}

/// The names of the container types, made from the names of what they
/// hold: an array of `A` is `array:` followed by the name of `A`, in
/// redscript and in the RTTI, and `array<..>` around the mangled name of
/// `A`; a strong reference is `handle:` and a weak one `whandle:` before the
/// name of the class, and both are mangled as the class itself; a script
/// reference is `script_ref:` before the name and `script_ref<..>` around
/// the mangled name.
pub proof fn lemma_container_type_names<A: NativeRepr>()
    ensures
        type_names_are::<RedArray<A>>(
            "array:"@ + A::spec_name(),
            "array:"@ + A::spec_native_name(),
            "array<"@ + A::spec_mangled_name() + ">"@,
        ),
        type_names_are::<MaybeUninitRef<A>>(
            "handle:"@ + A::spec_name(),
            "handle:"@ + A::spec_native_name(),
            A::spec_mangled_name(),
        ),
        type_names_are::<WRef<A>>(
            "whandle:"@ + A::spec_name(),
            "whandle:"@ + A::spec_native_name(),
            A::spec_mangled_name(),
        ),
        type_names_are::<ScriptRef<'static, A>>(
            "script_ref:"@ + A::spec_name(),
            "script_ref:"@ + A::spec_native_name(),
            "script_ref<"@ + A::spec_mangled_name() + ">"@,
        ),
{
}

/// A value as it is passed to a game function: the address of its type,
/// found by one call of `lookup` (the game's RTTI) with the native name of
/// the value's representation, and the value's representation.
pub fn into_type_and_repr<A: IntoRepr, L: FnOnce(CName) -> usize>(lookup: L, val: A) -> (r: (
    usize,
    A::Repr,
))
    requires
        forall|name: CName| call_requires(lookup, (name,)),
        val.into_repr_requires(),
    ensures
        exists|name: CName|
            name@ == native_cname_of::<A::Repr>() && call_ensures(lookup, (name,), r.0),
        val.into_repr_ensures(r.1),
{
    let native = A::Repr::native_name();
    let name = CName::new(native.as_str());
    let typ = lookup(name);
    (typ, val.into_repr())
}


/// A string converted to the game's representation and back is the same
/// string.
pub proof fn lemma_string_round_trip(s: String, repr: RedString, back: String)
    requires
        s.into_repr_ensures(repr),
        <String as FromRepr>::from_repr_ensures(repr, back),
    ensures
        back@ == s@,
{
}

/// A vector of strings converted to the game's representation and back
/// holds the same strings, in the same order.
pub proof fn lemma_strings_round_trip(v: Vec<String>, repr: RedArray<RedString>, back: Vec<String>)
    requires
        v.into_repr_ensures(repr),
        <Vec<String> as FromRepr>::from_repr_ensures(repr, back),
    ensures
        back@.len() == v@.len(),
        forall|i: int| 0 <= i < v@.len() ==> (#[trigger] back@[i])@ == v@[i]@,
{
    assert forall|i: int| 0 <= i < v@.len() implies (#[trigger] back@[i])@ == v@[i]@ by {
        assert(v@[i].into_repr_ensures(repr@[i]));
        assert(<String as FromRepr>::from_repr_ensures(repr@[i], back@[i]));
    }
}

/// A vector of values that are their own representation, converted to the
/// game's representation and back, holds a clone of each value, in the same
/// order; it is the same vector when a clone of a value is the value itself.
pub proof fn lemma_vec_round_trip<A: NativeRepr + Clone>(v: Vec<A>, repr: RedArray<A>, back: Vec<A>)
    requires
        v.into_repr_ensures(repr),
        <Vec<A> as FromRepr>::from_repr_ensures(repr, back),
    ensures
        back@.len() == v@.len(),
        forall|i: int| 0 <= i < v@.len() ==> cloned(v@[i], #[trigger] back@[i]),
        (forall|a: A, b: A| #[trigger] vstd::pervasive::strictly_cloned(a, b) ==> b == a)
            ==> back@ == v@,
{
    assert forall|i: int| 0 <= i < v@.len() implies cloned(v@[i], #[trigger] back@[i]) by {
        assert(v@[i].into_repr_ensures(repr@[i]));
        assert(<A as FromRepr>::from_repr_ensures(repr@[i], back@[i]));
    }
    if forall|a: A, b: A| #[trigger] vstd::pervasive::strictly_cloned(a, b) ==> b == a {
        assert forall|i: int| 0 <= i < v@.len() implies #[trigger] back@[i] == v@[i] by {
            assert(cloned(v@[i], back@[i]));
        }
        assert(back@ =~= v@);
    }
}

/// The hash of the name the game's RTTI gives to the type `A`.
pub open spec fn native_cname_of<A: NativeRepr>() -> u64 {
    spec_fnv1a64(encode_utf8(A::spec_native_name()))
}

impl Variant {
    /// Takes the held value out if it has the type that values of `A` are
    /// made from: `actual` is the name the game's RTTI gives to the type of
    /// the held value (`None` if it has none). On success the held bytes are
    /// read as the representation by `read` (the game's memory layout of
    /// the type), the value is made from that representation, and the
    /// variant is emptied; on failure the variant is left unchanged and
    /// `read` is not needed.
    pub fn try_take<A: FromRepr, D: FnOnce([u8; 16]) -> A::Repr>(
        &mut self,
        actual: Option<CName>,
        read: D,
    ) -> (value: Option<A>)
        requires
            forall|bytes: [u8; 16]|
                (actual matches Some(n) && n@ == native_cname_of::<A::Repr>()) ==> call_requires(
                    read,
                    (bytes,),
                ),
            forall|bytes: [u8; 16], repr: A::Repr|
                call_ensures(read, (bytes,), repr) ==> A::from_repr_requires(repr),
        ensures
            value is Some <==> (actual matches Some(n) && n@ == native_cname_of::<A::Repr>()),
            value matches Some(v) ==> (exists|bytes: [u8; 16], repr: A::Repr|
                bytes@ == old(self).spec_data() && call_ensures(read, (bytes,), repr)
                    && A::from_repr_ensures(repr, v)),
            value is Some ==> final(self).spec_type() == 0 && final(self).spec_data() == Seq::new(
                16,
                |i: int| 0u8,
            ),
            value is None ==> *final(self) == *old(self),
    {
        let native = A::Repr::native_name();
        let wanted = CName::new(native.as_str());
        proof {
            if let Some(n) = actual {
                CName::lemma_view_eq(n, wanted);
            }
        }
        match self.try_take_raw(actual, wanted) {
            Some(bytes) => {
                let repr = read(bytes);
                Some(A::from_repr(&repr))
            },
            None => None,
        }
    }
}

} // verus!
