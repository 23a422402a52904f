//! Plain data types that mirror the game's in-memory types: dynamic arrays,
//! references to script objects, colours and variants.
//!
//! The game allocates and reference-counts these values itself; here each
//! one holds, as plain values, what the bindings read from it. Addresses of
//! game memory are kept as integers, `0` standing for a null pointer.
use core::marker::PhantomData;
use vstd::prelude::*;

use crate::class::ClassType;
use crate::cname::CName;
use crate::conv::{native_cname_of, NativeRepr};
use vstd::std_specs::iter::IteratorSpec;

verus! {

broadcast use vstd::std_specs::slice::axiom_spec_slice_iter;

/// A dynamic array. Corresponds to `array` in redscript.
#[derive(Debug)]
pub struct RedArray<A> {
    entries: Vec<A>,
    cap: u32,
}

impl<A> View for RedArray<A> {
    type V = Seq<A>;

    /// The elements of the array, in order.
    closed spec fn view(&self) -> Seq<A> {
        self.entries@
    }
}

impl<A> RedArray<A> {
    /// The number of elements the array was allocated for.
    pub closed spec fn capacity(&self) -> u32 {
        self.cap
    }

    /// Allocates an empty array for `count` elements. As in the game's
    /// allocator, the capacity is a 32-bit count.
    pub fn with_capacity(count: usize) -> (arr: RedArray<A>)
        ensures
            arr@ == Seq::<A>::empty(),
            arr.capacity() == count as u32,
    {
        RedArray { entries: Vec::new(), cap: count as u32 }
    }

    /// Creates an array holding `items`, in order, allocated for exactly
    /// their number.
    pub fn from_sized_iter(items: Vec<A>) -> (arr: RedArray<A>)
        requires
            items@.len() <= u32::MAX,
        ensures
            arr@ == items@,
            arr.capacity() == items@.len(),
    {
        let n = items.len();
        RedArray { entries: items, cap: n as u32 }
    }

    /// The elements of the array as a slice.
    pub fn as_slice(&self) -> (s: &[A])
        ensures
            s@ == self@,
    {
        self.entries.as_slice()
    }

    /// The elements of the array as a mutable slice: what is written through
    /// the slice is written to the array, whose capacity stays the same.
    pub fn as_mut_slice(&mut self) -> (s: &mut [A])
        ensures
            s@ == old(self)@,
            final(s)@ == final(self)@,
            final(self).capacity() == old(self).capacity(),
    {
        self.entries.as_mut_slice()
    }

    /// An iterator over the elements of the array, in order.
    pub fn iter(&self) -> (it: core::slice::Iter<'_, A>)
        ensures
            it.remaining() == self@.map_values(|a: A| &a),
    {
        let it = self.entries.as_slice().iter();
        proof {
            assert(self.entries@.map_values(|a: A| &a) =~= self@.map_values(|a: A| &a));
        }
        it
    }

    /// Consumes the array into an iterator over its elements, in order.
    pub fn into_iter(self) -> (it: IntoIter<A>)
        ensures
            it@ == self@,
    {
        let mut items = self.entries;
        let ghost all = items@;
        let mut rest: Vec<A> = Vec::new();
        while items.len() > 0
            invariant
                all == items@ + rest@.reverse(),
            decreases items@.len(),
        {
            let ghost before = items@;
            let x = items.pop().unwrap();
            proof {
                assert(before =~= items@.push(x));
            }
            rest.push(x);
            proof {
                assert(rest@.reverse() =~= seq![x] + rest@.drop_last().reverse());
            }
        }
        IntoIter { rest }
    }
}

impl<A> Default for RedArray<A> {
    fn default() -> (arr: RedArray<A>)
        ensures
            arr@ == Seq::<A>::empty(),
            arr.capacity() == 0,
    {
        RedArray { entries: Vec::new(), cap: 0 }
    }
}

/// An iterator that moves the elements out of a [`RedArray`].
#[derive(Debug)]
pub struct IntoIter<A> {
    /// The elements not yet returned, last one first.
    rest: Vec<A>,
}

impl<A> View for IntoIter<A> {
    type V = Seq<A>;

    /// The elements not yet returned, in order.
    closed spec fn view(&self) -> Seq<A> {
        self.rest@.reverse()
    }
}

/// One call of `next` on an iterator whose remaining elements are `s`: what
/// it returns, and the elements that remain after it.
pub open spec fn spec_next<A>(s: Seq<A>) -> (Option<A>, Seq<A>) {
    if s.len() == 0 {
        (None, s)
    } else {
        (Some(s[0]), s.drop_first())
    }
}

/// What `k` calls of `next` return, in order, on an iterator whose
/// remaining elements are `s`.
pub open spec fn next_results<A>(s: Seq<A>, k: nat) -> Seq<Option<A>>
    decreases k,
{
    if k == 0 {
        Seq::empty()
    } else {
        seq![spec_next(s).0] + next_results(spec_next(s).1, (k - 1) as nat)
    }
}

/// A run of `next` calls yields the elements in order, each once, and then
/// `None` on every later call.
pub proof fn lemma_next_run<A>(s: Seq<A>, k: nat)
    ensures
        next_results(s, k).len() == k,
        forall|i: int|
            0 <= i < k ==> #[trigger] next_results(s, k)[i] == if i < s.len() {
                Some(s[i])
            } else {
                None
            },
    decreases k,
{
    if k > 0 {
        let rest = spec_next(s).1;
        lemma_next_run(rest, (k - 1) as nat);
        let r = next_results(s, k);
        assert forall|i: int| 0 <= i < k implies #[trigger] r[i] == if i < s.len() {
            Some(s[i])
        } else {
            None
        } by {
            if i > 0 {
                assert(r[i] == next_results(rest, (k - 1) as nat)[i - 1]);
                if 0 < i < s.len() {
                    assert(rest[i - 1] == s[i]);
                }
            }
        }
    }
}

impl<A> IntoIter<A> {
    /// Returns the next element, or `None` once all were returned.
    pub fn next(&mut self) -> (item: Option<A>)
        ensures
            (item, final(self)@) == spec_next(old(self)@),
    {
        let ghost before = self.rest@;
        let item = self.rest.pop();
        proof {
            if before.len() > 0 {
                assert(before =~= self.rest@.push(item.unwrap()));
                assert(before.reverse() =~= seq![item.unwrap()] + self.rest@.reverse());
            }
        }
        item
    }
}

/// The reference counts of a script object: the object lives while its
/// strong count is not zero.
#[derive(Debug, Default)]
pub struct RefCount {
    strong_refs: u32,
    weak_refs: u32,
}

impl RefCount {
    /// The number of strong references.
    pub closed spec fn strong(&self) -> u32 {
        self.strong_refs
    }

    /// The number of weak references.
    pub closed spec fn weak(&self) -> u32 {
        self.weak_refs
    }

    /// Counts with the given numbers of strong and weak references.
    pub fn new(strong_refs: u32, weak_refs: u32) -> (c: RefCount)
        ensures
            c.strong() == strong_refs,
            c.weak() == weak_refs,
    {
        RefCount { strong_refs, weak_refs }
    }

    /// The number of strong references.
    pub fn strong_refs(&self) -> (n: u32)
        ensures
            n == self.strong(),
    {
        self.strong_refs
    }

    /// Counts one more strong reference.
    pub fn inc_ref(&mut self)
        requires
            old(self).strong() < u32::MAX,
        ensures
            final(self).strong() == old(self).strong() + 1,
            final(self).weak() == old(self).weak(),
    {
        self.strong_refs = self.strong_refs + 1;
    }

    /// Counts one strong reference less; tells whether it was the last one.
    pub fn dec_ref(&mut self) -> (last: bool)
        requires
            old(self).strong() > 0,
        ensures
            final(self).strong() == old(self).strong() - 1,
            final(self).weak() == old(self).weak(),
            last == (final(self).strong() == 0),
    {
        self.strong_refs = self.strong_refs - 1;
        self.strong_refs == 0
    }

    /// Counts one more strong reference if the object is still alive; tells
    /// whether it was.
    pub fn inc_ref_if_not_zero(&mut self) -> (alive: bool)
        requires
            old(self).strong() < u32::MAX,
        ensures
            alive == (old(self).strong() != 0),
            final(self).strong() == if alive {
                old(self).strong() + 1
            } else {
                old(self).strong() as int
            },
            final(self).weak() == old(self).weak(),
    {
        if self.strong_refs == 0 {
            false
        } else {
            self.strong_refs = self.strong_refs + 1;
            true
        }
    }
}

/// The address of a script object and of its reference counts, shared by
/// strong and weak references.
#[derive(Debug)]
pub struct RefShared<A> {
    ptr: usize,
    count: usize,
    marker: PhantomData<A>,
}

impl<A> RefShared<A> {
    /// The address of the object.
    pub closed spec fn spec_ptr(&self) -> usize {
        self.ptr
    }

    /// The address of the reference counts.
    pub closed spec fn spec_count(&self) -> usize {
        self.count
    }

    /// A reference that points at nothing.
    pub fn null() -> (r: RefShared<A>)
        ensures
            r.spec_ptr() == 0,
            r.spec_count() == 0,
    {
        RefShared { ptr: 0, count: 0, marker: PhantomData }
    }

    /// Refers to the object at address `ptr`, counted at address `count`.
    pub fn from_addresses(ptr: usize, count: usize) -> (r: RefShared<A>)
        ensures
            r.spec_ptr() == ptr,
            r.spec_count() == count,
    {
        RefShared { ptr, count, marker: PhantomData }
    }

    /// The address of the object.
    pub fn as_ptr(&self) -> (ptr: usize)
        ensures
            ptr == self.spec_ptr(),
    {
        self.ptr
    }

    /// The same reference, typed as a reference to the base class of all
    /// script objects.
    pub fn as_scriptable(&self) -> (r: RefShared<IScriptable>)
        ensures
            r.spec_ptr() == self.spec_ptr(),
            r.spec_count() == self.spec_count(),
    {
        RefShared { ptr: self.ptr, count: self.count, marker: PhantomData }
    }

    /// The address of the reference counts.
    pub fn count_ptr(&self) -> (count: usize)
        ensures
            count == self.spec_count(),
    {
        self.count
    }
}

impl<A> Clone for RefShared<A> {
    fn clone(&self) -> (r: RefShared<A>)
        ensures
            r.spec_ptr() == self.spec_ptr(),
            r.spec_count() == self.spec_count(),
    {
        RefShared { ptr: self.ptr, count: self.count, marker: PhantomData }
    }
}

impl<A> Default for RefShared<A> {
    fn default() -> (r: RefShared<A>)
        ensures
            r.spec_ptr() == 0,
            r.spec_count() == 0,
    {
        RefShared::null()
    }
}

/// A strong reference to a script object. Corresponds to `ref` in redscript.
#[derive(Debug)]
pub struct Ref<A>(RefShared<A>);

impl<A> Ref<A> {
    /// The shared part of the reference.
    pub closed spec fn shared(&self) -> RefShared<A> {
        self.0
    }

    /// A weak reference to the same object.
    pub fn downgrade(this: &Self) -> (w: WRef<A>)
        ensures
            w.shared().spec_ptr() == this.shared().spec_ptr(),
            w.shared().spec_count() == this.shared().spec_count(),
    {
        WRef(this.0.clone())
    }

    /// Another strong reference to the same object; `count` is the
    /// object's reference counts, which gain a strong reference.
    pub fn clone_counted(this: &Self, count: &mut RefCount) -> (r: Ref<A>)
        requires
            old(count).strong() < u32::MAX,
        ensures
            r.shared().spec_ptr() == this.shared().spec_ptr(),
            r.shared().spec_count() == this.shared().spec_count(),
            final(count).strong() == old(count).strong() + 1,
            final(count).weak() == old(count).weak(),
    {
        count.inc_ref();
        Ref(this.0.clone())
    }

    /// Gives up this strong reference; `count` is the object's reference
    /// counts. Tells whether it was the last one, in which case the object
    /// must be freed.
    pub fn release(this: Self, count: &mut RefCount) -> (free: bool)
        requires
            old(count).strong() > 0,
        ensures
            final(count).strong() == old(count).strong() - 1,
            final(count).weak() == old(count).weak(),
            free == (final(count).strong() == 0),
    {
        count.dec_ref()
    }

    /// The shared part of the reference.
    pub fn as_shared(this: &Self) -> (s: &RefShared<A>)
        ensures
            s.spec_ptr() == this.shared().spec_ptr(),
            s.spec_count() == this.shared().spec_count(),
    {
        &this.0
    }
    /// The same reference, typed as a reference to the base class.
    pub fn upcast(this: Self) -> (r: Ref<A::BaseClass>) where A: ClassType
        ensures
            r.shared().spec_ptr() == this.shared().spec_ptr(),
            r.shared().spec_count() == this.shared().spec_count(),
    {
        Ref(RefShared { ptr: this.0.ptr, count: this.0.count, marker: PhantomData })
    }
}

/// A weak reference to a script object. Corresponds to `wref` in redscript.
#[derive(Debug)]
pub struct WRef<A>(RefShared<A>);

impl<A> WRef<A> {
    /// The shared part of the reference.
    pub closed spec fn shared(&self) -> RefShared<A> {
        self.0
    }

    /// A weak reference that points at nothing.
    pub fn null() -> (w: WRef<A>)
        ensures
            w.shared().spec_ptr() == 0,
            w.shared().spec_count() == 0,
    {
        WRef(RefShared::null())
    }
}

impl<A> WRef<A> {
    /// A strong reference to the object if it is still alive; `count` is
    /// the object's reference counts, which gain a strong reference on
    /// success.
    pub fn upgrade(self, count: &mut RefCount) -> (r: Option<Ref<A>>)
        requires
            old(count).strong() < u32::MAX,
        ensures
            r is Some <==> old(count).strong() != 0,
            r matches Some(x) ==> x.shared().spec_ptr() == self.shared().spec_ptr()
                && x.shared().spec_count() == self.shared().spec_count(),
            final(count).strong() == if r is Some {
                old(count).strong() + 1
            } else {
                old(count).strong() as int
            },
            final(count).weak() == old(count).weak(),
    {
        if count.inc_ref_if_not_zero() {
            Some(Ref(self.0))
        } else {
            None
        }
    }
    /// The same weak reference, typed as a reference to the base class.
    pub fn upcast(self) -> (w: WRef<A::BaseClass>) where A: ClassType
        ensures
            w.shared().spec_ptr() == self.shared().spec_ptr(),
            w.shared().spec_count() == self.shared().spec_count(),
    {
        WRef(RefShared { ptr: self.0.ptr, count: self.0.count, marker: PhantomData })
    }
}

impl<A> Default for WRef<A> {
    fn default() -> (w: WRef<A>)
        ensures
            w.shared().spec_ptr() == 0,
            w.shared().spec_count() == 0,
    {
        WRef(RefShared::null())
    }
}

impl<A> Clone for WRef<A> {
    fn clone(&self) -> (w: WRef<A>)
        ensures
            w.shared().spec_ptr() == self.shared().spec_ptr(),
            w.shared().spec_count() == self.shared().spec_count(),
    {
        WRef(self.0.clone())
    }
}

/// A reference as the game passes it, which may be null.
#[derive(Debug)]
pub struct MaybeUninitRef<A>(RefShared<A>);

impl<A> MaybeUninitRef<A> {
    /// The shared part of the reference.
    pub closed spec fn shared(&self) -> RefShared<A> {
        self.0
    }

    /// Wraps a shared reference.
    pub fn new(a: RefShared<A>) -> (r: MaybeUninitRef<A>)
        ensures
            r.shared().spec_ptr() == a.spec_ptr(),
            r.shared().spec_count() == a.spec_count(),
    {
        MaybeUninitRef(a)
    }

    /// The shared part of the reference.
    pub fn as_shared(&self) -> (s: &RefShared<A>)
        ensures
            s.spec_ptr() == self.shared().spec_ptr(),
            s.spec_count() == self.shared().spec_count(),
    {
        &self.0
    }

    /// The strong reference, unless the reference is null.
    pub fn into_ref(self) -> (r: Option<Ref<A>>)
        ensures
            r is Some <==> self.shared().spec_ptr() != 0,
            r matches Some(x) ==> x.shared().spec_ptr() == self.shared().spec_ptr()
                && x.shared().spec_count() == self.shared().spec_count(),
    {
        if self.0.ptr != 0 {
            Some(Ref(self.0))
        } else {
            None
        }
    }
}

impl<A> Default for MaybeUninitRef<A> {
    fn default() -> (r: MaybeUninitRef<A>)
        ensures
            r.shared().spec_ptr() == 0,
            r.shared().spec_count() == 0,
    {
        MaybeUninitRef(RefShared::null())
    }
}

/// The base class of all script objects.
#[derive(Debug)]
pub struct IScriptable {
    _base: (),
}

/// A colour with 8-bit channels. Corresponds to `Color` in redscript.
#[derive(Debug, Default, Clone, Copy, PartialEq, Eq, Structural)]
pub struct Color {
    pub red: u8,
    pub green: u8,
    pub blue: u8,
    pub alpha: u8,
}

impl Color {
    /// A colour from its four channels.
    pub fn new(red: u8, green: u8, blue: u8, alpha: u8) -> (c: Color)
        ensures
            c == (Color { red, green, blue, alpha }),
    {
        Color { red, green, blue, alpha }
    }
}

/// A value of any game type, tagged with the address of its type.
/// Corresponds to `Variant` in redscript.
#[derive(Debug)]
pub struct Variant {
    typ: usize,
    data: [u8; 16],
}

impl Variant {
    /// The address of the type of the held value; `0` when none is held.
    pub closed spec fn spec_type(&self) -> usize {
        self.typ
    }

    /// The bytes that hold the value.
    pub closed spec fn spec_data(&self) -> Seq<u8> {
        self.data@
    }

    /// A variant that holds no value.
    pub fn undefined() -> (v: Variant)
        ensures
            v.spec_type() == 0,
            v.spec_data() == Seq::new(16, |i: int| 0u8),
    {
        let v = Variant { typ: 0, data: [0u8; 16] };
        proof {
            assert(v.data@ =~= Seq::new(16, |i: int| 0u8));
        }
        v
    }

    /// The address of the type of the held value; `0` when none is held.
    pub fn get_type(&self) -> (typ: usize)
        ensures
            typ == self.spec_type(),
    {
        self.typ
    }
}

impl Variant {
    /// A variant that holds the value with bytes `data`, of the type at
    /// address `typ`.
    pub fn from_raw(typ: usize, data: [u8; 16]) -> (v: Variant)
        ensures
            v.spec_type() == typ,
            v.spec_data() == data@,
    {
        Variant { typ, data }
    }

    /// Takes the held value out if its type is the one wanted: `actual` is
    /// the name the game's RTTI gives to the type of the held value (`None`
    /// if it has none), and `wanted` the name of the type asked for. On
    /// success the bytes of the value are returned and the variant is
    /// emptied; on failure the variant is left unchanged.
    pub fn try_take_raw(&mut self, actual: Option<CName>, wanted: CName) -> (data: Option<[u8; 16]>)
        ensures
            data is Some <==> actual == Some(wanted),
            data matches Some(d) ==> d@ == old(self).spec_data() && final(self).spec_type() == 0
                && final(self).spec_data() == Seq::new(16, |i: int| 0u8),
            data is None ==> *final(self) == *old(self),
    {
        let matches = match actual {
            Some(name) => name == wanted,
            None => false,
        };
        if matches {
            let taken = self.data;
            *self = Variant::undefined();
            Some(taken)
        } else {
            None
        }
    }
}

impl Default for Variant {
    fn default() -> (v: Variant)
        ensures
            v.spec_type() == 0,
            v.spec_data() == Seq::new(16, |i: int| 0u8),
    {
        Variant::undefined()
    }
}


/// A string owned by the game. Corresponds to `String` in redscript.
#[derive(Debug)]
pub struct RedString {
    contents: String,
}

impl View for RedString {
    type V = Seq<char>;

    /// The characters of the string.
    closed spec fn view(&self) -> Seq<char> {
        self.contents@
    }
}

impl RedString {
    /// A string with the given contents.
    pub fn new(str: &str) -> (s: RedString)
        ensures
            s@ == str@,
    {
        RedString { contents: String::from_str(str) }
    }

    /// The contents of the string.
    pub fn as_str(&self) -> (s: &str)
        ensures
            s@ == self@,
    {
        self.contents.as_str()
    }

    /// Takes the contents out of the string.
    pub fn into_string(self) -> (s: String)
        ensures
            s@ == self@,
    {
        self.contents
    }

    /// A string that takes over `contents`.
    pub fn from_string(contents: String) -> (s: RedString)
        ensures
            s@ == contents@,
    {
        RedString { contents }
    }
}

impl Default for RedString {
    fn default() -> (s: RedString)
        ensures
            s@ == Seq::<char>::empty(),
    {
        RedString { contents: String::new() }
    }
}

/// The identifier of a record in the game's tweak database. Corresponds to
/// `TweakDBID` in redscript.
#[derive(Debug, Default, Clone, Copy, PartialEq, Eq, Structural)]
pub struct TweakDbId {
    pub hash: u64,
}

/// The identifier of an item instance. Corresponds to `ItemID` in redscript.
#[derive(Debug, Default, Clone, Copy, PartialEq, Eq, Structural)]
pub struct ItemId {
    pub id: TweakDbId,
    pub rng_seed: u32,
    pub unknown: u16,
    pub structure: u8,
    pub flags: u8,
}

/// The identifier of an entity. Corresponds to `EntityID` in redscript.
#[derive(Debug, Default, Clone, Copy, PartialEq, Eq, Structural)]
pub struct EntityId {
    pub hash: u64,
}


/// A reference to a value owned by a script. Corresponds to `script_ref` in
/// redscript. Its fields are public so that contracts can follow the
/// mutable reference it holds back to the variable it was made from.
#[derive(Debug)]
pub struct ScriptRef<'a, A> {
    /// The bytes that lead the reference in the game's memory.
    pub unknown: [u8; 16],
    /// The address of the type of the referenced value.
    pub inner: usize,
    /// The referenced value.
    pub ptr: &'a mut A,
    /// The name the reference carries.
    pub hash: CName,
}

impl<'a, A> ScriptRef<'a, A> {
    /// The address of the type of the referenced value.
    pub closed spec fn spec_inner(&self) -> usize {
        self.inner
    }

    /// The referenced value.
    pub closed spec fn spec_value(&self) -> A {
        *self.ptr
    }

    /// The 16 bytes that lead the reference in the game's memory.
    pub closed spec fn spec_unknown(&self) -> Seq<u8> {
        self.unknown@
    }

    /// The name the reference carries.
    pub closed spec fn spec_hash(&self) -> CName {
        self.hash
    }
}

impl<'a, A: NativeRepr> ScriptRef<'a, A> {
    /// Refers to `ptr`; the address of its type is found by one call of
    /// `lookup` (the game's RTTI) with the native name of `A`. The leading
    /// bytes are zero and the name is the default one.
    pub fn new<L: FnOnce(CName) -> usize>(ptr: &'a mut A, lookup: L) -> (r: ScriptRef<'a, A>)
        requires
            forall|name: CName| call_requires(lookup, (name,)),
        ensures
            exists|name: CName|
                name@ == native_cname_of::<A>() && call_ensures(lookup, (name,), r.spec_inner()),
            r.spec_value() == *old(ptr),
            *final(r.ptr) == *final(ptr),
            r.spec_unknown() == Seq::new(16, |i: int| 0u8),
            r.spec_hash()@ == 0,
    {
        let native = A::native_name();
        let name = CName::new(native.as_str());
        let inner = lookup(name);
        let r = ScriptRef { unknown: [0u8; 16], inner, ptr, hash: CName::default() };
        proof {
            assert(r.unknown@ =~= Seq::new(16, |i: int| 0u8));
        }
        r
    }
}

impl<'a, A> ScriptRef<'a, A> {
    /// The referenced value.
    pub fn as_inner(&'a self) -> (v: &'a A)
        ensures
            *v == self.spec_value(),
    {
        self.ptr
    }

    /// The referenced value, for modification.
    pub fn as_inner_mut(&'a mut self) -> (v: &'a mut A)
        ensures
            *v == old(self).spec_value(),
            final(self).spec_value() == *final(v),
            *final(final(self).ptr) == *final(old(self).ptr),
            final(self).spec_inner() == old(self).spec_inner(),
    {
        self.ptr
    }
}


/// An argument passed to a game function: the address of its type and the
/// address of its value.
#[derive(Debug, Clone, Copy)]
pub struct StackArg {
    typ: usize,
    value: usize,
}

impl StackArg {
    /// The address of the argument's type.
    pub closed spec fn spec_type(&self) -> usize {
        self.typ
    }

    /// The address of the argument's value.
    pub closed spec fn spec_value(&self) -> usize {
        self.value
    }

    pub fn new(typ: usize, value: usize) -> (a: StackArg)
        ensures
            a.spec_type() == typ,
            a.spec_value() == value,
    {
        StackArg { typ, value }
    }

    /// The address of the argument's type.
    pub fn inner_type(&self) -> (typ: usize)
        ensures
            typ == self.spec_type(),
    {
        self.typ
    }
}


/// Comparison by the address of the referenced object.
pub trait PtrEq<Rhs = Self> {
    spec fn spec_ptr_eq(&self, other: &Rhs) -> bool;

    /// Whether both refer to the same object.
    fn ptr_eq(&self, other: &Rhs) -> (r: bool)
        ensures
            r == self.spec_ptr_eq(other),
    ;
}

impl<A> PtrEq for RefShared<A> {
    open spec fn spec_ptr_eq(&self, other: &RefShared<A>) -> bool {
        self.spec_ptr() == other.spec_ptr()
    }

    fn ptr_eq(&self, other: &RefShared<A>) -> (r: bool) {
        self.ptr == other.ptr
    }
}


/// A strong reference that is cloned and then released leaves the counts as
/// they were, and does not free the object.
pub proof fn lemma_clone_then_release(before: RefCount, mid: RefCount, after: RefCount, free: bool)
    requires
        before.strong() > 0,
        mid.strong() == before.strong() + 1,
        mid.weak() == before.weak(),
        after.strong() == mid.strong() - 1,
        after.weak() == mid.weak(),
        free == (after.strong() == 0),
    ensures
        after.strong() == before.strong(),
        after.weak() == before.weak(),
        !free,
{
}

} // verus!
