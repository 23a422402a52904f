use red4ext_rs::cname::CName;
use red4ext_rs::class::{ClassKind, ClassType, Native, ScriptClass};
use red4ext_rs::downcast::{Downcast, FromTypedRef, IntoTypedRef, TypedRef};
use red4ext_rs::export::{ExportList, ExportNil, Exportable};
use red4ext_rs::plugin::{Hook, SemVer, StateListener, StateType, Version};
use red4ext_rs::types::{
    Color, IScriptable, ItemId, MaybeUninitRef, PtrEq, RedArray, Ref, RefCount, RefShared, Variant, WRef,
};

#[test]
fn arrays_keep_their_elements_in_order() {
    let empty: RedArray<u8> = RedArray::with_capacity(4);
    assert!(empty.as_slice().is_empty());
    let arr = RedArray::from_sized_iter(vec![1, 2, 3]);
    assert_eq!(arr.as_slice(), &[1, 2, 3]);
    assert_eq!(arr.iter().copied().collect::<Vec<_>>(), vec![1, 2, 3]);
    let mut it = arr.into_iter();
    assert_eq!(it.next(), Some(1));
    assert_eq!(it.next(), Some(2));
    assert_eq!(it.next(), Some(3));
    assert_eq!(it.next(), None);
    assert_eq!(it.next(), None);
}

#[test]
fn references() {
    let null: MaybeUninitRef<IScriptable> = MaybeUninitRef::default();
    assert!(null.into_ref().is_none());
    let shared: RefShared<IScriptable> = RefShared::from_addresses(0x10, 0x20);
    let r = MaybeUninitRef::new(shared.clone()).into_ref().unwrap();
    assert_eq!(Ref::as_shared(&r).as_ptr(), 0x10);
    let w = Ref::downgrade(&r);
    let _ = w.clone();
    assert!(shared.ptr_eq(&RefShared::from_addresses(0x10, 0x99)));
    assert!(!shared.ptr_eq(&RefShared::null()));
    assert_eq!(shared.as_scriptable().count_ptr(), 0x20);
    let _: WRef<IScriptable> = WRef::null();
}

#[test]
fn variants() {
    let mut v = Variant::from_raw(0x40, [7u8; 16]);
    assert_eq!(v.get_type(), 0x40);
    assert_eq!(v.try_take_raw(Some(CName::new("Int32")), CName::new("Bool")), None);
    assert_eq!(v.get_type(), 0x40);
    assert_eq!(v.try_take_raw(None, CName::new("Bool")), None);
    assert_eq!(v.try_take_raw(Some(CName::new("Bool")), CName::new("Bool")), Some([7u8; 16]));
    assert_eq!(v.get_type(), 0);
    assert_eq!(Variant::undefined().get_type(), 0);
}

#[test]
fn plain_values() {
    let c = Color::new(1, 2, 3, 4);
    assert_eq!((c.red, c.green, c.blue, c.alpha), (1, 2, 3, 4));
    let v = SemVer::new(1, 2, 3);
    assert_eq!((v.major, v.minor, v.patch, v.prerelease.kind, v.prerelease.number), (1, 2, 3, 0, 0));
    let p = Version::new(0, 1, 0);
    assert_eq!((p.major, p.minor, p.patch), (0, 1, 0));
    assert_eq!(StateType::BaseInitialization.id(), 0);
    assert_eq!(StateType::Initialization.id(), 1);
    assert_eq!(StateType::Running.id(), 2);
    assert_eq!(StateType::Shutdown.id(), 3);
}

struct Counter(std::cell::Cell<u32>);

impl Exportable for &Counter {
    fn register(&self) {
        self.0.set(self.0.get() + 1);
    }

    fn post_register(&self) {
        self.0.set(self.0.get() + 10);
    }
}

#[test]
fn export_lists_register_every_entry() {
    let a = Counter(std::cell::Cell::new(0));
    let b = Counter(std::cell::Cell::new(0));
    let list = ExportList::new(&a, ExportList::new(&b, ExportNil));
    list.register();
    list.post_register();
    assert_eq!(a.0.get(), 11);
    assert_eq!(b.0.get(), 11);
}

struct Base(TypedRef<Base>);
struct Derived(Ref<IScriptable>);

impl FromTypedRef<Base> for Base {
    fn from_typed_ref(reference: TypedRef<Base>) -> Self {
        Base(reference)
    }
}

impl IntoTypedRef<Base> for Derived {
    fn into_typed_ref(self) -> TypedRef<Base> {
        TypedRef::new(self.0)
    }
}

#[test]
fn downcasting_keeps_the_object() {
    let r = MaybeUninitRef::new(RefShared::<IScriptable>::from_addresses(0x55, 0x66))
        .into_ref()
        .unwrap();
    let base: Base = Derived(r).downcast();
    let inner = base.0.into_inner();
    assert_eq!(Ref::as_shared(&inner).as_ptr(), 0x55);
}

#[test]
fn reference_counting() {
    let mut count = RefCount::new(1, 1);
    let r = MaybeUninitRef::new(RefShared::<IScriptable>::from_addresses(0x10, 0x20))
        .into_ref()
        .unwrap();
    let r2 = Ref::clone_counted(&r, &mut count);
    assert_eq!(count.strong_refs(), 2);
    let w = Ref::downgrade(&r2);
    assert!(!Ref::release(r2, &mut count));
    assert_eq!(count.strong_refs(), 1);
    let w2 = w.clone();
    let up = w.upgrade(&mut count).unwrap();
    assert_eq!(count.strong_refs(), 2);
    assert!(!Ref::release(up, &mut count));
    assert!(Ref::release(r, &mut count));
    assert_eq!(count.strong_refs(), 0);
    assert!(w2.upgrade(&mut count).is_none());
    assert_eq!(count.strong_refs(), 0);
}

#[test]
fn arrays_can_be_changed_in_place() {
    let mut arr = RedArray::from_sized_iter(vec![5u32, 6, 7]);
    {
        let slice = arr.as_mut_slice();
        slice[1] = 60;
        slice[2] += 1;
    }
    assert_eq!(arr.as_slice(), &[5, 60, 8]);
}

#[test]
fn hooks_keep_their_original_and_slots() {
    let hook: Hook<fn(u32) -> u32, u32> = Hook::new(|x| x + 1, 0x1000, 0x2000);
    assert_eq!((hook.original())(41), 42);
    assert_eq!(hook.slots(), (0x1000, 0x2000));
}

#[test]
fn variants_are_taken_by_native_type_name() {
    fn int32(b: [u8; 16]) -> i32 {
        i32::from_le_bytes([b[0], b[1], b[2], b[3]])
    }
    let mut bytes = [0u8; 16];
    bytes[..4].copy_from_slice(&5i32.to_le_bytes());
    let mut v = Variant::from_raw(0x40, bytes);
    assert_eq!(v.try_take::<i64, _>(Some(CName::new("Int32")), |b: [u8; 16]| int32(b) as i64), None);
    assert_eq!(v.get_type(), 0x40);
    assert_eq!(v.try_take::<i32, _>(None, int32), None);
    assert_eq!(v.try_take::<i32, _>(Some(CName::new("Int32")), int32), Some(5));
    assert_eq!(v.get_type(), 0);
    let mut item = Variant::from_raw(0x50, [9u8; 16]);
    let read_item = |b: [u8; 16]| ItemId { rng_seed: u32::from(b[0]), ..ItemId::default() };
    assert_eq!(item.try_take::<ItemId, _>(Some(CName::new("ItemID")), read_item), None);
    let taken = item.try_take::<ItemId, _>(Some(CName::new("gameItemID")), read_item).unwrap();
    assert_eq!(taken.rng_seed, 9);
}

#[test]
fn state_listeners_collect_their_callbacks() {
    let none: StateListener<u32> = StateListener::default();
    assert_eq!(none.callbacks(), (&None, &None, &None));
    let l = StateListener::default().with_on_enter(1u32).with_on_exit(3);
    assert_eq!(l.callbacks(), (&Some(1), &None, &Some(3)));
    let l = l.with_on_update(2).with_on_enter(4);
    assert_eq!(l.callbacks(), (&Some(4), &Some(2), &Some(3)));
}

#[derive(Debug, Clone, PartialEq)]
struct ScanningEvent {
    state: u8,
}

impl ScriptClass for ScanningEvent {
    type Kind = Native;

    fn class_name() -> String {
        "gameScanningEvent".to_string()
    }
}

#[test]
fn native_classes_are_their_own_fields() {
    assert_eq!(ScanningEvent::class_name(), "gameScanningEvent");
    let mut inst = ScanningEvent { state: 0 };
    assert_eq!(<Native as ClassKind<ScanningEvent>>::fields(&inst).state, 0);
    <Native as ClassKind<ScanningEvent>>::fields_mut(&mut inst).state = 1;
    assert_eq!(inst, ScanningEvent { state: 1 });
}

struct PlayerPuppet;

impl ClassType for PlayerPuppet {
    type BaseClass = IScriptable;
}

#[test]
fn upcasts_keep_the_object() {
    let shared: RefShared<PlayerPuppet> = RefShared::from_addresses(0x10, 0x20);
    let r = MaybeUninitRef::new(shared).into_ref().unwrap();
    let w = Ref::downgrade(&r);
    let base: Ref<IScriptable> = Ref::upcast(r);
    assert_eq!(Ref::as_shared(&base).as_ptr(), 0x10);
    assert_eq!(Ref::as_shared(&base).count_ptr(), 0x20);
    let wbase: WRef<IScriptable> = w.upcast();
    let mut count = RefCount::new(1, 1);
    let again = wbase.upgrade(&mut count).unwrap();
    assert_eq!(Ref::as_shared(&again).as_ptr(), 0x10);
    assert_eq!(count.strong_refs(), 2);
}

#[test]
fn a_run_of_next_yields_each_element_then_none() {
    let mut it = RedArray::from_sized_iter(vec!['a', 'b']).into_iter();
    let got: Vec<Option<char>> = (0..4).map(|_| it.next()).collect();
    assert_eq!(got, vec![Some('a'), Some('b'), None, None]);
}
