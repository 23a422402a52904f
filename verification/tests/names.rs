use red4ext_rs::cname::CName;
use red4ext_rs::conv::{into_type_and_repr, FromRepr, IntoRepr, NativeRepr};
use red4ext_rs::hash::{fnv1a32, fnv1a64};
use red4ext_rs::interop::{self, IntoRED};
use red4ext_rs::invocable::{get_invocable_types, get_native_cname};
use red4ext_rs::types::{IScriptable, ItemId, MaybeUninitRef, RedArray, RedString, Ref, ScriptRef, WRef};

#[test]
fn conv_render_type_names() {
    assert_eq!(
        <<Vec<Vec<Vec<i32>>> as IntoRepr>::Repr as NativeRepr>::name(),
        "array:array:array:Int32"
    );
    assert_eq!(
        <<Vec<Ref<IScriptable>> as IntoRepr>::Repr as NativeRepr>::name(),
        "array:handle:IScriptable"
    );
    assert_eq!(
        <<Vec<Ref<IScriptable>> as IntoRepr>::Repr as NativeRepr>::mangled_name(),
        "array<IScriptable>"
    );
    assert_eq!(
        <<Vec<ItemId> as IntoRepr>::Repr as NativeRepr>::native_name(),
        "array:gameItemID"
    );
}

#[test]
fn interop_render_type_names() {
    assert_eq!(<Vec<Vec<Vec<i32>>> as IntoRED>::name(), "array:array:array:Int32");
    assert_eq!(
        <Vec<interop::Ref<IScriptable>> as IntoRED>::name(),
        "array:ref:IScriptable"
    );
}

#[test]
fn calculate_hashes() {
    assert_eq!(CName::new("IScriptable").hash(), 3191163302135919211);
    assert_eq!(CName::new("Vector2").hash(), 7466804955052523504);
    assert_eq!(CName::new("Color").hash(), 3769135706557701272);
}

#[test]
fn fnv_reference_values() {
    // published FNV-1a test vectors
    assert_eq!(fnv1a64(""), 0xcbf29ce484222325);
    assert_eq!(fnv1a64("a"), 0xaf63dc4c8601ec8c);
    assert_eq!(fnv1a64("foobar"), 0x85944171f73967e8);
    assert_eq!(fnv1a32(""), 0x811c9dc5);
    assert_eq!(fnv1a32("a"), 0xe40c292c);
    assert_eq!(fnv1a32("foobar"), 0xbf9cf968);
    assert_eq!(CName::new("a").hash(), fnv1a64("a"));
    assert_eq!(CName::from_bytes(b"foobar"), CName::new("foobar"));
}

#[test]
fn native_names_of_wrappers() {
    assert_eq!(<WRef<IScriptable> as NativeRepr>::name(), "whandle:IScriptable");
    assert_eq!(<MaybeUninitRef<ItemId> as NativeRepr>::native_name(), "handle:gameItemID");
    assert_eq!(<MaybeUninitRef<ItemId> as NativeRepr>::mangled_name(), "ItemID");
    assert_eq!(<ScriptRef<'static, RedString> as NativeRepr>::name(), "script_ref:String");
    assert_eq!(
        <ScriptRef<'static, RedArray<u8>> as NativeRepr>::mangled_name(),
        "script_ref<array<Uint8>>"
    );
    assert_eq!(<() as NativeRepr>::name(), "Void");
    assert_eq!(<red4ext_rs::res::ResRef as NativeRepr>::native_name(), "redResourceReferenceScriptToken");
    assert_eq!(<<String as IntoRepr>::Repr as NativeRepr>::name(), "String");
}

#[test]
fn signature_names_fall_back_to_iscriptable() {
    assert_eq!(get_native_cname::<MaybeUninitRef<ItemId>>(), CName::new("handle:IScriptable"));
    assert_eq!(get_native_cname::<WRef<ItemId>>(), CName::new("whandle:IScriptable"));
    assert_eq!(get_native_cname::<RedArray<ItemId>>(), CName::new("array:gameItemID"));
    assert_eq!(get_native_cname::<i32>(), CName::new("Int32"));
}

#[test]
fn invocable_types() {
    fn add(a: i32, b: Vec<String>) -> Ref<IScriptable> {
        let _ = (a, b);
        unreachable!()
    }
    let t = get_invocable_types(&add);
    assert_eq!(t.args(), &[CName::new("Int32"), CName::new("array:String")]);
    assert_eq!(t.ret(), CName::new("handle:IScriptable"));
    let unit = get_invocable_types(&|| ());
    assert!(unit.args().is_empty());
    assert_eq!(unit.ret(), CName::new("Void"));
}

#[test]
fn conversions_round_trip() {
    let repr = IntoRepr::into_repr(vec![String::from("a"), String::from("bc")]);
    assert_eq!(repr.as_slice().len(), 2);
    assert_eq!(repr.as_slice()[1].as_str(), "bc");
    let back: Vec<String> = FromRepr::from_repr(&repr);
    assert_eq!(back, vec!["a".to_string(), "bc".to_string()]);
    let n: i32 = FromRepr::from_repr(&7i32);
    assert_eq!(n, 7);
}

#[test]
fn slices_are_converted_element_by_element() {
    let ints: &[i32] = &[4, 5, 6];
    let repr: RedArray<i32> = IntoRepr::into_repr(ints);
    assert_eq!(repr.as_slice(), &[4, 5, 6]);
    let strings: &[&str] = &["x", "yz"];
    let repr: RedArray<RedString> = IntoRepr::into_repr(strings);
    let texts: Vec<&str> = repr.as_slice().iter().map(|s| s.as_str()).collect();
    assert_eq!(texts, vec!["x", "yz"]);
    let empty: &[u8] = &[];
    let repr: RedArray<u8> = IntoRepr::into_repr(empty);
    assert!(repr.as_slice().is_empty());
}

#[test]
fn values_are_passed_with_the_type_found_by_native_name() {
    let mut asked = Vec::new();
    let (typ, repr) = into_type_and_repr(
        |name: CName| {
            asked.push(name);
            if name == CName::new("gameItemID") { 0x77 } else { 0 }
        },
        ItemId::default(),
    );
    assert_eq!(typ, 0x77);
    assert_eq!(repr.rng_seed, 0);
    assert_eq!(asked, vec![CName::new("gameItemID")]);
    let (typ, repr) = into_type_and_repr(|name: CName| name.hash() as usize, 5i32);
    assert_eq!(typ, CName::new("Int32").hash() as usize);
    assert_eq!(repr, 5);
}

#[test]
fn script_refs_reach_their_variable() {
    let mut x: i32 = 3;
    {
        let mut r = ScriptRef::new(&mut x, |name: CName| {
            assert_eq!(name, CName::new("Int32"));
            0x40
        });
        assert_eq!(*r.as_inner(), 3);
        *r.as_inner_mut() = 9;
    }
    assert_eq!(x, 9);
}

#[test]
fn vectors_of_plain_values_round_trip() {
    let repr: RedArray<i32> = IntoRepr::into_repr(vec![3, 1, 2]);
    let back: Vec<i32> = FromRepr::from_repr(&repr);
    assert_eq!(back, vec![3, 1, 2]);
}
