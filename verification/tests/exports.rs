use red4ext_rs::cname::CName;
use red4ext_rs::export::{ClassExport, GlobalExport};
use red4ext_rs::invocable::{FunctionFlags, GlobalMetadata, MethodMetadata};
use red4ext_rs::types::ItemId;

fn add2(a: i32) -> i32 {
    a + 2
}

fn greet(name: String, times: u8) -> Vec<String> {
    vec![name; times as usize]
}

#[derive(Debug, Default)]
struct MyClass {
    value: i32,
}

impl MyClass {
    fn value(&self) -> i32 {
        self.value
    }

    fn set_value(&self, _value: i32) {}

    fn on_initialize(&self) {}
}

#[test]
fn global_functions_carry_their_signature() {
    let g = GlobalMetadata::new("Add2", 7u32, &add2);
    assert_eq!(g.name(), "Add2");
    assert_eq!(*g.func(), 7);
    assert_eq!(g.fn_type().args(), &[CName::new("Int32")]);
    assert_eq!(g.fn_type().ret(), CName::new("Int32"));
    assert_eq!(
        g.flags(),
        FunctionFlags { is_native: true, is_final: true, is_static: true, is_event: false }
    );
    assert_eq!(add2(1), 3);

    let g = GlobalMetadata::new("Greet", (), &greet);
    assert_eq!(g.fn_type().args(), &[CName::new("String"), CName::new("Uint8")]);
    assert_eq!(g.fn_type().ret(), CName::new("array:String"));
    assert_eq!(greet("a".to_string(), 2), vec!["a", "a"]);

    // the redscript name of a type is used, not its native name
    let g = GlobalMetadata::new("Same", (), &|i: ItemId| i);
    assert_eq!(g.fn_type().args(), &[CName::new("ItemID")]);
    let unit = GlobalMetadata::new("Nothing", (), &|| ());
    assert!(unit.fn_type().args().is_empty());
    assert_eq!(unit.fn_type().ret(), CName::new("Void"));
}

#[test]
fn methods_leave_their_receiver_out() {
    let m = MethodMetadata::<MyClass, u32>::new("SetValue", 1, &MyClass::set_value);
    assert_eq!(m.name(), "SetValue");
    assert_eq!(*m.func(), 1);
    assert_eq!(m.fn_type().args(), &[CName::new("Int32")]);
    assert_eq!(m.fn_type().ret(), CName::new("Void"));
    assert_eq!(
        m.flags(),
        FunctionFlags { is_native: true, is_final: false, is_static: false, is_event: false }
    );
    let v = MethodMetadata::<MyClass, u32>::new("GetValue", 2, &MyClass::value).with_is_final();
    assert!(v.fn_type().args().is_empty());
    assert_eq!(v.fn_type().ret(), CName::new("Int32"));
    assert_eq!(
        v.flags(),
        FunctionFlags { is_native: true, is_final: true, is_static: false, is_event: false }
    );
    let e = MethodMetadata::<MyClass, u32>::new("OnInitialize", 3, &MyClass::on_initialize)
        .with_is_event()
        .with_is_final();
    assert_eq!(
        e.flags(),
        FunctionFlags { is_native: true, is_final: true, is_static: false, is_event: true }
    );
    assert_eq!(MyClass::default().value(), 0);
}

#[test]
fn class_exports_are_built_step_by_step() {
    let methods: &'static [MethodMetadata<MyClass, u32>] = Box::leak(
        vec![
            MethodMetadata::new("GetValue", 1, &MyClass::value),
            MethodMetadata::new("SetValue", 2, &MyClass::set_value),
        ]
        .into_boxed_slice(),
    );
    let bare = ClassExport::<MyClass, u32>::builder().build();
    assert_eq!(bare.base(), None);
    assert!(bare.methods().is_empty());
    let class = ClassExport::<MyClass, u32>::builder()
        .base("IScriptable")
        .methods(methods)
        .build();
    assert_eq!(class.base(), Some("IScriptable"));
    assert_eq!(class.methods().len(), 2);
    assert_eq!(class.methods()[1].name(), "SetValue");
    let global = GlobalExport(GlobalMetadata::new("Add2", 0u8, &add2));
    assert_eq!(global.0.name(), "Add2");
}
