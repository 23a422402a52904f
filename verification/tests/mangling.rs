use red4ext_rs::mangle::{
    check_import, check_parameters, forwarder, forwarder_call, generate_name, import_items,
    redscript_import, script_name, CallTarget, DeclarationError, FunctionAttrs, ImportItem, Imported,
    ParamShape, SelfType,
};

fn attrs(name: Option<&str>, native: bool, cb: bool, operator: bool) -> FunctionAttrs {
    FunctionAttrs {
        name: name.map(String::from),
        full_name: None,
        native,
        cb,
        operator,
    }
}

#[test]
fn names_come_from_identifiers() {
    assert_eq!(script_name("get_display_name", &attrs(None, false, false, false)), "GetDisplayName");
    assert_eq!(script_name("to_float", &attrs(None, true, false, false)), "ToFloat");
    assert_eq!(script_name("x", &attrs(Some("GetClass"), true, false, false)), "GetClass");
    let full = FunctionAttrs {
        full_name: Some("Full;Name".to_string()),
        ..attrs(Some("Short"), false, false, false)
    };
    assert_eq!(script_name("x", &full), "Full;Name");
}

#[test]
fn operator_names_include_types() {
    let args = vec!["Uint32".to_string(), "Uint32".to_string()];
    assert_eq!(
        generate_name("OperatorAdd", false, None, &args, Some("Uint32"), &attrs(Some("OperatorAdd"), false, false, true)),
        "OperatorAdd;Uint32Uint32;Uint32"
    );
}

#[test]
fn scripted_and_native_calls() {
    // a scripted instance method
    assert_eq!(
        forwarder_call("get_unlocked_vehicles_size", true, Some("PlayerPuppet"), &[], Some("Int32"), &attrs(None, false, false, false)),
        CallTarget::Method { signature: "GetUnlockedVehiclesSize;".to_string() }
    );
    // a native instance method
    assert_eq!(
        forwarder_call("get_display_name", true, Some("PlayerPuppet"), &[], Some("String"), &attrs(None, true, false, false)),
        CallTarget::Method { signature: "GetDisplayName".to_string() }
    );
    // a scripted static method
    assert_eq!(
        forwarder_call("can_apply_breathing_effect", false, Some("PlayerPuppet"), &["PlayerPuppet".to_string()], Some("Bool"), &attrs(None, false, false, false)),
        CallTarget::Global { signature: "PlayerPuppet::CanApplyBreathingEffect;PlayerPuppet".to_string() }
    );
    // a native static method
    assert_eq!(
        forwarder_call("to_float", false, Some("EngineTime"), &["EngineTime".to_string()], Some("Float"), &attrs(None, true, false, false)),
        CallTarget::Static { class: "EngineTime".to_string(), name: "ToFloat".to_string() }
    );
    // a native global function
    assert_eq!(
        forwarder_call("get_all_blackboard_defs", false, None, &[], None, &attrs(None, true, false, false)),
        CallTarget::Global { signature: "GetAllBlackboardDefs".to_string() }
    );
    // a callback keeps its plain name
    assert_eq!(
        forwarder_call("on_attach", true, Some("Controller"), &["Int32".to_string()], None, &attrs(None, false, true, false)),
        CallTarget::Method { signature: "OnAttach".to_string() }
    );
}

#[test]
fn imports_need_a_plain_type() {
    assert_eq!(check_import(true, true, true), Err(DeclarationError::TraitImpl));
    assert_eq!(check_import(false, false, false), Err(DeclarationError::NotAPath));
    assert_eq!(check_import(false, true, false), Err(DeclarationError::NotATypeIdentifier));
    assert_eq!(check_import(false, true, true), Ok(()));
    assert_eq!(DeclarationError::TraitImpl.message(), "Cannot import a trait impl");
    assert_eq!(DeclarationError::NotAPath.message(), "Expected a path");
    assert_eq!(DeclarationError::NotATypeIdentifier.message(), "Expected a type identifier");
    assert_eq!(
        DeclarationError::NotPlainParameter.message(),
        "Only plain parameters are supported"
    );
}

#[test]
fn parameters_must_be_plain() {
    assert_eq!(check_parameters(&[ParamShape::Receiver, ParamShape::Plain, ParamShape::Plain]), Ok(()));
    assert_eq!(check_parameters(&[]), Ok(()));
    assert_eq!(check_parameters(&[ParamShape::Plain, ParamShape::Pattern]), Err(DeclarationError::NotPlainParameter));
    let a = attrs(None, false, false, false);
    assert_eq!(
        forwarder("set_value", &[ParamShape::Receiver, ParamShape::Pattern], Some("Item"), &["Int32".to_string()], None, &a),
        Err(DeclarationError::NotPlainParameter)
    );
    assert_eq!(
        forwarder("set_value", &[ParamShape::Receiver, ParamShape::Plain], Some("Item"), &["Int32".to_string()], None, &a),
        Ok(CallTarget::Method { signature: "SetValue;Int32".to_string() })
    );
    assert_eq!(
        forwarder("create", &[ParamShape::Plain], Some("Items"), &["Int32".to_string()], None, &a),
        Ok(CallTarget::Global { signature: "Items::Create;Int32".to_string() })
    );
}

fn items() -> Vec<ImportItem<&'static str>> {
    vec![
        ImportItem::Function {
            ident: "get_display_name".to_string(),
            params: vec![ParamShape::Receiver],
            args: vec![],
            ret: Some("String".to_string()),
            attrs: attrs(None, true, false, false),
        },
        ImportItem::Other("const LIMIT: u32 = 3;"),
        ImportItem::Function {
            ident: "can_apply_breathing_effect".to_string(),
            params: vec![ParamShape::Plain],
            args: vec!["PlayerPuppet".to_string()],
            ret: Some("Bool".to_string()),
            attrs: attrs(None, false, false, false),
        },
        ImportItem::Function {
            ident: "odd".to_string(),
            params: vec![ParamShape::Receiver, ParamShape::Pattern],
            args: vec!["Int32".to_string()],
            ret: None,
            attrs: attrs(None, false, false, false),
        },
        ImportItem::Other("type Alias = u8;"),
    ]
}

#[test]
fn imported_items_become_forwarders_in_order() {
    let expected = vec![
        Imported::Forwarder(Ok(CallTarget::Method { signature: "GetDisplayName".to_string() })),
        Imported::Kept("const LIMIT: u32 = 3;"),
        Imported::Forwarder(Ok(CallTarget::Global {
            signature: "PlayerPuppet::CanApplyBreathingEffect;PlayerPuppet".to_string(),
        })),
        Imported::Forwarder(Err(DeclarationError::NotPlainParameter)),
        Imported::Kept("type Alias = u8;"),
    ];
    assert_eq!(import_items("PlayerPuppet", items()), expected);
    assert_eq!(
        redscript_import(false, SelfType::Ident("PlayerPuppet".to_string()), items()),
        Ok(expected)
    );
    assert_eq!(
        redscript_import(true, SelfType::Ident("PlayerPuppet".to_string()), items()),
        Err(DeclarationError::TraitImpl)
    );
    assert_eq!(redscript_import(false, SelfType::Path, items()), Err(DeclarationError::NotATypeIdentifier));
    assert_eq!(redscript_import(false, SelfType::Other, items()), Err(DeclarationError::NotAPath));
    let empty: Vec<ImportItem<u8>> = vec![];
    assert_eq!(import_items("X", empty), vec![]);
}
