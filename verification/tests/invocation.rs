use red4ext_rs::cname::CName;
use red4ext_rs::invocable::{
    check_invocation, invoke, invoke_failure_message, validate_invocation, FunctionSignature,
    InvokeError, RttiType,
};
use red4ext_rs::rtti::registration_result;
use red4ext_rs::types::{IScriptable, RefShared, StackArg};

fn ty(addr: usize, name: &'static str) -> RttiType {
    RttiType {
        addr,
        name: CName::new(name),
        text: name,
    }
}

fn signature(params: Vec<Option<RttiType>>, ret: Option<RttiType>) -> FunctionSignature {
    FunctionSignature { params, ret }
}

fn args(types: &[usize]) -> Vec<StackArg> {
    types.iter().map(|&t| StackArg::new(t, 0x1000)).collect()
}

#[test]
fn argument_count_must_match() {
    let f = signature(vec![Some(ty(1, "Int32")), Some(ty(2, "Float"))], None);
    assert_eq!(
        validate_invocation(&args(&[1]), CName::new("Void"), &f),
        Err(InvokeError::InvalidArgCount { given: 1, expected: 2 })
    );
}

#[test]
fn argument_types_must_match() {
    let f = signature(vec![Some(ty(1, "Int32")), Some(ty(2, "Float"))], None);
    assert_eq!(
        validate_invocation(&args(&[1, 3]), CName::new("Void"), &f),
        Err(InvokeError::ArgMismatch { expected: "Float", index: 1 })
    );
    let broken = signature(vec![None, Some(ty(2, "Float"))], None);
    assert_eq!(
        validate_invocation(&args(&[9, 9]), CName::new("Void"), &broken),
        Err(InvokeError::InvalidFunction)
    );
    // the first failing parameter decides
    let f2 = signature(vec![Some(ty(1, "Int32")), None], None);
    assert_eq!(
        validate_invocation(&args(&[5, 2]), CName::new("Void"), &f2),
        Err(InvokeError::ArgMismatch { expected: "Int32", index: 0 })
    );
}

#[test]
fn return_type_must_match() {
    let f = signature(vec![Some(ty(1, "Int32"))], Some(ty(7, "Bool")));
    assert_eq!(validate_invocation(&args(&[1]), CName::new("Bool"), &f), Ok(()));
    assert_eq!(
        validate_invocation(&args(&[1]), CName::new("Int32"), &f),
        Err(InvokeError::ReturnMismatch { expected: "Bool" })
    );
    let void = signature(vec![], None);
    assert_eq!(validate_invocation(&[], CName::new("Void"), &void), Ok(()));
    assert_eq!(
        validate_invocation(&[], CName::new("Int32"), &void),
        Err(InvokeError::ReturnMismatch { expected: "Void" })
    );
}

#[test]
fn missing_function_is_reported() {
    assert_eq!(
        check_invocation(None, &[], CName::new("Void")),
        Err(InvokeError::FunctionNotFound)
    );
    let f = signature(vec![], None);
    assert_eq!(check_invocation(Some(&f), &[], CName::new("Void")), Ok(()));
}

#[test]
fn error_messages() {
    assert_eq!(InvokeError::FunctionNotFound.message(), "function not found");
    assert_eq!(InvokeError::InvalidFunction.message(), "function is not valid");
    assert_eq!(
        InvokeError::InvalidArgCount { given: 1, expected: 12 }.message(),
        "expected 12 arguments, but 1 given"
    );
    assert_eq!(
        InvokeError::ArgMismatch { expected: "Float", index: 3 }.message(),
        "expected Float argument at index 3"
    );
    assert_eq!(
        InvokeError::ReturnMismatch { expected: "Bool" }.message(),
        "return type mismatch, expected Bool"
    );
    assert_eq!(
        invoke_failure_message("Max", &InvokeError::FunctionNotFound),
        "failed to invoke Max: function not found"
    );
}

#[test]
fn failed_bindings() {
    assert!(registration_result(vec![]).is_ok());
    let err = registration_result(vec![1, 30]).unwrap_err();
    assert_eq!(
        err.message(),
        "failed to bind arguments at indexes: 1 30, this is only an issue if you don't define this function in redscript"
    );
}

#[test]
fn calls_run_only_when_they_fit() {
    let this: RefShared<IScriptable> = RefShared::from_addresses(0x500, 0x600);
    let f = signature(vec![Some(ty(1, "Int32"))], Some(ty(7, "Int32")));
    let call_args = args(&[1]);
    let mut seen = None;
    let res: Result<i32, InvokeError> =
        invoke(this.clone(), Some(&f), &call_args, |receiver: usize, given: &[StackArg], slot: i32| {
            seen = Some((receiver, given.len(), given[0].inner_type()));
            slot + 42
        });
    assert_eq!(res, Ok(42));
    assert_eq!(seen, Some((0x500, 1, 1)));

    let mut ran = false;
    let res: Result<bool, InvokeError> =
        invoke(this.clone(), Some(&f), &call_args, |_: usize, _: &[StackArg], slot: bool| {
            ran = true;
            slot
        });
    assert_eq!(res, Err(InvokeError::ReturnMismatch { expected: "Int32" }));
    assert!(!ran);

    let res: Result<i32, InvokeError> =
        invoke(this.clone(), None, &[], |_: usize, _: &[StackArg], slot: i32| slot);
    assert_eq!(res, Err(InvokeError::FunctionNotFound));
    let wrong = args(&[2]);
    let res: Result<i32, InvokeError> =
        invoke(this.clone(), Some(&f), &wrong, |_: usize, _: &[StackArg], slot: i32| slot);
    assert_eq!(res, Err(InvokeError::ArgMismatch { expected: "Int32", index: 0 }));
    let void = signature(vec![], None);
    let res: Result<(), InvokeError> =
        invoke(RefShared::null(), Some(&void), &[], |_: usize, _: &[StackArg], slot: ()| slot);
    assert_eq!(res, Ok(()));
}
