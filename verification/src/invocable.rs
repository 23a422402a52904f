//! Calling functions of the game: the names of the types in a function's
//! signature, and the checks made before a call is executed.
use core::marker::PhantomData;
use vstd::prelude::*;
use vstd::utf8::encode_utf8;

use crate::cname::CName;
use crate::conv::{native_cname_of, FromRepr, IntoRepr, NativeRepr};
use crate::hash::spec_fnv1a64;
use crate::text::{decimal, push_decimal};
use crate::types::{IScriptable, RefShared, StackArg};

verus! {

/// Why a call of a game function was refused.
#[allow(inconsistent_fields)]
#[derive(Debug, Clone, Copy, PartialEq, Eq)]
pub enum InvokeError {
    /// No function was found under the name.
    FunctionNotFound,
    /// The function's signature names a type that does not exist.
    InvalidFunction,
    /// The number of arguments does not match the function's parameters.
    InvalidArgCount { given: usize, expected: usize },
    /// An argument's type does not match the parameter at `index`.
    ArgMismatch { expected: &'static str, index: usize },
    /// The function's return type is not the one expected by the caller;
    /// `expected` names the function's return type.
    ReturnMismatch { expected: &'static str },
}

/// What the game's RTTI tells of a type: its address, its name, and the
/// text of that name.
#[derive(Debug, Clone, Copy)]
pub struct RttiType {
    pub addr: usize,
    pub name: CName,
    pub text: &'static str,
}

/// The signature of a game function, as its RTTI describes it: the type of
/// each parameter and the return type, `None` where the RTTI holds no type.
#[derive(Debug)]
pub struct FunctionSignature {
    pub params: Vec<Option<RttiType>>,
    pub ret: Option<RttiType>,
}

/// The first error among the arguments from index `i` on, if any: a
/// parameter without a type, or an argument whose type is not the
/// parameter's.
pub open spec fn spec_arg_error(params: Seq<Option<RttiType>>, args: Seq<usize>, i: int) -> Option<
    InvokeError,
>
    decreases params.len() - i,
{
    if i < 0 || i >= params.len() || i >= args.len() {
        None
    } else {
        match params[i] {
            None => Some(InvokeError::InvalidFunction),
            Some(t) => if t.addr != args[i] {
                Some(InvokeError::ArgMismatch { expected: t.text, index: i as usize })
            } else {
                spec_arg_error(params, args, i + 1)
            },
        }
    }
}

/// The addresses of the types of the arguments.
pub open spec fn arg_types(args: Seq<StackArg>) -> Seq<usize> {
    args.map_values(|a: StackArg| a.spec_type())
}

/// Whether a call with arguments of the types at addresses `args`,
/// expecting a result of the type whose name hashes to `native_return_type`,
/// fits a function with the signature `params` and `ret`.
pub open spec fn spec_validate_invocation(
    args: Seq<usize>,
    native_return_type: u64,
    params: Seq<Option<RttiType>>,
    ret: Option<RttiType>,
) -> Result<(), InvokeError> {
    if params.len() != args.len() {
        Err(InvokeError::InvalidArgCount { given: args.len() as usize, expected: params.len() as usize })
    } else if spec_arg_error(params, args, 0) is Some {
        Err(spec_arg_error(params, args, 0).unwrap())
    } else {
        match ret {
            Some(actual) => if actual.name@ == native_return_type {
                Ok(())
            } else {
                Err(InvokeError::ReturnMismatch { expected: actual.text })
            },
            None => if native_return_type == spec_fnv1a64(void_bytes()) {
                Ok(())
            } else {
                Err(InvokeError::ReturnMismatch { expected: "Void" })
            },
        }
    }
}

/// The bytes of `Void`.
pub open spec fn void_bytes() -> Seq<u8> {
    seq![0x56u8, 0x6Fu8, 0x69u8, 0x64u8]
}

/// An argument whose type is at address `a` fits the parameter `p` when the
/// parameter has a type and it is at that same address.
pub open spec fn param_fits(p: Option<RttiType>, a: usize) -> bool {
    p matches Some(t) && t.addr == a
}

/// A result expected of the type whose name hashes to `r` fits the return
/// type `ret` when that type has this name, or, where the function returns
/// nothing, when the expected type is `Void`.
pub open spec fn return_fits(ret: Option<RttiType>, r: u64) -> bool {
    match ret {
        Some(t) => t.name@ == r,
        None => r == spec_fnv1a64(void_bytes()),
    }
}

/// The parameter at `index` has a type, described by `expected`, that is
/// not the type of the argument at `index`.
pub open spec fn mismatch_at(
    params: Seq<Option<RttiType>>,
    args: Seq<usize>,
    index: int,
    expected: &'static str,
) -> bool {
    params[index] matches Some(t) && t.addr != args[index] && t.text == expected
}

proof fn lemma_arg_error_none(params: Seq<Option<RttiType>>, args: Seq<usize>, i: int)
    requires
        params.len() == args.len(),
        params.len() <= usize::MAX,
        0 <= i <= params.len(),
    ensures
        spec_arg_error(params, args, i) is None <==> forall|j: int|
            i <= j < params.len() ==> #[trigger] param_fits(params[j], args[j]),
    decreases params.len() - i,
{
    if i < params.len() {
        lemma_arg_error_none(params, args, i + 1);
        if param_fits(params[i], args[i]) {
            assert(spec_arg_error(params, args, i) == spec_arg_error(params, args, i + 1));
            if spec_arg_error(params, args, i) is None {
                assert forall|j: int| i <= j < params.len() implies #[trigger] param_fits(
                    params[j],
                    args[j],
                ) by {
                    if j > i {
                        assert(i + 1 <= j < params.len());
                    }
                }
            }
        } else {
            assert(spec_arg_error(params, args, i) is Some);
        }
    }
}

proof fn lemma_arg_error_kinds(params: Seq<Option<RttiType>>, args: Seq<usize>, i: int)
    ensures
        spec_arg_error(params, args, i) is None || spec_arg_error(params, args, i) == Some(
            InvokeError::InvalidFunction,
        ) || spec_arg_error(params, args, i) matches Some(InvokeError::ArgMismatch { .. }),
    decreases params.len() - i,
{
    if 0 <= i < params.len() && i < args.len() {
        lemma_arg_error_kinds(params, args, i + 1);
    }
}

proof fn lemma_arg_error_mismatch(params: Seq<Option<RttiType>>, args: Seq<usize>, i: int)
    requires
        params.len() == args.len(),
        params.len() <= usize::MAX,
        0 <= i <= params.len(),
    ensures
        spec_arg_error(params, args, i) matches Some(InvokeError::ArgMismatch { expected, index }) ==> (
        i <= index < params.len() && mismatch_at(params, args, index as int, expected) && forall|j: int|
            i <= j < index ==> #[trigger] param_fits(params[j], args[j])),
    decreases params.len() - i,
{
    if i < params.len() {
        lemma_arg_error_mismatch(params, args, i + 1);
        if param_fits(params[i], args[i]) {
            assert(spec_arg_error(params, args, i) == spec_arg_error(params, args, i + 1));
        }
    }
}

proof fn lemma_arg_error_invalid(params: Seq<Option<RttiType>>, args: Seq<usize>, i: int)
    requires
        params.len() == args.len(),
        params.len() <= usize::MAX,
        0 <= i <= params.len(),
    ensures
        spec_arg_error(params, args, i) == Some(InvokeError::InvalidFunction) ==> exists|k: int|
            i <= k < params.len() && #[trigger] params[k] is None && forall|j: int|
                i <= j < k ==> #[trigger] param_fits(params[j], args[j]),
    decreases params.len() - i,
{
    if i < params.len() {
        lemma_arg_error_invalid(params, args, i + 1);
        if params[i] is None {
            assert(params[i] is None);
        } else if param_fits(params[i], args[i]) {
            assert(spec_arg_error(params, args, i) == spec_arg_error(params, args, i + 1));
            if spec_arg_error(params, args, i) == Some(InvokeError::InvalidFunction) {
                let k = choose|k: int|
                    i + 1 <= k < params.len() && #[trigger] params[k] is None && forall|j: int|
                        i + 1 <= j < k ==> #[trigger] param_fits(params[j], args[j]);
                assert(params[k] is None);
            }
        }
    }
}

/// What the check of a call states: a call is accepted exactly when it
/// passes as many arguments as the function has parameters, each of the
/// parameter's type, and expects the function's return type. When the
/// counts differ the call is refused for that, with both counts; otherwise
/// the first parameter that has no type or does not match its argument
/// decides, and only a call whose arguments all fit is refused for its
/// return type.
pub proof fn lemma_validate_invocation(
    args: Seq<usize>,
    r: u64,
    params: Seq<Option<RttiType>>,
    ret: Option<RttiType>,
)
    requires
        args.len() <= usize::MAX,
        params.len() <= usize::MAX,
    ensures
        spec_validate_invocation(args, r, params, ret) is Ok <==> (args.len() == params.len() && (
        forall|i: int| 0 <= i < args.len() ==> #[trigger] param_fits(params[i], args[i]))
            && return_fits(ret, r)),
        args.len() != params.len() ==> spec_validate_invocation(args, r, params, ret) == Err::<
            (),
            InvokeError,
        >(InvokeError::InvalidArgCount { given: args.len() as usize, expected: params.len() as usize }),
        spec_validate_invocation(args, r, params, ret) matches Err(
            InvokeError::ArgMismatch { expected, index },
        ) ==> (args.len() == params.len() && index < params.len() && mismatch_at(
            params,
            args,
            index as int,
            expected,
        ) && forall|j: int|
            0 <= j < index ==> #[trigger] param_fits(params[j], args[j])),
        spec_validate_invocation(args, r, params, ret) == Err::<(), InvokeError>(
            InvokeError::InvalidFunction,
        ) ==> (args.len() == params.len() && exists|k: int|
            0 <= k < params.len() && #[trigger] params[k] is None && forall|j: int|
                0 <= j < k ==> #[trigger] param_fits(params[j], args[j])),
        spec_validate_invocation(args, r, params, ret) matches Err(
            InvokeError::ReturnMismatch { expected },
        ) ==> (args.len() == params.len() && (forall|i: int|
            0 <= i < args.len() ==> #[trigger] param_fits(params[i], args[i])) && !return_fits(ret, r)
            && expected == match ret {
            Some(t) => t.text,
            None => "Void",
        }),
{
    if args.len() == params.len() {
        lemma_arg_error_none(params, args, 0);
        lemma_arg_error_mismatch(params, args, 0);
        lemma_arg_error_invalid(params, args, 0);
        lemma_arg_error_kinds(params, args, 0);
    }
}

/// Checks that a call fits the signature of the function it calls.
pub fn validate_invocation(args: &[StackArg], native_return_type: CName, fun: &FunctionSignature) -> (res:
    Result<(), InvokeError>)
    ensures
        res == spec_validate_invocation(arg_types(args@), native_return_type@, fun.params@, fun.ret),
{
    let params = &fun.params;
    if params.len() != args.len() {
        return Err(InvokeError::InvalidArgCount { given: args.len(), expected: params.len() });
    }
    let mut i: usize = 0;
    while i < params.len()
        invariant
            params@.len() == args@.len(),
            params@ == fun.params@,
            i <= params@.len(),
            spec_arg_error(params@, arg_types(args@), 0) == spec_arg_error(
                params@,
                arg_types(args@),
                i as int,
            ),
        decreases params@.len() - i,
    {
        match params[i] {
            None => {
                return Err(InvokeError::InvalidFunction);
            },
            Some(t) => {
                if t.addr != args[i].inner_type() {
                    return Err(InvokeError::ArgMismatch { expected: t.text, index: i });
                }
            },
        }
        i = i + 1;
    }
    let void_name = CName::from_bytes(&[0x56u8, 0x6Fu8, 0x69u8, 0x64u8]);
    proof {
        assert([0x56u8, 0x6Fu8, 0x69u8, 0x64u8]@ =~= void_bytes());
    }
    match fun.ret {
        Some(actual) => {
            proof {
                CName::lemma_view_eq(actual.name, native_return_type);
            }
            if actual.name == native_return_type {
                Ok(())
            } else {
                Err(InvokeError::ReturnMismatch { expected: actual.text })
            }
        },
        None => {
            if native_return_type == void_name {
                Ok(())
            } else {
                proof {
                    CName::lemma_view_eq(native_return_type, void_name);
                }
                Err(InvokeError::ReturnMismatch { expected: "Void" })
            }
        },
    }
}

/// Checks a call before it is executed: the function must exist, and the
/// call must fit its signature.
pub fn check_invocation(fun: Option<&FunctionSignature>, args: &[StackArg], native_return_type: CName) -> (res:
    Result<(), InvokeError>)
    ensures
        fun is None ==> res == Err::<(), InvokeError>(InvokeError::FunctionNotFound),
        fun matches Some(f) ==> res == spec_validate_invocation(
            arg_types(args@),
            native_return_type@,
            f.params@,
            f.ret,
        ),
{
    match fun {
        None => Err(InvokeError::FunctionNotFound),
        Some(f) => validate_invocation(args, native_return_type, f),
    }
}


/// Whether a call with the arguments `args`, expecting a result of the type
/// whose name hashes to `ret`, finds the function `fun` and fits its
/// signature.
pub open spec fn call_fits(fun: Option<&FunctionSignature>, args: Seq<StackArg>, ret: u64) -> bool {
    fun matches Some(f) && spec_validate_invocation(arg_types(args), ret, f.params@, f.ret) is Ok
}

/// Calls a game function on the object `this`: the call must fit the
/// signature `fun` of the function, with the result expected of the type
/// that values of `R` are made from. Only then is `execute` run, once: it is
/// handed the address of the receiver, the arguments and a result slot that
/// holds the default value of the result's representation, performs the
/// call, filling the slot, and gives the slot back; the result is made from
/// what it holds. `execute` may rely on the call fitting: it need not be
/// callable otherwise.
pub fn invoke<'a, R, F>(
    this: RefShared<IScriptable>,
    fun: Option<&FunctionSignature>,
    args: &'a [StackArg],
    execute: F,
) -> (res: Result<R, InvokeError>) where
    R: FromRepr,
    R::Repr: Default,
    F: FnOnce(usize, &'a [StackArg], R::Repr) -> R::Repr,

    requires
        forall|slot: R::Repr|
            call_fits(fun, args@, native_cname_of::<R::Repr>()) ==> call_requires(
                execute,
                (this.spec_ptr(), args, slot),
            ),
        forall|slot: R::Repr, out: R::Repr|
            call_ensures(execute, (this.spec_ptr(), args, slot), out) ==> R::from_repr_requires(out),
    ensures
        fun is None ==> res == Err::<R, InvokeError>(InvokeError::FunctionNotFound),
        fun matches Some(f) ==> match spec_validate_invocation(
            arg_types(args@),
            native_cname_of::<R::Repr>(),
            f.params@,
            f.ret,
        ) {
            Err(e) => res == Err::<R, InvokeError>(e),
            Ok(_) => res matches Ok(v) && exists|slot: R::Repr, out: R::Repr|
                call_ensures(R::Repr::default, (), slot) && call_ensures(
                    execute,
                    (this.spec_ptr(), args, slot),
                    out,
                ) && R::from_repr_ensures(out, v),
        },
{
    let native = R::Repr::native_name();
    let ret_name = CName::new(native.as_str());
    match check_invocation(fun, args, ret_name) {
        Err(e) => Err(e),
        Ok(()) => {
            let slot = R::Repr::default();
            let out = execute(this.as_ptr(), args, slot);
            let v = R::from_repr(&out);
            Ok(v)
        },
    }
}

/// The text that describes an error.
pub open spec fn spec_invoke_error_text(e: InvokeError) -> Seq<char> {
    match e {
        InvokeError::FunctionNotFound => "function not found"@,
        InvokeError::InvalidFunction => "function is not valid"@,
        InvokeError::InvalidArgCount { given, expected } => "expected "@ + decimal(expected as nat)
            + " arguments, but "@ + decimal(given as nat) + " given"@,
        InvokeError::ArgMismatch { expected, index } => "expected "@ + expected@
            + " argument at index "@ + decimal(index as nat),
        InvokeError::ReturnMismatch { expected } => "return type mismatch, expected "@ + expected@,
    }
}

impl InvokeError {
    /// Describes the error.
    pub fn message(&self) -> (text: String)
        ensures
            text@ == spec_invoke_error_text(*self),
    {
        match *self {
            InvokeError::FunctionNotFound => String::from_str("function not found"),
            InvokeError::InvalidFunction => String::from_str("function is not valid"),
            InvokeError::InvalidArgCount { given, expected } => {
                let mut s = String::from_str("expected ");
                push_decimal(&mut s, expected);
                s.append(" arguments, but ");
                push_decimal(&mut s, given);
                s.append(" given");
                s
            },
            InvokeError::ArgMismatch { expected, index } => {
                let mut s = String::from_str("expected ");
                s.append(expected);
                s.append(" argument at index ");
                push_decimal(&mut s, index);
                s
            },
            InvokeError::ReturnMismatch { expected } => {
                let mut s = String::from_str("return type mismatch, expected ");
                s.append(expected);
                s
            },
        }
    }
}

/// The message with which a failed call of the function `source` is
/// reported.
pub open spec fn spec_invoke_failure_text(source: Seq<char>, e: InvokeError) -> Seq<char> {
    "failed to invoke "@ + source + ": "@ + spec_invoke_error_text(e)
}

/// Describes a failed call of the function `source`.
pub fn invoke_failure_message(source: &str, error: &InvokeError) -> (text: String)
    ensures
        text@ == spec_invoke_failure_text(source@, *error),
{
    let mut s = String::from_str("failed to invoke ");
    s.append(source);
    s.append(": ");
    let m = error.message();
    s.append(m.as_str());
    s
}

/// The bytes of `handle:`.
pub open spec fn handle_prefix() -> Seq<u8> {
    seq![0x68u8, 0x61u8, 0x6Eu8, 0x64u8, 0x6Cu8, 0x65u8, 0x3Au8]
}

/// The bytes of `whandle:`.
pub open spec fn whandle_prefix() -> Seq<u8> {
    seq![0x77u8, 0x68u8, 0x61u8, 0x6Eu8, 0x64u8, 0x6Cu8, 0x65u8, 0x3Au8]
}

/// The bytes of `IScriptable`.
pub open spec fn iscriptable_bytes() -> Seq<u8> {
    seq![0x49u8, 0x53u8, 0x63u8, 0x72u8, 0x69u8, 0x70u8, 0x74u8, 0x61u8, 0x62u8, 0x6Cu8, 0x65u8]
}

/// The name under which a type is registered in a function's signature,
/// given the bytes of its native name. References to script classes are
/// registered as references to `IScriptable`, because scripted classes do
/// not exist yet when native functions are registered.
pub open spec fn spec_signature_type_name(native: Seq<u8>) -> Seq<u8> {
    if native.len() < 8 {
        native
    } else if native.take(7) == handle_prefix() {
        handle_prefix() + iscriptable_bytes()
    } else if native.take(8) == whandle_prefix() {
        whandle_prefix() + iscriptable_bytes()
    } else {
        native
    }
}

/// How a native function's signature names its types: a strong reference
/// to any class, `handle:` followed by at least one byte, is registered as
/// a strong reference to `IScriptable`, and a weak reference, `whandle:`
/// followed by anything, as a weak reference to `IScriptable`; every other
/// name is registered as it is.
pub proof fn lemma_signature_type_name(class: Seq<u8>, native: Seq<u8>)
    ensures
        class.len() >= 1 ==> spec_signature_type_name(handle_prefix() + class) == handle_prefix()
            + iscriptable_bytes(),
        spec_signature_type_name(whandle_prefix() + class) == whandle_prefix() + iscriptable_bytes(),
        !(native.len() >= 8 && native.take(7) == handle_prefix()) && !(native.len() >= 8
            && native.take(8) == whandle_prefix()) ==> spec_signature_type_name(native) == native,
{
    assert((handle_prefix() + class).take(7) =~= handle_prefix());
    assert((whandle_prefix() + class).take(8) =~= whandle_prefix());
    assert((whandle_prefix() + class).take(7) != handle_prefix()) by {
        assert((whandle_prefix() + class).take(7)[0] != handle_prefix()[0]);
    }
}

const HANDLE_ISCRIPTABLE: [u8; 18] = [
    0x68u8, 0x61u8, 0x6Eu8, 0x64u8, 0x6Cu8, 0x65u8, 0x3Au8,
    0x49u8, 0x53u8, 0x63u8, 0x72u8, 0x69u8, 0x70u8, 0x74u8, 0x61u8, 0x62u8, 0x6Cu8, 0x65u8,
];

const WHANDLE_ISCRIPTABLE: [u8; 19] = [
    0x77u8, 0x68u8, 0x61u8, 0x6Eu8, 0x64u8, 0x6Cu8, 0x65u8, 0x3Au8,
    0x49u8, 0x53u8, 0x63u8, 0x72u8, 0x69u8, 0x70u8, 0x74u8, 0x61u8, 0x62u8, 0x6Cu8, 0x65u8,
];

/// The name, as a function signature registers it, of a type whose native
/// name has the bytes `native`.
pub fn signature_type_name(native: &[u8]) -> (name: CName)
    ensures
        name@ == spec_fnv1a64(spec_signature_type_name(native@)),
{
    let n = native.len();
    if n < 8 {
        return CName::from_bytes(native);
    }
    if native[0] == 0x68u8 && native[1] == 0x61u8 && native[2] == 0x6Eu8 && native[3] == 0x64u8
        && native[4] == 0x6Cu8 && native[5] == 0x65u8 && native[6] == 0x3Au8 {
        proof {
            assert(native@.take(7) =~= handle_prefix());
            assert(HANDLE_ISCRIPTABLE@ =~= handle_prefix() + iscriptable_bytes());
        }
        return CName::from_bytes(&HANDLE_ISCRIPTABLE);
    }
    proof {
        if native@.take(7) == handle_prefix() {
            assert forall|k: int| 0 <= k < 7 implies native@[k] == handle_prefix()[k] by {
                assert(native@.take(7)[k] == native@[k]);
            }
        }
    }
    if native[0] == 0x77u8 && native[1] == 0x68u8 && native[2] == 0x61u8 && native[3] == 0x6Eu8
        && native[4] == 0x64u8 && native[5] == 0x6Cu8 && native[6] == 0x65u8 && native[7]
        == 0x3Au8 {
        proof {
            assert(native@.take(8) =~= whandle_prefix());
            assert(WHANDLE_ISCRIPTABLE@ =~= whandle_prefix() + iscriptable_bytes());
        }
        return CName::from_bytes(&WHANDLE_ISCRIPTABLE);
    }
    proof {
        if native@.take(8) == whandle_prefix() {
            assert forall|k: int| 0 <= k < 8 implies native@[k] == whandle_prefix()[k] by {
                assert(native@.take(8)[k] == native@[k]);
            }
        }
    }
    CName::from_bytes(native)
}

/// The name under which the type `A` is registered in a native function's
/// signature.
pub fn get_native_cname<A: NativeRepr>() -> (name: CName)
    ensures
        name@ == spec_fnv1a64(spec_signature_type_name(encode_utf8(A::spec_native_name()))),
{
    let native = A::native_name();
    signature_type_name(native.as_str().as_bytes())
}


/// The hash of the name under which the type `T` is registered in a native
/// function's signature.
pub open spec fn signature_name_of<T: NativeRepr>() -> u64 {
    spec_fnv1a64(spec_signature_type_name(encode_utf8(T::spec_native_name())))
}

/// The types of a native function's parameters and of its result, as the
/// game registers them.
#[derive(Debug)]
pub struct FnType {
    args: Vec<CName>,
    ret: CName,
}

impl View for FnType {
    type V = (Seq<u64>, u64);

    /// The hashes of the parameter types, in order, and of the result type.
    closed spec fn view(&self) -> (Seq<u64>, u64) {
        (self.args@.map_values(|c: CName| c@), self.ret@)
    }
}

impl FnType {
    /// The parameter types, in order.
    pub fn args(&self) -> (args: &[CName])
        ensures
            args@.map_values(|c: CName| c@) == self@.0,
    {
        self.args.as_slice()
    }

    /// The result type.
    pub fn ret(&self) -> (ret: CName)
        ensures
            ret@ == self@.1,
    {
        self.ret
    }
}

/// A Rust function that can be exposed to the game: the names of its
/// parameter and result types as the game registers them.
pub trait Invocable<A, R> {
    spec fn spec_arg_types() -> Seq<u64>;

    spec fn spec_return_type() -> u64;

    fn arg_types() -> (args: Vec<CName>)
        ensures
            args@.map_values(|c: CName| c@) == Self::spec_arg_types(),
    ;

    fn return_type() -> (ret: CName)
        ensures
            ret@ == Self::spec_return_type(),
    ;
}

/// The signature under which the function `f` is registered.
pub fn get_invocable_types<F: Invocable<A, R>, A, R>(_f: &F) -> (t: FnType)
    ensures
        t@ == (F::spec_arg_types(), F::spec_return_type()),
{
    FnType { args: F::arg_types(), ret: F::return_type() }
}

impl<R, FN> Invocable<(), R> for FN where
    FN: Fn() -> R,
    R: IntoRepr,
 {
    open spec fn spec_arg_types() -> Seq<u64> {
        seq![]
    }

    open spec fn spec_return_type() -> u64 {
        signature_name_of::<R::Repr>()
    }

    fn arg_types() -> (args: Vec<CName>) {
        let mut args: Vec<CName> = Vec::new();
        proof {
            assert(args@.map_values(|c: CName| c@) =~= Self::spec_arg_types());
        }
        args
    }

    fn return_type() -> (ret: CName) {
        get_native_cname::<R::Repr>()
    }
}

impl<A, R, FN> Invocable<(A, ), R> for FN where
    FN: Fn(A) -> R,
    A: FromRepr,
    R: IntoRepr,
 {
    open spec fn spec_arg_types() -> Seq<u64> {
        seq![signature_name_of::<A::Repr>()]
    }

    open spec fn spec_return_type() -> u64 {
        signature_name_of::<R::Repr>()
    }

    fn arg_types() -> (args: Vec<CName>) {
        let mut args: Vec<CName> = Vec::new();
        args.push(get_native_cname::<A::Repr>());
        proof {
            assert(args@.map_values(|c: CName| c@) =~= Self::spec_arg_types());
        }
        args
    }

    fn return_type() -> (ret: CName) {
        get_native_cname::<R::Repr>()
    }
}

impl<A, B, R, FN> Invocable<(A, B, ), R> for FN where
    FN: Fn(A, B) -> R,
    A: FromRepr,
    B: FromRepr,
    R: IntoRepr,
 {
    open spec fn spec_arg_types() -> Seq<u64> {
        seq![signature_name_of::<A::Repr>(), signature_name_of::<B::Repr>()]
    }

    open spec fn spec_return_type() -> u64 {
        signature_name_of::<R::Repr>()
    }

    fn arg_types() -> (args: Vec<CName>) {
        let mut args: Vec<CName> = Vec::new();
        args.push(get_native_cname::<A::Repr>());
        args.push(get_native_cname::<B::Repr>());
        proof {
            assert(args@.map_values(|c: CName| c@) =~= Self::spec_arg_types());
        }
        args
    }

    fn return_type() -> (ret: CName) {
        get_native_cname::<R::Repr>()
    }
}

impl<A, B, C, R, FN> Invocable<(A, B, C, ), R> for FN where
    FN: Fn(A, B, C) -> R,
    A: FromRepr,
    B: FromRepr,
    C: FromRepr,
    R: IntoRepr,
 {
    open spec fn spec_arg_types() -> Seq<u64> {
        seq![signature_name_of::<A::Repr>(), signature_name_of::<B::Repr>(), signature_name_of::<C::Repr>()]
    }

    open spec fn spec_return_type() -> u64 {
        signature_name_of::<R::Repr>()
    }

    fn arg_types() -> (args: Vec<CName>) {
        let mut args: Vec<CName> = Vec::new();
        args.push(get_native_cname::<A::Repr>());
        args.push(get_native_cname::<B::Repr>());
        args.push(get_native_cname::<C::Repr>());
        proof {
            assert(args@.map_values(|c: CName| c@) =~= Self::spec_arg_types());
        }
        args
    }

    fn return_type() -> (ret: CName) {
        get_native_cname::<R::Repr>()
    }
}

impl<A, B, C, D, R, FN> Invocable<(A, B, C, D, ), R> for FN where
    FN: Fn(A, B, C, D) -> R,
    A: FromRepr,
    B: FromRepr,
    C: FromRepr,
    D: FromRepr,
    R: IntoRepr,
 {
    open spec fn spec_arg_types() -> Seq<u64> {
        seq![signature_name_of::<A::Repr>(), signature_name_of::<B::Repr>(), signature_name_of::<C::Repr>(), signature_name_of::<D::Repr>()]
    }

    open spec fn spec_return_type() -> u64 {
        signature_name_of::<R::Repr>()
    }

    fn arg_types() -> (args: Vec<CName>) {
        let mut args: Vec<CName> = Vec::new();
        args.push(get_native_cname::<A::Repr>());
        args.push(get_native_cname::<B::Repr>());
        args.push(get_native_cname::<C::Repr>());
        args.push(get_native_cname::<D::Repr>());
        proof {
            assert(args@.map_values(|c: CName| c@) =~= Self::spec_arg_types());
        }
        args
    }

    fn return_type() -> (ret: CName) {
        get_native_cname::<R::Repr>()
    }
}

impl<A, B, C, D, E, R, FN> Invocable<(A, B, C, D, E, ), R> for FN where
    FN: Fn(A, B, C, D, E) -> R,
    A: FromRepr,
    B: FromRepr,
    C: FromRepr,
    D: FromRepr,
    E: FromRepr,
    R: IntoRepr,
 {
    open spec fn spec_arg_types() -> Seq<u64> {
        seq![signature_name_of::<A::Repr>(), signature_name_of::<B::Repr>(), signature_name_of::<C::Repr>(), signature_name_of::<D::Repr>(), signature_name_of::<E::Repr>()]
    }

    open spec fn spec_return_type() -> u64 {
        signature_name_of::<R::Repr>()
    }

    fn arg_types() -> (args: Vec<CName>) {
        let mut args: Vec<CName> = Vec::new();
        args.push(get_native_cname::<A::Repr>());
        args.push(get_native_cname::<B::Repr>());
        args.push(get_native_cname::<C::Repr>());
        args.push(get_native_cname::<D::Repr>());
        args.push(get_native_cname::<E::Repr>());
        proof {
            assert(args@.map_values(|c: CName| c@) =~= Self::spec_arg_types());
        }
        args
    }

    fn return_type() -> (ret: CName) {
        get_native_cname::<R::Repr>()
    }
}

impl<A, B, C, D, E, G, R, FN> Invocable<(A, B, C, D, E, G, ), R> for FN where
    FN: Fn(A, B, C, D, E, G) -> R,
    A: FromRepr,
    B: FromRepr,
    C: FromRepr,
    D: FromRepr,
    E: FromRepr,
    G: FromRepr,
    R: IntoRepr,
 {
    open spec fn spec_arg_types() -> Seq<u64> {
        seq![signature_name_of::<A::Repr>(), signature_name_of::<B::Repr>(), signature_name_of::<C::Repr>(), signature_name_of::<D::Repr>(), signature_name_of::<E::Repr>(), signature_name_of::<G::Repr>()]
    }

    open spec fn spec_return_type() -> u64 {
        signature_name_of::<R::Repr>()
    }

    fn arg_types() -> (args: Vec<CName>) {
        let mut args: Vec<CName> = Vec::new();
        args.push(get_native_cname::<A::Repr>());
        args.push(get_native_cname::<B::Repr>());
        args.push(get_native_cname::<C::Repr>());
        args.push(get_native_cname::<D::Repr>());
        args.push(get_native_cname::<E::Repr>());
        args.push(get_native_cname::<G::Repr>());
        proof {
            assert(args@.map_values(|c: CName| c@) =~= Self::spec_arg_types());
        }
        args
    }

    fn return_type() -> (ret: CName) {
        get_native_cname::<R::Repr>()
    }
}

/// The hash of the name of the type `A` in redscript.
pub open spec fn script_cname_of<A: NativeRepr>() -> u64 {
    spec_fnv1a64(encode_utf8(A::spec_name()))
}

/// The name of the type `A` in redscript.
fn script_cname<A: NativeRepr>() -> (name: CName)
    ensures
        name@ == script_cname_of::<A>(),
{
    let n = A::name();
    CName::new(n.as_str())
}

/// A Rust function that can be exported to the game as a global function:
/// the redscript names of its parameter types and of its result type.
pub trait GlobalInvocable<A, R> {
    spec fn spec_fn_type() -> (Seq<u64>, u64);

    fn fn_type() -> (t: FnType)
        ensures
            t@ == Self::spec_fn_type(),
    ;
}

/// A Rust method of the class `Ctx` that can be exported to the game: the
/// redscript names of its parameter types, the receiver left out, and of
/// its result type.
pub trait MethodInvocable<Ctx, A, R> {
    spec fn spec_fn_type() -> (Seq<u64>, u64);

    fn fn_type() -> (t: FnType)
        ensures
            t@ == Self::spec_fn_type(),
    ;
}

impl<R, FN> GlobalInvocable<(), R> for FN where
    FN: Fn() -> R,
    R: IntoRepr,
 {
    open spec fn spec_fn_type() -> (Seq<u64>, u64) {
        (seq![], script_cname_of::<R::Repr>())
    }

    fn fn_type() -> (t: FnType) {
        let args: Vec<CName> = Vec::new();
        proof {
            assert(args@.map_values(|c: CName| c@) =~= Self::spec_fn_type().0);
        }
        FnType { args, ret: script_cname::<R::Repr>() }
    }
}

impl<A, R, FN> GlobalInvocable<(A, ), R> for FN where
    FN: Fn(A) -> R,
    A: FromRepr,
    R: IntoRepr,
 {
    open spec fn spec_fn_type() -> (Seq<u64>, u64) {
        (seq![script_cname_of::<A::Repr>()], script_cname_of::<R::Repr>())
    }

    fn fn_type() -> (t: FnType) {
        let mut args: Vec<CName> = Vec::new();
        args.push(script_cname::<A::Repr>());
        proof {
            assert(args@.map_values(|c: CName| c@) =~= Self::spec_fn_type().0);
        }
        FnType { args, ret: script_cname::<R::Repr>() }
    }
}

impl<A, B, R, FN> GlobalInvocable<(A, B, ), R> for FN where
    FN: Fn(A, B) -> R,
    A: FromRepr,
    B: FromRepr,
    R: IntoRepr,
 {
    open spec fn spec_fn_type() -> (Seq<u64>, u64) {
        (seq![script_cname_of::<A::Repr>(), script_cname_of::<B::Repr>()], script_cname_of::<R::Repr>())
    }

    fn fn_type() -> (t: FnType) {
        let mut args: Vec<CName> = Vec::new();
        args.push(script_cname::<A::Repr>());
        args.push(script_cname::<B::Repr>());
        proof {
            assert(args@.map_values(|c: CName| c@) =~= Self::spec_fn_type().0);
        }
        FnType { args, ret: script_cname::<R::Repr>() }
    }
}

impl<A, B, C, R, FN> GlobalInvocable<(A, B, C, ), R> for FN where
    FN: Fn(A, B, C) -> R,
    A: FromRepr,
    B: FromRepr,
    C: FromRepr,
    R: IntoRepr,
 {
    open spec fn spec_fn_type() -> (Seq<u64>, u64) {
        (seq![script_cname_of::<A::Repr>(), script_cname_of::<B::Repr>(), script_cname_of::<C::Repr>()], script_cname_of::<R::Repr>())
    }

    fn fn_type() -> (t: FnType) {
        let mut args: Vec<CName> = Vec::new();
        args.push(script_cname::<A::Repr>());
        args.push(script_cname::<B::Repr>());
        args.push(script_cname::<C::Repr>());
        proof {
            assert(args@.map_values(|c: CName| c@) =~= Self::spec_fn_type().0);
        }
        FnType { args, ret: script_cname::<R::Repr>() }
    }
}

impl<A, B, C, D, R, FN> GlobalInvocable<(A, B, C, D, ), R> for FN where
    FN: Fn(A, B, C, D) -> R,
    A: FromRepr,
    B: FromRepr,
    C: FromRepr,
    D: FromRepr,
    R: IntoRepr,
 {
    open spec fn spec_fn_type() -> (Seq<u64>, u64) {
        (seq![script_cname_of::<A::Repr>(), script_cname_of::<B::Repr>(), script_cname_of::<C::Repr>(), script_cname_of::<D::Repr>()], script_cname_of::<R::Repr>())
    }

    fn fn_type() -> (t: FnType) {
        let mut args: Vec<CName> = Vec::new();
        args.push(script_cname::<A::Repr>());
        args.push(script_cname::<B::Repr>());
        args.push(script_cname::<C::Repr>());
        args.push(script_cname::<D::Repr>());
        proof {
            assert(args@.map_values(|c: CName| c@) =~= Self::spec_fn_type().0);
        }
        FnType { args, ret: script_cname::<R::Repr>() }
    }
}

impl<A, B, C, D, E, R, FN> GlobalInvocable<(A, B, C, D, E, ), R> for FN where
    FN: Fn(A, B, C, D, E) -> R,
    A: FromRepr,
    B: FromRepr,
    C: FromRepr,
    D: FromRepr,
    E: FromRepr,
    R: IntoRepr,
 {
    open spec fn spec_fn_type() -> (Seq<u64>, u64) {
        (seq![script_cname_of::<A::Repr>(), script_cname_of::<B::Repr>(), script_cname_of::<C::Repr>(), script_cname_of::<D::Repr>(), script_cname_of::<E::Repr>()], script_cname_of::<R::Repr>())
    }

    fn fn_type() -> (t: FnType) {
        let mut args: Vec<CName> = Vec::new();
        args.push(script_cname::<A::Repr>());
        args.push(script_cname::<B::Repr>());
        args.push(script_cname::<C::Repr>());
        args.push(script_cname::<D::Repr>());
        args.push(script_cname::<E::Repr>());
        proof {
            assert(args@.map_values(|c: CName| c@) =~= Self::spec_fn_type().0);
        }
        FnType { args, ret: script_cname::<R::Repr>() }
    }
}

impl<A, B, C, D, E, G, R, FN> GlobalInvocable<(A, B, C, D, E, G, ), R> for FN where
    FN: Fn(A, B, C, D, E, G) -> R,
    A: FromRepr,
    B: FromRepr,
    C: FromRepr,
    D: FromRepr,
    E: FromRepr,
    G: FromRepr,
    R: IntoRepr,
 {
    open spec fn spec_fn_type() -> (Seq<u64>, u64) {
        (seq![script_cname_of::<A::Repr>(), script_cname_of::<B::Repr>(), script_cname_of::<C::Repr>(), script_cname_of::<D::Repr>(), script_cname_of::<E::Repr>(), script_cname_of::<G::Repr>()], script_cname_of::<R::Repr>())
    }

    fn fn_type() -> (t: FnType) {
        let mut args: Vec<CName> = Vec::new();
        args.push(script_cname::<A::Repr>());
        args.push(script_cname::<B::Repr>());
        args.push(script_cname::<C::Repr>());
        args.push(script_cname::<D::Repr>());
        args.push(script_cname::<E::Repr>());
        args.push(script_cname::<G::Repr>());
        proof {
            assert(args@.map_values(|c: CName| c@) =~= Self::spec_fn_type().0);
        }
        FnType { args, ret: script_cname::<R::Repr>() }
    }
}

impl<Ctx, R, FN> MethodInvocable<Ctx, (), R> for FN where
    FN: Fn(&Ctx) -> R,
    R: IntoRepr,
 {
    open spec fn spec_fn_type() -> (Seq<u64>, u64) {
        (seq![], script_cname_of::<R::Repr>())
    }

    fn fn_type() -> (t: FnType) {
        let args: Vec<CName> = Vec::new();
        proof {
            assert(args@.map_values(|c: CName| c@) =~= Self::spec_fn_type().0);
        }
        FnType { args, ret: script_cname::<R::Repr>() }
    }
}

impl<Ctx, A, R, FN> MethodInvocable<Ctx, (A, ), R> for FN where
    FN: Fn(&Ctx, A) -> R,
    A: FromRepr,
    R: IntoRepr,
 {
    open spec fn spec_fn_type() -> (Seq<u64>, u64) {
        (seq![script_cname_of::<A::Repr>()], script_cname_of::<R::Repr>())
    }

    fn fn_type() -> (t: FnType) {
        let mut args: Vec<CName> = Vec::new();
        args.push(script_cname::<A::Repr>());
        proof {
            assert(args@.map_values(|c: CName| c@) =~= Self::spec_fn_type().0);
        }
        FnType { args, ret: script_cname::<R::Repr>() }
    }
}

impl<Ctx, A, B, R, FN> MethodInvocable<Ctx, (A, B, ), R> for FN where
    FN: Fn(&Ctx, A, B) -> R,
    A: FromRepr,
    B: FromRepr,
    R: IntoRepr,
 {
    open spec fn spec_fn_type() -> (Seq<u64>, u64) {
        (seq![script_cname_of::<A::Repr>(), script_cname_of::<B::Repr>()], script_cname_of::<R::Repr>())
    }

    fn fn_type() -> (t: FnType) {
        let mut args: Vec<CName> = Vec::new();
        args.push(script_cname::<A::Repr>());
        args.push(script_cname::<B::Repr>());
        proof {
            assert(args@.map_values(|c: CName| c@) =~= Self::spec_fn_type().0);
        }
        FnType { args, ret: script_cname::<R::Repr>() }
    }
}

impl<Ctx, A, B, C, R, FN> MethodInvocable<Ctx, (A, B, C, ), R> for FN where
    FN: Fn(&Ctx, A, B, C) -> R,
    A: FromRepr,
    B: FromRepr,
    C: FromRepr,
    R: IntoRepr,
 {
    open spec fn spec_fn_type() -> (Seq<u64>, u64) {
        (seq![script_cname_of::<A::Repr>(), script_cname_of::<B::Repr>(), script_cname_of::<C::Repr>()], script_cname_of::<R::Repr>())
    }

    fn fn_type() -> (t: FnType) {
        let mut args: Vec<CName> = Vec::new();
        args.push(script_cname::<A::Repr>());
        args.push(script_cname::<B::Repr>());
        args.push(script_cname::<C::Repr>());
        proof {
            assert(args@.map_values(|c: CName| c@) =~= Self::spec_fn_type().0);
        }
        FnType { args, ret: script_cname::<R::Repr>() }
    }
}

impl<Ctx, A, B, C, D, R, FN> MethodInvocable<Ctx, (A, B, C, D, ), R> for FN where
    FN: Fn(&Ctx, A, B, C, D) -> R,
    A: FromRepr,
    B: FromRepr,
    C: FromRepr,
    D: FromRepr,
    R: IntoRepr,
 {
    open spec fn spec_fn_type() -> (Seq<u64>, u64) {
        (seq![script_cname_of::<A::Repr>(), script_cname_of::<B::Repr>(), script_cname_of::<C::Repr>(), script_cname_of::<D::Repr>()], script_cname_of::<R::Repr>())
    }

    fn fn_type() -> (t: FnType) {
        let mut args: Vec<CName> = Vec::new();
        args.push(script_cname::<A::Repr>());
        args.push(script_cname::<B::Repr>());
        args.push(script_cname::<C::Repr>());
        args.push(script_cname::<D::Repr>());
        proof {
            assert(args@.map_values(|c: CName| c@) =~= Self::spec_fn_type().0);
        }
        FnType { args, ret: script_cname::<R::Repr>() }
    }
}

impl<Ctx, A, B, C, D, E, R, FN> MethodInvocable<Ctx, (A, B, C, D, E, ), R> for FN where
    FN: Fn(&Ctx, A, B, C, D, E) -> R,
    A: FromRepr,
    B: FromRepr,
    C: FromRepr,
    D: FromRepr,
    E: FromRepr,
    R: IntoRepr,
 {
    open spec fn spec_fn_type() -> (Seq<u64>, u64) {
        (seq![script_cname_of::<A::Repr>(), script_cname_of::<B::Repr>(), script_cname_of::<C::Repr>(), script_cname_of::<D::Repr>(), script_cname_of::<E::Repr>()], script_cname_of::<R::Repr>())
    }

    fn fn_type() -> (t: FnType) {
        let mut args: Vec<CName> = Vec::new();
        args.push(script_cname::<A::Repr>());
        args.push(script_cname::<B::Repr>());
        args.push(script_cname::<C::Repr>());
        args.push(script_cname::<D::Repr>());
        args.push(script_cname::<E::Repr>());
        proof {
            assert(args@.map_values(|c: CName| c@) =~= Self::spec_fn_type().0);
        }
        FnType { args, ret: script_cname::<R::Repr>() }
    }
}

impl<Ctx, A, B, C, D, E, G, R, FN> MethodInvocable<Ctx, (A, B, C, D, E, G, ), R> for FN where
    FN: Fn(&Ctx, A, B, C, D, E, G) -> R,
    A: FromRepr,
    B: FromRepr,
    C: FromRepr,
    D: FromRepr,
    E: FromRepr,
    G: FromRepr,
    R: IntoRepr,
 {
    open spec fn spec_fn_type() -> (Seq<u64>, u64) {
        (seq![script_cname_of::<A::Repr>(), script_cname_of::<B::Repr>(), script_cname_of::<C::Repr>(), script_cname_of::<D::Repr>(), script_cname_of::<E::Repr>(), script_cname_of::<G::Repr>()], script_cname_of::<R::Repr>())
    }

    fn fn_type() -> (t: FnType) {
        let mut args: Vec<CName> = Vec::new();
        args.push(script_cname::<A::Repr>());
        args.push(script_cname::<B::Repr>());
        args.push(script_cname::<C::Repr>());
        args.push(script_cname::<D::Repr>());
        args.push(script_cname::<E::Repr>());
        args.push(script_cname::<G::Repr>());
        proof {
            assert(args@.map_values(|c: CName| c@) =~= Self::spec_fn_type().0);
        }
        FnType { args, ret: script_cname::<R::Repr>() }
    }
}

/// A native function of no parameter is registered with the signature name
/// of each parameter's representation, in order, and of its result's.
pub proof fn lemma_invocable_types_0<R: IntoRepr, FN: Fn() -> R>()
    ensures
        <FN as Invocable<(), R>>::spec_arg_types().len() == 0,
        <FN as Invocable<(), R>>::spec_return_type() == signature_name_of::<R::Repr>(),
{
}

/// A native function of one parameter is registered with the signature name
/// of each parameter's representation, in order, and of its result's.
pub proof fn lemma_invocable_types_1<A: FromRepr, R: IntoRepr, FN: Fn(A) -> R>()
    ensures
        <FN as Invocable<(A, ), R>>::spec_arg_types().len() == 1,
        <FN as Invocable<(A, ), R>>::spec_arg_types()[0] == signature_name_of::<A::Repr>(),
        <FN as Invocable<(A, ), R>>::spec_return_type() == signature_name_of::<R::Repr>(),
{
}

/// A native function of two parameters is registered with the signature name
/// of each parameter's representation, in order, and of its result's.
pub proof fn lemma_invocable_types_2<A: FromRepr, B: FromRepr, R: IntoRepr, FN: Fn(A, B) -> R>()
    ensures
        <FN as Invocable<(A, B, ), R>>::spec_arg_types().len() == 2,
        <FN as Invocable<(A, B, ), R>>::spec_arg_types()[0] == signature_name_of::<A::Repr>(),
        <FN as Invocable<(A, B, ), R>>::spec_arg_types()[1] == signature_name_of::<B::Repr>(),
        <FN as Invocable<(A, B, ), R>>::spec_return_type() == signature_name_of::<R::Repr>(),
{
}

/// A native function of three parameters is registered with the signature name
/// of each parameter's representation, in order, and of its result's.
pub proof fn lemma_invocable_types_3<A: FromRepr, B: FromRepr, C: FromRepr, R: IntoRepr, FN: Fn(A, B, C) -> R>()
    ensures
        <FN as Invocable<(A, B, C, ), R>>::spec_arg_types().len() == 3,
        <FN as Invocable<(A, B, C, ), R>>::spec_arg_types()[0] == signature_name_of::<A::Repr>(),
        <FN as Invocable<(A, B, C, ), R>>::spec_arg_types()[1] == signature_name_of::<B::Repr>(),
        <FN as Invocable<(A, B, C, ), R>>::spec_arg_types()[2] == signature_name_of::<C::Repr>(),
        <FN as Invocable<(A, B, C, ), R>>::spec_return_type() == signature_name_of::<R::Repr>(),
{
}

/// A native function of four parameters is registered with the signature name
/// of each parameter's representation, in order, and of its result's.
pub proof fn lemma_invocable_types_4<A: FromRepr, B: FromRepr, C: FromRepr, D: FromRepr, R: IntoRepr, FN: Fn(A, B, C, D) -> R>()
    ensures
        <FN as Invocable<(A, B, C, D, ), R>>::spec_arg_types().len() == 4,
        <FN as Invocable<(A, B, C, D, ), R>>::spec_arg_types()[0] == signature_name_of::<A::Repr>(),
        <FN as Invocable<(A, B, C, D, ), R>>::spec_arg_types()[1] == signature_name_of::<B::Repr>(),
        <FN as Invocable<(A, B, C, D, ), R>>::spec_arg_types()[2] == signature_name_of::<C::Repr>(),
        <FN as Invocable<(A, B, C, D, ), R>>::spec_arg_types()[3] == signature_name_of::<D::Repr>(),
        <FN as Invocable<(A, B, C, D, ), R>>::spec_return_type() == signature_name_of::<R::Repr>(),
{
}

/// A native function of five parameters is registered with the signature name
/// of each parameter's representation, in order, and of its result's.
pub proof fn lemma_invocable_types_5<A: FromRepr, B: FromRepr, C: FromRepr, D: FromRepr, E: FromRepr, R: IntoRepr, FN: Fn(A, B, C, D, E) -> R>()
    ensures
        <FN as Invocable<(A, B, C, D, E, ), R>>::spec_arg_types().len() == 5,
        <FN as Invocable<(A, B, C, D, E, ), R>>::spec_arg_types()[0] == signature_name_of::<A::Repr>(),
        <FN as Invocable<(A, B, C, D, E, ), R>>::spec_arg_types()[1] == signature_name_of::<B::Repr>(),
        <FN as Invocable<(A, B, C, D, E, ), R>>::spec_arg_types()[2] == signature_name_of::<C::Repr>(),
        <FN as Invocable<(A, B, C, D, E, ), R>>::spec_arg_types()[3] == signature_name_of::<D::Repr>(),
        <FN as Invocable<(A, B, C, D, E, ), R>>::spec_arg_types()[4] == signature_name_of::<E::Repr>(),
        <FN as Invocable<(A, B, C, D, E, ), R>>::spec_return_type() == signature_name_of::<R::Repr>(),
{
}

/// A native function of six parameters is registered with the signature name
/// of each parameter's representation, in order, and of its result's.
pub proof fn lemma_invocable_types_6<A: FromRepr, B: FromRepr, C: FromRepr, D: FromRepr, E: FromRepr, G: FromRepr, R: IntoRepr, FN: Fn(A, B, C, D, E, G) -> R>()
    ensures
        <FN as Invocable<(A, B, C, D, E, G, ), R>>::spec_arg_types().len() == 6,
        <FN as Invocable<(A, B, C, D, E, G, ), R>>::spec_arg_types()[0] == signature_name_of::<A::Repr>(),
        <FN as Invocable<(A, B, C, D, E, G, ), R>>::spec_arg_types()[1] == signature_name_of::<B::Repr>(),
        <FN as Invocable<(A, B, C, D, E, G, ), R>>::spec_arg_types()[2] == signature_name_of::<C::Repr>(),
        <FN as Invocable<(A, B, C, D, E, G, ), R>>::spec_arg_types()[3] == signature_name_of::<D::Repr>(),
        <FN as Invocable<(A, B, C, D, E, G, ), R>>::spec_arg_types()[4] == signature_name_of::<E::Repr>(),
        <FN as Invocable<(A, B, C, D, E, G, ), R>>::spec_arg_types()[5] == signature_name_of::<G::Repr>(),
        <FN as Invocable<(A, B, C, D, E, G, ), R>>::spec_return_type() == signature_name_of::<R::Repr>(),
{
}

/// A global function of no parameter is exported with the redscript name
/// of each parameter's representation, in order, and of its result's.
pub proof fn lemma_global_fn_type_0<R: IntoRepr, FN: Fn() -> R>()
    ensures
        <FN as GlobalInvocable<(), R>>::spec_fn_type().0.len() == 0,
        <FN as GlobalInvocable<(), R>>::spec_fn_type().1 == script_cname_of::<R::Repr>(),
{
}

/// A global function of one parameter is exported with the redscript name
/// of each parameter's representation, in order, and of its result's.
pub proof fn lemma_global_fn_type_1<A: FromRepr, R: IntoRepr, FN: Fn(A) -> R>()
    ensures
        <FN as GlobalInvocable<(A, ), R>>::spec_fn_type().0.len() == 1,
        <FN as GlobalInvocable<(A, ), R>>::spec_fn_type().0[0] == script_cname_of::<A::Repr>(),
        <FN as GlobalInvocable<(A, ), R>>::spec_fn_type().1 == script_cname_of::<R::Repr>(),
{
}

/// A global function of two parameters is exported with the redscript name
/// of each parameter's representation, in order, and of its result's.
pub proof fn lemma_global_fn_type_2<A: FromRepr, B: FromRepr, R: IntoRepr, FN: Fn(A, B) -> R>()
    ensures
        <FN as GlobalInvocable<(A, B, ), R>>::spec_fn_type().0.len() == 2,
        <FN as GlobalInvocable<(A, B, ), R>>::spec_fn_type().0[0] == script_cname_of::<A::Repr>(),
        <FN as GlobalInvocable<(A, B, ), R>>::spec_fn_type().0[1] == script_cname_of::<B::Repr>(),
        <FN as GlobalInvocable<(A, B, ), R>>::spec_fn_type().1 == script_cname_of::<R::Repr>(),
{
}

/// A global function of three parameters is exported with the redscript name
/// of each parameter's representation, in order, and of its result's.
pub proof fn lemma_global_fn_type_3<A: FromRepr, B: FromRepr, C: FromRepr, R: IntoRepr, FN: Fn(A, B, C) -> R>()
    ensures
        <FN as GlobalInvocable<(A, B, C, ), R>>::spec_fn_type().0.len() == 3,
        <FN as GlobalInvocable<(A, B, C, ), R>>::spec_fn_type().0[0] == script_cname_of::<A::Repr>(),
        <FN as GlobalInvocable<(A, B, C, ), R>>::spec_fn_type().0[1] == script_cname_of::<B::Repr>(),
        <FN as GlobalInvocable<(A, B, C, ), R>>::spec_fn_type().0[2] == script_cname_of::<C::Repr>(),
        <FN as GlobalInvocable<(A, B, C, ), R>>::spec_fn_type().1 == script_cname_of::<R::Repr>(),
{
}

/// A global function of four parameters is exported with the redscript name
/// of each parameter's representation, in order, and of its result's.
pub proof fn lemma_global_fn_type_4<A: FromRepr, B: FromRepr, C: FromRepr, D: FromRepr, R: IntoRepr, FN: Fn(A, B, C, D) -> R>()
    ensures
        <FN as GlobalInvocable<(A, B, C, D, ), R>>::spec_fn_type().0.len() == 4,
        <FN as GlobalInvocable<(A, B, C, D, ), R>>::spec_fn_type().0[0] == script_cname_of::<A::Repr>(),
        <FN as GlobalInvocable<(A, B, C, D, ), R>>::spec_fn_type().0[1] == script_cname_of::<B::Repr>(),
        <FN as GlobalInvocable<(A, B, C, D, ), R>>::spec_fn_type().0[2] == script_cname_of::<C::Repr>(),
        <FN as GlobalInvocable<(A, B, C, D, ), R>>::spec_fn_type().0[3] == script_cname_of::<D::Repr>(),
        <FN as GlobalInvocable<(A, B, C, D, ), R>>::spec_fn_type().1 == script_cname_of::<R::Repr>(),
{
}

/// A global function of five parameters is exported with the redscript name
/// of each parameter's representation, in order, and of its result's.
pub proof fn lemma_global_fn_type_5<A: FromRepr, B: FromRepr, C: FromRepr, D: FromRepr, E: FromRepr, R: IntoRepr, FN: Fn(A, B, C, D, E) -> R>()
    ensures
        <FN as GlobalInvocable<(A, B, C, D, E, ), R>>::spec_fn_type().0.len() == 5,
        <FN as GlobalInvocable<(A, B, C, D, E, ), R>>::spec_fn_type().0[0] == script_cname_of::<A::Repr>(),
        <FN as GlobalInvocable<(A, B, C, D, E, ), R>>::spec_fn_type().0[1] == script_cname_of::<B::Repr>(),
        <FN as GlobalInvocable<(A, B, C, D, E, ), R>>::spec_fn_type().0[2] == script_cname_of::<C::Repr>(),
        <FN as GlobalInvocable<(A, B, C, D, E, ), R>>::spec_fn_type().0[3] == script_cname_of::<D::Repr>(),
        <FN as GlobalInvocable<(A, B, C, D, E, ), R>>::spec_fn_type().0[4] == script_cname_of::<E::Repr>(),
        <FN as GlobalInvocable<(A, B, C, D, E, ), R>>::spec_fn_type().1 == script_cname_of::<R::Repr>(),
{
}

/// A global function of six parameters is exported with the redscript name
/// of each parameter's representation, in order, and of its result's.
pub proof fn lemma_global_fn_type_6<A: FromRepr, B: FromRepr, C: FromRepr, D: FromRepr, E: FromRepr, G: FromRepr, R: IntoRepr, FN: Fn(A, B, C, D, E, G) -> R>()
    ensures
        <FN as GlobalInvocable<(A, B, C, D, E, G, ), R>>::spec_fn_type().0.len() == 6,
        <FN as GlobalInvocable<(A, B, C, D, E, G, ), R>>::spec_fn_type().0[0] == script_cname_of::<A::Repr>(),
        <FN as GlobalInvocable<(A, B, C, D, E, G, ), R>>::spec_fn_type().0[1] == script_cname_of::<B::Repr>(),
        <FN as GlobalInvocable<(A, B, C, D, E, G, ), R>>::spec_fn_type().0[2] == script_cname_of::<C::Repr>(),
        <FN as GlobalInvocable<(A, B, C, D, E, G, ), R>>::spec_fn_type().0[3] == script_cname_of::<D::Repr>(),
        <FN as GlobalInvocable<(A, B, C, D, E, G, ), R>>::spec_fn_type().0[4] == script_cname_of::<E::Repr>(),
        <FN as GlobalInvocable<(A, B, C, D, E, G, ), R>>::spec_fn_type().0[5] == script_cname_of::<G::Repr>(),
        <FN as GlobalInvocable<(A, B, C, D, E, G, ), R>>::spec_fn_type().1 == script_cname_of::<R::Repr>(),
{
}

/// A method of no parameter besides its receiver is exported with the
/// redscript name of each parameter's representation, in order, and of its
/// result's; the receiver is left out.
pub proof fn lemma_method_fn_type_0<Ctx, R: IntoRepr, FN: Fn(&Ctx) -> R>()
    ensures
        <FN as MethodInvocable<Ctx, (), R>>::spec_fn_type().0.len() == 0,
        <FN as MethodInvocable<Ctx, (), R>>::spec_fn_type().1 == script_cname_of::<R::Repr>(),
{
}

/// A method of one parameter besides its receiver is exported with the
/// redscript name of each parameter's representation, in order, and of its
/// result's; the receiver is left out.
pub proof fn lemma_method_fn_type_1<Ctx, A: FromRepr, R: IntoRepr, FN: Fn(&Ctx, A) -> R>()
    ensures
        <FN as MethodInvocable<Ctx, (A, ), R>>::spec_fn_type().0.len() == 1,
        <FN as MethodInvocable<Ctx, (A, ), R>>::spec_fn_type().0[0] == script_cname_of::<A::Repr>(),
        <FN as MethodInvocable<Ctx, (A, ), R>>::spec_fn_type().1 == script_cname_of::<R::Repr>(),
{
}

/// A method of two parameters besides its receiver is exported with the
/// redscript name of each parameter's representation, in order, and of its
/// result's; the receiver is left out.
pub proof fn lemma_method_fn_type_2<Ctx, A: FromRepr, B: FromRepr, R: IntoRepr, FN: Fn(&Ctx, A, B) -> R>()
    ensures
        <FN as MethodInvocable<Ctx, (A, B, ), R>>::spec_fn_type().0.len() == 2,
        <FN as MethodInvocable<Ctx, (A, B, ), R>>::spec_fn_type().0[0] == script_cname_of::<A::Repr>(),
        <FN as MethodInvocable<Ctx, (A, B, ), R>>::spec_fn_type().0[1] == script_cname_of::<B::Repr>(),
        <FN as MethodInvocable<Ctx, (A, B, ), R>>::spec_fn_type().1 == script_cname_of::<R::Repr>(),
{
}

/// A method of three parameters besides its receiver is exported with the
/// redscript name of each parameter's representation, in order, and of its
/// result's; the receiver is left out.
pub proof fn lemma_method_fn_type_3<Ctx, A: FromRepr, B: FromRepr, C: FromRepr, R: IntoRepr, FN: Fn(&Ctx, A, B, C) -> R>()
    ensures
        <FN as MethodInvocable<Ctx, (A, B, C, ), R>>::spec_fn_type().0.len() == 3,
        <FN as MethodInvocable<Ctx, (A, B, C, ), R>>::spec_fn_type().0[0] == script_cname_of::<A::Repr>(),
        <FN as MethodInvocable<Ctx, (A, B, C, ), R>>::spec_fn_type().0[1] == script_cname_of::<B::Repr>(),
        <FN as MethodInvocable<Ctx, (A, B, C, ), R>>::spec_fn_type().0[2] == script_cname_of::<C::Repr>(),
        <FN as MethodInvocable<Ctx, (A, B, C, ), R>>::spec_fn_type().1 == script_cname_of::<R::Repr>(),
{
}

/// A method of four parameters besides its receiver is exported with the
/// redscript name of each parameter's representation, in order, and of its
/// result's; the receiver is left out.
pub proof fn lemma_method_fn_type_4<Ctx, A: FromRepr, B: FromRepr, C: FromRepr, D: FromRepr, R: IntoRepr, FN: Fn(&Ctx, A, B, C, D) -> R>()
    ensures
        <FN as MethodInvocable<Ctx, (A, B, C, D, ), R>>::spec_fn_type().0.len() == 4,
        <FN as MethodInvocable<Ctx, (A, B, C, D, ), R>>::spec_fn_type().0[0] == script_cname_of::<A::Repr>(),
        <FN as MethodInvocable<Ctx, (A, B, C, D, ), R>>::spec_fn_type().0[1] == script_cname_of::<B::Repr>(),
        <FN as MethodInvocable<Ctx, (A, B, C, D, ), R>>::spec_fn_type().0[2] == script_cname_of::<C::Repr>(),
        <FN as MethodInvocable<Ctx, (A, B, C, D, ), R>>::spec_fn_type().0[3] == script_cname_of::<D::Repr>(),
        <FN as MethodInvocable<Ctx, (A, B, C, D, ), R>>::spec_fn_type().1 == script_cname_of::<R::Repr>(),
{
}

/// A method of five parameters besides its receiver is exported with the
/// redscript name of each parameter's representation, in order, and of its
/// result's; the receiver is left out.
pub proof fn lemma_method_fn_type_5<Ctx, A: FromRepr, B: FromRepr, C: FromRepr, D: FromRepr, E: FromRepr, R: IntoRepr, FN: Fn(&Ctx, A, B, C, D, E) -> R>()
    ensures
        <FN as MethodInvocable<Ctx, (A, B, C, D, E, ), R>>::spec_fn_type().0.len() == 5,
        <FN as MethodInvocable<Ctx, (A, B, C, D, E, ), R>>::spec_fn_type().0[0] == script_cname_of::<A::Repr>(),
        <FN as MethodInvocable<Ctx, (A, B, C, D, E, ), R>>::spec_fn_type().0[1] == script_cname_of::<B::Repr>(),
        <FN as MethodInvocable<Ctx, (A, B, C, D, E, ), R>>::spec_fn_type().0[2] == script_cname_of::<C::Repr>(),
        <FN as MethodInvocable<Ctx, (A, B, C, D, E, ), R>>::spec_fn_type().0[3] == script_cname_of::<D::Repr>(),
        <FN as MethodInvocable<Ctx, (A, B, C, D, E, ), R>>::spec_fn_type().0[4] == script_cname_of::<E::Repr>(),
        <FN as MethodInvocable<Ctx, (A, B, C, D, E, ), R>>::spec_fn_type().1 == script_cname_of::<R::Repr>(),
{
}

/// A method of six parameters besides its receiver is exported with the
/// redscript name of each parameter's representation, in order, and of its
/// result's; the receiver is left out.
pub proof fn lemma_method_fn_type_6<Ctx, A: FromRepr, B: FromRepr, C: FromRepr, D: FromRepr, E: FromRepr, G: FromRepr, R: IntoRepr, FN: Fn(&Ctx, A, B, C, D, E, G) -> R>()
    ensures
        <FN as MethodInvocable<Ctx, (A, B, C, D, E, G, ), R>>::spec_fn_type().0.len() == 6,
        <FN as MethodInvocable<Ctx, (A, B, C, D, E, G, ), R>>::spec_fn_type().0[0] == script_cname_of::<A::Repr>(),
        <FN as MethodInvocable<Ctx, (A, B, C, D, E, G, ), R>>::spec_fn_type().0[1] == script_cname_of::<B::Repr>(),
        <FN as MethodInvocable<Ctx, (A, B, C, D, E, G, ), R>>::spec_fn_type().0[2] == script_cname_of::<C::Repr>(),
        <FN as MethodInvocable<Ctx, (A, B, C, D, E, G, ), R>>::spec_fn_type().0[3] == script_cname_of::<D::Repr>(),
        <FN as MethodInvocable<Ctx, (A, B, C, D, E, G, ), R>>::spec_fn_type().0[4] == script_cname_of::<E::Repr>(),
        <FN as MethodInvocable<Ctx, (A, B, C, D, E, G, ), R>>::spec_fn_type().0[5] == script_cname_of::<G::Repr>(),
        <FN as MethodInvocable<Ctx, (A, B, C, D, E, G, ), R>>::spec_fn_type().1 == script_cname_of::<R::Repr>(),
{
}

/// The flags with which a native function is registered with the game's
/// RTTI.
#[derive(Debug, Clone, Copy, Default, PartialEq, Eq, Structural)]
pub struct FunctionFlags {
    pub is_native: bool,
    pub is_final: bool,
    pub is_static: bool,
    pub is_event: bool,
}

/// A global function to be registered with the game: its name, the handler
/// the game calls (of type `H`), and its signature.
#[derive(Debug)]
pub struct GlobalMetadata<H> {
    name: &'static str,
    func: H,
    typ: FnType,
}

impl<H> GlobalMetadata<H> {
    /// The name of the function.
    pub closed spec fn spec_name(&self) -> &'static str {
        self.name
    }

    /// The handler the game calls.
    pub closed spec fn spec_func(&self) -> H {
        self.func
    }

    /// The signature of the function.
    pub closed spec fn spec_fn_type(&self) -> (Seq<u64>, u64) {
        self.typ@
    }

    /// The function `name`, handled by `func`, with the signature of `f`.
    pub fn new<F: GlobalInvocable<A, R>, A, R>(name: &'static str, func: H, _f: &F) -> (m:
        GlobalMetadata<H>)
        ensures
            m.spec_name() == name,
            m.spec_func() == func,
            m.spec_fn_type() == F::spec_fn_type(),
    {
        GlobalMetadata { name, func, typ: F::fn_type() }
    }

    /// The name of the function.
    pub fn name(&self) -> (name: &'static str)
        ensures
            name == self.spec_name(),
    {
        self.name
    }

    /// The handler the game calls.
    pub fn func(&self) -> (func: &H)
        ensures
            *func == self.spec_func(),
    {
        &self.func
    }

    /// The signature of the function.
    pub fn fn_type(&self) -> (t: &FnType)
        ensures
            t@ == self.spec_fn_type(),
    {
        &self.typ
    }

    /// The flags the function is registered with: a global function is
    /// native, final and static.
    pub fn flags(&self) -> (flags: FunctionFlags)
        ensures
            flags == (FunctionFlags { is_native: true, is_final: true, is_static: true, is_event: false }),
    {
        FunctionFlags { is_native: true, is_final: true, is_static: true, is_event: false }
    }
}

/// A method of the class `Ctx` to be registered with the game: its name,
/// the handler the game calls (of type `H`), its signature, and whether it
/// is an event or final.
#[derive(Debug)]
pub struct MethodMetadata<Ctx, H> {
    name: &'static str,
    func: H,
    typ: FnType,
    parent: PhantomData<Ctx>,
    is_event: bool,
    is_final: bool,
}

impl<Ctx, H> MethodMetadata<Ctx, H> {
    /// The name of the method.
    pub closed spec fn spec_name(&self) -> &'static str {
        self.name
    }

    /// The handler the game calls.
    pub closed spec fn spec_func(&self) -> H {
        self.func
    }

    /// The signature of the method, the receiver left out.
    pub closed spec fn spec_fn_type(&self) -> (Seq<u64>, u64) {
        self.typ@
    }

    /// Whether the method is an event.
    pub closed spec fn spec_is_event(&self) -> bool {
        self.is_event
    }

    /// Whether the method is final.
    pub closed spec fn spec_is_final(&self) -> bool {
        self.is_final
    }

    /// The method `name`, handled by `func`, with the signature of `f`;
    /// neither an event nor final.
    pub fn new<F: MethodInvocable<Ctx, A, R>, A, R>(name: &'static str, func: H, _f: &F) -> (m:
        MethodMetadata<Ctx, H>)
        ensures
            m.spec_name() == name,
            m.spec_func() == func,
            m.spec_fn_type() == F::spec_fn_type(),
            !m.spec_is_event(),
            !m.spec_is_final(),
    {
        MethodMetadata {
            name,
            func,
            typ: F::fn_type(),
            parent: PhantomData,
            is_event: false,
            is_final: false,
        }
    }

    /// The same method, marked as an event.
    pub fn with_is_event(self) -> (m: MethodMetadata<Ctx, H>)
        ensures
            m.spec_name() == self.spec_name(),
            m.spec_func() == self.spec_func(),
            m.spec_fn_type() == self.spec_fn_type(),
            m.spec_is_event(),
            m.spec_is_final() == self.spec_is_final(),
    {
        MethodMetadata { is_event: true, ..self }
    }

    /// The same method, marked as final.
    pub fn with_is_final(self) -> (m: MethodMetadata<Ctx, H>)
        ensures
            m.spec_name() == self.spec_name(),
            m.spec_func() == self.spec_func(),
            m.spec_fn_type() == self.spec_fn_type(),
            m.spec_is_event() == self.spec_is_event(),
            m.spec_is_final(),
    {
        MethodMetadata { is_final: true, ..self }
    }

    /// The name of the method.
    pub fn name(&self) -> (name: &'static str)
        ensures
            name == self.spec_name(),
    {
        self.name
    }

    /// The handler the game calls.
    pub fn func(&self) -> (func: &H)
        ensures
            *func == self.spec_func(),
    {
        &self.func
    }

    /// The signature of the method, the receiver left out.
    pub fn fn_type(&self) -> (t: &FnType)
        ensures
            t@ == self.spec_fn_type(),
    {
        &self.typ
    }

    /// The flags the method is registered with: native, an event or final
    /// as it was marked, and never static.
    pub fn flags(&self) -> (flags: FunctionFlags)
        ensures
            flags == (FunctionFlags {
                is_native: true,
                is_final: self.spec_is_final(),
                is_static: false,
                is_event: self.spec_is_event(),
            }),
    {
        FunctionFlags { is_native: true, is_final: self.is_final, is_static: false, is_event: self.is_event }
    }
}

} // verus!
