//! The names under which Rust declarations of game functions find them.
//!
//! A scripted function is found in the game's RTTI under a mangled name:
//! the function's name, followed by `;` and the mangled names of its
//! parameter types (and, for operators, `;` and the mangled name of the
//! result type). Static scripted functions are prefixed with their class and
//! `::`. Native functions and callbacks go by their plain name.
use vstd::prelude::*;

verus! {

/// The result of converting an identifier to PascalCase, as the `heck`
/// crate does (for example `get_display_name` becomes `GetDisplayName`).
pub uninterp spec fn pascal_case(ident: Seq<char>) -> Seq<char>;

/// Converts an identifier to PascalCase with `heck`'s
/// `ToPascalCase::to_pascal_case`. Nothing is claimed of the result but that
/// it is `pascal_case` of the identifier: the conversion depends on its
/// argument alone.
#[verifier::external_body]
fn to_pascal_case(ident: &str) -> (r: String)
    ensures
        r@ == pascal_case(ident@),
{
    heck::ToPascalCase::to_pascal_case(ident)
}

/// How a Rust declaration of a game function is configured.
#[derive(Debug)]
pub struct FunctionAttrs {
    /// The function's name in the game, in place of the Rust name.
    pub name: Option<String>,
    /// The full name in the game, which takes precedence over `name`.
    pub full_name: Option<String>,
    /// The function is native, and goes by its plain name.
    pub native: bool,
    /// The function is a callback, and goes by its plain name.
    pub cb: bool,
    /// The function is an operator: its name includes its result type.
    pub operator: bool,
}

/// The name of a function in the game: its full name if set, else its name
/// if set, else the Rust identifier in PascalCase.
pub open spec fn spec_script_name(ident: Seq<char>, attrs: FunctionAttrs) -> Seq<char> {
    match attrs.full_name {
        Some(full) => full@,
        None => match attrs.name {
            Some(name) => name@,
            None => pascal_case(ident),
        },
    }
}

/// The name of the Rust function `ident` in the game.
pub fn script_name(ident: &str, attrs: &FunctionAttrs) -> (name: String)
    ensures
        name@ == spec_script_name(ident@, *attrs),
{
    match &attrs.full_name {
        Some(full) => full.clone(),
        None => match &attrs.name {
            Some(name) => name.clone(),
            None => to_pascal_case(ident),
        },
    }
}

/// The concatenation of a sequence of strings.
pub open spec fn concat_all(parts: Seq<Seq<char>>) -> Seq<char>
    decreases parts.len(),
{
    if parts.len() == 0 {
        Seq::empty()
    } else {
        concat_all(parts.drop_last()) + parts.last()
    }
}

/// The mangled name of a function called `name`; `has_receiver` tells
/// whether it is an instance method, `parent` is the class that declares it,
/// `args` are the mangled names of the parameter types and `ret` that of the
/// result type, if the declaration has one.
pub open spec fn spec_mangled_name(
    name: Seq<char>,
    has_receiver: bool,
    parent: Option<Seq<char>>,
    args: Seq<Seq<char>>,
    ret: Option<Seq<char>>,
    attrs: FunctionAttrs,
) -> Seq<char> {
    let prefix = if !has_receiver && parent is Some && !attrs.native {
        parent.unwrap() + "::"@
    } else {
        Seq::empty()
    };
    let arg_part = if (!attrs.cb && !attrs.native) || attrs.operator {
        ";"@ + concat_all(args)
    } else {
        Seq::empty()
    };
    let ret_part = if ret is Some && attrs.operator {
        ";"@ + ret.unwrap()
    } else {
        Seq::empty()
    };
    prefix + name + arg_part + ret_part
}

/// The class prefix of a mangled name: `Class::` for a static scripted
/// function of a class, nothing otherwise.
pub open spec fn class_prefix(has_receiver: bool, parent: Option<Seq<char>>, native: bool) -> Seq<char> {
    if !has_receiver && !native && parent is Some {
        parent.unwrap() + "::"@
    } else {
        Seq::empty()
    }
}

/// The shape of mangled names. A scripted function that is not a callback
/// is found by its name, `;` and the mangled names of its parameter types,
/// in order, whether or not it belongs to a class, after the class prefix
/// of a static function; an operator adds `;` and its result type. A
/// native function, unless it is an operator, goes by its plain name, and a
/// scripted callback by its prefixed name.
pub proof fn lemma_mangled_name_shape(
    name: Seq<char>,
    has_receiver: bool,
    parent: Option<Seq<char>>,
    args: Seq<Seq<char>>,
    ret: Option<Seq<char>>,
    attrs: FunctionAttrs,
)
    ensures
        !attrs.native && !attrs.cb && !attrs.operator ==> spec_mangled_name(
            name,
            has_receiver,
            parent,
            args,
            ret,
            attrs,
        ) == class_prefix(has_receiver, parent, false) + name + ";"@ + concat_all(args),
        attrs.operator ==> spec_mangled_name(name, has_receiver, parent, args, ret, attrs) == class_prefix(
            has_receiver,
            parent,
            attrs.native,
        ) + name + ";"@ + concat_all(args) + match ret {
            Some(t) => ";"@ + t,
            None => Seq::empty(),
        },
        attrs.native && !attrs.operator ==> spec_mangled_name(
            name,
            has_receiver,
            parent,
            args,
            ret,
            attrs,
        ) == name,
        !attrs.native && attrs.cb && !attrs.operator ==> spec_mangled_name(
            name,
            has_receiver,
            parent,
            args,
            ret,
            attrs,
        ) == class_prefix(has_receiver, parent, false) + name,
{
    let m = spec_mangled_name(name, has_receiver, parent, args, ret, attrs);
    let p = class_prefix(has_receiver, parent, attrs.native);
    if !attrs.native && !attrs.cb && !attrs.operator {
        assert(m =~= p + name + ";"@ + concat_all(args));
    }
    if attrs.operator {
        match ret {
            Some(t) => assert(m =~= p + name + ";"@ + concat_all(args) + (";"@ + t)),
            None => assert(m =~= p + name + ";"@ + concat_all(args) + Seq::empty()),
        }
    }
    if attrs.native && !attrs.operator {
        assert(m =~= name);
    }
    if !attrs.native && attrs.cb && !attrs.operator {
        assert(m =~= p + name);
    }
}

/// How the class of a function enters its mangled name: a static function
/// of a scripted class is found under `Class::` followed by the name it
/// would have as a global function, and the class of an instance method or
/// of a native function does not enter it at all.
pub proof fn lemma_mangled_name_class(
    name: Seq<char>,
    has_receiver: bool,
    class: Seq<char>,
    args: Seq<Seq<char>>,
    ret: Option<Seq<char>>,
    attrs: FunctionAttrs,
)
    ensures
        !has_receiver && !attrs.native ==> spec_mangled_name(
            name,
            false,
            Some(class),
            args,
            ret,
            attrs,
        ) == class + "::"@ + spec_mangled_name(name, false, None, args, ret, attrs),
        has_receiver || attrs.native ==> spec_mangled_name(
            name,
            has_receiver,
            Some(class),
            args,
            ret,
            attrs,
        ) == spec_mangled_name(name, has_receiver, None, args, ret, attrs),
{
    if !has_receiver && !attrs.native {
        let global = spec_mangled_name(name, false, None, args, ret, attrs);
        let arg_part = if (!attrs.cb && !attrs.native) || attrs.operator {
            ";"@ + concat_all(args)
        } else {
            Seq::empty()
        };
        let ret_part = if ret is Some && attrs.operator {
            ";"@ + ret.unwrap()
        } else {
            Seq::empty()
        };
        assert(global =~= Seq::<char>::empty() + name + arg_part + ret_part);
        assert(spec_mangled_name(name, false, Some(class), args, ret, attrs) =~= class + "::"@
            + global);
    }
}

/// Builds the mangled name of a function; see [`spec_mangled_name`].
pub fn generate_name(
    name: &str,
    has_receiver: bool,
    parent: Option<&str>,
    args: &[String],
    ret: Option<&str>,
    attrs: &FunctionAttrs,
) -> (r: String)
    ensures
        r@ == spec_mangled_name(
            name@,
            has_receiver,
            match parent {
                Some(p) => Some(p@),
                None => None,
            },
            args@.map_values(|a: String| a@),
            match ret {
                Some(t) => Some(t@),
                None => None,
            },
            *attrs,
        ),
{
    let ghost parent_view = match parent {
        Some(p) => Some(p@),
        None => None,
    };
    let ghost arg_views = args@.map_values(|a: String| a@);
    let mut r = String::new();
    if !has_receiver && !attrs.native {
        if let Some(p) = parent {
            r.append(p);
            r.append("::");
        }
    }
    r.append(name);
    if (!attrs.cb && !attrs.native) || attrs.operator {
        r.append(";");
        let ghost before = r@;
        let mut i: usize = 0;
        while i < args.len()
            invariant
                i <= args@.len(),
                arg_views == args@.map_values(|a: String| a@),
                r@ == before + concat_all(arg_views.take(i as int)),
            decreases args@.len() - i,
        {
            r.append(args[i].as_str());
            proof {
                assert(arg_views.take(i + 1).drop_last() =~= arg_views.take(i as int));
            }
            i = i + 1;
        }
        proof {
            assert(arg_views.take(args@.len() as int) =~= arg_views);
        }
    }
    if attrs.operator {
        if let Some(t) = ret {
            r.append(";");
            r.append(t);
        }
    }
    proof {
        reveal_strlit("::");
        reveal_strlit(";");
    }
    r
}

/// How a Rust declaration of a game function calls it.
#[derive(Debug, PartialEq, Eq)]
pub enum CallTarget {
    /// An instance method, found on the receiver's class by its mangled name.
    Method { signature: String },
    /// A global function, found by its mangled name.
    Global { signature: String },
    /// A static native method, found by name on the class `class`.
    Static { class: String, name: String },
}

/// The call that a Rust declaration of a game function makes: a method call
/// when it has a receiver and a class; a call of a global function by its
/// mangled name when it has no class, or is a scripted static method; a
/// static call on the class when it is a native static method.
pub open spec fn spec_call_target_is(
    t: CallTarget,
    ident: Seq<char>,
    has_receiver: bool,
    parent: Option<Seq<char>>,
    args: Seq<Seq<char>>,
    ret: Option<Seq<char>>,
    attrs: FunctionAttrs,
) -> bool {
    let name = spec_script_name(ident, attrs);
    let signature = spec_mangled_name(name, has_receiver, parent, args, ret, attrs);
    if has_receiver && parent is Some {
        t matches CallTarget::Method { signature: s } && s@ == signature
    } else if !has_receiver && parent is Some && attrs.native {
        t matches CallTarget::Static { class, name: n } && class@ == parent.unwrap() && n@ == name
    } else {
        t matches CallTarget::Global { signature: s } && s@ == signature
    }
}

/// Decides how the Rust function `ident`, declared in the class `parent` if
/// any, calls the game function it stands for.
pub fn forwarder_call(
    ident: &str,
    has_receiver: bool,
    parent: Option<&str>,
    args: &[String],
    ret: Option<&str>,
    attrs: &FunctionAttrs,
) -> (t: CallTarget)
    ensures
        spec_call_target_is(
            t,
            ident@,
            has_receiver,
            match parent {
                Some(p) => Some(p@),
                None => None,
            },
            args@.map_values(|a: String| a@),
            match ret {
                Some(x) => Some(x@),
                None => None,
            },
            *attrs,
        ),
{
    let name = script_name(ident, attrs);
    match parent {
        Some(p) => {
            if !has_receiver && attrs.native {
                return CallTarget::Static { class: String::from_str(p), name };
            }
        },
        None => {},
    }
    let signature = generate_name(name.as_str(), has_receiver, parent, args, ret, attrs);
    if has_receiver && parent.is_some() {
        CallTarget::Method { signature }
    } else {
        CallTarget::Global { signature }
    }
}

/// The shape of a parameter of a Rust declaration of a game function.
#[derive(Debug, Clone, Copy, PartialEq, Eq, Structural)]
pub enum ParamShape {
    /// The `self` receiver.
    Receiver,
    /// A parameter bound to a plain identifier.
    Plain,
    /// A parameter bound by any other pattern.
    Pattern,
}

/// Why a Rust declaration of game functions is refused.
#[derive(Debug, Clone, Copy, PartialEq, Eq, Structural)]
pub enum DeclarationError {
    /// Functions are imported from an impl of a trait.
    TraitImpl,
    /// The type whose functions are imported is not named by a path.
    NotAPath,
    /// The type whose functions are imported is not named by an identifier.
    NotATypeIdentifier,
    /// A parameter is bound by a pattern other than an identifier.
    NotPlainParameter,
}

/// The text that describes a refused declaration.
pub open spec fn spec_declaration_error_text(e: DeclarationError) -> Seq<char> {
    match e {
        DeclarationError::TraitImpl => "Cannot import a trait impl"@,
        DeclarationError::NotAPath => "Expected a path"@,
        DeclarationError::NotATypeIdentifier => "Expected a type identifier"@,
        DeclarationError::NotPlainParameter => "Only plain parameters are supported"@,
    }
}

impl DeclarationError {
    /// Describes the error.
    pub fn message(&self) -> (text: String)
        ensures
            text@ == spec_declaration_error_text(*self),
    {
        match self {
            DeclarationError::TraitImpl => String::from_str("Cannot import a trait impl"),
            DeclarationError::NotAPath => String::from_str("Expected a path"),
            DeclarationError::NotATypeIdentifier => String::from_str("Expected a type identifier"),
            DeclarationError::NotPlainParameter => String::from_str(
                "Only plain parameters are supported",
            ),
        }
    }
}

/// Checks the impl block whose functions are imported: it must not be an
/// impl of a trait, and its type must be named by a path that is a single
/// identifier. The first failing check decides.
pub fn check_import(is_trait_impl: bool, type_is_path: bool, type_is_ident: bool) -> (r: Result<
    (),
    DeclarationError,
>)
    ensures
        r == if is_trait_impl {
            Err(DeclarationError::TraitImpl)
        } else if !type_is_path {
            Err(DeclarationError::NotAPath)
        } else if !type_is_ident {
            Err(DeclarationError::NotATypeIdentifier)
        } else {
            Ok::<(), DeclarationError>(())
        },
{
    if is_trait_impl {
        Err(DeclarationError::TraitImpl)
    } else if !type_is_path {
        Err(DeclarationError::NotAPath)
    } else if !type_is_ident {
        Err(DeclarationError::NotATypeIdentifier)
    } else {
        Ok(())
    }
}

/// Whether some parameter is bound by a pattern other than an identifier.
pub open spec fn has_pattern_param(params: Seq<ParamShape>) -> bool {
    exists|i: int| 0 <= i < params.len() && params[i] == ParamShape::Pattern
}

/// Checks that every parameter is the receiver or a plain identifier.
pub fn check_parameters(params: &[ParamShape]) -> (r: Result<(), DeclarationError>)
    ensures
        r == if has_pattern_param(params@) {
            Err(DeclarationError::NotPlainParameter)
        } else {
            Ok::<(), DeclarationError>(())
        },
{
    let mut i: usize = 0;
    while i < params.len()
        invariant
            i <= params@.len(),
            forall|k: int| 0 <= k < i ==> params@[k] != ParamShape::Pattern,
        decreases params@.len() - i,
    {
        if params[i] == ParamShape::Pattern {
            return Err(DeclarationError::NotPlainParameter);
        }
        i = i + 1;
    }
    Ok(())
}

/// Whether a declaration's first parameter is the receiver.
pub open spec fn has_receiver(params: Seq<ParamShape>) -> bool {
    params.len() > 0 && params[0] == ParamShape::Receiver
}

/// What [`forwarder`] gives for the Rust function `ident` with parameters of
/// the shapes `params`: the refusal when a parameter is not plain, else the
/// call it makes.
pub open spec fn forwarder_result_is(
    r: Result<CallTarget, DeclarationError>,
    ident: Seq<char>,
    params: Seq<ParamShape>,
    parent: Option<Seq<char>>,
    args: Seq<Seq<char>>,
    ret: Option<Seq<char>>,
    attrs: FunctionAttrs,
) -> bool {
    if has_pattern_param(params) {
        r == Err::<CallTarget, DeclarationError>(DeclarationError::NotPlainParameter)
    } else {
        r matches Ok(t) && spec_call_target_is(t, ident, has_receiver(params), parent, args, ret, attrs)
    }
}

/// How the Rust function `ident`, with parameters of the shapes `params`,
/// calls the game function it stands for; refused when a parameter is not
/// plain. `args` are the mangled names of the types of the plain
/// parameters.
pub fn forwarder(
    ident: &str,
    params: &[ParamShape],
    parent: Option<&str>,
    args: &[String],
    ret: Option<&str>,
    attrs: &FunctionAttrs,
) -> (r: Result<CallTarget, DeclarationError>)
    ensures
        forwarder_result_is(
            r,
            ident@,
            params@,
            match parent {
                Some(p) => Some(p@),
                None => None,
            },
            args@.map_values(|a: String| a@),
            match ret {
                Some(x) => Some(x@),
                None => None,
            },
            *attrs,
        ),
{
    match check_parameters(params) {
        Err(e) => Err(e),
        Ok(()) => {
            let receiver = params.len() > 0 && params[0] == ParamShape::Receiver;
            Ok(forwarder_call(ident, receiver, parent, args, ret, attrs))
        },
    }
}

/// An item of an impl block whose functions are imported from the game:
/// a function declaration without a body, or any other item (`T`).
#[derive(Debug)]
pub enum ImportItem<T> {
    /// A function declaration: its identifier, the shapes of its parameters,
    /// the mangled names of the types of its plain parameters and of its
    /// result, and its configuration.
    Function {
        ident: String,
        params: Vec<ParamShape>,
        args: Vec<String>,
        ret: Option<String>,
        attrs: FunctionAttrs,
    },
    /// Any other item.
    Other(T),
}

/// What an item of an imported impl block becomes.
#[derive(Debug, PartialEq)]
pub enum Imported<T> {
    /// A function declaration becomes a forwarder that makes this call, or
    /// is refused.
    Forwarder(Result<CallTarget, DeclarationError>),
    /// Any other item is kept as it is.
    Kept(T),
}

/// What the item `item` of an impl block for the class `parent` becomes.
pub open spec fn imported_is<T>(out: Imported<T>, item: ImportItem<T>, parent: Seq<char>) -> bool {
    match item {
        ImportItem::Function { ident, params, args, ret, attrs } => match out {
            Imported::Forwarder(r) => forwarder_result_is(
                r,
                ident@,
                params@,
                Some(parent),
                args@.map_values(|a: String| a@),
                match ret {
                    Some(x) => Some(x@),
                    None => None,
                },
                attrs,
            ),
            Imported::Kept(_) => false,
        },
        ImportItem::Other(t) => out == Imported::<T>::Kept(t),
    }
}

/// Turns the items of an impl block for the class `parent` into what the
/// import makes of them, in the same order: each function declaration into
/// a forwarder to the game function of the class, every other item kept.
pub fn import_items<T>(parent: &str, items: Vec<ImportItem<T>>) -> (out: Vec<Imported<T>>)
    ensures
        out@.len() == items@.len(),
        forall|i: int| 0 <= i < items@.len() ==> imported_is(#[trigger] out@[i], items@[i], parent@),
{
    let ghost orig = items@;
    assert(orig.len() == items.len());
    let mut items = items;
    let mut out: Vec<Imported<T>> = Vec::new();
    let mut k: usize = 0;
    while items.len() > 0
        invariant
            k + items@.len() == orig.len(),
            orig.len() <= usize::MAX,
            items@ == orig.skip(k as int),
            out@.len() == k,
            forall|i: int| 0 <= i < k ==> imported_is(#[trigger] out@[i], orig[i], parent@),
        decreases items@.len(),
    {
        let item = items.remove(0);
        proof {
            assert(item == orig[k as int]);
            assert(items@ =~= orig.skip(k + 1));
        }
        let done = match item {
            ImportItem::Function { ident, params, args, ret, attrs } => {
                let r = match &ret {
                    Some(t) => forwarder(
                        ident.as_str(),
                        params.as_slice(),
                        Some(parent),
                        args.as_slice(),
                        Some(t.as_str()),
                        &attrs,
                    ),
                    None => forwarder(
                        ident.as_str(),
                        params.as_slice(),
                        Some(parent),
                        args.as_slice(),
                        None,
                        &attrs,
                    ),
                };
                Imported::Forwarder(r)
            },
            ImportItem::Other(t) => Imported::Kept(t),
        };
        out.push(done);
        k = k + 1;
    }
    out
}

/// The type named by the header of an impl block.
#[derive(Debug)]
pub enum SelfType {
    /// A path that is a single identifier, the class's name.
    Ident(String),
    /// A path of more than one segment.
    Path,
    /// A type that is not named by a path.
    Other,
}

/// Imports the functions of an impl block from the game: an impl of a trait
/// is refused, and so is a type that is not named by a single identifier;
/// otherwise the items are turned into what the import makes of them, as
/// [`import_items`] does for the class that the identifier names.
pub fn redscript_import<T>(is_trait_impl: bool, self_type: SelfType, items: Vec<ImportItem<T>>) -> (r:
    Result<Vec<Imported<T>>, DeclarationError>)
    ensures
        is_trait_impl ==> r == Err::<Vec<Imported<T>>, DeclarationError>(DeclarationError::TraitImpl),
        !is_trait_impl ==> match self_type {
            SelfType::Other => r == Err::<Vec<Imported<T>>, DeclarationError>(
                DeclarationError::NotAPath,
            ),
            SelfType::Path => r == Err::<Vec<Imported<T>>, DeclarationError>(
                DeclarationError::NotATypeIdentifier,
            ),
            SelfType::Ident(name) => r matches Ok(out) && out@.len() == items@.len() && forall|i: int|
                0 <= i < items@.len() ==> imported_is(#[trigger] out@[i], items@[i], name@),
        },
{
    let (is_path, is_ident) = match &self_type {
        SelfType::Ident(_) => (true, true),
        SelfType::Path => (true, false),
        SelfType::Other => (false, false),
    };
    match check_import(is_trait_impl, is_path, is_ident) {
        Err(e) => Err(e),
        Ok(()) => match self_type {
            SelfType::Ident(name) => Ok(import_items(name.as_str(), items)),
            SelfType::Path => Err(DeclarationError::NotATypeIdentifier),
            SelfType::Other => Err(DeclarationError::NotAPath),
        },
    }
}

} // verus!
