//! The signature transformer and wrapper generator: given a declared
//! function and its two requirement lists, derive everything the emitted
//! code needs — the renamed private implementation, the names of the
//! per-function constants and cache cell, the argument forwarding list,
//! and the normalized return shape.
//!
//! Generation rejects any function with a receiver parameter: only free
//! functions can be gated, because a receiver cannot be forwarded through
//! the wrapper boundary.  That misuse is reported at generation time and
//! never reaches runtime.

use vstd::prelude::*;
use vstd::string::*;

use crate::error::GenerateError;
use crate::text::{clone_strings, str_eq, str_views, to_ascii_upper, upper_seq};

verus! {

/// The visibility of a declared function, as far as the generator needs
/// to reproduce it on the wrapper.
#[derive(Debug, Clone, Copy, PartialEq, Eq, Structural)]
pub enum Visibility {
    /// `pub`.
    Public,
    /// `pub(crate)`.
    Crate,
    /// No visibility keyword: module-internal.
    Inherited,
}

/// A type expression, reduced to what the generator inspects: the segment
/// names of a path type, or any other shape kept as written.
#[derive(Debug, Clone, PartialEq, Eq)]
pub enum TypeExpr {
    /// A path type such as `simics::Result`: its segment names in order.
    Path { segments: Vec<String> },
    /// Any other shape of type, as written.
    Other { text: String },
}

/// The declared return type of a function: absent, or a type expression.
#[derive(Debug, Clone, PartialEq, Eq)]
pub enum ReturnType {
    /// No `->` at all: the function returns `()`.
    Default,
    /// A declared return type.
    Type(TypeExpr),
}

/// One parameter of a declared function.
#[derive(Debug, Clone, PartialEq, Eq)]
pub enum Param {
    /// A receiver such as `&self`; not supported by the generator.
    Receiver,
    /// An ordinary named, typed parameter.
    Typed { name: String, ty: TypeExpr },
}

/// A function declaration, as the generator consumes it.
#[derive(Debug, Clone, PartialEq, Eq)]
pub struct FunctionDeclaration {
    /// The declared name.
    pub name: String,
    /// The declared visibility, reused by the wrapper.
    pub visibility: Visibility,
    /// The ordered parameter list.
    pub params: Vec<Param>,
    /// The declared return type.
    pub output: ReturnType,
    /// The generic parameter names, reused and forwarded by the wrapper.
    pub generics: Vec<String>,
    /// The documentation lines, moved onto the wrapper.
    pub docs: Vec<String>,
}

/// Whether two type expressions hold the same text.
pub open spec fn type_expr_eq(a: TypeExpr, b: TypeExpr) -> bool {
    match (a, b) {
        (TypeExpr::Path { segments: s1 }, TypeExpr::Path { segments: s2 }) => str_views(s1@)
            == str_views(s2@),
        (TypeExpr::Other { text: t1 }, TypeExpr::Other { text: t2 }) => t1@ == t2@,
        _ => false,
    }
}

/// Whether two return types hold the same text.
pub open spec fn return_type_eq(a: ReturnType, b: ReturnType) -> bool {
    match (a, b) {
        (ReturnType::Default, ReturnType::Default) => true,
        (ReturnType::Type(t1), ReturnType::Type(t2)) => type_expr_eq(t1, t2),
        _ => false,
    }
}

/// The syntactic outcome-type heuristic: a return type "already is" the
/// uniform outcome type exactly when its terminal named component is
/// literally `Result`.  This is a name check, not a structural one, and
/// misfires on any unrelated type that shares the terminal name.
pub trait IsResultType {
    /// What the heuristic decides for this return type.
    spec fn spec_is_result_type(&self) -> bool;

    /// Whether the terminal named component is literally `Result`.
    fn is_result_type(&self) -> (b: bool)
        ensures
            b == self.spec_is_result_type(),
    ;
}

impl IsResultType for ReturnType {
    open spec fn spec_is_result_type(&self) -> bool {
        match self {
            ReturnType::Default => false,
            ReturnType::Type(TypeExpr::Path { segments }) => segments@.len() > 0
                && segments@.last()@ == "Result"@,
            ReturnType::Type(TypeExpr::Other { .. }) => false,
        }
    }

    fn is_result_type(&self) -> (b: bool) {
        match self {
            ReturnType::Default => false,
            ReturnType::Type(TypeExpr::Path { segments }) => {
                if segments.len() == 0 {
                    false
                } else {
                    str_eq(segments[segments.len() - 1].as_str(), "Result")
                }
            },
            ReturnType::Type(TypeExpr::Other { .. }) => false,
        }
    }
}

/// The name of the renamed private implementation.
pub open spec fn spec_impl_name(name: Seq<char>) -> Seq<char> {
    "versioned_"@ + name
}

/// The name of the per-function memoized gate cell.
pub open spec fn spec_enabled_name(name: Seq<char>) -> Seq<char> {
    "VERSIONED_ENABLED_"@ + upper_seq(spec_impl_name(name))
}

/// The name of the per-function `valid` requirement constant.
pub open spec fn spec_valid_name(name: Seq<char>) -> Seq<char> {
    "VERSIONED_VALID_"@ + upper_seq(spec_impl_name(name))
}

/// The name of the per-function `invalid` requirement constant.
pub open spec fn spec_invalid_name(name: Seq<char>) -> Seq<char> {
    "VERSIONED_INVALID_"@ + upper_seq(spec_impl_name(name))
}

/// The forwarded name of one parameter (receivers forward nothing).
pub open spec fn spec_param_name(p: Param) -> Seq<char> {
    match p {
        Param::Receiver => Seq::empty(),
        Param::Typed { name, .. } => name@,
    }
}

/// Whether some parameter is a receiver.
pub open spec fn has_receiver(params: Seq<Param>) -> bool {
    exists|i: int| 0 <= i < params.len() && params[i] is Receiver
}

/// Everything emitted for one gated function: the two function
/// declarations and the constant and cache declarations beside them, in
/// the shape the generator fixes.
///
/// The private implementation keeps the original body under
/// `implementation_name`, with module-internal visibility and lint
/// suppression for deprecated calls; the wrapper reuses the original
/// name, visibility, generics and documentation.  At run time the wrapper
/// evaluates its gate cell first and, when it is open, forwards
/// `forwarded_args` positionally — through
/// [`VersionGate::invoke`](crate::gate::VersionGate::invoke) when
/// `passthrough` is `false` (the implementation's plain result is wrapped
/// in the success variant) and through
/// [`VersionGate::invoke_outcome`](crate::gate::VersionGate::invoke_outcome)
/// when `passthrough` is `true` (the result already is the uniform
/// outcome type and both its variants pass through unmodified).
#[derive(Debug, Clone, PartialEq, Eq)]
pub struct GeneratedWrapper {
    /// The name of the renamed private implementation.
    pub implementation_name: String,
    /// The name of the memoized gate cell.
    pub enabled_cell_name: String,
    /// The name of the `valid` requirement list constant.
    pub valid_list_name: String,
    /// The name of the `invalid` requirement list constant.
    pub invalid_list_name: String,
    /// The argument names the wrapper forwards, in declaration order.
    pub forwarded_args: Vec<String>,
    /// Whether the declared return type already is the uniform outcome
    /// type, so the result passes through without a second wrapping.
    pub passthrough: bool,
    /// The declared return type (kept unchanged when `passthrough`;
    /// otherwise the emitted wrapper returns the uniform outcome type
    /// around it, with `()` for an absent return type).
    pub output: ReturnType,
    /// The wrapper's visibility: the original one.
    pub visibility: Visibility,
    /// The wrapper's generic parameters: the original ones.
    pub generics: Vec<String>,
    /// The wrapper's documentation lines: the original ones.
    pub docs: Vec<String>,
    /// The `valid` requirement literals, embedded as constants.
    pub valid: Vec<String>,
    /// The `invalid` requirement literals, embedded as constants.
    pub invalid: Vec<String>,
}

/// Copy a type expression.
fn clone_type_expr(t: &TypeExpr) -> (r: TypeExpr)
    ensures
        type_expr_eq(r, *t),
{
    match t {
        TypeExpr::Path { segments } => TypeExpr::Path { segments: clone_strings(segments) },
        TypeExpr::Other { text } => TypeExpr::Other { text: text.clone() },
    }
}

/// Copy a return type.
fn clone_return_type(t: &ReturnType) -> (r: ReturnType)
    ensures
        return_type_eq(r, *t),
{
    match t {
        ReturnType::Default => ReturnType::Default,
        ReturnType::Type(inner) => ReturnType::Type(clone_type_expr(inner)),
    }
}

/// Derive the wrapper declarations for `decl`, gated by the requirement
/// lists `valid` and `invalid`.
///
/// A declaration with a receiver parameter is rejected with a
/// generation-time diagnostic; otherwise every derived name, the argument
/// forwarding list and the normalization decision are fixed
/// deterministically from the declaration.
pub fn versioned_api_impl(
    decl: &FunctionDeclaration,
    valid: &Vec<String>,
    invalid: &Vec<String>,
) -> (r: Result<GeneratedWrapper, GenerateError>)
    ensures
        r is Err <==> has_receiver(decl.params@),
        r matches Result::Err(e) ==> e == GenerateError::ReceiverNotSupported,
        r matches Result::Ok(w) ==> {
            &&& w.implementation_name@ == spec_impl_name(decl.name@)
            &&& w.enabled_cell_name@ == spec_enabled_name(decl.name@)
            &&& w.valid_list_name@ == spec_valid_name(decl.name@)
            &&& w.invalid_list_name@ == spec_invalid_name(decl.name@)
            &&& str_views(w.forwarded_args@) == decl.params@.map_values(
                |p: Param| spec_param_name(p),
            )
            &&& w.passthrough == decl.output.spec_is_result_type()
            &&& return_type_eq(w.output, decl.output)
            &&& w.visibility == decl.visibility
            &&& str_views(w.generics@) == str_views(decl.generics@)
            &&& str_views(w.docs@) == str_views(decl.docs@)
            &&& w.valid@ == valid@
            &&& w.invalid@ == invalid@
        },
{
    let ghost param_names = decl.params@.map_values(|p: Param| spec_param_name(p));
    let mut forwarded_args: Vec<String> = Vec::new();
    let mut i: usize = 0;
    proof {
        assert(str_views(forwarded_args@) =~= param_names.take(0));
    }
    while i < decl.params.len()
        invariant
            i <= decl.params@.len(),
            forwarded_args@.len() == i,
            param_names == decl.params@.map_values(|p: Param| spec_param_name(p)),
            str_views(forwarded_args@) == param_names.take(i as int),
            forall|j: int| 0 <= j < i ==> !(decl.params@[j] is Receiver),
        decreases decl.params@.len() - i,
    {
        let p = &decl.params[i];
        match p {
            Param::Receiver => {
                return Result::Err(GenerateError::ReceiverNotSupported);
            },
            Param::Typed { name, ty: _ } => {
                forwarded_args.push(name.clone());
                proof {
                    assert(param_names[i as int] == spec_param_name(decl.params@[i as int]));
                    assert(str_views(forwarded_args@) =~= param_names.take(i + 1));
                }
            },
        }
        i += 1;
    }
    proof {
        assert(param_names.take(decl.params@.len() as int) =~= param_names);
    }

    let mut implementation_name = "versioned_".to_owned();
    implementation_name.append(decl.name.as_str());
    let upper = to_ascii_upper(implementation_name.as_str());

    let mut enabled_cell_name = "VERSIONED_ENABLED_".to_owned();
    enabled_cell_name.append(upper.as_str());
    let mut valid_list_name = "VERSIONED_VALID_".to_owned();
    valid_list_name.append(upper.as_str());
    let mut invalid_list_name = "VERSIONED_INVALID_".to_owned();
    invalid_list_name.append(upper.as_str());

    let passthrough = decl.output.is_result_type();

    Result::Ok(
        GeneratedWrapper {
            implementation_name,
            enabled_cell_name,
            valid_list_name,
            invalid_list_name,
            forwarded_args,
            passthrough,
            output: clone_return_type(&decl.output),
            visibility: decl.visibility,
            generics: clone_strings(&decl.generics),
            docs: clone_strings(&decl.docs),
            valid: clone_strings(valid),
            invalid: clone_strings(invalid),
        },
    )
}

} // verus!
