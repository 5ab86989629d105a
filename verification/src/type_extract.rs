//! Extract typed roles (query, body, path params, response) from an actix-web handler signature.
//!
//! The signature is given as a [`SignatureModel`]: the parts of a Rust function
//! signature that the roles depend on, as plain values.
//!
//! # Parameter roles
//! - `web::Query<T>`  → query parameters type `T`
//! - `web::Json<T>`   → request body type `T`
//! - `web::Path<T>`   → path parameters type `T`
//! - `web::Data<T>`, `HttpRequest`, and anything else → ignored (injected dependencies)
//!
//! # Return-type roles
//! The outer return type must be `Result<INNER>` (any path whose last segment is
//! `Result`), where `INNER` is one of (with `R` the configured result type):
//! - `Json<R<T>>`, or the configured JSON alias `A<T>`           → `T`
//! - `CustomizeResponder<Json<R<T>>>`, or the configured alias `C<T>` → `T`
//! - `Either<X, Y>` with `X` and `Y` each one of the above          → `T_X | T_Y`
//!
//! In unwrapped mode the `R` layer is absent (`Json<T>`, `CustomizeResponder<Json<T>>`)
//! and the aliases are not consulted.

use vstd::prelude::*;

use crate::text::push_str;

verus! {

/// A Rust type, as far as the role extraction looks into it.
#[derive(Debug, PartialEq, Eq)]
pub enum TypeModel {
    /// A path type such as `web::Json<Foo>`.
    Path(PathModel),
    /// A tuple type; `()` is the tuple with no elements.
    Tuple(Vec<TypeModel>),
    /// Any other type (reference, slice, array, ...).
    Other,
}

/// The segments of a path type, in order.
#[derive(Debug, PartialEq, Eq)]
pub struct PathModel {
    pub segments: Vec<SegmentModel>,
}

/// One segment of a path: its identifier and what follows it.
#[derive(Debug, PartialEq, Eq)]
pub struct SegmentModel {
    pub ident: String,
    pub arguments: ArgumentsModel,
}

/// The arguments after a path segment.
#[derive(Debug, PartialEq, Eq)]
pub enum ArgumentsModel {
    /// No arguments.
    Empty,
    /// `<...>`: the generic arguments in order.
    AngleBracketed(Vec<GenericArgModel>),
    /// `(...) -> ...`, as in `Fn(A) -> B`.
    Parenthesized,
}

/// One generic argument between angle brackets.
#[derive(Debug, PartialEq, Eq)]
pub enum GenericArgModel {
    /// A type argument.
    Type(TypeModel),
    /// A lifetime, constant, binding or constraint.
    Other,
}

/// One parameter of a function.
#[derive(Debug, PartialEq, Eq)]
pub enum FnArgModel {
    /// `self`, `&self`, ...
    Receiver,
    /// `pattern: Type`.
    Typed(TypeModel),
}

/// The parts of a handler signature that the roles depend on.
pub struct SignatureModel {
    pub inputs: Vec<FnArgModel>,
    /// The declared return type; `None` when the function declares none.
    pub output: Option<TypeModel>,
}

/// How response types are written in handler signatures.
pub struct ExtractConfig<'a> {
    pub result_type: &'a str,
    pub json_alias: Option<&'a str>,
    pub customized_alias: Option<&'a str>,
    pub unwrapped_response: bool,
}

/// The response-type settings as mathematical values.
pub struct ExtractView {
    pub result_type: Seq<char>,
    pub json_alias: Option<Seq<char>>,
    pub customized_alias: Option<Seq<char>>,
    pub unwrapped_response: bool,
}

/// The characters of an optional `&str`.
pub open spec fn opt_str_view(o: Option<&str>) -> Option<Seq<char>> {
    match o {
        Some(s) => Some(s@),
        None => None,
    }
}

impl<'a> View for ExtractConfig<'a> {
    type V = ExtractView;

    open spec fn view(&self) -> ExtractView {
        ExtractView {
            result_type: self.result_type@,
            json_alias: opt_str_view(self.json_alias),
            customized_alias: opt_str_view(self.customized_alias),
            unwrapped_response: self.unwrapped_response,
        }
    }
}

/// A role extracted from the function signature.
pub enum ExtractedRole<T> {
    /// A single concrete type.
    Single(T),
    /// A union of two types (from `Either<A, B>`).
    Union(T, T),
}

/// All type information extracted from a handler signature.
pub struct ExtractedTypes<'a> {
    pub query: Option<&'a TypeModel>,
    pub body: Option<&'a TypeModel>,
    pub path_params: Option<&'a TypeModel>,
    pub response: ExtractedRole<&'a TypeModel>,
}

/// Why a handler's return type was refused.
#[derive(PartialEq, Eq, Structural, Debug, Clone, Copy)]
pub enum ExtractError {
    /// The function declares no return type.
    MissingReturnType,
    /// The return type is not `Result<…>`.
    NotResult,
    /// The type inside `Result<…>` is none of the recognised forms.
    UnrecognisedReturnType,
}

// ---------------------------------------------------------------------------
// Specification
// ---------------------------------------------------------------------------

/// The last segment of a path type.
pub open spec fn last_segment_of(ty: TypeModel) -> Option<SegmentModel> {
    match ty {
        TypeModel::Path(p) => if p.segments@.len() > 0 {
            Some(p.segments@.last())
        } else {
            None
        },
        _ => None,
    }
}

/// The single type argument `T` of `<T>`.
pub open spec fn single_type_arg(args: ArgumentsModel) -> Option<TypeModel> {
    match args {
        ArgumentsModel::AngleBracketed(a) => if a@.len() == 1 {
            match a@[0] {
                GenericArgModel::Type(t) => Some(t),
                _ => None,
            }
        } else {
            None
        },
        _ => None,
    }
}

/// `T` when `ty` is a path whose last segment is `name<T>`.
pub open spec fn peel_named(ty: TypeModel, name: Seq<char>) -> Option<TypeModel> {
    match last_segment_of(ty) {
        Some(seg) => if seg.ident@ == name {
            single_type_arg(seg.arguments)
        } else {
            None
        },
        None => None,
    }
}

/// The payload of a plain JSON response: `Json<R<T>>` (or `Json<T>` unwrapped),
/// or `A<T>` for the configured JSON alias `A` (wrapped mode only).
pub open spec fn peel_json_spec(ty: TypeModel, cfg: ExtractView) -> Option<TypeModel> {
    match peel_named(ty, "Json"@) {
        Some(inner) => if cfg.unwrapped_response {
            Some(inner)
        } else {
            match peel_named(inner, cfg.result_type) {
                Some(t) => Some(t),
                None => peel_alias(ty, cfg.json_alias, cfg.unwrapped_response),
            }
        },
        None => peel_alias(ty, cfg.json_alias, cfg.unwrapped_response),
    }
}

/// `T` when `ty` is `alias<T>` for a configured alias, in wrapped mode.
pub open spec fn peel_alias(ty: TypeModel, alias: Option<Seq<char>>, unwrapped: bool) -> Option<
    TypeModel,
> {
    match alias {
        Some(a) => if unwrapped {
            None
        } else {
            peel_named(ty, a)
        },
        None => None,
    }
}

/// The payload of a customised JSON response: `CustomizeResponder<J>` with `J`
/// a plain JSON response, or `C<T>` for the configured customised alias `C`.
pub open spec fn peel_customized_spec(ty: TypeModel, cfg: ExtractView) -> Option<TypeModel> {
    match peel_named(ty, "CustomizeResponder"@) {
        Some(inner) => match peel_json_spec(inner, cfg) {
            Some(t) => Some(t),
            None => peel_alias(ty, cfg.customized_alias, cfg.unwrapped_response),
        },
        None => peel_alias(ty, cfg.customized_alias, cfg.unwrapped_response),
    }
}

/// The payload of a single (non-`Either`) response type.
pub open spec fn peel_single_spec(ty: TypeModel, cfg: ExtractView) -> Option<TypeModel> {
    match peel_json_spec(ty, cfg) {
        Some(t) => Some(t),
        None => peel_customized_spec(ty, cfg),
    }
}

/// The two payloads of `Either<X, Y>` with `X` and `Y` single responses.
pub open spec fn peel_either_spec(ty: TypeModel, cfg: ExtractView) -> Option<(TypeModel, TypeModel)> {
    match last_segment_of(ty) {
        Some(seg) => if seg.ident@ == "Either"@ {
            match seg.arguments {
                ArgumentsModel::AngleBracketed(a) => if a@.len() == 2 {
                    match (a@[0], a@[1]) {
                        (GenericArgModel::Type(l), GenericArgModel::Type(r)) => match (
                            peel_single_spec(l, cfg),
                            peel_single_spec(r, cfg),
                        ) {
                            (Some(x), Some(y)) => Some((x, y)),
                            _ => None,
                        },
                        _ => None,
                    }
                } else {
                    None
                },
                _ => None,
            }
        } else {
            None
        },
        None => None,
    }
}

/// The response role of a signature, or why there is none.
pub open spec fn response_spec(sig: SignatureModel, cfg: ExtractView) -> Result<
    ExtractedRole<TypeModel>,
    ExtractError,
> {
    match sig.output {
        None => Err(ExtractError::MissingReturnType),
        Some(ret) => match peel_named(ret, "Result"@) {
            None => Err(ExtractError::NotResult),
            Some(inner) => match peel_single_spec(inner, cfg) {
                Some(t) => Ok(ExtractedRole::Single(t)),
                None => match peel_either_spec(inner, cfg) {
                    Some((a, b)) => Ok(ExtractedRole::Union(a, b)),
                    None => Err(ExtractError::UnrecognisedReturnType),
                },
            },
        },
    }
}

/// Every documented return form is a single response with its payload, for
/// any payload: with `Result<X>` as the return type and `R` the configured
/// result type,
/// - unwrapped: `X = Json<T>` and `X = CustomizeResponder<Json<T>>` give `T`;
/// - wrapped: `X = Json<R<T>>` and `X = CustomizeResponder<Json<R<T>>>` give `T`
///   (the latter unless the JSON alias is itself `CustomizeResponder`, which is
///   tried first), and so do `X = A<T>` for the JSON alias `A` and `X = C<T>` for the
///   customised alias `C` (an alias that is not itself `Json` or
///   `CustomizeResponder`).
pub proof fn law_documented_response_forms(
    sig: SignatureModel,
    cfg: ExtractView,
    ret: TypeModel,
    x: TypeModel,
)
    requires
        sig.output == Some(ret),
        peel_named(ret, "Result"@) == Some(x),
    ensures
        peel_named(x, "Json"@) matches Some(t) ==> (cfg.unwrapped_response ==> response_spec(
            sig,
            cfg,
        ) == Ok::<ExtractedRole<TypeModel>, ExtractError>(ExtractedRole::Single(t))),
        peel_named(x, "CustomizeResponder"@) matches Some(j) ==> (cfg.unwrapped_response ==> (
        peel_named(j, "Json"@) matches Some(t) ==> response_spec(sig, cfg) == Ok::<
            ExtractedRole<TypeModel>,
            ExtractError,
        >(ExtractedRole::Single(t)))),
        peel_named(x, "Json"@) matches Some(j) ==> (!cfg.unwrapped_response ==> (peel_named(
            j,
            cfg.result_type,
        ) matches Some(t) ==> response_spec(sig, cfg) == Ok::<
            ExtractedRole<TypeModel>,
            ExtractError,
        >(ExtractedRole::Single(t)))),
        peel_named(x, "CustomizeResponder"@) matches Some(c) ==> (!cfg.unwrapped_response
            && cfg.json_alias != Some("CustomizeResponder"@) ==> (
        peel_named(c, "Json"@) matches Some(j) ==> (peel_named(j, cfg.result_type) matches Some(t)
            ==> response_spec(sig, cfg) == Ok::<ExtractedRole<TypeModel>, ExtractError>(
            ExtractedRole::Single(t),
        )))),
        cfg.json_alias matches Some(a) ==> (!cfg.unwrapped_response && a != "Json"@ ==> (
        peel_named(x, a) matches Some(t) ==> response_spec(sig, cfg) == Ok::<
            ExtractedRole<TypeModel>,
            ExtractError,
        >(ExtractedRole::Single(t)))),
        cfg.customized_alias matches Some(a) ==> (!cfg.unwrapped_response && a != "Json"@ && a
            != "CustomizeResponder"@ ==> (peel_named(x, a) matches Some(t) ==> response_spec(
            sig,
            cfg,
        ) == Ok::<ExtractedRole<TypeModel>, ExtractError>(ExtractedRole::Single(t)))),
{
    reveal_strlit("Json");
    reveal_strlit("CustomizeResponder");
    assert("Json"@.len() != "CustomizeResponder"@.len());
}

/// What `Either` accepts as a branch is accepted as the whole response too:
/// when `Either<L, R>` is a recognised union with payloads `(T_L, T_R)`, a
/// handler returning `Result<L>` has the single response `T_L`.
pub proof fn law_either_branch_forms_are_responses(
    sig: SignatureModel,
    cfg: ExtractView,
    ret: TypeModel,
    either: TypeModel,
    l: TypeModel,
    r: TypeModel,
)
    requires
        sig.output == Some(ret),
        peel_named(ret, "Result"@) == Some(l),
        last_segment_of(either) matches Some(seg) && seg.arguments matches ArgumentsModel::AngleBracketed(
            a,
        ) && a@.len() == 2 && a@[0] == GenericArgModel::Type(l) && a@[1] == GenericArgModel::Type(r),
        peel_either_spec(either, cfg) is Some,
    ensures
        peel_either_spec(either, cfg) matches Some((tl, tr)) ==> response_spec(sig, cfg) == Ok::<
            ExtractedRole<TypeModel>,
            ExtractError,
        >(ExtractedRole::Single(tl)),
{
}

/// The payload of the last parameter typed `wrapper<T>`, if any.
pub open spec fn last_wrapped_param(inputs: Seq<FnArgModel>, wrapper: Seq<char>) -> Option<
    TypeModel,
>
    decreases inputs.len(),
{
    if inputs.len() == 0 {
        None
    } else {
        match inputs.last() {
            FnArgModel::Typed(t) => match peel_named(t, wrapper) {
                Some(x) => Some(x),
                None => last_wrapped_param(inputs.drop_last(), wrapper),
            },
            FnArgModel::Receiver => last_wrapped_param(inputs.drop_last(), wrapper),
        }
    }
}

/// The type an optional reference points to.
pub open spec fn deref_opt(o: Option<&TypeModel>) -> Option<TypeModel> {
    match o {
        Some(t) => Some(*t),
        None => None,
    }
}

/// The role with its references followed.
pub open spec fn deref_role(r: ExtractedRole<&TypeModel>) -> ExtractedRole<TypeModel> {
    match r {
        ExtractedRole::Single(t) => ExtractedRole::Single(*t),
        ExtractedRole::Union(a, b) => ExtractedRole::Union(*a, *b),
    }
}

/// Whether the type is the unit tuple `()`.
pub open spec fn spec_is_unit(ty: TypeModel) -> bool {
    match ty {
        TypeModel::Tuple(elems) => elems@.len() == 0,
        _ => false,
    }
}

/// The text of the diagnostic for a refused return type.
pub open spec fn spec_extract_message(e: ExtractError, cfg: ExtractView) -> Seq<char> {
    match e {
        ExtractError::MissingReturnType => "#[api_endpoint] requires an explicit return type"@,
        ExtractError::NotResult => "#[api_endpoint]: return type must be `Result<…>`"@,
        ExtractError::UnrecognisedReturnType => if cfg.unwrapped_response {
            "#[api_endpoint]: unrecognised return type; expected `Json<T>`, `CustomizeResponder<Json<T>>`, or `Either<A, B>` of these"@
        } else {
            "#[api_endpoint]: unrecognised return type; expected `Json<"@ + cfg.result_type
                + "<T>>`, `CustomizeResponder<Json<"@ + cfg.result_type
                + "<T>>>`, or `Either<A, B>` of these"@
        },
    }
}

impl ExtractError {
    /// The text of the diagnostic for this error.
    pub fn message(&self, config: &ExtractConfig) -> (m: String)
        ensures
            m@ == spec_extract_message(*self, config@),
    {
        let mut m = String::new();
        match self {
            ExtractError::MissingReturnType => push_str(
                &mut m,
                "#[api_endpoint] requires an explicit return type",
            ),
            ExtractError::NotResult => push_str(
                &mut m,
                "#[api_endpoint]: return type must be `Result<…>`",
            ),
            ExtractError::UnrecognisedReturnType => if config.unwrapped_response {
                push_str(
                    &mut m,
                    "#[api_endpoint]: unrecognised return type; expected `Json<T>`, `CustomizeResponder<Json<T>>`, or `Either<A, B>` of these",
                );
            } else {
                push_str(&mut m, "#[api_endpoint]: unrecognised return type; expected `Json<");
                push_str(&mut m, config.result_type);
                push_str(&mut m, "<T>>`, `CustomizeResponder<Json<");
                push_str(&mut m, config.result_type);
                push_str(&mut m, "<T>>>`, or `Either<A, B>` of these");
            },
        }
        m
    }
}

// ---------------------------------------------------------------------------
// Entry point
// ---------------------------------------------------------------------------

/// Extract all typed roles from `sig`.
pub fn extract_types<'a>(sig: &'a SignatureModel, config: &ExtractConfig) -> (r: Result<
    ExtractedTypes<'a>,
    ExtractError,
>)
    ensures
        match (r, response_spec(*sig, config@)) {
            (Ok(x), Ok(role)) => {
                &&& deref_role(x.response) == role
                &&& deref_opt(x.query) == last_wrapped_param(sig.inputs@, "Query"@)
                &&& deref_opt(x.body) == last_wrapped_param(sig.inputs@, "Json"@)
                &&& deref_opt(x.path_params) == last_wrapped_param(sig.inputs@, "Path"@)
            },
            (Err(e), Err(f)) => e == f,
            _ => false,
        },
{
    let mut query: Option<&'a TypeModel> = None;
    let mut body: Option<&'a TypeModel> = None;
    let mut path_params: Option<&'a TypeModel> = None;

    let mut i: usize = 0;
    while i < sig.inputs.len()
        invariant
            i <= sig.inputs.len(),
            deref_opt(query) == last_wrapped_param(sig.inputs@.take(i as int), "Query"@),
            deref_opt(body) == last_wrapped_param(sig.inputs@.take(i as int), "Json"@),
            deref_opt(path_params) == last_wrapped_param(sig.inputs@.take(i as int), "Path"@),
        decreases sig.inputs.len() - i,
    {
        let ghost prefix = sig.inputs@.take(i + 1);
        assert(prefix.drop_last() =~= sig.inputs@.take(i as int));
        assert(prefix.last() == sig.inputs@[i as int]);
        match &sig.inputs[i] {
            FnArgModel::Typed(ty) => {
                if let Some(inner) = try_extract_web_wrapper(ty, "Query") {
                    query = Some(inner);
                } else if let Some(inner) = try_extract_web_wrapper(ty, "Json") {
                    body = Some(inner);
                } else if let Some(inner) = try_extract_web_wrapper(ty, "Path") {
                    path_params = Some(inner);
                }
                proof {
                    lemma_wrappers_exclusive(*ty);
                }
            },
            FnArgModel::Receiver => {},
        }
        i += 1;
    }
    assert(sig.inputs@.take(sig.inputs.len() as int) =~= sig.inputs@);

    let response = extract_response_type(sig, config)?;

    Ok(ExtractedTypes { query, body, path_params, response })
}

/// A type peels under at most one of the three parameter wrappers.
proof fn lemma_wrappers_exclusive(ty: TypeModel)
    ensures
        peel_named(ty, "Query"@) is Some ==> peel_named(ty, "Json"@) is None && peel_named(
            ty,
            "Path"@,
        ) is None,
        peel_named(ty, "Json"@) is Some ==> peel_named(ty, "Path"@) is None,
{
    reveal_strlit("Query");
    reveal_strlit("Json");
    reveal_strlit("Path");
    assert("Query"@.len() != "Json"@.len());
    assert("Query"@.len() != "Path"@.len());
    assert("Json"@[0] != "Path"@[0]);
}

// ---------------------------------------------------------------------------
// Parameter extraction helpers
// ---------------------------------------------------------------------------

/// If `ty` is `web::Wrapper<T>` or just `Wrapper<T>`, return the inner `T`.
pub fn try_extract_web_wrapper<'a>(ty: &'a TypeModel, wrapper: &str) -> (r: Option<&'a TypeModel>)
    ensures
        deref_opt(r) == peel_named(*ty, wrapper@),
{
    peel_named_exec(ty, wrapper)
}

/// `T` when `ty` is a path whose last segment is `name<T>`.
fn peel_named_exec<'a>(ty: &'a TypeModel, name: &str) -> (r: Option<&'a TypeModel>)
    ensures
        deref_opt(r) == peel_named(*ty, name@),
{
    let path = type_to_path(ty)?;
    let seg = last_segment(path)?;
    if !ident_is(seg, name) {
        return None;
    }
    single_generic_arg(&seg.arguments)
}

/// Whether the segment's identifier is `name`.
fn ident_is(seg: &SegmentModel, name: &str) -> (r: bool)
    ensures
        r == (seg.ident@ == name@),
{
    let owned = name.to_owned();
    seg.ident == owned
}

// ---------------------------------------------------------------------------
// Return-type extraction
// ---------------------------------------------------------------------------

/// The response role of the signature's return type.
pub fn extract_response_type<'a>(sig: &'a SignatureModel, config: &ExtractConfig) -> (r: Result<
    ExtractedRole<&'a TypeModel>,
    ExtractError,
>)
    ensures
        match (r, response_spec(*sig, config@)) {
            (Ok(x), Ok(role)) => deref_role(x) == role,
            (Err(e), Err(f)) => e == f,
            _ => false,
        },
{
    let ret_ty = match &sig.output {
        Some(t) => t,
        None => {
            return Err(ExtractError::MissingReturnType);
        },
    };

    // Peel `Result<INNER>` or `crate::models::Result<INNER>` etc.
    let inner = match peel_result(ret_ty) {
        Some(t) => t,
        None => {
            return Err(ExtractError::NotResult);
        },
    };

    // Try each supported wrapper
    if let Some(t) = try_peel_json_api_result(inner, config) {
        return Ok(ExtractedRole::Single(t));
    }
    if let Some(t) = try_peel_customized_json_api_result(inner, config) {
        return Ok(ExtractedRole::Single(t));
    }
    if let Some((a, b)) = try_peel_either(inner, config) {
        return Ok(ExtractedRole::Union(a, b));
    }
    Err(ExtractError::UnrecognisedReturnType)
}

/// Peel `Result<T>` → `T`. Accepts the last path segment being `Result`.
pub fn peel_result<'a>(ty: &'a TypeModel) -> (r: Option<&'a TypeModel>)
    ensures
        deref_opt(r) == peel_named(*ty, "Result"@),
{
    peel_named_exec(ty, "Result")
}

/// `T` when `ty` is `alias<T>` for a configured alias, in wrapped mode.
fn peel_alias_exec<'a>(ty: &'a TypeModel, alias: Option<&str>, unwrapped: bool) -> (r: Option<
    &'a TypeModel,
>)
    ensures
        deref_opt(r) == peel_alias(*ty, opt_str_view(alias), unwrapped),
{
    match alias {
        Some(a) => if unwrapped {
            None
        } else {
            peel_named_exec(ty, a)
        },
        None => None,
    }
}

/// Peel a plain JSON response `Json<R<T>>` (or its alias) → `T`.
pub fn try_peel_json_api_result<'a>(ty: &'a TypeModel, config: &ExtractConfig) -> (r: Option<
    &'a TypeModel,
>)
    ensures
        deref_opt(r) == peel_json_spec(*ty, config@),
{
    match peel_named_exec(ty, "Json") {
        Some(inner) => if config.unwrapped_response {
            Some(inner)
        } else {
            match peel_named_exec(inner, config.result_type) {
                Some(t) => Some(t),
                None => peel_alias_exec(ty, config.json_alias, config.unwrapped_response),
            }
        },
        None => peel_alias_exec(ty, config.json_alias, config.unwrapped_response),
    }
}

/// Peel a customised JSON response `CustomizeResponder<Json<R<T>>>` (or its alias) → `T`.
pub fn try_peel_customized_json_api_result<'a>(ty: &'a TypeModel, config: &ExtractConfig) -> (r:
    Option<&'a TypeModel>)
    ensures
        deref_opt(r) == peel_customized_spec(*ty, config@),
{
    match peel_named_exec(ty, "CustomizeResponder") {
        Some(inner) => match try_peel_json_api_result(inner, config) {
            Some(t) => Some(t),
            None => peel_alias_exec(ty, config.customized_alias, config.unwrapped_response),
        },
        None => peel_alias_exec(ty, config.customized_alias, config.unwrapped_response),
    }
}

/// A single (non-`Either`) response → its payload.
fn try_peel_single<'a>(ty: &'a TypeModel, config: &ExtractConfig) -> (r: Option<&'a TypeModel>)
    ensures
        deref_opt(r) == peel_single_spec(*ty, config@),
{
    match try_peel_json_api_result(ty, config) {
        Some(t) => Some(t),
        None => try_peel_customized_json_api_result(ty, config),
    }
}

/// Peel `Either<X, Y>` with `X` and `Y` single responses → `(T_X, T_Y)`.
pub fn try_peel_either<'a>(ty: &'a TypeModel, config: &ExtractConfig) -> (r: Option<
    (&'a TypeModel, &'a TypeModel),
>)
    ensures
        match (r, peel_either_spec(*ty, config@)) {
            (Some((a, b)), Some((x, y))) => *a == x && *b == y,
            (None, None) => true,
            _ => false,
        },
{
    let path = type_to_path(ty)?;
    let seg = last_segment(path)?;
    if !ident_is(seg, "Either") {
        return None;
    }
    let args = match &seg.arguments {
        ArgumentsModel::AngleBracketed(args) => args,
        _ => {
            return None;
        },
    };
    if args.len() != 2 {
        return None;
    }
    let left_ty = match &args[0] {
        GenericArgModel::Type(t) => t,
        _ => {
            return None;
        },
    };
    let right_ty = match &args[1] {
        GenericArgModel::Type(t) => t,
        _ => {
            return None;
        },
    };
    let a = try_peel_single(left_ty, config)?;
    let b = try_peel_single(right_ty, config)?;
    Some((a, b))
}

// ---------------------------------------------------------------------------
// Low-level helpers
// ---------------------------------------------------------------------------

/// The path of a path type.
pub fn type_to_path(ty: &TypeModel) -> (r: Option<&PathModel>)
    ensures
        match (ty, r) {
            (TypeModel::Path(p), Some(q)) => *q == p,
            (TypeModel::Path(_), None) => false,
            (_, Some(_)) => false,
            (_, None) => true,
        },
{
    match ty {
        TypeModel::Path(p) => Some(p),
        _ => None,
    }
}

/// The last segment of a path.
pub fn last_segment(path: &PathModel) -> (r: Option<&SegmentModel>)
    ensures
        match r {
            Some(s) => path.segments@.len() > 0 && *s == path.segments@.last(),
            None => path.segments@.len() == 0,
        },
{
    let n = path.segments.len();
    if n == 0 {
        None
    } else {
        Some(&path.segments[n - 1])
    }
}

/// The single generic type argument of `<T>`.
pub fn single_generic_arg(args: &ArgumentsModel) -> (r: Option<&TypeModel>)
    ensures
        deref_opt(r) == single_type_arg(*args),
{
    let ab = match args {
        ArgumentsModel::AngleBracketed(ab) => ab,
        _ => {
            return None;
        },
    };
    if ab.len() != 1 {
        return None;
    }
    match &ab[0] {
        GenericArgModel::Type(t) => Some(t),
        _ => None,
    }
}

// ---------------------------------------------------------------------------
// Helper: unit type `()`
// ---------------------------------------------------------------------------

/// Return `true` if the type is the unit tuple `()`.
pub fn is_unit(ty: &TypeModel) -> (r: bool)
    ensures
        r == spec_is_unit(*ty),
{
    match ty {
        TypeModel::Tuple(elems) => elems.len() == 0,
        _ => false,
    }
}

/// The unit type `()`.
pub fn unit_type() -> (t: TypeModel)
    ensures
        spec_is_unit(t),
{
    TypeModel::Tuple(Vec::new())
}

} // verus!
