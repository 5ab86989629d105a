use vstd::prelude::*;

pub mod args;
pub mod config;
pub mod foreign;
pub mod route;
pub mod text;
pub mod type_extract;

pub use crate::route::route_path_after_depth;

use crate::args::{lit_value, EndpointArgs};
use crate::config::{spec_missing_module_message, ConfigError, ConfigView, MacroConfig};
use crate::foreign::{
    ascii_lowercase, free_of_ascii_separators, is_ascii_non_alphanumeric, lower_camel_case, lowercase, parse_type,
    pascal_case, to_lower_camel_case, to_lowercase, to_pascal_case,
};
use crate::route::spec_route_path;
use crate::text::{
    join_with, lemma_concat_all_append, lemma_split_concat, lemma_split_join, lemma_split_shape,
    lemma_trim_braces_shape, law_trim_braces_placeholder, pieces_free_of, chars_of, concat_all, decimal, parse_usize, parse_usize_spec, push_decimal, push_str,
    split_chars, split_on, string_from, string_is, string_of, trim_braces, trim_braces_chars,
};
use crate::type_extract::{
    deref_opt, deref_role, extract_types, is_unit, last_wrapped_param, law_documented_response_forms,
    peel_named, response_spec,
    spec_extract_message, spec_is_unit, ExtractConfig, ExtractError, ExtractView, ExtractedRole, ExtractedTypes,
    SignatureModel,
};

verus! {

/// The PascalCase TypeScript name derived from an HTTP method and a path:
/// the method in PascalCase, then each `/`-separated segment, stripped of its
/// braces, in PascalCase.
pub open spec fn spec_ts_name(method: Seq<char>, path: Seq<char>) -> Seq<char> {
    pascal_case(method) + spec_segment_names(path)
}

/// The name parts of a path: each `/`-separated segment, stripped of its
/// braces, in PascalCase, one after the other.
pub open spec fn spec_segment_names(path: Seq<char>) -> Seq<char> {
    concat_all(segment_parts(split_on(path, '/')))
}

/// The PascalCase of each brace-stripped segment.
pub open spec fn segment_parts(segs: Seq<Seq<char>>) -> Seq<Seq<char>> {
    segs.map_values(|seg: Seq<char>| pascal_case(trim_braces(seg)))
}

/// The name of a path with one more segment group `p2` is the name of `p1`
/// followed by the segment names of `p2`.
pub proof fn law_ts_name_segments_compose(method: Seq<char>, p1: Seq<char>, p2: Seq<char>)
    ensures
        spec_ts_name(method, p1 + seq!['/'] + p2) == spec_ts_name(method, p1) + spec_segment_names(
            p2,
        ),
{
    lemma_split_concat(p1, p2, '/');
    let x = split_on(p1, '/');
    let y = split_on(p2, '/');
    assert(segment_parts(x + y) =~= segment_parts(x) + segment_parts(y));
    lemma_concat_all_append(segment_parts(x), segment_parts(y));
}

/// Every segment counts: for a path of one segment `seg`, whatever characters
/// it holds, the name is the method in PascalCase followed by the segment,
/// stripped of its braces, in PascalCase. With the law on composed paths,
/// each segment of a longer path contributes its part in order.
pub proof fn law_ts_name_single_segment(method: Seq<char>, seg: Seq<char>)
    requires
        forall|j: int| 0 <= j < seg.len() ==> seg[j] != '/',
    ensures
        spec_ts_name(method, seg) == pascal_case(method) + pascal_case(trim_braces(seg)),
{
    let xs = seq![seg];
    assert(pieces_free_of(xs, '/'));
    lemma_split_join(xs, '/');
    assert(join_with(xs, '/') == seg);
    assert(split_on(seg, '/') == xs);
    let parts = segment_parts(xs);
    assert(parts =~= seq![pascal_case(trim_braces(seg))]);
    assert(parts.drop_last() =~= Seq::<Seq<char>>::empty());
    assert(concat_all(Seq::<Seq<char>>::empty()) == Seq::<char>::empty());
    assert(parts.last() == pascal_case(trim_braces(seg)));
    assert(concat_all(parts) == concat_all(parts.drop_last()) + parts.last());
    assert(concat_all(parts) =~= pascal_case(trim_braces(seg)));
}

/// Braces around segments do not matter: stripping them from every segment
/// first gives the same name.
pub proof fn law_ts_name_ignores_segment_braces(method: Seq<char>, path: Seq<char>)
    ensures
        spec_ts_name(
            method,
            join_with(split_on(path, '/').map_values(|seg: Seq<char>| trim_braces(seg)), '/'),
        ) == spec_ts_name(method, path),
{
    let segs = split_on(path, '/');
    let trimmed = segs.map_values(|seg: Seq<char>| trim_braces(seg));
    lemma_split_shape(path, '/');
    assert(pieces_free_of(trimmed, '/')) by {
        assert forall|i: int, j: int|
            0 <= i < trimmed.len() && 0 <= j < trimmed[i].len() implies trimmed[i][j] != '/' by {
            let k = lemma_trim_braces_shape(segs[i]);
            assert(trimmed[i][j] == segs[i][k + j]);
        }
    }
    lemma_split_join(trimmed, '/');
    assert(segment_parts(trimmed) =~= segment_parts(segs)) by {
        assert forall|i: int| 0 <= i < segs.len() implies #[trigger] segment_parts(trimmed)[i]
            == segment_parts(segs)[i] by {
            lemma_trim_braces_shape(segs[i]);
            law_trim_braces_placeholder(trim_braces(segs[i]));
        }
    }
}

/// Derive a `PascalCase` TypeScript name from an HTTP method and path.
///
/// The method is capitalised as a word (`"GET"` → `"Get"`), and each path segment is
/// converted to `PascalCase` (`"users/profile"` → `"UsersProfile"`). Path
/// parameter placeholders have their braces stripped before conversion (`{id}` → `"Id"`).
///
/// Examples:
/// - `"GET"` + `"users/profile"` → `"GetUsersProfile"`
/// - `"DELETE"` + `"user/webauthn/credentials/{id}"` → `"DeleteUserWebauthnCredentialsId"`
/// - `"POST"` + `"auth/reset-password/complete"` → `"PostAuthResetPasswordComplete"`
pub fn ts_name_from_method_and_path(method: &str, path: &str) -> (name: String)
    ensures
        name@ == spec_ts_name(method@, path@),
        method@.len() == 0 ==> name@ == spec_segment_names(path@),
        free_of_ascii_separators(name@),
{
    let mut name = to_pascal_case(method);
    let chars = chars_of(path);
    let pieces = split_chars(&chars, '/');
    let ghost parts = split_on(path@, '/').map_values(
        |seg: Seq<char>| pascal_case(trim_braces(seg)),
    );
    let mut i: usize = 0;
    while i < pieces.len()
        invariant
            i <= pieces.len(),
            pieces.deep_view() == split_on(path@, '/'),
            parts == split_on(path@, '/').map_values(
                |seg: Seq<char>| pascal_case(trim_braces(seg)),
            ),
            name@ == pascal_case(method@) + concat_all(parts.take(i as int)),
            free_of_ascii_separators(name@),
        decreases pieces.len() - i,
    {
        assert(pieces[i as int]@ == pieces.deep_view()[i as int]) by {
            assert(pieces[i as int].deep_view() =~= pieces[i as int]@);
        }
        let trimmed = trim_braces_chars(&pieces[i]);
        let segment = string_of(&trimmed);
        let part = to_pascal_case(segment.as_str());
        assert(part@ == parts[i as int]);
        let ghost before = name@;
        push_str(&mut name, part.as_str());
        assert(free_of_ascii_separators(name@)) by {
            assert forall|j: int| 0 <= j < name@.len() implies !is_ascii_non_alphanumeric(
                #[trigger] name@[j],
            ) by {
                if j < before.len() {
                    assert(name@[j] == before[j]);
                } else {
                    assert(name@[j] == part@[j - before.len()]);
                }
            }
        }
        assert(parts.take(i + 1).drop_last() =~= parts.take(i as int));
        i += 1;
    }
    assert(parts.take(pieces.len() as int) =~= parts);
    name
}

/// Everything that the expansion of `#[api_endpoint]` decides for one handler.
pub struct EndpointPlan<'a> {
    /// actix-web's route attribute for the method, e.g. `get`.
    pub method_fn: String,
    /// The path handed to actix-web's route attribute.
    pub route_path: String,
    /// The HTTP method as written in the attribute.
    pub method: String,
    /// The path used verbatim in the generated TypeScript path constant.
    pub ts_path: String,
    /// The PascalCase TypeScript name.
    pub ts_name: String,
    /// The camelCase name of the generated API wrapper function.
    pub api_fn_name: String,
    /// The roles found in the handler signature.
    pub extracted: ExtractedTypes<'a>,
    /// The type named by `field_errors`, when the argument is present.
    pub field_errors_type: Option<syn::Type>,
    /// Output file of the endpoint binding, relative to the manifest directory.
    pub ts_file: String,
    /// Output file of the API wrapper.
    pub api_file: String,
    /// Output file of the shared `EndpointSpec` definitions.
    pub endpoint_spec_ts_file: String,
    /// Name of the generated test module.
    pub test_mod_name: String,
    /// Name of the test writing the endpoint binding.
    pub test_fn_name: String,
    /// Name of the test writing the API wrapper.
    pub test_api_fn_name: String,
    /// Name of the test writing the `EndpointSpec` definitions.
    pub test_endpoint_spec_ts_fn_name: String,
}

/// Why the expansion was refused.
#[derive(Debug, PartialEq, Eq)]
pub enum ExpandError {
    /// The method is not one of the HTTP verbs that actix-web routes.
    UnknownMethod { method: String },
    /// The `depth` literal does not fit in a `usize`.
    DepthTooLarge,
    /// `depth` strips more segments than the path has.
    DepthExceedsSegments { depth: usize, segment_count: usize, path: String },
    /// The handler's signature was refused.
    Extract(ExtractError),
    /// The configuration is incomplete.
    Config(ConfigError),
    /// `field_errors` does not parse as a Rust type; the parser's message.
    FieldErrorsInvalid { reason: String },
    /// Both branches of `Either` are `()`.
    UnionOfUnits,
}

/// An expansion error as mathematical values.
pub enum ExpandErrorView {
    UnknownMethod(Seq<char>),
    DepthTooLarge,
    DepthExceedsSegments(usize, nat, Seq<char>),
    Extract(ExtractError),
    Config(ConfigError),
    FieldErrorsInvalid(Seq<char>),
    UnionOfUnits,
}

impl View for ExpandError {
    type V = ExpandErrorView;

    open spec fn view(&self) -> ExpandErrorView {
        match self {
            ExpandError::UnknownMethod { method } => ExpandErrorView::UnknownMethod(method@),
            ExpandError::DepthTooLarge => ExpandErrorView::DepthTooLarge,
            ExpandError::DepthExceedsSegments { depth, segment_count, path } =>
                ExpandErrorView::DepthExceedsSegments(*depth, *segment_count as nat, path@),
            ExpandError::Extract(e) => ExpandErrorView::Extract(*e),
            ExpandError::Config(e) => ExpandErrorView::Config(*e),
            ExpandError::FieldErrorsInvalid { reason } => ExpandErrorView::FieldErrorsInvalid(
                reason@,
            ),
            ExpandError::UnionOfUnits => ExpandErrorView::UnionOfUnits,
        }
    }
}

/// The text of the diagnostic for an expansion error.
pub open spec fn spec_expand_message(e: ExpandErrorView, cfg: ConfigView) -> Seq<char> {
    match e {
        ExpandErrorView::UnknownMethod(m) => "#[api_endpoint]: unknown HTTP method `"@ + m
            + "`; expected GET, POST, PUT, PATCH, DELETE, HEAD, or OPTIONS"@,
        ExpandErrorView::DepthTooLarge => "#[api_endpoint]: number too large to fit in target type"@,
        ExpandErrorView::DepthExceedsSegments(depth, count, path) => "#[api_endpoint]: `depth` ("@
            + decimal(depth as nat) + ") exceeds the number of path segments ("@ + decimal(count)
            + ") in path `\""@ + path + "\"`"@,
        ExpandErrorView::Extract(e) => spec_extract_message(e, extract_view_of(cfg)),
        ExpandErrorView::Config(_) => spec_missing_module_message(),
        ExpandErrorView::FieldErrorsInvalid(reason) =>
            "#[api_endpoint]: `field_errors` is not a valid type name: "@ + reason,
        ExpandErrorView::UnionOfUnits =>
            "#[api_endpoint]: both branches of Either resolve to `()` — this is likely a mistake"@,
    }
}

impl ExpandError {
    /// The text of the diagnostic for this error, under configuration `config`.
    pub fn message(&self, config: &MacroConfig) -> (m: String)
        ensures
            m@ == spec_expand_message(self@, config@),
    {
        let mut m = String::new();
        match self {
            ExpandError::UnknownMethod { method } => {
                push_str(&mut m, "#[api_endpoint]: unknown HTTP method `");
                push_str(&mut m, method.as_str());
                push_str(&mut m, "`; expected GET, POST, PUT, PATCH, DELETE, HEAD, or OPTIONS");
            },
            ExpandError::DepthTooLarge => push_str(
                &mut m,
                "#[api_endpoint]: number too large to fit in target type",
            ),
            ExpandError::DepthExceedsSegments { depth, segment_count, path } => {
                push_str(&mut m, "#[api_endpoint]: `depth` (");
                push_decimal(&mut m, *depth);
                push_str(&mut m, ") exceeds the number of path segments (");
                push_decimal(&mut m, *segment_count);
                push_str(&mut m, ") in path `\"");
                push_str(&mut m, path.as_str());
                push_str(&mut m, "\"`");
            },
            ExpandError::Extract(e) => {
                let extract_config = extract_config_of(config);
                m = e.message(&extract_config);
            },
            ExpandError::Config(e) => {
                m = e.message();
            },
            ExpandError::FieldErrorsInvalid { reason } => {
                push_str(&mut m, "#[api_endpoint]: `field_errors` is not a valid type name: ");
                push_str(&mut m, reason.as_str());
            },
            ExpandError::UnionOfUnits => push_str(
                &mut m,
                "#[api_endpoint]: both branches of Either resolve to `()` — this is likely a mistake",
            ),
        }
        m
    }
}

/// The response-type settings of a configuration.
pub fn extract_config_of(config: &MacroConfig) -> (c: ExtractConfig<'_>)
    ensures
        c@ == extract_view_of(config@),
{
    ExtractConfig {
        result_type: config.result_type.as_str(),
        json_alias: match &config.json_alias {
            Some(a) => Some(a.as_str()),
            None => None,
        },
        customized_alias: match &config.customized_alias {
            Some(a) => Some(a.as_str()),
            None => None,
        },
        unwrapped_response: config.unwrapped_response,
    }
}

/// Whether `m` is the lowercase name of an HTTP method that actix-web routes.
pub open spec fn is_route_method(m: Seq<char>) -> bool {
    m == "get"@ || m == "post"@ || m == "put"@ || m == "patch"@ || m == "delete"@ || m
        == "head"@ || m == "options"@
}

/// The depth to strip: the `depth` argument parsed as a `usize`, or the configured default.
pub open spec fn spec_depth(args: EndpointArgs, cfg: ConfigView) -> Option<usize> {
    match args.depth {
        Some(d) => parse_usize_spec(d.value@),
        None => Some(cfg.depth_default),
    }
}

/// The TypeScript name: the `name` argument, or the one derived from method and path.
pub open spec fn spec_ts_name_for(args: EndpointArgs) -> Seq<char> {
    match args.name {
        Some(n) => n.value@,
        None => spec_ts_name(args.method.value@, args.path.value@),
    }
}

/// The response-type settings that the configuration gives.
pub open spec fn extract_view_of(cfg: ConfigView) -> ExtractView {
    ExtractView {
        result_type: cfg.result_type,
        json_alias: cfg.json_alias,
        customized_alias: cfg.customized_alias,
        unwrapped_response: cfg.unwrapped_response,
    }
}

/// Whether a response role is a union of two unit types.
pub open spec fn is_union_of_units(role: ExtractedRole<crate::type_extract::TypeModel>) -> bool {
    match role {
        ExtractedRole::Union(a, b) => spec_is_unit(a) && spec_is_unit(b),
        _ => false,
    }
}

/// The first error that the expansion meets, in the order the checks run;
/// `None` when the expansion succeeds. `fe_error` is the message with which
/// the `field_errors` type name failed to parse, if it did.
pub open spec fn spec_expand_error(
    args: EndpointArgs,
    sig: SignatureModel,
    cfg: ConfigView,
    fe_error: Option<Seq<char>>,
) -> Option<ExpandErrorView> {
    let method = args.method.value@;
    let path = args.path.value@;
    if !is_route_method(lowercase(method)) {
        Some(ExpandErrorView::UnknownMethod(method))
    } else {
        match spec_depth(args, cfg) {
            None => Some(ExpandErrorView::DepthTooLarge),
            Some(depth) => if depth > split_on(path, '/').len() {
                Some(ExpandErrorView::DepthExceedsSegments(depth, split_on(path, '/').len(), path))
            } else {
                match response_spec(sig, extract_view_of(cfg)) {
                    Err(e) => Some(ExpandErrorView::Extract(e)),
                    Ok(role) => if cfg.call_endpoint_module is None {
                        Some(ExpandErrorView::Config(ConfigError::MissingCallEndpointModule))
                    } else {
                        match (args.field_errors, fe_error) {
                            (Some(_), Some(m)) => Some(ExpandErrorView::FieldErrorsInvalid(m)),
                            _ => if is_union_of_units(role) {
                                Some(ExpandErrorView::UnionOfUnits)
                            } else {
                                None
                            },
                        }
                    },
                }
            },
        }
    }
}

/// Without `APIM_CALL_ENDPOINT_MODULE` no handler expands.
pub proof fn law_missing_module_never_expands(
    args: EndpointArgs,
    sig: SignatureModel,
    cfg: ConfigView,
)
    requires
        cfg.call_endpoint_module is None,
    ensures
        forall|fe: Option<Seq<char>>| #[trigger] spec_expand_error(args, sig, cfg, fe) is Some,
{
}

/// A handler that expands uses one of the seven HTTP methods (in any case), a
/// depth that fits in a `usize` and leaves the path's segments, and a return
/// type of a recognised form.
pub proof fn law_expansion_preconditions(
    args: EndpointArgs,
    sig: SignatureModel,
    cfg: ConfigView,
    fe_error: Option<Seq<char>>,
)
    requires
        spec_expand_error(args, sig, cfg, fe_error) is None,
    ensures
        is_route_method(lowercase(args.method.value@)),
        spec_depth(args, cfg) is Some,
        spec_depth(args, cfg)->0 <= split_on(args.path.value@, '/').len(),
        response_spec(sig, extract_view_of(cfg)) is Ok,
        !is_union_of_units(response_spec(sig, extract_view_of(cfg))->Ok_0),
{
}

/// The expansion reads return types with the configuration's own settings:
/// in unwrapped mode `Result<Json<T>>` is the single response `T`, and in
/// wrapped mode the configured JSON and customised aliases, `Result<A<T>>` and
/// `Result<C<T>>`, are the single response `T` (for aliases that are not
/// themselves `Json` or `CustomizeResponder`). Such a handler is never refused
/// for its return type.
pub proof fn law_expansion_uses_configured_response_forms(
    args: EndpointArgs,
    sig: SignatureModel,
    cfg: ConfigView,
    fe_error: Option<Seq<char>>,
    ret: crate::type_extract::TypeModel,
    x: crate::type_extract::TypeModel,
)
    requires
        sig.output == Some(ret),
        peel_named(ret, "Result"@) == Some(x),
    ensures
        peel_named(x, "Json"@) matches Some(t) ==> (cfg.unwrapped_response ==> response_spec(
            sig,
            extract_view_of(cfg),
        ) == Ok::<ExtractedRole<crate::type_extract::TypeModel>, ExtractError>(
            ExtractedRole::Single(t),
        ) && !(spec_expand_error(args, sig, cfg, fe_error) matches Some(
            ExpandErrorView::Extract(_),
        ))),
        cfg.json_alias matches Some(a) ==> (!cfg.unwrapped_response && a != "Json"@ ==> (
        peel_named(x, a) matches Some(t) ==> response_spec(sig, extract_view_of(cfg)) == Ok::<
            ExtractedRole<crate::type_extract::TypeModel>,
            ExtractError,
        >(ExtractedRole::Single(t)) && !(spec_expand_error(args, sig, cfg, fe_error) matches Some(
            ExpandErrorView::Extract(_),
        )))),
        cfg.customized_alias matches Some(a) ==> (!cfg.unwrapped_response && a != "Json"@ && a
            != "CustomizeResponder"@ ==> (peel_named(x, a) matches Some(t) ==> response_spec(
            sig,
            extract_view_of(cfg),
        ) == Ok::<ExtractedRole<crate::type_extract::TypeModel>, ExtractError>(
            ExtractedRole::Single(t),
        ) && !(spec_expand_error(args, sig, cfg, fe_error) matches Some(
            ExpandErrorView::Extract(_),
        )))),
{
    law_documented_response_forms(sig, extract_view_of(cfg), ret, x);
}

/// `dir/sub/file`.
pub open spec fn file_path(dir: Seq<char>, sub: Seq<char>, file: Seq<char>) -> Seq<char> {
    dir + "/"@ + sub + "/"@ + file
}

/// Builds `dir/sub/file`.
fn make_file_path(dir: &str, sub: &str, file: &str) -> (r: String)
    ensures
        r@ == file_path(dir@, sub@, file@),
{
    let mut r = string_from(dir);
    push_str(&mut r, "/");
    push_str(&mut r, sub);
    push_str(&mut r, "/");
    push_str(&mut r, file);
    r
}

/// Builds `prefix` followed by `name`.
fn prefixed(prefix: &str, name: &str) -> (r: String)
    ensures
        r@ == prefix@ + name@,
{
    let mut r = string_from(prefix);
    push_str(&mut r, name);
    r
}

/// Whether the plan holds everything the expansion decides, apart from the
/// `field_errors` type.
pub open spec fn plan_fits(
    plan: EndpointPlan,
    args: EndpointArgs,
    fn_name: Seq<char>,
    sig: SignatureModel,
    cfg: ConfigView,
) -> bool {
    let depth = spec_depth(args, cfg)->0;
    let ts_name = spec_ts_name_for(args);
    &&& plan.method_fn@ == lowercase(args.method.value@)
    &&& plan.route_path@ == spec_route_path(args.path.value@, depth as nat)
    &&& plan.method@ == args.method.value@
    &&& plan.ts_path@ == args.path.value@
    &&& plan.ts_name@ == ts_name
    &&& plan.api_fn_name@ == lower_camel_case(ts_name)
    &&& response_spec(sig, extract_view_of(cfg)) == Ok::<
        ExtractedRole<crate::type_extract::TypeModel>,
        ExtractError,
    >(deref_role(plan.extracted.response))
    &&& deref_opt(plan.extracted.query) == last_wrapped_param(sig.inputs@, "Query"@)
    &&& deref_opt(plan.extracted.body) == last_wrapped_param(sig.inputs@, "Json"@)
    &&& deref_opt(plan.extracted.path_params) == last_wrapped_param(sig.inputs@, "Path"@)
    &&& plan.ts_file@ == file_path(cfg.export_dir, cfg.endpoints_path, ts_name + ".ts"@)
    &&& plan.api_file@ == file_path(cfg.export_dir, cfg.api_path, ts_name + ".ts"@)
    &&& plan.endpoint_spec_ts_file@ == file_path(
        cfg.export_dir,
        cfg.endpoints_path,
        "EndpointSpec.ts"@,
    )
    &&& plan.test_mod_name@ == "__export_endpoint_"@ + fn_name
    &&& plan.test_fn_name@ == "export_endpoint_"@ + fn_name
    &&& plan.test_api_fn_name@ == "export_endpoint_api_"@ + fn_name
    &&& plan.test_endpoint_spec_ts_fn_name@ == "export_endpoint_spec_ts_"@ + fn_name
}

/// Whether `r` is what the expansion gives when the `field_errors` type name
/// failed to parse with `fe_error` (or did not fail, when `None`).
pub open spec fn expand_outcome(
    r: Result<EndpointPlan, ExpandError>,
    args: EndpointArgs,
    fn_name: Seq<char>,
    sig: SignatureModel,
    cfg: ConfigView,
    fe_error: Option<Seq<char>>,
) -> bool {
    match r {
        Err(e) => spec_expand_error(args, sig, cfg, fe_error) == Some(e@),
        Ok(plan) => spec_expand_error(args, sig, cfg, fe_error) is None && plan_fits(
            plan,
            args,
            fn_name,
            sig,
            cfg,
        ),
    }
}

/// The message with which a parse failed, if it did.
pub open spec fn parse_failure(o: Option<Result<syn::Type, String>>) -> Option<Seq<char>> {
    match o {
        Some(Err(m)) => Some(m@),
        _ => None,
    }
}

/// The parsed type, if the parse succeeded.
pub open spec fn parsed_type(o: Option<Result<syn::Type, String>>) -> Option<syn::Type> {
    match o {
        Some(Ok(t)) => Some(t),
        _ => None,
    }
}

/// `depth` changes only the route: two expansions of one handler under one
/// configuration, whose arguments differ at most in `depth`, plan the same
/// TypeScript name, wrapper name, output files, test names and extracted
/// types; the TypeScript path is the full `path` in both. With one parser
/// answer for the `field_errors` type name, they name the same type.
pub proof fn law_depth_changes_only_route(
    p1: EndpointPlan,
    p2: EndpointPlan,
    args1: EndpointArgs,
    args2: EndpointArgs,
    fn_name: Seq<char>,
    sig: SignatureModel,
    cfg: ConfigView,
    answer: Option<Result<syn::Type, String>>,
)
    requires
        args1.method.value@ == args2.method.value@,
        args1.path.value@ == args2.path.value@,
        lit_value(args1.name) == lit_value(args2.name),
        lit_value(args1.field_errors) == lit_value(args2.field_errors),
        plan_fits(p1, args1, fn_name, sig, cfg),
        plan_fits(p2, args2, fn_name, sig, cfg),
        p1.field_errors_type == if args1.field_errors is Some {
            parsed_type(answer)
        } else {
            None
        },
        p2.field_errors_type == if args2.field_errors is Some {
            parsed_type(answer)
        } else {
            None
        },
    ensures
        p1.method_fn@ == p2.method_fn@,
        p1.method@ == p2.method@,
        p1.ts_path@ == p2.ts_path@,
        p1.ts_path@ == args1.path.value@,
        p1.ts_name@ == p2.ts_name@,
        p1.api_fn_name@ == p2.api_fn_name@,
        deref_role(p1.extracted.response) == deref_role(p2.extracted.response),
        deref_opt(p1.extracted.query) == deref_opt(p2.extracted.query),
        deref_opt(p1.extracted.body) == deref_opt(p2.extracted.body),
        deref_opt(p1.extracted.path_params) == deref_opt(p2.extracted.path_params),
        p1.field_errors_type == p2.field_errors_type,
        p1.ts_file@ == p2.ts_file@,
        p1.api_file@ == p2.api_file@,
        p1.endpoint_spec_ts_file@ == p2.endpoint_spec_ts_file@,
        p1.test_mod_name@ == p2.test_mod_name@,
        p1.test_fn_name@ == p2.test_fn_name@,
        p1.test_api_fn_name@ == p2.test_api_fn_name@,
        p1.test_endpoint_spec_ts_fn_name@ == p2.test_endpoint_spec_ts_fn_name@,
{
    assert(spec_ts_name_for(args1) == spec_ts_name_for(args2));
    assert(args1.field_errors is Some <==> args2.field_errors is Some);
}

/// The expansion of `#[api_endpoint]` for a handler named `fn_name` with
/// signature `sig`, under configuration `config`: the checks, in order, and
/// everything the generated code is made of. The `field_errors` type name is
/// parsed here; what the parser answers is not known in advance, so the
/// contract covers every answer.
pub fn expand<'a>(
    args: &EndpointArgs,
    fn_name: &str,
    sig: &'a SignatureModel,
    config: &MacroConfig,
) -> (r: Result<EndpointPlan<'a>, ExpandError>)
    ensures
        match r {
            Err(ExpandError::FieldErrorsInvalid { reason }) => args.field_errors is Some
                && expand_outcome(r, *args, fn_name@, *sig, config@, Some(reason@)),
            _ => expand_outcome(r, *args, fn_name@, *sig, config@, None),
        },
        r matches Ok(plan) ==> (plan.field_errors_type is Some <==> args.field_errors is Some),
        vstd::utf8::is_ascii_chars(args.method.value@) ==> lowercase(args.method.value@)
            == ascii_lowercase(args.method.value@),
{
    let field_errors_type = match &args.field_errors {
        Some(lit) => Some(parse_type(lit.value.as_str())),
        None => None,
    };
    expand_with_field_errors(args, fn_name, sig, config, field_errors_type)
}

/// The expansion, given what the parser answered for the `field_errors` type
/// name (`None` when it was not parsed).
pub fn expand_with_field_errors<'a>(
    args: &EndpointArgs,
    fn_name: &str,
    sig: &'a SignatureModel,
    config: &MacroConfig,
    field_errors_type: Option<Result<syn::Type, String>>,
) -> (r: Result<EndpointPlan<'a>, ExpandError>)
    ensures
        expand_outcome(
            r,
            *args,
            fn_name@,
            *sig,
            config@,
            if args.field_errors is Some {
                parse_failure(field_errors_type)
            } else {
                None
            },
        ),
        r matches Ok(plan) ==> plan.field_errors_type == if args.field_errors is Some {
            parsed_type(field_errors_type)
        } else {
            None
        },
        vstd::utf8::is_ascii_chars(args.method.value@) ==> lowercase(args.method.value@)
            == ascii_lowercase(args.method.value@),
{
    let method_str = &args.method.value;
    let path_str = &args.path.value;

    // Validate the HTTP method early and derive the actix-web route attribute name (e.g. `get`).
    let method_lower = to_lowercase(method_str.as_str());
    if !(string_is(&method_lower, "get") || string_is(&method_lower, "post") || string_is(
        &method_lower,
        "put",
    ) || string_is(&method_lower, "patch") || string_is(&method_lower, "delete") || string_is(
        &method_lower,
        "head",
    ) || string_is(&method_lower, "options")) {
        return Err(ExpandError::UnknownMethod { method: method_str.clone() });
    }
    // Resolve the `depth` argument (defaults to `APIM_DEPTH_DEFAULT`, which itself defaults to 1).
    let depth: usize = match &args.depth {
        Some(d) => match parse_usize(d.value.as_str()) {
            Some(n) => n,
            None => {
                return Err(ExpandError::DepthTooLarge);
            },
        },
        None => config.depth_default,
    };

    let route_path = route_path_after_depth(path_str.as_str(), depth);

    // Validate: depth must leave at least one segment (or an empty string for the scope root).
    let path_chars = chars_of(path_str.as_str());
    let segment_count = split_chars(&path_chars, '/').len();
    if depth > segment_count {
        return Err(
            ExpandError::DepthExceedsSegments { depth, segment_count, path: path_str.clone() },
        );
    }

    // Derive the TypeScript name: either the explicit override or derived from method + path.
    let ts_name = match &args.name {
        Some(n) => n.value.clone(),
        None => ts_name_from_method_and_path(method_str.as_str(), path_str.as_str()),
    };

    // camelCase TypeScript function name for the generated API wrapper, e.g.
    // "GetUserInfo" → "getUserInfo".
    let api_fn_name = to_lower_camel_case(ts_name.as_str());

    let extract_config = extract_config_of(config);

    // Extract types from the function signature.
    let extracted = match extract_types(sig, &extract_config) {
        Ok(x) => x,
        Err(e) => {
            return Err(ExpandError::Extract(e));
        },
    };

    // Validate required env vars after type extraction so type errors surface first.
    if let Err(e) = config.call_endpoint_module() {
        return Err(ExpandError::Config(e));
    }

    // The optional `field_errors = "EnumName"` argument, as a concrete type.
    let field_errors_type = if args.field_errors.is_some() {
        match field_errors_type {
            Some(Ok(t)) => Some(t),
            Some(Err(reason)) => {
                return Err(ExpandError::FieldErrorsInvalid { reason });
            },
            None => None,
        }
    } else {
        None
    };

    // Validate: if the response is a union, both branches must differ (sanity check only).
    if let ExtractedRole::Union(a, b) = &extracted.response {
        if is_unit(a) && is_unit(b) {
            return Err(ExpandError::UnionOfUnits);
        }
    }

    let mut ts_file_name = ts_name.clone();
    push_str(&mut ts_file_name, ".ts");
    let ts_file = make_file_path(
        config.export_dir.as_str(),
        config.endpoints_path.as_str(),
        ts_file_name.as_str(),
    );
    let api_file = make_file_path(
        config.export_dir.as_str(),
        config.api_path.as_str(),
        ts_file_name.as_str(),
    );
    let endpoint_spec_ts_file = make_file_path(
        config.export_dir.as_str(),
        config.endpoints_path.as_str(),
        "EndpointSpec.ts",
    );

    Ok(
        EndpointPlan {
            method_fn: method_lower,
            route_path,
            method: method_str.clone(),
            ts_path: path_str.clone(),
            ts_name,
            api_fn_name,
            extracted,
            field_errors_type,
            ts_file,
            api_file,
            endpoint_spec_ts_file,
            test_mod_name: prefixed("__export_endpoint_", fn_name),
            test_fn_name: prefixed("export_endpoint_", fn_name),
            test_api_fn_name: prefixed("export_endpoint_api_", fn_name),
            test_endpoint_spec_ts_fn_name: prefixed("export_endpoint_spec_ts_", fn_name),
        },
    )
}

} // verus!
