use api_macros::args::{EndpointArgs, LitArg};
use api_macros::config::{ConfigError, MacroConfig};
use api_macros::type_extract::{
    ArgumentsModel, ExtractError, ExtractedRole, FnArgModel, GenericArgModel, PathModel,
    SegmentModel, SignatureModel, TypeModel,
};
use api_macros::{expand, expand_with_field_errors, ExpandError};

fn ty(name: &str, args: Vec<TypeModel>) -> TypeModel {
    let arguments = if args.is_empty() {
        ArgumentsModel::Empty
    } else {
        ArgumentsModel::AngleBracketed(args.into_iter().map(GenericArgModel::Type).collect())
    };
    TypeModel::Path(PathModel {
        segments: vec![SegmentModel { ident: name.to_string(), arguments }],
    })
}

fn response(t: TypeModel) -> Option<TypeModel> {
    Some(ty("Result", vec![ty("Json", vec![ty("ApiResult", vec![t])])]))
}

fn lit(v: &str, at: usize) -> LitArg {
    LitArg { value: v.to_string(), at }
}

fn args(method: &str, path: &str) -> EndpointArgs {
    EndpointArgs {
        method: lit(method, 2),
        path: lit(path, 6),
        name: None,
        depth: None,
        field_errors: None,
    }
}

fn profile_sig() -> SignatureModel {
    SignatureModel {
        inputs: vec![FnArgModel::Typed(ty("Query", vec![ty("FilterQuery", vec![])]))],
        output: response(ty("ProfileResponse", vec![])),
    }
}

fn cfg() -> MacroConfig {
    MacroConfig::for_tests("client/services/http".to_string())
}

#[test]
fn expand_readme_example() {
    let sig = profile_sig();
    let config = cfg();
    let plan = expand(&args("GET", "users/profile"), "get_user_profile", &sig, &config).unwrap();
    assert_eq!(plan.method_fn, "get");
    assert_eq!(plan.route_path, "profile");
    assert_eq!(plan.method, "GET");
    assert_eq!(plan.ts_path, "users/profile");
    assert_eq!(plan.ts_name, "GetUsersProfile");
    assert_eq!(plan.api_fn_name, "getUsersProfile");
    assert_eq!(plan.extracted.query, Some(&ty("FilterQuery", vec![])));
    assert_eq!(plan.extracted.body, None);
    assert!(matches!(plan.extracted.response,
        ExtractedRole::Single(t) if *t == ty("ProfileResponse", vec![])));
    assert!(plan.field_errors_type.is_none());
    assert_eq!(plan.ts_file, "generated/bindings/endpoints/GetUsersProfile.ts");
    assert_eq!(plan.api_file, "generated/api/GetUsersProfile.ts");
    assert_eq!(plan.endpoint_spec_ts_file, "generated/bindings/endpoints/EndpointSpec.ts");
    assert_eq!(plan.test_mod_name, "__export_endpoint_get_user_profile");
    assert_eq!(plan.test_fn_name, "export_endpoint_get_user_profile");
    assert_eq!(plan.test_api_fn_name, "export_endpoint_api_get_user_profile");
    assert_eq!(plan.test_endpoint_spec_ts_fn_name, "export_endpoint_spec_ts_get_user_profile");
}

#[test]
fn expand_name_and_depth_arguments() {
    let sig = profile_sig();
    let config = cfg();
    let mut a = args("post", "users/profile/avatar");
    a.name = Some(lit("UploadAvatar", 10));
    a.depth = Some(lit("2", 14));
    let plan = expand(&a, "upload", &sig, &config).unwrap();
    assert_eq!(plan.method_fn, "post");
    assert_eq!(plan.ts_name, "UploadAvatar");
    assert_eq!(plan.api_fn_name, "uploadAvatar");
    assert_eq!(plan.route_path, "avatar");
    // The TypeScript path constant keeps the whole path whatever the depth.
    assert_eq!(plan.ts_path, "users/profile/avatar");

    a.depth = Some(lit("3", 14));
    assert_eq!(expand(&a, "upload", &sig, &config).unwrap().route_path, "");
    a.depth = Some(lit("0", 14));
    assert_eq!(expand(&a, "upload", &sig, &config).unwrap().route_path, "users/profile/avatar");
}

#[test]
fn expand_depth_default_from_config() {
    let sig = profile_sig();
    let mut config = cfg();
    config.depth_default = 2;
    let plan = expand(&args("GET", "user/info/extra"), "f", &sig, &config).unwrap();
    assert_eq!(plan.route_path, "extra");
}

#[test]
fn expand_unknown_method() {
    let sig = profile_sig();
    let config = cfg();
    let e = expand(&args("CUSTOM", "test/path"), "my_handler", &sig, &config).err().unwrap();
    assert_eq!(e, ExpandError::UnknownMethod { method: "CUSTOM".to_string() });
    assert_eq!(
        e.message(&config),
        "#[api_endpoint]: unknown HTTP method `CUSTOM`; expected GET, POST, PUT, PATCH, DELETE, HEAD, or OPTIONS"
    );
    for m in ["get", "Post", "PUT", "patch", "DELETE", "head", "OpTiOnS"] {
        assert!(expand(&args(m, "a/b"), "f", &sig, &config).is_ok(), "method {m}");
    }
}

#[test]
fn expand_depth_errors() {
    let sig = profile_sig();
    let config = cfg();
    let mut a = args("GET", "user/info");
    a.depth = Some(lit("3", 10));
    let e = expand(&a, "f", &sig, &config).err().unwrap();
    assert_eq!(
        e,
        ExpandError::DepthExceedsSegments { depth: 3, segment_count: 2, path: "user/info".to_string() }
    );
    assert_eq!(
        e.message(&config),
        "#[api_endpoint]: `depth` (3) exceeds the number of path segments (2) in path `\"user/info\"`"
    );
    a.depth = Some(lit("2", 10));
    assert!(expand(&a, "f", &sig, &config).is_ok());

    a.depth = Some(lit("99999999999999999999999", 10));
    let e = expand(&a, "f", &sig, &config).err().unwrap();
    assert_eq!(e, ExpandError::DepthTooLarge);
    assert_eq!(e.message(&config), "#[api_endpoint]: number too large to fit in target type");
}

#[test]
fn expand_unrecognised_return_type() {
    let sig = SignatureModel { inputs: vec![], output: Some(ty("Result", vec![ty("SomeRandomType", vec![])])) };
    let config = cfg();
    let e = expand(&args("GET", "test/path"), "my_handler", &sig, &config).err().unwrap();
    assert_eq!(e, ExpandError::Extract(ExtractError::UnrecognisedReturnType));
    assert!(e.message(&config).starts_with("#[api_endpoint]: unrecognised return type"));
}

#[test]
fn expand_requires_call_endpoint_module() {
    let sig = profile_sig();
    let config = MacroConfig::from_env(&Vec::new());
    let e = expand(&args("GET", "a/b"), "f", &sig, &config).err().unwrap();
    assert_eq!(e, ExpandError::Config(ConfigError::MissingCallEndpointModule));
    assert_eq!(e.message(&config), ConfigError::MissingCallEndpointModule.message());

    // Type errors surface before the missing configuration.
    let bad = SignatureModel { inputs: vec![], output: None };
    assert_eq!(
        expand(&args("GET", "a/b"), "f", &bad, &config).err(),
        Some(ExpandError::Extract(ExtractError::MissingReturnType))
    );
}

#[test]
fn expand_field_errors() {
    let sig = profile_sig();
    let config = cfg();
    let mut a = args("GET", "a/b");
    a.field_errors = Some(lit("MyFieldErrorEnum", 10));
    assert!(expand(&a, "f", &sig, &config).unwrap().field_errors_type.is_some());

    a.field_errors = Some(lit("Foo<", 10));
    let e = expand(&a, "f", &sig, &config).err().unwrap();
    assert!(matches!(e, ExpandError::FieldErrorsInvalid { .. }));
    assert!(e
        .message(&config)
        .starts_with("#[api_endpoint]: `field_errors` is not a valid type name: "));
}

#[test]
fn expand_union_of_units_refused() {
    let unit = TypeModel::Tuple(vec![]);
    let json_unit = ty("Json", vec![ty("ApiResult", vec![unit])]);
    let json_unit2 = ty("Json", vec![ty("ApiResult", vec![TypeModel::Tuple(vec![])])]);
    let sig = SignatureModel {
        inputs: vec![],
        output: Some(ty("Result", vec![ty("Either", vec![json_unit, json_unit2])])),
    };
    let config = cfg();
    let e = expand(&args("GET", "a/b"), "f", &sig, &config).err().unwrap();
    assert_eq!(e, ExpandError::UnionOfUnits);
    assert_eq!(
        e.message(&config),
        "#[api_endpoint]: both branches of Either resolve to `()` — this is likely a mistake"
    );
}

#[test]
fn expand_with_given_field_errors_outcome() {
    let sig = profile_sig();
    let config = cfg();
    let mut a = args("GET", "a/b");
    a.field_errors = Some(lit("Whatever", 10));

    let e = expand_with_field_errors(&a, "f", &sig, &config, Some(Err("boom".to_string())))
        .err()
        .unwrap();
    assert_eq!(e, ExpandError::FieldErrorsInvalid { reason: "boom".to_string() });
    assert_eq!(
        e.message(&config),
        "#[api_endpoint]: `field_errors` is not a valid type name: boom"
    );

    let t: syn::Type = syn::parse_str("Vec<u8>").unwrap();
    let plan = expand_with_field_errors(&a, "f", &sig, &config, Some(Ok(t))).unwrap();
    let kept = plan.field_errors_type.expect("the parsed type is kept");
    assert_eq!(quote::ToTokens::to_token_stream(&kept).to_string(), "Vec < u8 >");

    // Without the argument, the outcome is not consulted.
    a.field_errors = None;
    let plan = expand_with_field_errors(&a, "f", &sig, &config, Some(Err("boom".to_string())))
        .unwrap();
    assert!(plan.field_errors_type.is_none());

    // Earlier checks come first.
    let mut b = args("FETCH", "a/b");
    b.field_errors = Some(lit("X", 10));
    assert_eq!(
        expand_with_field_errors(&b, "f", &sig, &config, Some(Err("boom".to_string()))).err(),
        Some(ExpandError::UnknownMethod { method: "FETCH".to_string() })
    );
}

#[test]
fn expand_depth_changes_only_the_route() {
    let sig = profile_sig();
    let config = cfg();
    let mut a1 = args("Patch", "org/team/member/{id}");
    a1.field_errors = Some(lit("MemberFieldError", 10));
    let mut a2 = args("Patch", "org/team/member/{id}");
    a2.field_errors = Some(lit("MemberFieldError", 10));
    a2.depth = Some(lit("3", 14));
    let p1 = expand(&a1, "patch_member", &sig, &config).unwrap();
    let p2 = expand(&a2, "patch_member", &sig, &config).unwrap();
    assert_eq!(p1.route_path, "team/member/{id}");
    assert_eq!(p2.route_path, "{id}");
    assert_eq!(p1.method_fn, "patch");
    assert_eq!(p1.method_fn, p2.method_fn);
    assert_eq!(p1.method, p2.method);
    assert_eq!(p1.ts_path, "org/team/member/{id}");
    assert_eq!(p1.ts_path, p2.ts_path);
    assert_eq!(p1.ts_name, "PatchOrgTeamMemberId");
    assert_eq!(p1.ts_name, p2.ts_name);
    assert_eq!(p1.api_fn_name, p2.api_fn_name);
    assert_eq!(p1.extracted.query, p2.extracted.query);
    assert_eq!(p1.extracted.body, p2.extracted.body);
    assert_eq!(p1.extracted.path_params, p2.extracted.path_params);
    let shown = |t: &Option<syn::Type>| {
        t.as_ref().map(|t| quote::ToTokens::to_token_stream(t).to_string())
    };
    assert_eq!(shown(&p1.field_errors_type), Some("MemberFieldError".to_string()));
    assert_eq!(shown(&p1.field_errors_type), shown(&p2.field_errors_type));
    assert_eq!(p1.ts_file, p2.ts_file);
    assert_eq!(p1.api_file, p2.api_file);
    assert_eq!(p1.endpoint_spec_ts_file, p2.endpoint_spec_ts_file);
    assert_eq!(p1.test_mod_name, p2.test_mod_name);
    assert_eq!(p1.test_fn_name, p2.test_fn_name);
    assert_eq!(p1.test_api_fn_name, p2.test_api_fn_name);
    assert_eq!(p1.test_endpoint_spec_ts_fn_name, p2.test_endpoint_spec_ts_fn_name);
}
