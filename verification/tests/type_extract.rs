use api_macros::type_extract::{
    extract_types, is_unit, unit_type, ArgumentsModel, ExtractConfig, ExtractError,
    ExtractedRole, FnArgModel, GenericArgModel, PathModel, SegmentModel, SignatureModel,
    TypeModel,
};

/// `a::b::Last<args...>`
fn ty(segments: &[&str], args: Vec<TypeModel>) -> TypeModel {
    let n = segments.len();
    let segments = segments
        .iter()
        .enumerate()
        .map(|(i, s)| SegmentModel {
            ident: s.to_string(),
            arguments: if i + 1 == n && !args.is_empty() {
                ArgumentsModel::AngleBracketed(Vec::new())
            } else {
                ArgumentsModel::Empty
            },
        })
        .collect::<Vec<_>>();
    let mut segments = segments;
    if let Some(last) = segments.last_mut() {
        if let ArgumentsModel::AngleBracketed(v) = &mut last.arguments {
            *v = args.into_iter().map(GenericArgModel::Type).collect();
        }
    }
    TypeModel::Path(PathModel { segments })
}

fn plain(name: &str) -> TypeModel {
    ty(&[name], Vec::new())
}

fn wrapped() -> ExtractConfig<'static> {
    ExtractConfig {
        result_type: "ApiResult",
        json_alias: None,
        customized_alias: None,
        unwrapped_response: false,
    }
}

fn sig(inputs: Vec<FnArgModel>, output: Option<TypeModel>) -> SignatureModel {
    SignatureModel { inputs, output }
}

fn result_of(inner: TypeModel) -> Option<TypeModel> {
    Some(ty(&["Result"], vec![inner]))
}

fn json_api(t: TypeModel) -> TypeModel {
    ty(&["web", "Json"], vec![ty(&["ApiResult"], vec![t])])
}

#[test]
fn extract_parameter_roles() {
    let s = sig(
        vec![
            FnArgModel::Typed(ty(&["web", "Data"], vec![plain("DbPool")])),
            FnArgModel::Typed(plain("HttpRequest")),
            FnArgModel::Typed(ty(&["web", "Query"], vec![plain("FilterQuery")])),
            FnArgModel::Typed(ty(&["Json"], vec![plain("Body")])),
            FnArgModel::Typed(ty(&["web", "Path"], vec![plain("Id")])),
        ],
        result_of(json_api(plain("ProfileResponse"))),
    );
    let x = extract_types(&s, &wrapped()).unwrap();
    assert_eq!(x.query, Some(&plain("FilterQuery")));
    assert_eq!(x.body, Some(&plain("Body")));
    assert_eq!(x.path_params, Some(&plain("Id")));
    assert!(matches!(x.response, ExtractedRole::Single(t) if *t == plain("ProfileResponse")));
}

#[test]
fn extract_last_parameter_wins_and_receiver_ignored() {
    let s = sig(
        vec![
            FnArgModel::Receiver,
            FnArgModel::Typed(ty(&["Query"], vec![plain("A")])),
            FnArgModel::Typed(ty(&["Query"], vec![plain("B")])),
            FnArgModel::Typed(ty(&["Query"], vec![plain("C"), plain("D")])),
        ],
        result_of(json_api(plain("R"))),
    );
    let x = extract_types(&s, &wrapped()).unwrap();
    assert_eq!(x.query, Some(&plain("B")));
    assert_eq!(x.body, None);
    assert_eq!(x.path_params, None);
}

#[test]
fn extract_customized_and_either_responses() {
    let customized = ty(&["CustomizeResponder"], vec![json_api(plain("C"))]);
    let s = sig(Vec::new(), result_of(ty(&["CustomizeResponder"], vec![json_api(plain("C"))])));
    let x = extract_types(&s, &wrapped()).unwrap();
    assert!(matches!(x.response, ExtractedRole::Single(t) if *t == plain("C")));

    let s = sig(
        Vec::new(),
        result_of(ty(&["actix_web", "Either"], vec![json_api(plain("L")), customized])),
    );
    let x = extract_types(&s, &wrapped()).unwrap();
    assert!(matches!(x.response,
        ExtractedRole::Union(a, b) if *a == plain("L") && *b == plain("C")));
}

#[test]
fn extract_return_type_errors() {
    let s = sig(Vec::new(), None);
    let e = extract_types(&s, &wrapped()).err().unwrap();
    assert_eq!(e, ExtractError::MissingReturnType);
    assert_eq!(e.message(&wrapped()), "#[api_endpoint] requires an explicit return type");

    let s = sig(Vec::new(), Some(json_api(plain("T"))));
    let e = extract_types(&s, &wrapped()).err().unwrap();
    assert_eq!(e, ExtractError::NotResult);
    assert_eq!(e.message(&wrapped()), "#[api_endpoint]: return type must be `Result<…>`");

    let s = sig(Vec::new(), result_of(plain("SomeRandomType")));
    let e = extract_types(&s, &wrapped()).err().unwrap();
    assert_eq!(e, ExtractError::UnrecognisedReturnType);
    assert_eq!(
        e.message(&wrapped()),
        "#[api_endpoint]: unrecognised return type; expected `Json<ApiResult<T>>`, `CustomizeResponder<Json<ApiResult<T>>>`, or `Either<A, B>` of these"
    );

    // A `Json` without the result wrapper is refused in wrapped mode.
    let s = sig(Vec::new(), result_of(ty(&["Json"], vec![plain("T")])));
    assert_eq!(extract_types(&s, &wrapped()).err(), Some(ExtractError::UnrecognisedReturnType));

    // `Either` with one unrecognised branch is refused.
    let s = sig(
        Vec::new(),
        result_of(ty(&["Either"], vec![json_api(plain("L")), plain("X")])),
    );
    assert_eq!(extract_types(&s, &wrapped()).err(), Some(ExtractError::UnrecognisedReturnType));
}

#[test]
fn extract_aliases_in_wrapped_mode() {
    let cfg = ExtractConfig {
        result_type: "ApiResult",
        json_alias: Some("JsonApiResult"),
        customized_alias: Some("CustomizedJsonApiResult"),
        unwrapped_response: false,
    };
    let s = sig(Vec::new(), result_of(ty(&["JsonApiResult"], vec![plain("A")])));
    let x = extract_types(&s, &cfg).unwrap();
    assert!(matches!(x.response, ExtractedRole::Single(t) if *t == plain("A")));

    let s = sig(
        Vec::new(),
        result_of(ty(
            &["Either"],
            vec![
                ty(&["JsonApiResult"], vec![plain("A")]),
                ty(&["CustomizedJsonApiResult"], vec![plain("B")]),
            ],
        )),
    );
    let x = extract_types(&s, &cfg).unwrap();
    assert!(matches!(x.response,
        ExtractedRole::Union(a, b) if *a == plain("A") && *b == plain("B")));

    // Without the alias configured, the same type is refused.
    let s = sig(Vec::new(), result_of(ty(&["JsonApiResult"], vec![plain("A")])));
    assert_eq!(extract_types(&s, &wrapped()).err(), Some(ExtractError::UnrecognisedReturnType));
}

#[test]
fn extract_unwrapped_mode() {
    let cfg = ExtractConfig {
        result_type: "ApiResult",
        json_alias: Some("JsonApiResult"),
        customized_alias: None,
        unwrapped_response: true,
    };
    let s = sig(Vec::new(), result_of(ty(&["Json"], vec![plain("T")])));
    let x = extract_types(&s, &cfg).unwrap();
    assert!(matches!(x.response, ExtractedRole::Single(t) if *t == plain("T")));

    let s = sig(
        Vec::new(),
        result_of(ty(&["CustomizeResponder"], vec![ty(&["Json"], vec![plain("U")])])),
    );
    let x = extract_types(&s, &cfg).unwrap();
    assert!(matches!(x.response, ExtractedRole::Single(t) if *t == plain("U")));

    // Aliases are not consulted in unwrapped mode.
    let s = sig(Vec::new(), result_of(ty(&["JsonApiResult"], vec![plain("A")])));
    let e = extract_types(&s, &cfg).err().unwrap();
    assert_eq!(e, ExtractError::UnrecognisedReturnType);
    assert_eq!(
        e.message(&cfg),
        "#[api_endpoint]: unrecognised return type; expected `Json<T>`, `CustomizeResponder<Json<T>>`, or `Either<A, B>` of these"
    );
}

#[test]
fn unit_type_is_unit() {
    assert!(is_unit(&unit_type()));
    assert!(!is_unit(&TypeModel::Tuple(vec![plain("A")])));
    assert!(!is_unit(&plain("A")));
    assert!(!is_unit(&TypeModel::Other));
}
