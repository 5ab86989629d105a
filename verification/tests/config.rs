use api_macros::config::{apim_env_var_list, ConfigError, MacroConfig};

fn env(pairs: &[(&str, &str)]) -> Vec<(String, String)> {
    pairs
        .iter()
        .map(|(k, v)| (k.to_string(), v.to_string()))
        .collect()
}

/// Every listed `APIM_*` variable is read by the configuration, and a
/// variable that is not listed is not.
#[test]
fn from_env_only_reads_listed_apim_vars() {
    let list = apim_env_var_list();
    let default = MacroConfig::from_env(&Vec::new());

    for var in &list {
        let changed = ["2", "yes"].iter().any(|value| {
            MacroConfig::from_env(&env(&[(var.as_str(), value)])) != default
        });
        assert!(
            changed,
            "`{var}` is listed but never read by MacroConfig::from_env"
        );
    }

    let unlisted = MacroConfig::from_env(&env(&[("APIM_NOT_A_SETTING", "2")]));
    assert!(
        unlisted == default,
        "a variable missing from apim_env_var_list is read by MacroConfig::from_env"
    );
}

#[test]
fn apim_env_var_list_has_every_setting() {
    let list = apim_env_var_list();
    assert_eq!(list.len(), 14);
    assert!(list.iter().all(|v| v.starts_with("APIM_")));
    assert!(list.contains(&"APIM_DEPTH_DEFAULT".to_string()));
}

#[test]
fn from_env_defaults() {
    let cfg = MacroConfig::from_env(&Vec::new());
    assert_eq!(cfg.result_type, "ApiResult");
    assert_eq!(cfg.json_alias, None);
    assert_eq!(cfg.customized_alias, None);
    assert_eq!(cfg.call_endpoint_name, "callEndpoint");
    assert_eq!(cfg.result_path, "bindings/ApiResult");
    assert_eq!(cfg.export_dir, "generated");
    assert_eq!(cfg.endpoints_path, "bindings/endpoints");
    assert_eq!(cfg.api_path, "api");
    assert_eq!(cfg.depth_default, 1);
    assert!(!cfg.unwrapped_response);
    assert_eq!(cfg.typed_result_type, "TypedApiResult");
    assert_eq!(cfg.typed_result_path, "bindings/ApiResult");
    assert_eq!(cfg.models_path, "..");
    assert_eq!(cfg.call_endpoint_module(), Err(ConfigError::MissingCallEndpointModule));
}

#[test]
fn from_env_reads_values() {
    let cfg = MacroConfig::from_env(&env(&[
        ("APIM_CALL_ENDPOINT_MODULE", "client/services/http"),
        ("APIM_RESULT_TYPE", "Res"),
        ("APIM_JSON_API_RESULT_ALIAS", "JsonApiResult"),
        ("APIM_CUSTOMIZERESPONDER_JSON_API_RESULT_ALIAS", ""),
        ("APIM_DEPTH_DEFAULT", "+3"),
        ("APIM_EXPORT_DIR", "frontend/src/generated"),
    ]));
    assert_eq!(cfg.call_endpoint_module(), Ok("client/services/http"));
    assert_eq!(cfg.result_type, "Res");
    assert_eq!(cfg.json_alias.as_deref(), Some("JsonApiResult"));
    // An empty alias means no alias.
    assert_eq!(cfg.customized_alias, None);
    assert_eq!(cfg.depth_default, 3);
    assert_eq!(cfg.export_dir, "frontend/src/generated");
}

#[test]
fn from_env_first_entry_wins() {
    let cfg = MacroConfig::from_env(&env(&[("APIM_API_PATH", "one"), ("APIM_API_PATH", "two")]));
    assert_eq!(cfg.api_path, "one");
}

#[test]
fn depth_default_falls_back_to_one() {
    for bad in ["", "-1", "abc", "1.5", "+", "99999999999999999999999"] {
        let cfg = MacroConfig::from_env(&env(&[("APIM_DEPTH_DEFAULT", bad)]));
        assert_eq!(cfg.depth_default, 1, "value {bad:?}");
    }
    let cfg = MacroConfig::from_env(&env(&[("APIM_DEPTH_DEFAULT", "007")]));
    assert_eq!(cfg.depth_default, 7);
}

#[test]
fn unwrapped_response_flag_values() {
    for on in ["1", "true", "TRUE", "Yes", "yEs"] {
        let cfg = MacroConfig::from_env(&env(&[("APIM_UNWRAPPED_RESPONSE", on)]));
        assert!(cfg.unwrapped_response, "value {on:?}");
    }
    for off in ["0", "false", "no", "on", "", " true"] {
        let cfg = MacroConfig::from_env(&env(&[("APIM_UNWRAPPED_RESPONSE", off)]));
        assert!(!cfg.unwrapped_response, "value {off:?}");
    }
}

#[test]
fn for_tests_uses_defaults() {
    let cfg = MacroConfig::for_tests("client/http".to_string());
    assert_eq!(cfg.call_endpoint_module(), Ok("client/http"));
    let mut expected = MacroConfig::from_env(&env(&[("APIM_CALL_ENDPOINT_MODULE", "client/http")]));
    assert!(cfg == expected);
    expected.api_path = "other".to_string();
    assert!(cfg != expected);
}

#[test]
fn missing_module_message_names_the_variable() {
    let m = ConfigError::MissingCallEndpointModule.message();
    assert!(m.starts_with("api_endpoint requires the `APIM_CALL_ENDPOINT_MODULE` environment variable"));
    assert!(m.contains("[env]\nAPIM_CALL_ENDPOINT_MODULE = \"path/to/your/http/module\""));
}
