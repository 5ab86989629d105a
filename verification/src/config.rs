//! Configuration of the `api_endpoint` macro, read from `APIM_*` environment variables.
//!
//! The environment is given as a snapshot: the `(name, value)` pairs of the
//! variables that are set. [`apim_env_var_list`] names every variable that the
//! configuration reads.

use vstd::prelude::*;

use crate::foreign::{ascii_lowercase, lowercase, to_lowercase};
use crate::text::{
    digits_value, parse_usize, parse_usize_spec, push_str, string_from, string_is, unsigned_digits,
};

verus! {

/// All configuration values read from environment variables at macro-expansion time.
#[derive(Debug, PartialEq, Eq)]
pub struct MacroConfig {
    /// `APIM_RESULT_TYPE` — name of the response-wrapper type (default: `"ApiResult"`).
    pub result_type: String,
    /// `APIM_JSON_API_RESULT_ALIAS` — accepted as an alias for `Json<result_type<T>>`.
    pub json_alias: Option<String>,
    /// `APIM_CUSTOMIZERESPONDER_JSON_API_RESULT_ALIAS` — accepted as an alias for
    /// `CustomizeResponder<Json<result_type<T>>>`.
    pub customized_alias: Option<String>,
    /// `APIM_CALL_ENDPOINT_MODULE` — TS module path for the `callEndpoint` import (required).
    /// `None` means the env var was not set; access via [`MacroConfig::call_endpoint_module`].
    pub call_endpoint_module: Option<String>,
    /// `APIM_CALL_ENDPOINT_NAME` — name of the `callEndpoint` function (default: `"callEndpoint"`).
    pub call_endpoint_name: String,
    /// `APIM_RESULT_PATH` — TS module path to import `result_type` from (default: `"bindings/ApiResult"`).
    pub result_path: String,
    /// `APIM_EXPORT_DIR` — root output directory relative to `CARGO_MANIFEST_DIR` (default: `"generated"`).
    pub export_dir: String,
    /// `APIM_ENDPOINTS_PATH` — sub-path under `export_dir` for endpoint binding files (default: `"bindings/endpoints"`).
    pub endpoints_path: String,
    /// `APIM_API_PATH` — sub-path under `export_dir` for API wrapper files (default: `"api"`).
    pub api_path: String,
    /// `APIM_DEPTH_DEFAULT` — default value for the `depth` macro argument (default: `1`).
    pub depth_default: usize,
    /// `APIM_UNWRAPPED_RESPONSE` — when `true`, handlers return `Result<Json<T>>` (no wrapper)
    /// and the generated TypeScript returns `Promise<T>` directly (default: `false`).
    pub unwrapped_response: bool,
    /// `APIM_TYPED_RESULT_TYPE` — name of the discriminated response-wrapper type used when
    /// `field_errors` is set on an endpoint (default: `"TypedApiResult"`).
    pub typed_result_type: String,
    /// `APIM_TYPED_RESULT_PATH` — TS module path to import `typed_result_type` from
    /// (default: `"bindings/ApiResult"`).
    pub typed_result_path: String,
    /// `APIM_MODELS_PATH` — relative TS module path used as the parent
    /// directory when importing model types (default: `".."`).
    pub models_path: String,
}

/// The configuration as mathematical values.
pub struct ConfigView {
    pub result_type: Seq<char>,
    pub json_alias: Option<Seq<char>>,
    pub customized_alias: Option<Seq<char>>,
    pub call_endpoint_module: Option<Seq<char>>,
    pub call_endpoint_name: Seq<char>,
    pub result_path: Seq<char>,
    pub export_dir: Seq<char>,
    pub endpoints_path: Seq<char>,
    pub api_path: Seq<char>,
    pub depth_default: usize,
    pub unwrapped_response: bool,
    pub typed_result_type: Seq<char>,
    pub typed_result_path: Seq<char>,
    pub models_path: Seq<char>,
}

/// The characters of an optional string.
pub open spec fn opt_view(o: Option<String>) -> Option<Seq<char>> {
    match o {
        Some(s) => Some(s@),
        None => None,
    }
}

impl View for MacroConfig {
    type V = ConfigView;

    open spec fn view(&self) -> ConfigView {
        ConfigView {
            result_type: self.result_type@,
            json_alias: opt_view(self.json_alias),
            customized_alias: opt_view(self.customized_alias),
            call_endpoint_module: opt_view(self.call_endpoint_module),
            call_endpoint_name: self.call_endpoint_name@,
            result_path: self.result_path@,
            export_dir: self.export_dir@,
            endpoints_path: self.endpoints_path@,
            api_path: self.api_path@,
            depth_default: self.depth_default,
            unwrapped_response: self.unwrapped_response,
            typed_result_type: self.typed_result_type@,
            typed_result_path: self.typed_result_path@,
            models_path: self.models_path@,
        }
    }
}

/// Why the configuration cannot be used.
#[derive(PartialEq, Eq, Structural, Debug, Clone, Copy)]
pub enum ConfigError {
    /// `APIM_CALL_ENDPOINT_MODULE` is not set.
    MissingCallEndpointModule,
}

// ---------------------------------------------------------------------------
// Specification
// ---------------------------------------------------------------------------

/// The names of all environment variables that the configuration reads.
pub open spec fn spec_apim_env_vars() -> Seq<Seq<char>> {
    seq![
        "APIM_RESULT_TYPE"@,
        "APIM_JSON_API_RESULT_ALIAS"@,
        "APIM_CUSTOMIZERESPONDER_JSON_API_RESULT_ALIAS"@,
        "APIM_CALL_ENDPOINT_MODULE"@,
        "APIM_CALL_ENDPOINT_NAME"@,
        "APIM_RESULT_PATH"@,
        "APIM_EXPORT_DIR"@,
        "APIM_ENDPOINTS_PATH"@,
        "APIM_API_PATH"@,
        "APIM_DEPTH_DEFAULT"@,
        "APIM_UNWRAPPED_RESPONSE"@,
        "APIM_TYPED_RESULT_TYPE"@,
        "APIM_TYPED_RESULT_PATH"@,
        "APIM_MODELS_PATH"@,
    ]
}

/// The value of the first entry named `name` in the snapshot.
pub open spec fn env_lookup(env: Seq<(String, String)>, name: Seq<char>) -> Option<Seq<char>>
    decreases env.len(),
{
    if env.len() == 0 {
        None
    } else if env[0].0@ == name {
        Some(env[0].1@)
    } else {
        env_lookup(env.drop_first(), name)
    }
}

/// The value if set, else the default.
pub open spec fn or_default(v: Option<Seq<char>>, default: Seq<char>) -> Seq<char> {
    match v {
        Some(s) => s,
        None => default,
    }
}

/// The value if set and not empty.
pub open spec fn non_empty(v: Option<Seq<char>>) -> Option<Seq<char>> {
    match v {
        Some(s) => if s.len() > 0 {
            Some(s)
        } else {
            None
        },
        None => None,
    }
}

/// The default depth: the value parsed as a `usize`, else 1.
pub open spec fn spec_depth_default(v: Option<Seq<char>>) -> usize {
    match v {
        Some(s) => match parse_usize_spec(s) {
            Some(n) => n,
            None => 1,
        },
        None => 1,
    }
}

/// Whether the value switches unwrapped mode on: `1`, `true` or `yes` in any case.
pub open spec fn spec_flag_on(v: Option<Seq<char>>) -> bool {
    match v {
        Some(s) => lowercase(s) == "1"@ || lowercase(s) == "true"@ || lowercase(s) == "yes"@,
        None => false,
    }
}

/// The configuration that an environment snapshot gives.
pub open spec fn config_from_env(env: Seq<(String, String)>) -> ConfigView {
    ConfigView {
        result_type: or_default(env_lookup(env, "APIM_RESULT_TYPE"@), "ApiResult"@),
        json_alias: non_empty(env_lookup(env, "APIM_JSON_API_RESULT_ALIAS"@)),
        customized_alias: non_empty(
            env_lookup(env, "APIM_CUSTOMIZERESPONDER_JSON_API_RESULT_ALIAS"@),
        ),
        call_endpoint_module: env_lookup(env, "APIM_CALL_ENDPOINT_MODULE"@),
        call_endpoint_name: or_default(
            env_lookup(env, "APIM_CALL_ENDPOINT_NAME"@),
            "callEndpoint"@,
        ),
        result_path: or_default(env_lookup(env, "APIM_RESULT_PATH"@), "bindings/ApiResult"@),
        export_dir: or_default(env_lookup(env, "APIM_EXPORT_DIR"@), "generated"@),
        endpoints_path: or_default(
            env_lookup(env, "APIM_ENDPOINTS_PATH"@),
            "bindings/endpoints"@,
        ),
        api_path: or_default(env_lookup(env, "APIM_API_PATH"@), "api"@),
        depth_default: spec_depth_default(env_lookup(env, "APIM_DEPTH_DEFAULT"@)),
        unwrapped_response: spec_flag_on(env_lookup(env, "APIM_UNWRAPPED_RESPONSE"@)),
        typed_result_type: or_default(
            env_lookup(env, "APIM_TYPED_RESULT_TYPE"@),
            "TypedApiResult"@,
        ),
        typed_result_path: or_default(
            env_lookup(env, "APIM_TYPED_RESULT_PATH"@),
            "bindings/ApiResult"@,
        ),
        models_path: or_default(env_lookup(env, "APIM_MODELS_PATH"@), ".."@),
    }
}

/// The configuration used by unit tests: every default, with the given
/// `callEndpoint` module.
pub open spec fn test_config(call_endpoint_module: Seq<char>) -> ConfigView {
    ConfigView {
        result_type: "ApiResult"@,
        json_alias: None,
        customized_alias: None,
        call_endpoint_module: Some(call_endpoint_module),
        call_endpoint_name: "callEndpoint"@,
        result_path: "bindings/ApiResult"@,
        export_dir: "generated"@,
        endpoints_path: "bindings/endpoints"@,
        api_path: "api"@,
        depth_default: 1,
        unwrapped_response: false,
        typed_result_type: "TypedApiResult"@,
        typed_result_path: "bindings/ApiResult"@,
        models_path: ".."@,
    }
}

/// The text of the diagnostic for a missing `APIM_CALL_ENDPOINT_MODULE`.
pub open spec fn spec_missing_module_message() -> Seq<char> {
    "api_endpoint requires the `APIM_CALL_ENDPOINT_MODULE` environment variable to be set.\nAdd it to your project's `.cargo/config.toml`:\n\n[env]\nAPIM_CALL_ENDPOINT_MODULE = \"path/to/your/http/module\"\n\nThe module must export a `callEndpoint`-compatible function. See the api-macros README for the required signature."@
}

// ---------------------------------------------------------------------------
// Laws
// ---------------------------------------------------------------------------

/// The configuration reads only the listed variables: two snapshots that agree
/// on every listed variable give the same configuration.
pub proof fn law_config_reads_only_listed_vars(env1: Seq<(String, String)>, env2: Seq<(String, String)>)
    requires
        forall|k: int|
            0 <= k < spec_apim_env_vars().len() ==> env_lookup(env1, #[trigger] spec_apim_env_vars()[k])
                == env_lookup(env2, spec_apim_env_vars()[k]),
    ensures
        config_from_env(env1) == config_from_env(env2),
{
    let names = spec_apim_env_vars();
    assert(env_lookup(env1, names[0]) == env_lookup(env2, names[0]));
    assert(env_lookup(env1, names[1]) == env_lookup(env2, names[1]));
    assert(env_lookup(env1, names[2]) == env_lookup(env2, names[2]));
    assert(env_lookup(env1, names[3]) == env_lookup(env2, names[3]));
    assert(env_lookup(env1, names[4]) == env_lookup(env2, names[4]));
    assert(env_lookup(env1, names[5]) == env_lookup(env2, names[5]));
    assert(env_lookup(env1, names[6]) == env_lookup(env2, names[6]));
    assert(env_lookup(env1, names[7]) == env_lookup(env2, names[7]));
    assert(env_lookup(env1, names[8]) == env_lookup(env2, names[8]));
    assert(env_lookup(env1, names[9]) == env_lookup(env2, names[9]));
    assert(env_lookup(env1, names[10]) == env_lookup(env2, names[10]));
    assert(env_lookup(env1, names[11]) == env_lookup(env2, names[11]));
    assert(env_lookup(env1, names[12]) == env_lookup(env2, names[12]));
    assert(env_lookup(env1, names[13]) == env_lookup(env2, names[13]));
}

/// Each setting depends on its own variable only: two snapshots that agree on
/// one variable give the same value for the setting it names, whatever the
/// other variables hold.
pub proof fn law_config_settings_are_independent(
    env1: Seq<(String, String)>,
    env2: Seq<(String, String)>,
)
    ensures
        env_lookup(env1, "APIM_RESULT_TYPE"@) == env_lookup(env2, "APIM_RESULT_TYPE"@)
            ==> config_from_env(env1).result_type == config_from_env(env2).result_type,
        env_lookup(env1, "APIM_JSON_API_RESULT_ALIAS"@) == env_lookup(
            env2,
            "APIM_JSON_API_RESULT_ALIAS"@,
        ) ==> config_from_env(env1).json_alias == config_from_env(env2).json_alias,
        env_lookup(env1, "APIM_CUSTOMIZERESPONDER_JSON_API_RESULT_ALIAS"@) == env_lookup(
            env2,
            "APIM_CUSTOMIZERESPONDER_JSON_API_RESULT_ALIAS"@,
        ) ==> config_from_env(env1).customized_alias == config_from_env(env2).customized_alias,
        env_lookup(env1, "APIM_CALL_ENDPOINT_MODULE"@) == env_lookup(
            env2,
            "APIM_CALL_ENDPOINT_MODULE"@,
        ) ==> config_from_env(env1).call_endpoint_module == config_from_env(
            env2,
        ).call_endpoint_module,
        env_lookup(env1, "APIM_CALL_ENDPOINT_NAME"@) == env_lookup(
            env2,
            "APIM_CALL_ENDPOINT_NAME"@,
        ) ==> config_from_env(env1).call_endpoint_name == config_from_env(env2).call_endpoint_name,
        env_lookup(env1, "APIM_RESULT_PATH"@) == env_lookup(env2, "APIM_RESULT_PATH"@)
            ==> config_from_env(env1).result_path == config_from_env(env2).result_path,
        env_lookup(env1, "APIM_EXPORT_DIR"@) == env_lookup(env2, "APIM_EXPORT_DIR"@)
            ==> config_from_env(env1).export_dir == config_from_env(env2).export_dir,
        env_lookup(env1, "APIM_ENDPOINTS_PATH"@) == env_lookup(env2, "APIM_ENDPOINTS_PATH"@)
            ==> config_from_env(env1).endpoints_path == config_from_env(env2).endpoints_path,
        env_lookup(env1, "APIM_API_PATH"@) == env_lookup(env2, "APIM_API_PATH"@)
            ==> config_from_env(env1).api_path == config_from_env(env2).api_path,
        env_lookup(env1, "APIM_DEPTH_DEFAULT"@) == env_lookup(env2, "APIM_DEPTH_DEFAULT"@)
            ==> config_from_env(env1).depth_default == config_from_env(env2).depth_default,
        env_lookup(env1, "APIM_UNWRAPPED_RESPONSE"@) == env_lookup(
            env2,
            "APIM_UNWRAPPED_RESPONSE"@,
        ) ==> config_from_env(env1).unwrapped_response == config_from_env(env2).unwrapped_response,
        env_lookup(env1, "APIM_TYPED_RESULT_TYPE"@) == env_lookup(env2, "APIM_TYPED_RESULT_TYPE"@)
            ==> config_from_env(env1).typed_result_type == config_from_env(env2).typed_result_type,
        env_lookup(env1, "APIM_TYPED_RESULT_PATH"@) == env_lookup(env2, "APIM_TYPED_RESULT_PATH"@)
            ==> config_from_env(env1).typed_result_path == config_from_env(env2).typed_result_path,
        env_lookup(env1, "APIM_MODELS_PATH"@) == env_lookup(env2, "APIM_MODELS_PATH"@)
            ==> config_from_env(env1).models_path == config_from_env(env2).models_path,
{
}

/// Every listed variable is read: set alone to `2` (the unwrapped-response
/// flag to a value that switches it on), it changes the configuration from
/// the one of an empty environment.
pub proof fn law_config_reads_every_listed_var(k: int, env: Seq<(String, String)>)
    requires
        0 <= k < spec_apim_env_vars().len(),
        env.len() == 1,
        env[0].0@ == spec_apim_env_vars()[k],
        spec_apim_env_vars()[k] == "APIM_UNWRAPPED_RESPONSE"@ ==> spec_flag_on(Some(env[0].1@)),
        spec_apim_env_vars()[k] != "APIM_UNWRAPPED_RESPONSE"@ ==> env[0].1@ == "2"@,
    ensures
        config_from_env(env) != config_from_env(Seq::empty()),
{
    let name = spec_apim_env_vars()[k];
    let v = env[0].1@;
    assert(env_lookup(env, name) == Some(v));
    reveal_strlit("2");
    reveal_strlit("APIM_UNWRAPPED_RESPONSE");
    reveal_strlit("APIM_DEPTH_DEFAULT");
    reveal_strlit("ApiResult");
    reveal_strlit("callEndpoint");
    reveal_strlit("bindings/ApiResult");
    reveal_strlit("generated");
    reveal_strlit("bindings/endpoints");
    reveal_strlit("api");
    reveal_strlit("TypedApiResult");
    reveal_strlit("..");
    let d = config_from_env(Seq::empty());
    let c = config_from_env(env);
    if k == 9 {
        assert(name == "APIM_DEPTH_DEFAULT"@);
        assert("APIM_DEPTH_DEFAULT"@.len() == 18);
        assert("APIM_UNWRAPPED_RESPONSE"@.len() == 23);
        assert(name != "APIM_UNWRAPPED_RESPONSE"@);
        assert(v == seq!['2']);
        assert(unsigned_digits(v) =~= seq!['2']);
        assert(seq!['2'].drop_last() =~= Seq::<char>::empty());
        assert(seq!['2'].last() == '2');
        assert('2' as nat - '0' as nat == 2);
        assert(digits_value(Seq::<char>::empty()) == 0);
        assert(digits_value(seq!['2']) == 2);
        assert(c.depth_default != d.depth_default);
    } else if k == 10 {
        assert(c.unwrapped_response != d.unwrapped_response);
    } else {
        reveal_strlit("APIM_RESULT_TYPE");
        reveal_strlit("APIM_JSON_API_RESULT_ALIAS");
        reveal_strlit("APIM_CUSTOMIZERESPONDER_JSON_API_RESULT_ALIAS");
        reveal_strlit("APIM_CALL_ENDPOINT_MODULE");
        reveal_strlit("APIM_CALL_ENDPOINT_NAME");
        reveal_strlit("APIM_RESULT_PATH");
        reveal_strlit("APIM_EXPORT_DIR");
        reveal_strlit("APIM_ENDPOINTS_PATH");
        reveal_strlit("APIM_API_PATH");
        reveal_strlit("APIM_TYPED_RESULT_TYPE");
        reveal_strlit("APIM_TYPED_RESULT_PATH");
        reveal_strlit("APIM_MODELS_PATH");
        assert(name.len() != "APIM_UNWRAPPED_RESPONSE"@.len() || name[5] != 'U');
        assert(v.len() == 1);
        if k == 0 {
            assert(c.result_type != d.result_type);
        } else if k == 1 {
            assert(c.json_alias != d.json_alias);
        } else if k == 2 {
            assert(c.customized_alias != d.customized_alias);
        } else if k == 3 {
            assert(c.call_endpoint_module != d.call_endpoint_module);
        } else if k == 4 {
            assert(c.call_endpoint_name != d.call_endpoint_name);
        } else if k == 5 {
            assert(c.result_path != d.result_path);
        } else if k == 6 {
            assert(c.export_dir != d.export_dir);
        } else if k == 7 {
            assert(c.endpoints_path != d.endpoints_path);
        } else if k == 8 {
            assert(c.api_path != d.api_path);
        } else if k == 11 {
            assert(c.typed_result_type != d.typed_result_type);
        } else if k == 12 {
            assert(c.typed_result_path != d.typed_result_path);
        } else {
            assert(c.models_path != d.models_path);
        }
    }
}

/// With no variable set, every setting takes its documented default.
pub proof fn law_empty_env_gives_defaults()
    ensures
        config_from_env(Seq::empty()) == (ConfigView {
            call_endpoint_module: None,
            ..test_config(Seq::empty())
        }),
{
}

// ---------------------------------------------------------------------------
// Implementation
// ---------------------------------------------------------------------------

/// The names of all environment variables that the configuration reads.
pub fn apim_env_var_list() -> (names: Vec<String>)
    ensures
        names@.map_values(|s: String| s@) == spec_apim_env_vars(),
{
    let mut names: Vec<String> = Vec::new();
    names.push(string_from("APIM_RESULT_TYPE"));
    names.push(string_from("APIM_JSON_API_RESULT_ALIAS"));
    names.push(string_from("APIM_CUSTOMIZERESPONDER_JSON_API_RESULT_ALIAS"));
    names.push(string_from("APIM_CALL_ENDPOINT_MODULE"));
    names.push(string_from("APIM_CALL_ENDPOINT_NAME"));
    names.push(string_from("APIM_RESULT_PATH"));
    names.push(string_from("APIM_EXPORT_DIR"));
    names.push(string_from("APIM_ENDPOINTS_PATH"));
    names.push(string_from("APIM_API_PATH"));
    names.push(string_from("APIM_DEPTH_DEFAULT"));
    names.push(string_from("APIM_UNWRAPPED_RESPONSE"));
    names.push(string_from("APIM_TYPED_RESULT_TYPE"));
    names.push(string_from("APIM_TYPED_RESULT_PATH"));
    names.push(string_from("APIM_MODELS_PATH"));
    assert(names@.map_values(|s: String| s@) =~= spec_apim_env_vars());
    names
}

/// The value of the first entry named `name` in the snapshot.
pub fn env_get<'a>(env: &'a Vec<(String, String)>, name: &str) -> (r: Option<&'a String>)
    ensures
        opt_view(
            match r {
                Some(s) => Some(*s),
                None => None,
            },
        ) == env_lookup(env@, name@),
{
    let mut i: usize = 0;
    assert(env@.skip(0) =~= env@);
    while i < env.len()
        invariant
            i <= env.len(),
            env_lookup(env@, name@) == env_lookup(env@.skip(i as int), name@),
        decreases env.len() - i,
    {
        assert(env@.skip(i as int).drop_first() =~= env@.skip(i + 1));
        if string_is(&env[i].0, name) {
            return Some(&env[i].1);
        }
        i += 1;
    }
    None
}

/// The value if set, else `default`.
fn value_or(v: Option<&String>, default: &str) -> (r: String)
    ensures
        r@ == or_default(
            opt_view(
                match v {
                    Some(s) => Some(*s),
                    None => None,
                },
            ),
            default@,
        ),
{
    match v {
        Some(s) => s.clone(),
        None => string_from(default),
    }
}

/// The value if set and not empty.
fn value_if_non_empty(v: Option<&String>) -> (r: Option<String>)
    ensures
        opt_view(r) == non_empty(
            opt_view(
                match v {
                    Some(s) => Some(*s),
                    None => None,
                },
            ),
        ),
{
    match v {
        Some(s) => if s.as_str().is_empty() {
            None
        } else {
            Some(s.clone())
        },
        None => None,
    }
}

impl MacroConfig {
    /// Read all `APIM_*` environment variables from the snapshot and return a
    /// populated [`MacroConfig`].
    ///
    /// Always succeeds; missing required variables are reported on first access via
    /// [`MacroConfig::call_endpoint_module`].
    pub fn from_env(env: &Vec<(String, String)>) -> (cfg: MacroConfig)
        ensures
            cfg@ == config_from_env(env@),
            env_lookup(env@, "APIM_UNWRAPPED_RESPONSE"@) matches Some(v) ==> (
            vstd::utf8::is_ascii_chars(v) ==> lowercase(v) == ascii_lowercase(v)),
    {
        let result_type = value_or(env_get(env, "APIM_RESULT_TYPE"), "ApiResult");
        let json_alias = value_if_non_empty(env_get(env, "APIM_JSON_API_RESULT_ALIAS"));
        let customized_alias = value_if_non_empty(
            env_get(env, "APIM_CUSTOMIZERESPONDER_JSON_API_RESULT_ALIAS"),
        );
        let call_endpoint_module = match env_get(env, "APIM_CALL_ENDPOINT_MODULE") {
            Some(s) => Some(s.clone()),
            None => None,
        };
        let call_endpoint_name = value_or(env_get(env, "APIM_CALL_ENDPOINT_NAME"), "callEndpoint");
        let result_path = value_or(env_get(env, "APIM_RESULT_PATH"), "bindings/ApiResult");
        let export_dir = value_or(env_get(env, "APIM_EXPORT_DIR"), "generated");
        let endpoints_path = value_or(env_get(env, "APIM_ENDPOINTS_PATH"), "bindings/endpoints");
        let api_path = value_or(env_get(env, "APIM_API_PATH"), "api");
        let depth_default = match env_get(env, "APIM_DEPTH_DEFAULT") {
            Some(v) => match parse_usize(v.as_str()) {
                Some(n) => n,
                None => 1,
            },
            None => 1,
        };
        let unwrapped_response = match env_get(env, "APIM_UNWRAPPED_RESPONSE") {
            Some(v) => {
                let lower = to_lowercase(v.as_str());
                string_is(&lower, "1") || string_is(&lower, "true") || string_is(&lower, "yes")
            },
            None => false,
        };
        let typed_result_type = value_or(env_get(env, "APIM_TYPED_RESULT_TYPE"), "TypedApiResult");
        let typed_result_path = value_or(
            env_get(env, "APIM_TYPED_RESULT_PATH"),
            "bindings/ApiResult",
        );
        let models_path = value_or(env_get(env, "APIM_MODELS_PATH"), "..");

        MacroConfig {
            result_type,
            json_alias,
            customized_alias,
            call_endpoint_module,
            call_endpoint_name,
            result_path,
            export_dir,
            endpoints_path,
            api_path,
            depth_default,
            unwrapped_response,
            typed_result_type,
            typed_result_path,
            models_path,
        }
    }

    /// Return the `APIM_CALL_ENDPOINT_MODULE` value, or an error if it was not set.
    pub fn call_endpoint_module(&self) -> (r: Result<&str, ConfigError>)
        ensures
            match (r, self@.call_endpoint_module) {
                (Ok(s), Some(m)) => s@ == m,
                (Err(e), None) => e == ConfigError::MissingCallEndpointModule,
                _ => false,
            },
    {
        match &self.call_endpoint_module {
            Some(s) => Ok(s.as_str()),
            None => Err(ConfigError::MissingCallEndpointModule),
        }
    }

    /// The configuration used by unit tests: every default, with the given
    /// `callEndpoint` module.
    pub fn for_tests(call_endpoint_module: String) -> (cfg: MacroConfig)
        ensures
            cfg@ == test_config(call_endpoint_module@),
    {
        MacroConfig {
            result_type: string_from("ApiResult"),
            json_alias: None,
            customized_alias: None,
            call_endpoint_module: Some(call_endpoint_module),
            call_endpoint_name: string_from("callEndpoint"),
            result_path: string_from("bindings/ApiResult"),
            export_dir: string_from("generated"),
            endpoints_path: string_from("bindings/endpoints"),
            api_path: string_from("api"),
            depth_default: 1,
            unwrapped_response: false,
            typed_result_type: string_from("TypedApiResult"),
            typed_result_path: string_from("bindings/ApiResult"),
            models_path: string_from(".."),
        }
    }
}

impl ConfigError {
    /// The text of the diagnostic for this error.
    pub fn message(&self) -> (m: String)
        ensures
            m@ == spec_missing_module_message(),
    {
        let mut m = String::new();
        push_str(
            &mut m,
            "api_endpoint requires the `APIM_CALL_ENDPOINT_MODULE` environment variable to be set.\nAdd it to your project's `.cargo/config.toml`:\n\n[env]\nAPIM_CALL_ENDPOINT_MODULE = \"path/to/your/http/module\"\n\nThe module must export a `callEndpoint`-compatible function. See the api-macros README for the required signature.",
        );
        m
    }
}

} // verus!
