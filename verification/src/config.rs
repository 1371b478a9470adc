//! Settings of the integration, with their defaults, how `APCORE_*`
//! environment variables override them, and their validation.
use std::collections::HashMap;
use vstd::prelude::*;

use crate::text::{
    append_str, chars_eq_ignore_ascii_case, chars_of, chars_of_string, eq_ignore_ascii_case,
    parse_u64_at_most, parse_unsigned, split_chars, split_on, str_eq, string_from_chars, string_of,
    string_views, trim, trim_chars, views_of,
};

verus! {

/// Words that `parse_bool` reads as true, compared without regard to ASCII
/// case. This is the same as comparing lower-cased text: apart from ASCII
/// letters, only the Kelvin sign lower-cases to a single ASCII letter, and
/// no word here has a `k`.
pub open spec fn is_true_word(s: Seq<char>) -> bool {
    ||| eq_ignore_ascii_case(s, "1"@)
    ||| eq_ignore_ascii_case(s, "true"@)
    ||| eq_ignore_ascii_case(s, "yes"@)
    ||| eq_ignore_ascii_case(s, "on"@)
}

/// Reads a boolean setting: "1", "true", "yes" and "on" in any case are
/// true, everything else is false.
pub fn parse_bool(s: &str) -> (b: bool)
    ensures
        b == is_true_word(s@),
{
    let v = chars_of(s);
    chars_eq_ignore_ascii_case(&v, "1") || chars_eq_ignore_ascii_case(&v, "true")
        || chars_eq_ignore_ascii_case(&v, "yes") || chars_eq_ignore_ascii_case(&v, "on")
}


/// Settings of the integration; the `APCORE_*` environment variables
/// override the defaults field by field.
#[derive(Debug)]
pub struct ApcoreSettings {
    /// Directory for YAML module binding files.
    pub module_dir: String,
    /// Whether to auto-discover modules on startup.
    pub auto_discover: bool,
    /// Glob pattern for binding files (e.g., "*.binding.yaml").
    pub binding_pattern: String,
    /// Module paths to scan, from a comma-separated list.
    pub module_packages: Vec<String>,
    /// MCP transport: "stdio", "streamable-http", or "sse".
    pub serve_transport: String,
    /// Host to bind the MCP server to.
    pub serve_host: String,
    /// Port for the MCP server.
    pub serve_port: u16,
    /// Server name advertised in MCP.
    pub server_name: String,
    /// URL prefix for the MCP explorer UI.
    pub explorer_prefix: String,
    /// Whether to enable the MCP explorer UI.
    pub explorer_enabled: bool,
    /// JWT secret for authenticating MCP requests.
    pub jwt_secret: Option<String>,
    /// JWT algorithm (e.g., "HS256").
    pub jwt_algorithm: String,
    /// Path to an ACL YAML file.
    pub acl_path: Option<String>,
    /// Enable tracing.
    pub tracing: bool,
    /// Enable metrics collection.
    pub metrics: bool,
    /// Enable structured logging middleware.
    pub observability_logging: bool,
    /// Whether to start an embedded MCP server automatically.
    pub embedded_server: bool,
    /// Maximum concurrent async tasks.
    pub task_max_concurrent: usize,
    /// Maximum total tasks in the queue.
    pub task_max_tasks: usize,
    /// Cleanup age for completed tasks (seconds).
    pub task_cleanup_age: u64,
    /// Default scanner source: "native" or "openapi".
    pub scanner_source: String,
    /// Whether to enable hot-reload for module bindings.
    pub hot_reload: bool,
    /// Custom output formatter dotted path.
    pub output_formatter: Option<String>,
    /// Arbitrary extra settings.
    pub extra: HashMap<String, serde_json::Value>,
}

/// The default value of each setting.
pub open spec fn default_settings_hold(s: ApcoreSettings) -> bool {
    &&& s.module_dir@ == "apcore_modules"@
    &&& s.auto_discover
    &&& s.binding_pattern@ == "*.binding.yaml"@
    &&& s.module_packages@.len() == 0
    &&& s.serve_transport@ == "streamable-http"@
    &&& s.serve_host@ == "127.0.0.1"@
    &&& s.serve_port == 9090
    &&& s.server_name@ == "axum-apcore"@
    &&& s.explorer_prefix@ == "/explorer"@
    &&& s.explorer_enabled
    &&& s.jwt_secret is None
    &&& s.jwt_algorithm@ == "HS256"@
    &&& s.acl_path is None
    &&& !s.tracing
    &&& !s.metrics
    &&& !s.observability_logging
    &&& !s.embedded_server
    &&& s.task_max_concurrent == 10
    &&& s.task_max_tasks == 100
    &&& s.task_cleanup_age == 3600
    &&& s.scanner_source@ == "native"@
    &&& !s.hot_reload
    &&& s.output_formatter is None
    &&& s.extra@.len() == 0
}

impl Default for ApcoreSettings {
    fn default() -> (s: Self)
        ensures
            default_settings_hold(s),
    {
        ApcoreSettings {
            module_dir: string_of("apcore_modules"),
            auto_discover: true,
            binding_pattern: string_of("*.binding.yaml"),
            module_packages: Vec::new(),
            serve_transport: string_of("streamable-http"),
            serve_host: string_of("127.0.0.1"),
            serve_port: 9090,
            server_name: string_of("axum-apcore"),
            explorer_prefix: string_of("/explorer"),
            explorer_enabled: true,
            jwt_secret: None,
            jwt_algorithm: string_of("HS256"),
            acl_path: None,
            tracing: false,
            metrics: false,
            observability_logging: false,
            embedded_server: false,
            task_max_concurrent: 10,
            task_max_tasks: 100,
            task_cleanup_age: 3600,
            scanner_source: string_of("native"),
            hot_reload: false,
            output_formatter: None,
            extra: HashMap::new(),
        }
    }
}


/// The value of the first variable named `name` in an environment listing.
pub open spec fn env_lookup(vars: Seq<(String, String)>, name: Seq<char>) -> Option<Seq<char>>
    decreases vars.len(),
{
    if vars.len() == 0 {
        None
    } else if vars[0].0@ == name {
        Some(vars[0].1@)
    } else {
        env_lookup(vars.drop_first(), name)
    }
}

proof fn lemma_env_lookup_skip(vars: Seq<(String, String)>, name: Seq<char>, i: int)
    requires
        0 <= i <= vars.len(),
        forall|j: int| 0 <= j < i ==> (#[trigger] vars[j]).0@ != name,
    ensures
        env_lookup(vars, name) == env_lookup(vars.skip(i), name),
    decreases i,
{
    if i > 0 {
        assert(vars.drop_first().skip(i - 1) =~= vars.skip(i));
        assert forall|j: int| 0 <= j < i - 1 implies (#[trigger] vars.drop_first()[j]).0@ != name by {
            assert(vars.drop_first()[j] == vars[j + 1]);
        }
        lemma_env_lookup_skip(vars.drop_first(), name, i - 1);
    } else {
        assert(vars.skip(0) =~= vars);
    }
}

/// Looks a variable up in an environment listing.
pub fn env_var(vars: &Vec<(String, String)>, name: &str) -> (r: Option<String>)
    ensures
        match r {
            Some(v) => env_lookup(vars@, name@) == Some(v@),
            None => env_lookup(vars@, name@) is None,
        },
{
    let mut i: usize = 0;
    while i < vars.len()
        invariant
            i <= vars.len(),
            forall|j: int| 0 <= j < i ==> (#[trigger] vars@[j]).0@ != name@,
        decreases vars.len() - i,
    {
        if str_eq(vars[i].0.as_str(), name) {
            proof {
                lemma_env_lookup_skip(vars@, name@, i as int);
            }
            return Some(vars[i].1.clone());
        }
        i = i + 1;
    }
    proof {
        lemma_env_lookup_skip(vars@, name@, vars.len() as int);
    }
    None
}

/// A text setting: the variable's value when it is set, else the default.
pub open spec fn text_or(v: Option<Seq<char>>, d: Seq<char>) -> Seq<char> {
    match v {
        Some(x) => x,
        None => d,
    }
}

/// A boolean setting: the variable read by `parse_bool` when it is set,
/// else the default.
pub open spec fn flag_or(v: Option<Seq<char>>, d: bool) -> bool {
    match v {
        Some(x) => is_true_word(x),
        None => d,
    }
}

/// A numeric setting: the variable's number when it is set and is a number
/// of at most `max`, else the default.
pub open spec fn number_or(v: Option<Seq<char>>, max: nat, d: nat) -> nat {
    match v {
        Some(x) => match parse_unsigned(x, max) {
            Some(n) => n,
            None => d,
        },
        None => d,
    }
}

/// A list setting: the comma-separated pieces of the variable, each trimmed,
/// when it is set, else the empty list.
pub open spec fn list_or_empty(v: Option<Seq<char>>) -> Seq<Seq<char>> {
    match v {
        Some(x) => split_on(x, ',').map_values(|p: Seq<char>| trim(p)),
        None => Seq::empty(),
    }
}

/// Splits at commas and trims each piece; empty pieces are kept.
pub fn split_trimmed(s: &str) -> (r: Vec<String>)
    ensures
        string_views(r@) == split_on(s@, ',').map_values(|p: Seq<char>| trim(p)),
{
    let v = chars_of(s);
    let parts = split_chars(&v, ',');
    let mut r: Vec<String> = Vec::new();
    let mut i: usize = 0;
    while i < parts.len()
        invariant
            i <= parts.len(),
            views_of(parts@) == split_on(s@, ','),
            v@ == s@,
            r@.len() == i,
            string_views(r@) == views_of(parts@).take(i as int).map_values(|p: Seq<char>| trim(p)),
        decreases parts.len() - i,
    {
        let t = trim_chars(&parts[i]);
        let st = string_from_chars(&t);
        let ghost before = string_views(r@);
        let ghost old_r = r@;
        r.push(st);
        assert(views_of(parts@)[i as int] == parts@[i as int]@);
        assert forall|j: int| 0 <= j < i + 1 implies #[trigger] string_views(r@)[j] == trim(
            views_of(parts@)[j],
        ) by {
            if j < i {
                assert(r@[j] == old_r[j]);
                assert(before[j] == old_r[j]@);
            }
        }
        assert(string_views(r@) =~= views_of(parts@).take(i + 1).map_values(|p: Seq<char>| trim(p)));
        i = i + 1;
    }
    assert(views_of(parts@).take(parts.len() as int) =~= views_of(parts@));
    r
}

/// Environment variable names, each with the setting it overrides.
pub open spec fn from_env_holds(vars: Seq<(String, String)>, s: ApcoreSettings) -> bool {
    &&& s.module_dir@ == text_or(env_lookup(vars, "APCORE_MODULE_DIR"@), "apcore_modules"@)
    &&& s.auto_discover == flag_or(env_lookup(vars, "APCORE_AUTO_DISCOVER"@), true)
    &&& s.binding_pattern@ == text_or(
        env_lookup(vars, "APCORE_BINDING_PATTERN"@),
        "*.binding.yaml"@,
    )
    &&& string_views(s.module_packages@) == list_or_empty(
        env_lookup(vars, "APCORE_MODULE_PACKAGES"@),
    )
    &&& s.serve_transport@ == text_or(
        env_lookup(vars, "APCORE_SERVE_TRANSPORT"@),
        "streamable-http"@,
    )
    &&& s.serve_host@ == text_or(env_lookup(vars, "APCORE_SERVE_HOST"@), "127.0.0.1"@)
    &&& s.serve_port == number_or(env_lookup(vars, "APCORE_SERVE_PORT"@), 65535, 9090)
    &&& s.server_name@ == text_or(env_lookup(vars, "APCORE_SERVER_NAME"@), "axum-apcore"@)
    &&& s.explorer_prefix@ == text_or(env_lookup(vars, "APCORE_EXPLORER_PREFIX"@), "/explorer"@)
    &&& s.explorer_enabled == flag_or(env_lookup(vars, "APCORE_EXPLORER_ENABLED"@), true)
    &&& match s.jwt_secret {
        Some(v) => env_lookup(vars, "APCORE_JWT_SECRET"@) == Some(v@),
        None => env_lookup(vars, "APCORE_JWT_SECRET"@) is None,
    }
    &&& s.jwt_algorithm@ == text_or(env_lookup(vars, "APCORE_JWT_ALGORITHM"@), "HS256"@)
    &&& match s.acl_path {
        Some(v) => env_lookup(vars, "APCORE_ACL_PATH"@) == Some(v@),
        None => env_lookup(vars, "APCORE_ACL_PATH"@) is None,
    }
    &&& s.tracing == flag_or(env_lookup(vars, "APCORE_TRACING"@), false)
    &&& s.metrics == flag_or(env_lookup(vars, "APCORE_METRICS"@), false)
    &&& s.observability_logging == flag_or(
        env_lookup(vars, "APCORE_OBSERVABILITY_LOGGING"@),
        false,
    )
    &&& s.embedded_server == flag_or(env_lookup(vars, "APCORE_EMBEDDED_SERVER"@), false)
    &&& s.task_max_concurrent == number_or(
        env_lookup(vars, "APCORE_TASK_MAX_CONCURRENT"@),
        usize::MAX as nat,
        10,
    )
    &&& s.task_max_tasks == number_or(
        env_lookup(vars, "APCORE_TASK_MAX_TASKS"@),
        usize::MAX as nat,
        100,
    )
    &&& s.task_cleanup_age == number_or(
        env_lookup(vars, "APCORE_TASK_CLEANUP_AGE"@),
        u64::MAX as nat,
        3600,
    )
    &&& s.scanner_source@ == text_or(env_lookup(vars, "APCORE_SCANNER_SOURCE"@), "native"@)
    &&& s.hot_reload == flag_or(env_lookup(vars, "APCORE_HOT_RELOAD"@), false)
    &&& match s.output_formatter {
        Some(v) => env_lookup(vars, "APCORE_OUTPUT_FORMATTER"@) == Some(v@),
        None => env_lookup(vars, "APCORE_OUTPUT_FORMATTER"@) is None,
    }
    &&& s.extra@.len() == 0
}

fn flag_from(vars: &Vec<(String, String)>, name: &str, d: bool) -> (b: bool)
    ensures
        b == flag_or(env_lookup(vars@, name@), d),
{
    match env_var(vars, name) {
        Some(v) => parse_bool(v.as_str()),
        None => d,
    }
}

fn text_from(vars: &Vec<(String, String)>, name: &str, d: String) -> (r: String)
    ensures
        r@ == text_or(env_lookup(vars@, name@), d@),
{
    match env_var(vars, name) {
        Some(v) => v,
        None => d,
    }
}

fn number_from(vars: &Vec<(String, String)>, name: &str, max: u64, d: u64) -> (r: u64)
    requires
        d <= max,
    ensures
        r as nat == number_or(env_lookup(vars@, name@), max as nat, d as nat),
        r <= max,
{
    match env_var(vars, name) {
        Some(v) => match parse_u64_at_most(v.as_str(), max) {
            Some(n) => n,
            None => d,
        },
        None => d,
    }
}

impl ApcoreSettings {
    /// Settings from an environment listing (name, value): each `APCORE_*`
    /// variable that is set overrides its default; the first entry of a name
    /// counts. Numbers that do not parse, or do not fit, leave the default.
    pub fn from_env(vars: &Vec<(String, String)>) -> (s: Self)
        ensures
            from_env_holds(vars@, s),
    {
        let module_packages = match env_var(vars, "APCORE_MODULE_PACKAGES") {
            Some(v) => split_trimmed(v.as_str()),
            None => Vec::new(),
        };
        assert(string_views(module_packages@) == list_or_empty(
            env_lookup(vars@, "APCORE_MODULE_PACKAGES"@),
        ));
        let port = number_from(vars, "APCORE_SERVE_PORT", 65535, 9090);
        let max_concurrent = number_from(vars, "APCORE_TASK_MAX_CONCURRENT", usize::MAX as u64, 10);
        let max_tasks = number_from(vars, "APCORE_TASK_MAX_TASKS", usize::MAX as u64, 100);
        ApcoreSettings {
            module_dir: text_from(vars, "APCORE_MODULE_DIR", string_of("apcore_modules")),
            auto_discover: flag_from(vars, "APCORE_AUTO_DISCOVER", true),
            binding_pattern: text_from(vars, "APCORE_BINDING_PATTERN", string_of("*.binding.yaml")),
            module_packages,
            serve_transport: text_from(vars, "APCORE_SERVE_TRANSPORT", string_of("streamable-http")),
            serve_host: text_from(vars, "APCORE_SERVE_HOST", string_of("127.0.0.1")),
            serve_port: port as u16,
            server_name: text_from(vars, "APCORE_SERVER_NAME", string_of("axum-apcore")),
            explorer_prefix: text_from(vars, "APCORE_EXPLORER_PREFIX", string_of("/explorer")),
            explorer_enabled: flag_from(vars, "APCORE_EXPLORER_ENABLED", true),
            jwt_secret: env_var(vars, "APCORE_JWT_SECRET"),
            jwt_algorithm: text_from(vars, "APCORE_JWT_ALGORITHM", string_of("HS256")),
            acl_path: env_var(vars, "APCORE_ACL_PATH"),
            tracing: flag_from(vars, "APCORE_TRACING", false),
            metrics: flag_from(vars, "APCORE_METRICS", false),
            observability_logging: flag_from(vars, "APCORE_OBSERVABILITY_LOGGING", false),
            embedded_server: flag_from(vars, "APCORE_EMBEDDED_SERVER", false),
            task_max_concurrent: max_concurrent as usize,
            task_max_tasks: max_tasks as usize,
            task_cleanup_age: number_from(vars, "APCORE_TASK_CLEANUP_AGE", u64::MAX, 3600),
            scanner_source: text_from(vars, "APCORE_SCANNER_SOURCE", string_of("native")),
            hot_reload: flag_from(vars, "APCORE_HOT_RELOAD", false),
            output_formatter: env_var(vars, "APCORE_OUTPUT_FORMATTER"),
            extra: HashMap::new(),
        }
    }
}


/// The MCP transports that settings may name.
pub open spec fn valid_transport(t: Seq<char>) -> bool {
    t == "stdio"@ || t == "streamable-http"@ || t == "sse"@
}

/// The scanner sources that settings may name.
pub open spec fn valid_scanner_source(s: Seq<char>) -> bool {
    s == "native"@ || s == "openapi"@
}

/// The message for an unknown transport.
pub open spec fn transport_error(t: Seq<char>) -> Seq<char> {
    "Invalid APCORE_SERVE_TRANSPORT: '"@ + t + "'. Must be one of: stdio, streamable-http, sse"@
}

/// The message for an unknown scanner source.
pub open spec fn scanner_source_error(s: Seq<char>) -> Seq<char> {
    "Invalid APCORE_SCANNER_SOURCE: '"@ + s + "'. Must be one of: native, openapi"@
}

/// The message for port zero.
pub open spec fn port_error() -> Seq<char> {
    "APCORE_SERVE_PORT must be > 0"@
}

/// The problems of a set of settings, in the order they are reported.
pub open spec fn settings_problems(s: ApcoreSettings) -> Seq<Seq<char>> {
    (if valid_transport(s.serve_transport@) {
        Seq::empty()
    } else {
        seq![transport_error(s.serve_transport@)]
    }) + (if valid_scanner_source(s.scanner_source@) {
        Seq::empty()
    } else {
        seq![scanner_source_error(s.scanner_source@)]
    }) + (if s.serve_port == 0 {
        seq![port_error()]
    } else {
        Seq::empty()
    })
}

fn quoted_message(prefix: &str, value: &String, suffix: &str) -> (m: String)
    ensures
        m@ == prefix@ + value@ + suffix@,
{
    let mut m = string_of(prefix);
    append_str(&mut m, value.as_str());
    append_str(&mut m, suffix);
    m
}

impl ApcoreSettings {
    /// Checks the transport, the scanner source and the port; `Ok` when none
    /// is wrong, else every problem's message.
    pub fn validate(&self) -> (r: Result<(), Vec<String>>)
        ensures
            match r {
                Ok(()) => settings_problems(*self).len() == 0,
                Err(errors) => string_views(errors@) == settings_problems(*self)
                    && errors@.len() > 0,
            },
    {
        let mut errors: Vec<String> = Vec::new();
        let t = self.serve_transport.as_str();
        let transport_ok = str_eq(t, "stdio") || str_eq(t, "streamable-http") || str_eq(t, "sse");
        if !transport_ok {
            errors.push(
                quoted_message(
                    "Invalid APCORE_SERVE_TRANSPORT: '",
                    &self.serve_transport,
                    "'. Must be one of: stdio, streamable-http, sse",
                ),
            );
        }
        let src = self.scanner_source.as_str();
        let source_ok = str_eq(src, "native") || str_eq(src, "openapi");
        if !source_ok {
            errors.push(
                quoted_message(
                    "Invalid APCORE_SCANNER_SOURCE: '",
                    &self.scanner_source,
                    "'. Must be one of: native, openapi",
                ),
            );
        }
        if self.serve_port == 0 {
            errors.push(string_of("APCORE_SERVE_PORT must be > 0"));
        }
        assert(string_views(errors@) =~= settings_problems(*self));
        if errors.len() == 0 {
            Ok(())
        } else {
            Err(errors)
        }
    }
}


/// The default settings are valid.
pub proof fn law_default_settings_valid(s: ApcoreSettings)
    requires
        default_settings_hold(s),
    ensures
        settings_problems(s).len() == 0,
{
    reveal_strlit("streamable-http");
    reveal_strlit("native");
}

/// Settings are valid exactly when the transport and the scanner source are
/// known and the port is not zero.
pub proof fn law_settings_valid_iff(s: ApcoreSettings)
    ensures
        settings_problems(s).len() == 0 <==> (valid_transport(s.serve_transport@)
            && valid_scanner_source(s.scanner_source@) && s.serve_port != 0),
{
}

/// Whether a variable name is one of the integration's, `APCORE_...`.
pub open spec fn is_apcore_name(name: Seq<char>) -> bool {
    name.len() >= 7 && name.subrange(0, 7) == "APCORE_"@
}

/// With no `APCORE_*` variable set, the settings read from the environment
/// are the defaults.
pub proof fn law_empty_environment_gives_defaults(vars: Seq<(String, String)>, s: ApcoreSettings)
    requires
        forall|i: int| 0 <= i < vars.len() ==> !is_apcore_name((#[trigger] vars[i]).0@),
        from_env_holds(vars, s),
    ensures
        default_settings_hold(s),
{
    reveal_strlit("APCORE_");
    reveal_strlit("APCORE_MODULE_DIR");
    lemma_unset_name(vars, "APCORE_MODULE_DIR"@);
    reveal_strlit("APCORE_AUTO_DISCOVER");
    lemma_unset_name(vars, "APCORE_AUTO_DISCOVER"@);
    reveal_strlit("APCORE_BINDING_PATTERN");
    lemma_unset_name(vars, "APCORE_BINDING_PATTERN"@);
    reveal_strlit("APCORE_MODULE_PACKAGES");
    lemma_unset_name(vars, "APCORE_MODULE_PACKAGES"@);
    reveal_strlit("APCORE_SERVE_TRANSPORT");
    lemma_unset_name(vars, "APCORE_SERVE_TRANSPORT"@);
    reveal_strlit("APCORE_SERVE_HOST");
    lemma_unset_name(vars, "APCORE_SERVE_HOST"@);
    reveal_strlit("APCORE_SERVE_PORT");
    lemma_unset_name(vars, "APCORE_SERVE_PORT"@);
    reveal_strlit("APCORE_SERVER_NAME");
    lemma_unset_name(vars, "APCORE_SERVER_NAME"@);
    reveal_strlit("APCORE_EXPLORER_PREFIX");
    lemma_unset_name(vars, "APCORE_EXPLORER_PREFIX"@);
    reveal_strlit("APCORE_EXPLORER_ENABLED");
    lemma_unset_name(vars, "APCORE_EXPLORER_ENABLED"@);
    reveal_strlit("APCORE_JWT_SECRET");
    lemma_unset_name(vars, "APCORE_JWT_SECRET"@);
    reveal_strlit("APCORE_JWT_ALGORITHM");
    lemma_unset_name(vars, "APCORE_JWT_ALGORITHM"@);
    reveal_strlit("APCORE_ACL_PATH");
    lemma_unset_name(vars, "APCORE_ACL_PATH"@);
    reveal_strlit("APCORE_TRACING");
    lemma_unset_name(vars, "APCORE_TRACING"@);
    reveal_strlit("APCORE_METRICS");
    lemma_unset_name(vars, "APCORE_METRICS"@);
    reveal_strlit("APCORE_OBSERVABILITY_LOGGING");
    lemma_unset_name(vars, "APCORE_OBSERVABILITY_LOGGING"@);
    reveal_strlit("APCORE_EMBEDDED_SERVER");
    lemma_unset_name(vars, "APCORE_EMBEDDED_SERVER"@);
    reveal_strlit("APCORE_TASK_MAX_CONCURRENT");
    lemma_unset_name(vars, "APCORE_TASK_MAX_CONCURRENT"@);
    reveal_strlit("APCORE_TASK_MAX_TASKS");
    lemma_unset_name(vars, "APCORE_TASK_MAX_TASKS"@);
    reveal_strlit("APCORE_TASK_CLEANUP_AGE");
    lemma_unset_name(vars, "APCORE_TASK_CLEANUP_AGE"@);
    reveal_strlit("APCORE_SCANNER_SOURCE");
    lemma_unset_name(vars, "APCORE_SCANNER_SOURCE"@);
    reveal_strlit("APCORE_HOT_RELOAD");
    lemma_unset_name(vars, "APCORE_HOT_RELOAD"@);
    reveal_strlit("APCORE_OUTPUT_FORMATTER");
    lemma_unset_name(vars, "APCORE_OUTPUT_FORMATTER"@);
    assert(string_views(s.module_packages@).len() == s.module_packages@.len());
}

/// Where an environment lists a name more than once, its first entry is the
/// one that counts.
pub proof fn law_first_entry_wins(vars: Seq<(String, String)>, name: Seq<char>, i: int)
    requires
        0 <= i < vars.len(),
        vars[i].0@ == name,
        forall|j: int| 0 <= j < i ==> (#[trigger] vars[j]).0@ != name,
    ensures
        env_lookup(vars, name) == Some(vars[i].1@),
{
    lemma_env_lookup_skip(vars, name, i);
    assert(vars.skip(i)[0] == vars[i]);
}

/// Each setting is read from its own variable: a numeric setting is the
/// number its variable holds when that is a decimal number that fits the
/// setting (the port, the concurrency limit, the queue limit and the cleanup
/// age each from their own name, whatever the other variables hold), a flag
/// is whether its variable holds a true word, a text or optional setting is
/// its variable's text.
pub proof fn law_each_variable_sets_its_setting(vars: Seq<(String, String)>, s: ApcoreSettings)
    requires
        from_env_holds(vars, s),
    ensures
        env_lookup(vars, "APCORE_TASK_MAX_CONCURRENT"@) matches Some(v) ==> (parse_unsigned(v, (usize::MAX as nat)) matches Some(n)
            ==> s.task_max_concurrent == n),
        env_lookup(vars, "APCORE_TASK_MAX_TASKS"@) matches Some(v) ==> (parse_unsigned(v, (usize::MAX as nat)) matches Some(n)
            ==> s.task_max_tasks == n),
        env_lookup(vars, "APCORE_TASK_CLEANUP_AGE"@) matches Some(v) ==> (parse_unsigned(v, u64::MAX as nat) matches Some(n)
            ==> s.task_cleanup_age == n),
        env_lookup(vars, "APCORE_SERVE_PORT"@) matches Some(v) ==> (parse_unsigned(v, 65535) matches Some(n)
            ==> s.serve_port == n),
        env_lookup(vars, "APCORE_SERVE_HOST"@) matches Some(v) ==> s.serve_host@ == v,
        env_lookup(vars, "APCORE_SERVE_TRANSPORT"@) matches Some(v) ==> s.serve_transport@ == v,
        env_lookup(vars, "APCORE_MODULE_DIR"@) matches Some(v) ==> s.module_dir@ == v,
        env_lookup(vars, "APCORE_BINDING_PATTERN"@) matches Some(v) ==> s.binding_pattern@ == v,
        env_lookup(vars, "APCORE_SERVER_NAME"@) matches Some(v) ==> s.server_name@ == v,
        env_lookup(vars, "APCORE_EXPLORER_PREFIX"@) matches Some(v) ==> s.explorer_prefix@ == v,
        env_lookup(vars, "APCORE_JWT_ALGORITHM"@) matches Some(v) ==> s.jwt_algorithm@ == v,
        env_lookup(vars, "APCORE_SCANNER_SOURCE"@) matches Some(v) ==> s.scanner_source@ == v,
        env_lookup(vars, "APCORE_JWT_SECRET"@) matches Some(v) ==> s.jwt_secret matches Some(x) && x@ == v,
        env_lookup(vars, "APCORE_ACL_PATH"@) matches Some(v) ==> s.acl_path matches Some(x) && x@ == v,
        env_lookup(vars, "APCORE_OUTPUT_FORMATTER"@) matches Some(v) ==> s.output_formatter matches Some(x) && x@ == v,
        env_lookup(vars, "APCORE_AUTO_DISCOVER"@) matches Some(v) ==> s.auto_discover == is_true_word(v),
        env_lookup(vars, "APCORE_EXPLORER_ENABLED"@) matches Some(v) ==> s.explorer_enabled == is_true_word(v),
        env_lookup(vars, "APCORE_TRACING"@) matches Some(v) ==> s.tracing == is_true_word(v),
        env_lookup(vars, "APCORE_METRICS"@) matches Some(v) ==> s.metrics == is_true_word(v),
        env_lookup(vars, "APCORE_OBSERVABILITY_LOGGING"@) matches Some(v) ==> s.observability_logging == is_true_word(v),
        env_lookup(vars, "APCORE_EMBEDDED_SERVER"@) matches Some(v) ==> s.embedded_server == is_true_word(v),
        env_lookup(vars, "APCORE_HOT_RELOAD"@) matches Some(v) ==> s.hot_reload == is_true_word(v),
{
}

proof fn lemma_unset_name(vars: Seq<(String, String)>, name: Seq<char>)
    requires
        forall|i: int| 0 <= i < vars.len() ==> !is_apcore_name((#[trigger] vars[i]).0@),
        name.len() >= 7,
        name.subrange(0, 7) =~= "APCORE_"@,
    ensures
        env_lookup(vars, name) is None,
{
    lemma_env_lookup_absent(vars, name);
}

proof fn lemma_env_lookup_absent(vars: Seq<(String, String)>, name: Seq<char>)
    requires
        forall|i: int| 0 <= i < vars.len() ==> (#[trigger] vars[i]).0@ != name,
    ensures
        env_lookup(vars, name) is None,
    decreases vars.len(),
{
    if vars.len() > 0 {
        assert forall|i: int| 0 <= i < vars.drop_first().len() implies (#[trigger] vars.drop_first()[i]).0@
            != name by {
            assert(vars.drop_first()[i] == vars[i + 1]);
        }
        lemma_env_lookup_absent(vars.drop_first(), name);
    }
}

} // verus!
