//! The configuration of the embeddable engine: the three model roles (with
//! an optional provider region), the MCP servers to connect to, and the
//! engine switches, resolved from environment variables.
//!
//! As in [`crate::config`], the caller reads the process environment and
//! hands the variables over as a map; the MCP server table is read from
//! `zene_config.toml` by the caller as well.

use vstd::prelude::*;
use crate::config::{env_value, first_of, first_set, lookup, lookup_or, role_var, role_var_spec, setting, default_api_key, default_base_url, default_model, default_provider, global_defaults};
use crate::host::opt_string_view;
use crate::strmap::StrMap;
use crate::text::{lowercase_of, owned, str_eq, to_lowercase};

verus! {

/// How to start one MCP server: a command and its arguments.
#[derive(Debug, Clone)]
pub struct McpServerConfig {
    pub command: String,
    pub args: Vec<String>,
}

/// The MCP servers to connect to, by name.
#[derive(Debug, Clone)]
pub struct McpConfig {
    pub servers: StrMap<McpServerConfig>,
}

impl Default for McpConfig {
    fn default() -> (r: Self)
        ensures
            r.servers.wf(),
            r.servers.map() == Map::<Seq<char>, McpServerConfig>::empty(),
    {
        McpConfig { servers: StrMap::new() }
    }
}

/// The provider, model, key, endpoint and region of one model role.
#[derive(Debug, Clone)]
pub struct RoleConfig {
    pub provider: String,
    pub model: String,
    pub api_key: String,
    pub base_url: Option<String>,
    pub region: Option<String>,
}

/// The engine's configuration.
#[derive(Debug, Clone)]
pub struct AgentConfig {
    pub planner: RoleConfig,
    pub executor: RoleConfig,
    pub reflector: RoleConfig,
    pub mcp: McpConfig,
    pub simple_mode: bool,
    pub use_semantic_memory: bool,
    pub xtrace_endpoint: Option<String>,
    pub xtrace_token: Option<String>,
}

impl Default for RoleConfig {
    fn default() -> (r: Self)
        ensures
            r.provider@ == "openai"@,
            r.model@ == "gpt-4"@,
            r.api_key@ == ""@,
            r.base_url is None,
            r.region is None,
    {
        RoleConfig {
            provider: owned("openai"),
            model: owned("gpt-4"),
            api_key: owned(""),
            base_url: None,
            region: None,
        }
    }
}

/// `r` is the default role configuration.
pub open spec fn is_default_role(r: RoleConfig) -> bool {
    &&& r.provider@ == "openai"@
    &&& r.model@ == "gpt-4"@
    &&& r.api_key@ == ""@
    &&& r.base_url is None
    &&& r.region is None
}

impl Default for AgentConfig {
    fn default() -> (c: Self)
        ensures
            is_default_role(c.planner),
            is_default_role(c.executor),
            is_default_role(c.reflector),
            c.mcp.servers.wf(),
            c.mcp.servers.map() == Map::<Seq<char>, McpServerConfig>::empty(),
            !c.simple_mode,
            !c.use_semantic_memory,
            c.xtrace_endpoint is None,
            c.xtrace_token is None,
    {
        AgentConfig {
            planner: RoleConfig::default(),
            executor: RoleConfig::default(),
            reflector: RoleConfig::default(),
            mcp: McpConfig::default(),
            simple_mode: false,
            use_semantic_memory: false,
            xtrace_endpoint: None,
            xtrace_token: None,
        }
    }
}

/// A switch value counts as on when it is `1` or, in lower case, `true`.
pub open spec fn flag_on(v: Seq<char>) -> bool {
    v == "1"@ || lowercase_of(v) == "true"@
}

/// The switch `name`: on when set to an on value, off when unset.
pub open spec fn switch_spec(env: Map<Seq<char>, String>, name: Seq<char>) -> bool {
    match env_value(env, name) {
        Some(v) => flag_on(v),
        None => false,
    }
}

/// The global default region.
pub open spec fn default_region(env: Map<Seq<char>, String>) -> Option<Seq<char>> {
    env_value(env, "LLM_REGION"@)
}

/// `c` is the configuration of `role` under the variables `env`.
pub open spec fn role_resolved(c: RoleConfig, env: Map<Seq<char>, String>, role: Seq<char>) -> bool {
    &&& c.provider@ == setting(env, role_var_spec(role, "PROVIDER"@), default_provider(env))
    &&& c.model@ == setting(env, role_var_spec(role, "MODEL"@), default_model(env))
    &&& c.api_key@ == setting(env, role_var_spec(role, "API_KEY"@), default_api_key(env))
    &&& opt_string_view(c.base_url) == first_set(
        env_value(env, role_var_spec(role, "BASE_URL"@)),
        default_base_url(env),
    )
    &&& opt_string_view(c.region) == first_set(
        env_value(env, role_var_spec(role, "REGION"@)),
        default_region(env),
    )
}

/// Law: where a role's settings come from.  Each setting of `role` is its
/// own variable `ZENE_<role>_<field>` when that is set, else the global
/// variable (`LLM_PROVIDER`, `LLM_MODEL`, `LLM_API_KEY` then
/// `OPENAI_API_KEY`, `LLM_BASE_URL` then `OPENAI_BASE_URL`, `LLM_REGION`), else the
/// built-in default ("openai", "gpt-4o", an empty key, no base URL, no region).
pub proof fn law_role_settings(c: RoleConfig, env: Map<Seq<char>, String>, role: Seq<char>)
    requires
        role_resolved(c, env, role),
    ensures
        ({
            let own = "ZENE_"@ + role + "_PROVIDER"@;
            &&& env.dom().contains(own) ==> c.provider@ == env[own]@
            &&& !env.dom().contains(own) && env.dom().contains("LLM_PROVIDER"@) ==> c.provider@ == env["LLM_PROVIDER"@]@
            &&& !env.dom().contains(own) && !env.dom().contains("LLM_PROVIDER"@) ==> c.provider@ == "openai"@
        }),
        ({
            let own = "ZENE_"@ + role + "_MODEL"@;
            &&& env.dom().contains(own) ==> c.model@ == env[own]@
            &&& !env.dom().contains(own) && env.dom().contains("LLM_MODEL"@) ==> c.model@ == env["LLM_MODEL"@]@
            &&& !env.dom().contains(own) && !env.dom().contains("LLM_MODEL"@) ==> c.model@ == "gpt-4o"@
        }),
        ({
            let own = "ZENE_"@ + role + "_API_KEY"@;
            &&& env.dom().contains(own) ==> c.api_key@ == env[own]@
            &&& !env.dom().contains(own) && env.dom().contains("LLM_API_KEY"@) ==> c.api_key@ == env["LLM_API_KEY"@]@
            &&& !env.dom().contains(own) && !env.dom().contains("LLM_API_KEY"@) && env.dom().contains("OPENAI_API_KEY"@)
                ==> c.api_key@ == env["OPENAI_API_KEY"@]@
            &&& !env.dom().contains(own) && !env.dom().contains("LLM_API_KEY"@) && !env.dom().contains("OPENAI_API_KEY"@)
                ==> c.api_key@.len() == 0
        }),
        ({
            let own = "ZENE_"@ + role + "_BASE_URL"@;
            &&& env.dom().contains(own) ==> (c.base_url matches Some(v) && v@ == env[own]@)
            &&& !env.dom().contains(own) && env.dom().contains("LLM_BASE_URL"@) ==> (c.base_url matches Some(v) && v@ == env["LLM_BASE_URL"@]@)
            &&& !env.dom().contains(own) && !env.dom().contains("LLM_BASE_URL"@) && env.dom().contains("OPENAI_BASE_URL"@)
                ==> (c.base_url matches Some(v) && v@ == env["OPENAI_BASE_URL"@]@)
            &&& !env.dom().contains(own) && !env.dom().contains("LLM_BASE_URL"@) && !env.dom().contains("OPENAI_BASE_URL"@)
                ==> c.base_url is None
        }),
        ({
            let own = "ZENE_"@ + role + "_REGION"@;
            &&& env.dom().contains(own) ==> (c.region matches Some(v) && v@ == env[own]@)
            &&& !env.dom().contains(own) && env.dom().contains("LLM_REGION"@) ==> (c.region matches Some(v) && v@ == env["LLM_REGION"@]@)
            &&& !env.dom().contains(own) && !env.dom().contains("LLM_REGION"@) ==> c.region is None
        }),
{
    reveal_strlit("");
    reveal_strlit("_");
    reveal_strlit("PROVIDER");
    reveal_strlit("_PROVIDER");
    assert(role_var_spec(role, "PROVIDER"@) =~= "ZENE_"@ + role + "_PROVIDER"@);
    reveal_strlit("MODEL");
    reveal_strlit("_MODEL");
    assert(role_var_spec(role, "MODEL"@) =~= "ZENE_"@ + role + "_MODEL"@);
    reveal_strlit("API_KEY");
    reveal_strlit("_API_KEY");
    assert(role_var_spec(role, "API_KEY"@) =~= "ZENE_"@ + role + "_API_KEY"@);
    reveal_strlit("BASE_URL");
    reveal_strlit("_BASE_URL");
    assert(role_var_spec(role, "BASE_URL"@) =~= "ZENE_"@ + role + "_BASE_URL"@);
    reveal_strlit("REGION");
    reveal_strlit("_REGION");
    assert(role_var_spec(role, "REGION"@) =~= "ZENE_"@ + role + "_REGION"@);
}

/// Whether a switch value is on.
pub fn parse_flag(v: &str) -> (b: bool)
    ensures
        b == flag_on(v@),
{
    if str_eq(v, "1") {
        return true;
    }
    let lowered = to_lowercase(v);
    str_eq(lowered.as_str(), "true")
}

/// The switch `name` of `env`.
pub fn read_switch(env: &StrMap<String>, name: &str) -> (b: bool)
    requires
        env.wf(),
    ensures
        b == switch_spec(env.map(), name@),
{
    match env.get(name) {
        Some(v) => parse_flag(v.as_str()),
        None => false,
    }
}

impl AgentConfig {
    /// Resolves the configuration from the environment variables `env`,
    /// with `mcp` as the MCP server table.
    pub fn from_vars(env: &StrMap<String>, mcp: McpConfig) -> (c: AgentConfig)
        requires
            env.wf(),
        ensures
            role_resolved(c.planner, env.map(), "PLANNER"@),
            role_resolved(c.executor, env.map(), "EXECUTOR"@),
            role_resolved(c.reflector, env.map(), "REFLECTOR"@),
            c.mcp == mcp,
            c.simple_mode == switch_spec(env.map(), "ZENE_SIMPLE_MODE"@),
            c.use_semantic_memory == switch_spec(env.map(), "ZENE_USE_SEMANTIC_MEMORY"@),
            opt_string_view(c.xtrace_endpoint) == env_value(env.map(), "ZENE_XTRACE_ENDPOINT"@),
            opt_string_view(c.xtrace_token) == env_value(env.map(), "ZENE_XTRACE_TOKEN"@),
    {
        let d = global_defaults(env);
        let region = lookup(env, "LLM_REGION");
        let simple_mode = read_switch(env, "ZENE_SIMPLE_MODE");
        let use_semantic_memory = read_switch(env, "ZENE_USE_SEMANTIC_MEMORY");
        let planner = Self::load_role_config(env, "PLANNER", &d, &region);
        let executor = Self::load_role_config(env, "EXECUTOR", &d, &region);
        let reflector = Self::load_role_config(env, "REFLECTOR", &d, &region);
        AgentConfig {
            planner,
            executor,
            reflector,
            mcp,
            simple_mode,
            use_semantic_memory,
            xtrace_endpoint: lookup(env, "ZENE_XTRACE_ENDPOINT"),
            xtrace_token: lookup(env, "ZENE_XTRACE_TOKEN"),
        }
    }

    /// Resolves one role, falling back to the global defaults `d` and the
    /// default region.
    pub fn load_role_config(
        env: &StrMap<String>,
        role: &str,
        d: &(String, String, String, Option<String>),
        region: &Option<String>,
    ) -> (c: RoleConfig)
        requires
            env.wf(),
            d.0@ == default_provider(env.map()),
            d.1@ == default_model(env.map()),
            d.2@ == default_api_key(env.map()),
            opt_string_view(d.3) == default_base_url(env.map()),
            opt_string_view(*region) == default_region(env.map()),
        ensures
            role_resolved(c, env.map(), role@),
    {
        let provider = lookup_or(env, role_var(role, "PROVIDER").as_str(), d.0.as_str());
        let model = lookup_or(env, role_var(role, "MODEL").as_str(), d.1.as_str());
        let api_key = lookup_or(env, role_var(role, "API_KEY").as_str(), d.2.as_str());
        let url_fallback = match &d.3 {
            Some(u) => Some(u.clone()),
            None => None,
        };
        let base_url = first_of(lookup(env, role_var(role, "BASE_URL").as_str()), url_fallback);
        let region_fallback = match region {
            Some(r) => Some(r.clone()),
            None => None,
        };
        let region = first_of(lookup(env, role_var(role, "REGION").as_str()), region_fallback);
        RoleConfig { provider, model, api_key, base_url, region }
    }
}

} // verus!
