//! Model configuration of the three agent roles, resolved from environment
//! variables.
//!
//! The process environment is read by the caller, which hands the variables
//! over as a map from name to value; resolution itself is plain computation.
//! Each role (`PLANNER`, `EXECUTOR`, `REFLECTOR`) takes `ZENE_<ROLE>_<FIELD>`
//! when set and otherwise the global default (`LLM_PROVIDER`, `LLM_MODEL`,
//! `LLM_API_KEY` then `OPENAI_API_KEY`, `LLM_BASE_URL` then `OPENAI_BASE_URL`).

use vstd::prelude::*;
use crate::host::opt_string_view;
use crate::strmap::StrMap;
use crate::text::owned;

verus! {

/// The value of the variable `name`, if it is set.
pub open spec fn env_value(env: Map<Seq<char>, String>, name: Seq<char>) -> Option<Seq<char>> {
    if env.dom().contains(name) {
        Some(env[name]@)
    } else {
        None
    }
}

/// The first of two optional values that is present.
pub open spec fn first_set(a: Option<Seq<char>>, b: Option<Seq<char>>) -> Option<Seq<char>> {
    match a {
        Some(v) => Some(v),
        None => b,
    }
}

/// The variable `name`, or `fallback` when it is not set.
pub open spec fn setting(env: Map<Seq<char>, String>, name: Seq<char>, fallback: Seq<char>) -> Seq<
    char,
> {
    match env_value(env, name) {
        Some(v) => v,
        None => fallback,
    }
}

/// The name of a role's own variable: `ZENE_<role>_<field>`.
pub open spec fn role_var_spec(role: Seq<char>, field: Seq<char>) -> Seq<char> {
    "ZENE_"@ + role + "_"@ + field
}

/// The global default provider.
pub open spec fn default_provider(env: Map<Seq<char>, String>) -> Seq<char> {
    setting(env, "LLM_PROVIDER"@, "openai"@)
}

/// The global default model.
pub open spec fn default_model(env: Map<Seq<char>, String>) -> Seq<char> {
    setting(env, "LLM_MODEL"@, "gpt-4o"@)
}

/// The global default API key.
pub open spec fn default_api_key(env: Map<Seq<char>, String>) -> Seq<char> {
    setting(env, "LLM_API_KEY"@, setting(env, "OPENAI_API_KEY"@, ""@))
}

/// The global default base URL.
pub open spec fn default_base_url(env: Map<Seq<char>, String>) -> Option<Seq<char>> {
    first_set(env_value(env, "LLM_BASE_URL"@), env_value(env, "OPENAI_BASE_URL"@))
}

/// The provider, model, key and endpoint of one model role.
#[derive(Debug, Clone)]
pub struct RoleConfig {
    pub provider: String,
    pub model: String,
    pub api_key: String,
    pub base_url: Option<String>,
}

/// The configuration of the planner, executor and reflector roles.
#[derive(Debug, Clone)]
pub struct AgentConfig {
    pub planner: RoleConfig,
    pub executor: RoleConfig,
    pub reflector: RoleConfig,
}

/// `c` is the configuration of `role` under the variables `env`.
pub open spec fn role_resolved(c: RoleConfig, env: Map<Seq<char>, String>, role: Seq<char>) -> bool {
    &&& c.provider@ == setting(env, role_var_spec(role, "PROVIDER"@), default_provider(env))
    &&& c.model@ == setting(env, role_var_spec(role, "MODEL"@), default_model(env))
    &&& c.api_key@ == setting(env, role_var_spec(role, "API_KEY"@), default_api_key(env))
    &&& opt_string_view(c.base_url) == first_set(
        env_value(env, role_var_spec(role, "BASE_URL"@)),
        default_base_url(env),
    )
}

/// Law: where a role's settings come from.  Each setting of `role` is its
/// own variable `ZENE_<role>_<field>` when that is set, else the global
/// variable (`LLM_PROVIDER`, `LLM_MODEL`, `LLM_API_KEY` then
/// `OPENAI_API_KEY`, `LLM_BASE_URL` then `OPENAI_BASE_URL`), else the
/// built-in default ("openai", "gpt-4o", an empty key, no base URL).
pub proof fn law_role_settings(c: RoleConfig, env: Map<Seq<char>, String>, role: Seq<char>)
    requires
        role_resolved(c, env, role),
    ensures
        ({
            let own = "ZENE_"@ + role + "_PROVIDER"@;
            &&& env.dom().contains(own) ==> c.provider@ == env[own]@
            &&& !env.dom().contains(own) && env.dom().contains("LLM_PROVIDER"@) ==> c.provider@ == env["LLM_PROVIDER"@]@
            &&& !env.dom().contains(own) && !env.dom().contains("LLM_PROVIDER"@) ==> c.provider@ == "openai"@
        }),
        ({
            let own = "ZENE_"@ + role + "_MODEL"@;
            &&& env.dom().contains(own) ==> c.model@ == env[own]@
            &&& !env.dom().contains(own) && env.dom().contains("LLM_MODEL"@) ==> c.model@ == env["LLM_MODEL"@]@
            &&& !env.dom().contains(own) && !env.dom().contains("LLM_MODEL"@) ==> c.model@ == "gpt-4o"@
        }),
        ({
            let own = "ZENE_"@ + role + "_API_KEY"@;
            &&& env.dom().contains(own) ==> c.api_key@ == env[own]@
            &&& !env.dom().contains(own) && env.dom().contains("LLM_API_KEY"@) ==> c.api_key@ == env["LLM_API_KEY"@]@
            &&& !env.dom().contains(own) && !env.dom().contains("LLM_API_KEY"@) && env.dom().contains("OPENAI_API_KEY"@)
                ==> c.api_key@ == env["OPENAI_API_KEY"@]@
            &&& !env.dom().contains(own) && !env.dom().contains("LLM_API_KEY"@) && !env.dom().contains("OPENAI_API_KEY"@)
                ==> c.api_key@.len() == 0
        }),
        ({
            let own = "ZENE_"@ + role + "_BASE_URL"@;
            &&& env.dom().contains(own) ==> (c.base_url matches Some(v) && v@ == env[own]@)
            &&& !env.dom().contains(own) && env.dom().contains("LLM_BASE_URL"@) ==> (c.base_url matches Some(v) && v@ == env["LLM_BASE_URL"@]@)
            &&& !env.dom().contains(own) && !env.dom().contains("LLM_BASE_URL"@) && env.dom().contains("OPENAI_BASE_URL"@)
                ==> (c.base_url matches Some(v) && v@ == env["OPENAI_BASE_URL"@]@)
            &&& !env.dom().contains(own) && !env.dom().contains("LLM_BASE_URL"@) && !env.dom().contains("OPENAI_BASE_URL"@)
                ==> c.base_url is None
        }),
{
    reveal_strlit("");
    reveal_strlit("_");
    reveal_strlit("PROVIDER");
    reveal_strlit("_PROVIDER");
    assert(role_var_spec(role, "PROVIDER"@) =~= "ZENE_"@ + role + "_PROVIDER"@);
    reveal_strlit("MODEL");
    reveal_strlit("_MODEL");
    assert(role_var_spec(role, "MODEL"@) =~= "ZENE_"@ + role + "_MODEL"@);
    reveal_strlit("API_KEY");
    reveal_strlit("_API_KEY");
    assert(role_var_spec(role, "API_KEY"@) =~= "ZENE_"@ + role + "_API_KEY"@);
    reveal_strlit("BASE_URL");
    reveal_strlit("_BASE_URL");
    assert(role_var_spec(role, "BASE_URL"@) =~= "ZENE_"@ + role + "_BASE_URL"@);
}

/// The name `ZENE_<role>_<field>`.
pub fn role_var(role: &str, field: &str) -> (r: String)
    ensures
        r@ == role_var_spec(role@, field@),
{
    let mut s = owned("ZENE_");
    s.append(role);
    s.append("_");
    s.append(field);
    s
}

/// The variable `name`, if set.
pub fn lookup(env: &StrMap<String>, name: &str) -> (r: Option<String>)
    requires
        env.wf(),
    ensures
        opt_string_view(r) == env_value(env.map(), name@),
{
    match env.get(name) {
        Some(v) => Some(v.clone()),
        None => None,
    }
}

/// The variable `name`, or `fallback` when it is not set.
pub fn lookup_or(env: &StrMap<String>, name: &str, fallback: &str) -> (r: String)
    requires
        env.wf(),
    ensures
        r@ == setting(env.map(), name@, fallback@),
{
    match env.get(name) {
        Some(v) => v.clone(),
        None => owned(fallback),
    }
}

/// The first of two optional values that is present.
pub fn first_of(a: Option<String>, b: Option<String>) -> (r: Option<String>)
    ensures
        opt_string_view(r) == first_set(opt_string_view(a), opt_string_view(b)),
{
    match a {
        Some(v) => Some(v),
        None => b,
    }
}

/// The global defaults: provider, model, API key and base URL.
pub fn global_defaults(env: &StrMap<String>) -> (r: (String, String, String, Option<String>))
    requires
        env.wf(),
    ensures
        r.0@ == default_provider(env.map()),
        r.1@ == default_model(env.map()),
        r.2@ == default_api_key(env.map()),
        opt_string_view(r.3) == default_base_url(env.map()),
{
    let provider = lookup_or(env, "LLM_PROVIDER", "openai");
    let model = lookup_or(env, "LLM_MODEL", "gpt-4o");
    let openai_key = lookup_or(env, "OPENAI_API_KEY", "");
    let api_key = lookup_or(env, "LLM_API_KEY", openai_key.as_str());
    let base_url = first_of(lookup(env, "LLM_BASE_URL"), lookup(env, "OPENAI_BASE_URL"));
    (provider, model, api_key, base_url)
}

impl AgentConfig {
    /// Resolves the three roles from the environment variables `env`.
    pub fn from_vars(env: &StrMap<String>) -> (c: AgentConfig)
        requires
            env.wf(),
        ensures
            role_resolved(c.planner, env.map(), "PLANNER"@),
            role_resolved(c.executor, env.map(), "EXECUTOR"@),
            role_resolved(c.reflector, env.map(), "REFLECTOR"@),
    {
        let d = global_defaults(env);
        let planner = Self::load_role_config(env, "PLANNER", &d);
        let executor = Self::load_role_config(env, "EXECUTOR", &d);
        let reflector = Self::load_role_config(env, "REFLECTOR", &d);
        AgentConfig { planner, executor, reflector }
    }

    /// Resolves one role, falling back to the global defaults `d`.
    pub fn load_role_config(
        env: &StrMap<String>,
        role: &str,
        d: &(String, String, String, Option<String>),
    ) -> (c: RoleConfig)
        requires
            env.wf(),
            d.0@ == default_provider(env.map()),
            d.1@ == default_model(env.map()),
            d.2@ == default_api_key(env.map()),
            opt_string_view(d.3) == default_base_url(env.map()),
        ensures
            role_resolved(c, env.map(), role@),
    {
        let provider = lookup_or(env, role_var(role, "PROVIDER").as_str(), d.0.as_str());
        let model = lookup_or(env, role_var(role, "MODEL").as_str(), d.1.as_str());
        let api_key = lookup_or(env, role_var(role, "API_KEY").as_str(), d.2.as_str());
        let fallback = match &d.3 {
            Some(u) => Some(u.clone()),
            None => None,
        };
        let base_url = first_of(lookup(env, role_var(role, "BASE_URL").as_str()), fallback);
        RoleConfig { provider, model, api_key, base_url }
    }
}

} // verus!
