use zene::client::{choose_endpoint, resolve_backend, Backend};
use zene::config;
use zene::core_config::{parse_flag, AgentConfig, McpConfig, RoleConfig};
use zene::error::ZeneError;
use zene::strmap::StrMap;

fn vars(pairs: &[(&str, &str)]) -> StrMap<String> {
    let mut m = StrMap::new();
    for (k, v) in pairs {
        m.insert(k, v.to_string());
    }
    m
}

#[test]
fn roles_fall_back_to_global_defaults() {
    let c = config::AgentConfig::from_vars(&vars(&[]));
    assert_eq!(c.planner.provider, "openai");
    assert_eq!(c.planner.model, "gpt-4o");
    assert_eq!(c.planner.api_key, "");
    assert!(c.planner.base_url.is_none());
    let c = config::AgentConfig::from_vars(&vars(&[
        ("LLM_PROVIDER", "anthropic"),
        ("OPENAI_API_KEY", "sk-openai"),
        ("OPENAI_BASE_URL", "http://o"),
        ("ZENE_EXECUTOR_MODEL", "fast"),
        ("ZENE_REFLECTOR_API_KEY", "sk-r"),
    ]));
    assert_eq!(c.executor.provider, "anthropic");
    assert_eq!(c.executor.model, "fast");
    assert_eq!(c.planner.model, "gpt-4o");
    assert_eq!(c.planner.api_key, "sk-openai");
    assert_eq!(c.reflector.api_key, "sk-r");
    assert_eq!(c.reflector.base_url.as_deref(), Some("http://o"));
}

#[test]
fn llm_key_wins_over_openai_key() {
    let c = config::AgentConfig::from_vars(&vars(&[("LLM_API_KEY", "a"), ("OPENAI_API_KEY", "b"), ("LLM_BASE_URL", "u1"), ("OPENAI_BASE_URL", "u2")]));
    assert_eq!(c.executor.api_key, "a");
    assert_eq!(c.executor.base_url.as_deref(), Some("u1"));
}

#[test]
fn engine_config_switches_and_region() {
    let c = AgentConfig::from_vars(
        &vars(&[
            ("ZENE_SIMPLE_MODE", "TRUE"),
            ("ZENE_USE_SEMANTIC_MEMORY", "yes"),
            ("LLM_REGION", "cn"),
            ("ZENE_PLANNER_REGION", "global"),
            ("ZENE_XTRACE_ENDPOINT", "http://x"),
        ]),
        McpConfig::default(),
    );
    assert!(c.simple_mode);
    assert!(!c.use_semantic_memory);
    assert_eq!(c.planner.region.as_deref(), Some("global"));
    assert_eq!(c.executor.region.as_deref(), Some("cn"));
    assert_eq!(c.xtrace_endpoint.as_deref(), Some("http://x"));
    assert!(c.xtrace_token.is_none());
}

#[test]
fn flags() {
    assert!(parse_flag("1"));
    assert!(parse_flag("true"));
    assert!(parse_flag("TrUe"));
    assert!(!parse_flag(" true"));
    assert!(!parse_flag("0"));
    assert!(!parse_flag("yes"));
}

#[test]
fn engine_config_defaults() {
    let c = AgentConfig::default();
    assert_eq!(c.planner.provider, "openai");
    assert_eq!(c.planner.model, "gpt-4");
    assert_eq!(c.planner.api_key, "");
    assert!(c.planner.region.is_none());
    assert!(!c.simple_mode);
    assert_eq!(c.mcp.servers.len(), 0);
}

fn role(provider: &str, base_url: Option<&str>, region: Option<&str>) -> RoleConfig {
    RoleConfig {
        provider: provider.to_string(),
        model: "m".to_string(),
        api_key: "key".to_string(),
        base_url: base_url.map(|s| s.to_string()),
        region: region.map(|s| s.to_string()),
    }
}

#[test]
fn explicit_base_url_wins() {
    match resolve_backend(&role("whatever", Some("http://local/v1"), None), None).unwrap() {
        Backend::OpenAiCompatible { api_key, base_url } => {
            assert_eq!(api_key, "key");
            assert_eq!(base_url, "http://local/v1");
        }
        other => panic!("unexpected {:?}", other),
    }
}

#[test]
fn registry_endpoint_choice() {
    let eps = vars(&[("cn", "http://cn"), ("global", "http://global")]);
    assert_eq!(choose_endpoint(&eps, &None).as_deref(), Some("http://global"));
    assert_eq!(choose_endpoint(&eps, &Some("cn".to_string())).as_deref(), Some("http://cn"));
    assert_eq!(choose_endpoint(&eps, &Some("eu".to_string())), None);
    let only_cn = vars(&[("intl", "http://i"), ("cn", "http://cn")]);
    assert_eq!(choose_endpoint(&only_cn, &None).as_deref(), Some("http://cn"));
    let other = vars(&[("us", "http://us"), ("eu", "http://eu")]);
    assert_eq!(choose_endpoint(&other, &None).as_deref(), Some("http://us"));
    assert_eq!(choose_endpoint(&StrMap::new(), &None), None);
}

#[test]
fn registry_without_endpoint_is_config_error() {
    let eps = vars(&[("cn", "http://cn")]);
    match resolve_backend(&role("deepseek", None, Some("eu")), Some(&eps)) {
        Err(ZeneError::ConfigError(m)) => assert_eq!(m, "No endpoints found for provider: deepseek"),
        other => panic!("unexpected {:?}", other),
    }
}

#[test]
fn builtin_providers() {
    assert!(matches!(resolve_backend(&role("openai", None, None), None), Ok(Backend::OpenAi { .. })));
    assert!(matches!(resolve_backend(&role("anthropic", None, None), None), Ok(Backend::Anthropic { .. })));
    assert!(matches!(resolve_backend(&role("google", None, None), None), Ok(Backend::Google { .. })));
    assert!(matches!(resolve_backend(&role("ollama", None, None), None), Ok(Backend::Ollama)));
    match resolve_backend(&role("acme", None, None), None) {
        Err(e) => assert_eq!(e.message(), "Configuration error: Unsupported provider: acme"),
        Ok(b) => panic!("unexpected {:?}", b),
    }
}
