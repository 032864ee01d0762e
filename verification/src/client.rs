//! Which model backend a role talks to.
//!
//! An explicit base URL wins and selects an OpenAI-compatible endpoint.
//! Otherwise the provider is looked up in the provider registry: a known
//! provider is served at the endpoint of the configured region, or, with no
//! region configured, at its `global` endpoint, else its `cn` endpoint, else
//! its first endpoint.  An unknown provider falls back to the four built-in
//! providers.  Building the client and talking to it is the caller's part.

use vstd::prelude::*;
use crate::core_config::RoleConfig;
use crate::error::ZeneError;
use crate::host::opt_string_view;
use crate::strmap::StrMap;
use crate::text::{owned, str_eq};

verus! {

/// A model backend and the credentials it is opened with.
#[derive(Debug, Clone)]
pub enum Backend {
    OpenAiCompatible { api_key: String, base_url: String },
    OpenAi { api_key: String },
    Anthropic { api_key: String },
    Google { api_key: String },
    Ollama,
}

/// The endpoint chosen among a provider's endpoints (region to base URL).
pub open spec fn endpoint_choice(endpoints: StrMap<String>, region: Option<Seq<char>>) -> Option<
    Seq<char>,
> {
    let m = endpoints.map();
    match region {
        Some(r) => if m.dom().contains(r) {
            Some(m[r]@)
        } else {
            None
        },
        None => if m.dom().contains("global"@) {
            Some(m["global"@]@)
        } else if m.dom().contains("cn"@) {
            Some(m["cn"@]@)
        } else if endpoints.entries().len() > 0 {
            Some(endpoints.entries()[0].1@)
        } else {
            None
        },
    }
}

/// `b` is an OpenAI-compatible backend with the given key and URL.
pub open spec fn is_compatible(b: Backend, key: Seq<char>, url: Seq<char>) -> bool {
    b matches Backend::OpenAiCompatible { api_key, base_url } && api_key@ == key && base_url@ == url
}

/// The message of a provider that the registry knows but that has no
/// usable endpoint.
pub open spec fn no_endpoint_message(provider: Seq<char>) -> Seq<char> {
    "No endpoints found for provider: "@ + provider
}

/// The message of a provider that is neither registered nor built in.
pub open spec fn unsupported_message(provider: Seq<char>) -> Seq<char> {
    "Unsupported provider: "@ + provider
}

/// `r` is the configuration error with message `msg`.
pub open spec fn is_config_error(r: Result<Backend, ZeneError>, msg: Seq<char>) -> bool {
    r matches Err(ZeneError::ConfigError(m)) && m@ == msg
}

/// What the built-in providers give for `provider` (no registry entry).
pub open spec fn builtin_ok(r: Result<Backend, ZeneError>, provider: Seq<char>, key: Seq<char>) -> bool {
    if provider == "openai"@ {
        r matches Ok(Backend::OpenAi { api_key }) && api_key@ == key
    } else if provider == "anthropic"@ {
        r matches Ok(Backend::Anthropic { api_key }) && api_key@ == key
    } else if provider == "google"@ {
        r matches Ok(Backend::Google { api_key }) && api_key@ == key
    } else if provider == "ollama"@ {
        r matches Ok(Backend::Ollama)
    } else {
        is_config_error(r, unsupported_message(provider))
    }
}

/// The endpoint among `endpoints` for `region`, as [`endpoint_choice`] says.
pub fn choose_endpoint(endpoints: &StrMap<String>, region: &Option<String>) -> (r: Option<String>)
    requires
        endpoints.wf(),
    ensures
        opt_string_view(r) == endpoint_choice(*endpoints, opt_string_view(*region)),
{
    match region {
        Some(reg) => match endpoints.get(reg.as_str()) {
            Some(u) => Some(u.clone()),
            None => None,
        },
        None => {
            if let Some(u) = endpoints.get("global") {
                return Some(u.clone());
            }
            if let Some(u) = endpoints.get("cn") {
                return Some(u.clone());
            }
            if endpoints.len() > 0 {
                let (_, u) = endpoints.entry(0);
                Some(u.clone())
            } else {
                None
            }
        },
    }
}

/// Chooses the backend of a role.  `registered` holds the provider's
/// endpoints when the provider registry knows `config.provider`.
pub fn resolve_backend(config: &RoleConfig, registered: Option<&StrMap<String>>) -> (r: Result<
    Backend,
    ZeneError,
>)
    requires
        registered matches Some(e) ==> e.wf(),
    ensures
        config.base_url matches Some(u) ==> r matches Ok(b) && is_compatible(b, config.api_key@, u@),
        config.base_url is None ==> match registered {
            Some(e) => match endpoint_choice(*e, opt_string_view(config.region)) {
                Some(url) => r matches Ok(b) && is_compatible(b, config.api_key@, url),
                None => is_config_error(r, no_endpoint_message(config.provider@)),
            },
            None => builtin_ok(r, config.provider@, config.api_key@),
        },
{
    if let Some(u) = &config.base_url {
        return Ok(Backend::OpenAiCompatible { api_key: config.api_key.clone(), base_url: u.clone() });
    }
    match registered {
        Some(e) => match choose_endpoint(e, &config.region) {
            Some(url) => Ok(Backend::OpenAiCompatible { api_key: config.api_key.clone(), base_url: url }),
            None => {
                let mut m = owned("No endpoints found for provider: ");
                m.append(config.provider.as_str());
                Err(ZeneError::ConfigError(m))
            },
        },
        None => {
            let p = config.provider.as_str();
            if str_eq(p, "openai") {
                Ok(Backend::OpenAi { api_key: config.api_key.clone() })
            } else if str_eq(p, "anthropic") {
                Ok(Backend::Anthropic { api_key: config.api_key.clone() })
            } else if str_eq(p, "google") {
                Ok(Backend::Google { api_key: config.api_key.clone() })
            } else if str_eq(p, "ollama") {
                Ok(Backend::Ollama)
            } else {
                let mut m = owned("Unsupported provider: ");
                m.append(p);
                Err(ZeneError::ConfigError(m))
            }
        },
    }
}

} // verus!
