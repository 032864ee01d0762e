//! Engine errors and their classification for hosts.

use vstd::prelude::*;
use crate::text::owned;

verus! {

/// What went wrong in the engine.  Errors that come from outside libraries
/// carry their message.
#[derive(Debug, Clone)]
pub enum ZeneError {
    ConfigError(String),
    ModelError(String),
    ToolError(String),
    SessionError(String),
    McpError(String),
    IoError(String),
    SerializationError(String),
    InternalError(String),
    AnyhowError(String),
    GrepError(String),
    TreeSitterError(String),
    LanguageError(String),
    LlmConnectorError(String),
    ReqwestError(String),
    McpSdkError(String),
    ProviderError(String),
    Cancelled(String),
}

/// The prefix of an error's message, by kind.
pub open spec fn error_prefix(e: ZeneError) -> Seq<char> {
    match e {
        ZeneError::ConfigError(_) => "Configuration error: "@,
        ZeneError::ModelError(_) => "Model/LLM error: "@,
        ZeneError::ToolError(_) => "Tool execution error: "@,
        ZeneError::SessionError(_) => "Session error: "@,
        ZeneError::McpError(_) => "MCP error: "@,
        ZeneError::IoError(_) => "I/O error: "@,
        ZeneError::SerializationError(_) => "Serialization error: "@,
        ZeneError::InternalError(_) => "Internal error: "@,
        ZeneError::AnyhowError(_) => "Anyhow error: "@,
        ZeneError::GrepError(_) => "Grep error: "@,
        ZeneError::TreeSitterError(_) => "Tree-sitter error: "@,
        ZeneError::LanguageError(_) => "Language error: "@,
        ZeneError::LlmConnectorError(_) => "LLM Connector error: "@,
        ZeneError::ReqwestError(_) => "Reqwest error: "@,
        ZeneError::McpSdkError(_) => "MCP SDK error: "@,
        ZeneError::ProviderError(_) => "Provider error: "@,
        ZeneError::Cancelled(_) => "Run cancelled: "@,
    }
}

/// The detail an error carries.
pub open spec fn error_detail(e: ZeneError) -> Seq<char> {
    match e {
        ZeneError::ConfigError(s) => s@,
        ZeneError::ModelError(s) => s@,
        ZeneError::ToolError(s) => s@,
        ZeneError::SessionError(s) => s@,
        ZeneError::McpError(s) => s@,
        ZeneError::IoError(s) => s@,
        ZeneError::SerializationError(s) => s@,
        ZeneError::InternalError(s) => s@,
        ZeneError::AnyhowError(s) => s@,
        ZeneError::GrepError(s) => s@,
        ZeneError::TreeSitterError(s) => s@,
        ZeneError::LanguageError(s) => s@,
        ZeneError::LlmConnectorError(s) => s@,
        ZeneError::ReqwestError(s) => s@,
        ZeneError::McpSdkError(s) => s@,
        ZeneError::ProviderError(s) => s@,
        ZeneError::Cancelled(s) => s@,
    }
}

/// The code a host sees for an engine error.
pub open spec fn error_code_spec(e: ZeneError) -> Seq<char> {
    match e {
        ZeneError::ConfigError(_) => "INVALID_REQUEST"@,
        ZeneError::ProviderError(_) | ZeneError::LlmConnectorError(_) | ZeneError::ModelError(
            _,
        ) => "PROVIDER_ERROR"@,
        ZeneError::ReqwestError(_) => "PROVIDER_DOWN"@,
        ZeneError::Cancelled(_) => "CANCELED"@,
        _ => "INTERNAL"@,
    }
}

impl ZeneError {
    /// The human-readable message: a prefix naming the kind, then the
    /// detail.
    pub fn message(&self) -> (m: String)
        ensures
            m@ == error_prefix(*self) + error_detail(*self),
    {
        let (mut m, d) = match self {
            ZeneError::ConfigError(s) => (owned("Configuration error: "), s),
            ZeneError::ModelError(s) => (owned("Model/LLM error: "), s),
            ZeneError::ToolError(s) => (owned("Tool execution error: "), s),
            ZeneError::SessionError(s) => (owned("Session error: "), s),
            ZeneError::McpError(s) => (owned("MCP error: "), s),
            ZeneError::IoError(s) => (owned("I/O error: "), s),
            ZeneError::SerializationError(s) => (owned("Serialization error: "), s),
            ZeneError::InternalError(s) => (owned("Internal error: "), s),
            ZeneError::AnyhowError(s) => (owned("Anyhow error: "), s),
            ZeneError::GrepError(s) => (owned("Grep error: "), s),
            ZeneError::TreeSitterError(s) => (owned("Tree-sitter error: "), s),
            ZeneError::LanguageError(s) => (owned("Language error: "), s),
            ZeneError::LlmConnectorError(s) => (owned("LLM Connector error: "), s),
            ZeneError::ReqwestError(s) => (owned("Reqwest error: "), s),
            ZeneError::McpSdkError(s) => (owned("MCP SDK error: "), s),
            ZeneError::ProviderError(s) => (owned("Provider error: "), s),
            ZeneError::Cancelled(s) => (owned("Run cancelled: "), s),
        };
        m.append(d.as_str());
        m
    }

    /// The code under which a host reports this error.
    pub fn classify_error_code(&self) -> (c: String)
        ensures
            c@ == error_code_spec(*self),
    {
        match self {
            ZeneError::ConfigError(_) => owned("INVALID_REQUEST"),
            ZeneError::ProviderError(_) | ZeneError::LlmConnectorError(_)
            | ZeneError::ModelError(_) => owned("PROVIDER_ERROR"),
            ZeneError::ReqwestError(_) => owned("PROVIDER_DOWN"),
            ZeneError::Cancelled(_) => owned("CANCELED"),
            _ => owned("INTERNAL"),
        }
    }

    /// Whether the error is a cancellation.
    pub fn is_cancelled(&self) -> (b: bool)
        ensures
            b == (*self is Cancelled),
    {
        match self {
            ZeneError::Cancelled(_) => true,
            _ => false,
        }
    }
}

/// Fails with a cancellation error when the run was asked to stop.
pub fn ensure_not_cancelled(cancelled: bool) -> (r: Result<(), ZeneError>)
    ensures
        cancelled <==> r is Err,
        r matches Err(e) ==> e matches ZeneError::Cancelled(s) && s@ == "run cancelled by host"@,
{
    if cancelled {
        Err(ZeneError::Cancelled(owned("run cancelled by host")))
    } else {
        Ok(())
    }
}

} // verus!
