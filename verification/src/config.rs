//! Settling what a run works with: endpoint, model, credential and system
//! prompt, each from the most specific source that names it.

use vstd::prelude::*;
use crate::error::ClientError;
use crate::request::DEFAULT_MODEL;

verus! {

/// The endpoint used when the configuration names none.
pub const DEFAULT_BASE_URL: &'static str = "https://api.anthropic.com/v1/chat/completions";

/// The system prompt used when the configuration holds none.
pub const DEFAULT_PROMPT: &'static str =
    "You are a helpful assistant that uses information such as the path to a file to provide information on the file such as what programs its used with.";

/// What the configuration file may hold. Every entry is optional.
#[derive(Debug, Clone, PartialEq)]
pub struct Config {
    pub base_url: Option<String>,
    pub model: Option<String>,
    pub api_key: Option<String>,
    pub prompt: Option<String>,
}

/// What a run works with once every source has been consulted.
#[derive(Debug, Clone, PartialEq)]
pub struct Session {
    pub base_url: String,
    pub model: String,
    pub api_key: String,
    pub prompt: String,
}

/// The text of `preferred` where there is one, else `fallback`.
pub open spec fn text_or(preferred: Option<String>, fallback: Seq<char>) -> Seq<char> {
    match preferred {
        Some(text) => text@,
        None => fallback,
    }
}

fn pick(preferred: Option<String>, fallback: &str) -> (text: String)
    ensures
        text@ == text_or(preferred, fallback@),
{
    match preferred {
        Some(text) => text,
        None => String::from_str(fallback),
    }
}

/// Settles a session. The credential from the environment wins over the
/// configured one, and the model named on the command line over the
/// configured one, which wins over the builder's default. Fails with `Configuration` exactly when no source holds a
/// credential.
pub fn resolve(config: Config, env_key: Option<String>, model_flag: Option<String>) -> (settled:
    Result<Session, ClientError>)
    ensures
        match settled {
            Ok(session) => {
                &&& env_key is Some || config.api_key is Some
                &&& session.api_key == (if env_key is Some {
                    env_key->0
                } else {
                    config.api_key->0
                })
                &&& session.base_url@ == text_or(config.base_url, DEFAULT_BASE_URL@)
                &&& session.model@ == text_or(
                    model_flag,
                    text_or(config.model, DEFAULT_MODEL@),
                )
                &&& session.prompt@ == text_or(config.prompt, DEFAULT_PROMPT@)
            },
            Err(e) => env_key is None && config.api_key is None && e == ClientError::Configuration,
        },
{
    let Config { base_url, model, api_key, prompt } = config;
    let api_key = match env_key {
        Some(key) => key,
        None => match api_key {
            Some(key) => key,
            None => { return Err(ClientError::Configuration); },
        },
    };
    let configured_model = pick(model, DEFAULT_MODEL);
    Ok(
        Session {
            base_url: pick(base_url, DEFAULT_BASE_URL),
            model: pick(model_flag, configured_model.as_str()),
            api_key,
            prompt: pick(prompt, DEFAULT_PROMPT),
        },
    )
}

} // verus!
