//! What the AI provider router decides before it calls out: which
//! endpoint, which key, and what a piece of an answer looks like.

use vstd::prelude::*;
use vstd::string::StringExecFns;

verus! {

/// The endpoint to call: the one given, or the default where none is
/// given or the one given is empty.
pub fn resolve_endpoint(endpoint: Option<String>, default: &str) -> (r: String)
    ensures
        r@ == match endpoint {
            Some(e) => if e@.len() > 0 {
                e@
            } else {
                default@
            },
            None => default@,
        },
{
    match endpoint {
        Some(e) => {
            if e.as_str().is_empty() {
                default.to_owned()
            } else {
                e
            }
        },
        None => default.to_owned(),
    }
}

/// The API key, which must be given and not be empty.
pub fn require_key(api_key: Option<String>) -> (r: Result<String, String>)
    ensures
        match r {
            Ok(key) => api_key == Some(key) && key@.len() > 0,
            Err(message) => {
                &&& message@ == "API key is required"@
                &&& api_key matches Some(key) ==> key@.len() == 0
            },
        },
{
    match api_key {
        Some(key) => {
            if key.as_str().is_empty() {
                Err("API key is required".to_owned())
            } else {
                Ok(key)
            }
        },
        None => Err("API key is required".to_owned()),
    }
}

/// The API key of a provider, or the message that says it is missing.
pub fn require_api_key(api_key: &Option<String>, provider_name: &str) -> (r: Result<String, String>)
    ensures
        match r {
            Ok(key) => *api_key == Some(key) && key@.len() > 0,
            Err(message) => {
                &&& message@ == provider_name@ + " API key is required"@
                &&& *api_key matches Some(key) ==> key@.len() == 0
            },
        },
{
    match api_key {
        Some(key) => {
            if !key.as_str().is_empty() {
                return Ok(key.clone());
            }
        },
        None => {},
    }
    let mut message = provider_name.to_owned();
    message.append(" API key is required");
    Err(message)
}

/// A command-line provider and whether it was found on this machine.
#[derive(Debug)]
pub struct CliProviderEntry {
    pub provider_type: String,
    pub name: String,
    pub command: String,
    pub available: bool,
    pub path: Option<String>,
}

impl CliProviderEntry {
    /// The entry for a provider, given the command that runs it, which is
    /// also its type, and where that command was found.
    pub fn detected(command: &str, name: &str, found_at: Option<String>) -> (r: CliProviderEntry)
        ensures
            r.provider_type@ == command@,
            r.name@ == name@,
            r.command@ == command@,
            r.available == found_at is Some,
            r.path == found_at,
    {
        CliProviderEntry {
            provider_type: command.to_owned(),
            name: name.to_owned(),
            command: command.to_owned(),
            available: found_at.is_some(),
            path: found_at,
        }
    }
}

/// A piece of an answer, as it is streamed to the frontend.
#[derive(Debug)]
pub struct AiResponseChunk {
    pub request_id: String,
    pub chunk: String,
    pub done: bool,
    pub error: Option<String>,
}

impl AiResponseChunk {
    /// A piece of text; more may follow.
    pub fn text(request_id: &str, text: &str) -> (r: AiResponseChunk)
        ensures
            r.request_id@ == request_id@,
            r.chunk@ == text@,
            !r.done,
            r.error is None,
    {
        AiResponseChunk {
            request_id: request_id.to_owned(),
            chunk: text.to_owned(),
            done: false,
            error: None,
        }
    }

    /// The end of an answer.
    pub fn finished(request_id: &str) -> (r: AiResponseChunk)
        ensures
            r.request_id@ == request_id@,
            r.chunk@.len() == 0,
            r.done,
            r.error is None,
    {
        AiResponseChunk {
            request_id: request_id.to_owned(),
            chunk: String::new(),
            done: true,
            error: None,
        }
    }

    /// The end of an answer that failed.
    pub fn failed(request_id: &str, message: &str) -> (r: AiResponseChunk)
        ensures
            r.request_id@ == request_id@,
            r.chunk@.len() == 0,
            r.done,
            r.error matches Some(e) && e@ == message@,
    {
        AiResponseChunk {
            request_id: request_id.to_owned(),
            chunk: String::new(),
            done: true,
            error: Some(message.to_owned()),
        }
    }
}

} // verus!
