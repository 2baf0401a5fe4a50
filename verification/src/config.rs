//! The configuration file: where it lies and what it must hold.

use vstd::prelude::*;
use crate::error::StartupError;
use crate::json::{json_document, parse, Json, JsonValue};
use crate::request::Credentials;

verus! {

/// Where the configuration file lies, from the user's home directory.
pub const CONFIG_FILE: &'static str = ".config/scoop/config.json";

/// The key and the secret that a configuration document holds: the strings
/// under its members `sd_apikey` and `sd_apisecret`. `None` where the
/// document is no object or lacks either string.
pub open spec fn credentials_of(document: JsonValue) -> Option<(Seq<char>, Seq<char>)> {
    match (document.member("sd_apikey"@), document.member("sd_apisecret"@)) {
        (Some(JsonValue::Text(key)), Some(JsonValue::Text(secret))) => Some((key, secret)),
        _ => None,
    }
}

/// The key and the secret that a configuration text holds.
pub open spec fn credentials_in(text: Seq<char>) -> Option<(Seq<char>, Seq<char>)> {
    match json_document(text) {
        Some(document) => credentials_of(document),
        None => None,
    }
}

/// Reads the credentials out of a configuration document.
pub fn read_credentials(document: &Json) -> (credentials: Option<Credentials>)
    ensures
        match credentials {
            Some(found) => credentials_of(document@) == Some((found.key@, found.secret@)),
            None => credentials_of(document@) is None,
        },
{
    let key = match document.member("sd_apikey") {
        Some(Json::Text(key)) => key,
        _ => {
            return None;
        },
    };
    let secret = match document.member("sd_apisecret") {
        Some(Json::Text(secret)) => secret,
        _ => {
            return None;
        },
    };
    Some(Credentials { key: key.clone(), secret: secret.clone() })
}

/// Reads the credentials out of the text of a configuration file.
pub fn parse_credentials(text: &str) -> (credentials: Result<Credentials, StartupError>)
    ensures
        match credentials {
            Ok(found) => credentials_in(text@) == Some((found.key@, found.secret@)),
            Err(error) => credentials_in(text@) is None && error == StartupError::ConfigMalformed,
        },
{
    let document = match parse(text) {
        Some(document) => document,
        None => {
            return Err(StartupError::ConfigMalformed);
        },
    };
    match read_credentials(&document) {
        Some(found) => Ok(found),
        None => Err(StartupError::ConfigMalformed),
    }
}

/// Decides how the session starts from what was found at [`CONFIG_FILE`]:
/// `None` where there is no such file, else the file's text.
pub fn load_credentials(file: Option<&str>) -> (credentials: Result<Credentials, StartupError>)
    ensures
        match credentials {
            Ok(found) => file matches Some(text) && credentials_in(text@) == Some(
                (found.key@, found.secret@),
            ),
            Err(StartupError::ConfigMissing) => file is None,
            Err(StartupError::ConfigMalformed) => file matches Some(text) && credentials_in(text@)
                is None,
        },
{
    match file {
        Some(text) => parse_credentials(text),
        None => Err(StartupError::ConfigMissing),
    }
}

} // verus!
