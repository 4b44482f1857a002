//! The settings that the service is started with.
use crate::census::utils::DecodeError;
use crate::json::{Json, JsonValue};
use crate::text::same_text;
use vstd::prelude::*;

verus! {

/// How much the service writes to its log.
#[derive(Clone, Copy, Debug, PartialEq, Eq, Structural)]
pub enum Level {
    Error,
    Warn,
    Info,
    Debug,
    Trace,
}

/// A kind of setting that is read from a document in a way of its own.
pub trait DeserializeWith: Sized {
    /// What a document stands for as a setting of this kind.
    spec fn spec_deserialize_with(value: JsonValue) -> Result<Self, DecodeError>;

    /// Reads a setting of this kind from a document.
    fn deserialize_with(value: &Json) -> (r: Result<Self, DecodeError>)
        ensures
            r == Self::spec_deserialize_with(value@),
    ;
}

impl DeserializeWith for Level {
    /// A level is written as a string that holds its name, the first letter
    /// a capital.
    open spec fn spec_deserialize_with(value: JsonValue) -> Result<Level, DecodeError> {
        match value {
            JsonValue::Text(s) => if s == "Error"@ {
                Ok(Level::Error)
            } else if s == "Warn"@ {
                Ok(Level::Warn)
            } else if s == "Info"@ {
                Ok(Level::Info)
            } else if s == "Debug"@ {
                Ok(Level::Debug)
            } else if s == "Trace"@ {
                Ok(Level::Trace)
            } else {
                Err(DecodeError::InvalidValue)
            },
            _ => Err(DecodeError::InvalidType),
        }
    }

    fn deserialize_with(value: &Json) -> (r: Result<Level, DecodeError>) {
        let s = match value {
            Json::Text(s) => s.as_str(),
            _ => return Err(DecodeError::InvalidType),
        };
        if same_text(s, "Error") {
            Ok(Level::Error)
        } else if same_text(s, "Warn") {
            Ok(Level::Warn)
        } else if same_text(s, "Info") {
            Ok(Level::Info)
        } else if same_text(s, "Debug") {
            Ok(Level::Debug)
        } else if same_text(s, "Trace") {
            Ok(Level::Trace)
        } else {
            Err(DecodeError::InvalidValue)
        }
    }
}

/// Where and as whom the game's services are reached. The addresses are
/// URLs.
#[derive(Debug, Clone)]
#[allow(unused)]
pub struct CensusConfig {
    pub realtime_base_url: String,
    pub census_base_url: String,
    pub service_id: String,
}

#[derive(Debug, Clone)]
#[allow(unused)]
pub struct DatabaseConfig {
    pub connection_string: String,
}

#[derive(Debug, Clone, Copy)]
#[allow(unused)]
pub struct AppConfig {
    pub log_level: Level,
}

#[derive(Debug, Clone)]
#[allow(unused)]
pub struct Settings {
    pub census: CensusConfig,
    pub database: DatabaseConfig,
    pub app: AppConfig,
}

} // verus!
