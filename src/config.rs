//! Process configuration, from the values of its environment variables.

use crate::settings::DEFAULT_INTERVAL_SECS;
use crate::text::{parse_u64, parsed_u64};
use vstd::prelude::*;
use vstd::string::{StrSliceExecFns, StringExecFns};

verus! {

/// Why the configuration could not be formed.
#[derive(Debug)]
pub enum ConfigError {
    /// A required variable is unset; the text names it.
    MissingEnvVar(String),
    /// A variable holds a value that does not read; the variable and the value.
    InvalidValue(String, String),
}

impl ConfigError {
    /// A human-readable description.
    pub fn message(&self) -> (r: String)
        ensures
            r@ == (match *self {
                ConfigError::MissingEnvVar(v) => "Missing required environment variable: "@ + v@,
                ConfigError::InvalidValue(v, x) => "Invalid value for "@ + v@ + ": "@ + x@,
            }),
    {
        match self {
            ConfigError::MissingEnvVar(v) => String::from_str(
                "Missing required environment variable: ",
            ).concat(v.as_str()),
            ConfigError::InvalidValue(v, x) => String::from_str("Invalid value for ").concat(
                v.as_str(),
            ).concat(": ").concat(x.as_str()),
        }
    }
}

/// The sample rate of captured voice audio, in Hz.
pub const SAMPLE_RATE: u32 = 48000;

/// The channel count of captured voice audio.
pub const CHANNELS: u16 = 2;

/// Where transient audio files go when nothing else is set.
pub const DEFAULT_TEMP_AUDIO_DIR: &'static str = "temp_audio";

/// The process configuration.
#[derive(Debug, Clone)]
pub struct Config {
    pub discord_token: String,
    pub gemini_api_key: String,
    /// A single tenant to register commands with, during development.
    pub guild_id: Option<u64>,
    pub sample_rate: u32,
    pub channels: u16,
    pub temp_audio_dir: String,
    pub default_recording_interval: u64,
}

/// The variables' values, as far as they are set.
pub struct EnvValues {
    pub discord_token: Option<String>,
    pub gemini_api_key: Option<String>,
    pub guild_id: Option<String>,
    pub temp_audio_dir: Option<String>,
    pub recording_interval: Option<String>,
}

impl Config {
    /// Forms the configuration. Both credentials are required; an unset or
    /// empty tenant id means none, one that does not read is an error; the
    /// directory and the interval fall back to their defaults.
    pub fn from_values(env: EnvValues) -> (r: Result<Config, ConfigError>)
        ensures
            env.discord_token is None ==> (r is Err && r->Err_0 is MissingEnvVar
                && r->Err_0->MissingEnvVar_0@ == "DISCORD_TOKEN"@),
            env.discord_token is Some && env.gemini_api_key is None ==> (r is Err && r->Err_0
                is MissingEnvVar && r->Err_0->MissingEnvVar_0@ == "GEMINI_API_KEY"@),
            env.discord_token is Some && env.gemini_api_key is Some && env.guild_id is Some
                && env.guild_id->Some_0@.len() > 0 && parsed_u64(env.guild_id->Some_0@) is None ==> (
            r is Err && r->Err_0 is InvalidValue && r->Err_0->InvalidValue_0@ == "GUILD_ID"@
                && r->Err_0->InvalidValue_1 == env.guild_id->Some_0),
            r is Ok ==> {
                let c = r->Ok_0;
                &&& env.discord_token == Some(c.discord_token)
                &&& env.gemini_api_key == Some(c.gemini_api_key)
                &&& c.guild_id == (match env.guild_id {
                    Some(g) => if g@.len() == 0 {
                        None
                    } else {
                        parsed_u64(g@)
                    },
                    None => None,
                })
                &&& c.sample_rate == SAMPLE_RATE
                &&& c.channels == CHANNELS
                &&& c.temp_audio_dir@ == (match env.temp_audio_dir {
                    Some(d) => d@,
                    None => DEFAULT_TEMP_AUDIO_DIR@,
                })
                &&& c.default_recording_interval == (match env.recording_interval {
                    Some(v) => match parsed_u64(v@) {
                        Some(n) => n,
                        None => DEFAULT_INTERVAL_SECS,
                    },
                    None => DEFAULT_INTERVAL_SECS,
                })
            },
            (env.discord_token is Some && env.gemini_api_key is Some && !(env.guild_id is Some
                && env.guild_id->Some_0@.len() > 0 && parsed_u64(env.guild_id->Some_0@) is None))
                ==> r is Ok,
    {
        let discord_token = match env.discord_token {
            Some(t) => t,
            None => {
                return Err(ConfigError::MissingEnvVar(String::from_str("DISCORD_TOKEN")));
            },
        };
        let gemini_api_key = match env.gemini_api_key {
            Some(k) => k,
            None => {
                return Err(ConfigError::MissingEnvVar(String::from_str("GEMINI_API_KEY")));
            },
        };
        let guild_id = match env.guild_id {
            Some(g) => {
                if g.as_str().unicode_len() == 0 {
                    None
                } else {
                    match parse_u64(g.as_str()) {
                        Some(id) => Some(id),
                        None => {
                            return Err(
                                ConfigError::InvalidValue(String::from_str("GUILD_ID"), g),
                            );
                        },
                    }
                }
            },
            None => None,
        };
        let temp_audio_dir = match env.temp_audio_dir {
            Some(d) => d,
            None => String::from_str(DEFAULT_TEMP_AUDIO_DIR),
        };
        let default_recording_interval = match env.recording_interval {
            Some(v) => match parse_u64(v.as_str()) {
                Some(n) => n,
                None => DEFAULT_INTERVAL_SECS,
            },
            None => DEFAULT_INTERVAL_SECS,
        };
        Ok(
            Config {
                discord_token,
                gemini_api_key,
                guild_id,
                sample_rate: SAMPLE_RATE,
                channels: CHANNELS,
                temp_audio_dir,
                default_recording_interval,
            },
        )
    }
}

} // verus!
