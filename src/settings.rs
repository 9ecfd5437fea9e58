//! Per-tenant settings: the analysis mode and the recording interval, how a
//! stored value updates them, and how a settings command is checked.

use crate::mode::{lowercase_of, mode_named, AnalysisMode};
use crate::text::{parse_u64, parsed_u64};
use vstd::prelude::*;
use vstd::string::StringExecFns;

verus! {

/// The interval between periodic analyses when a tenant set none, in seconds.
pub const DEFAULT_INTERVAL_SECS: u64 = 300;

/// The shortest interval a tenant may set, in seconds.
pub const MIN_INTERVAL_SECS: i64 = 60;

/// A tenant's settings.
#[derive(Debug, Clone)]
pub struct GuildSettings {
    pub guild_id: u64,
    pub api_key: Option<String>,
    pub analysis_mode: AnalysisMode,
    pub recording_interval: u64,
}

impl Default for GuildSettings {
    fn default() -> (r: GuildSettings)
        ensures
            r.guild_id == 0,
            r.api_key is None,
            r.analysis_mode == AnalysisMode::Debate,
            r.recording_interval == DEFAULT_INTERVAL_SECS,
    {
        GuildSettings {
            guild_id: 0,
            api_key: None,
            analysis_mode: AnalysisMode::Debate,
            recording_interval: DEFAULT_INTERVAL_SECS,
        }
    }
}

impl GuildSettings {
    /// The settings of a tenant that stored none.
    pub fn for_guild(guild_id: u64) -> (r: GuildSettings)
        ensures
            r.guild_id == guild_id,
            r.api_key is None,
            r.analysis_mode == AnalysisMode::Debate,
            r.recording_interval == DEFAULT_INTERVAL_SECS,
    {
        GuildSettings {
            guild_id,
            api_key: None,
            analysis_mode: AnalysisMode::Debate,
            recording_interval: DEFAULT_INTERVAL_SECS,
        }
    }

    /// Settings read back from storage; an unknown mode name reads as the
    /// default mode.
    pub fn from_stored(guild_id: u64, api_key: Option<String>, mode_name: &str, recording_interval: u64) -> (r:
        GuildSettings)
        ensures
            r.guild_id == guild_id,
            r.api_key == api_key,
            r.analysis_mode == (match mode_named(lowercase_of(mode_name@)) {
                Some(m) => m,
                None => AnalysisMode::Debate,
            }),
            r.recording_interval == recording_interval,
    {
        let analysis_mode = match AnalysisMode::from_str(mode_name) {
            Some(m) => m,
            None => AnalysisMode::Debate,
        };
        GuildSettings { guild_id, api_key, analysis_mode, recording_interval }
    }

    /// Applies one stored `key = value` update. A value that does not read
    /// as a mode or an interval, or an unknown key, changes nothing.
    pub fn apply_update(&mut self, key: &str, value: &str)
        ensures
            final(self).guild_id == old(self).guild_id,
            key@ == "api_key"@ ==> final(self).api_key is Some && final(self).api_key->Some_0@
                == value@,
            key@ != "api_key"@ ==> final(self).api_key == old(self).api_key,
            final(self).analysis_mode == (if key@ == "analysis_mode"@ && mode_named(
                lowercase_of(value@),
            ) is Some {
                mode_named(lowercase_of(value@))->Some_0
            } else {
                old(self).analysis_mode
            }),
            final(self).recording_interval == (if key@ == "recording_interval"@ && parsed_u64(
                value@,
            ) is Some {
                parsed_u64(value@)->Some_0
            } else {
                old(self).recording_interval
            }),
    {
        proof {
            reveal_strlit("api_key");
            reveal_strlit("analysis_mode");
            reveal_strlit("recording_interval");
            assert("api_key"@.len() != "analysis_mode"@.len());
            assert("api_key"@.len() != "recording_interval"@.len());
            assert("analysis_mode"@.len() != "recording_interval"@.len());
        }
        let k = String::from_str(key);
        if k == String::from_str("api_key") {
            self.api_key = Some(String::from_str(value));
        } else if k == String::from_str("analysis_mode") {
            if let Some(mode) = AnalysisMode::from_str(value) {
                self.analysis_mode = mode;
            }
        } else if k == String::from_str("recording_interval") {
            if let Some(interval) = parse_u64(value) {
                self.recording_interval = interval;
            }
        }
    }
}

/// A checked settings command.
#[derive(Debug, PartialEq, Eq, Structural)]
pub enum SettingsCommand {
    SetMode(AnalysisMode),
    SetInterval(u64),
}

/// The value given with a settings subcommand.
pub enum SettingsArgument {
    Text(String),
    Integer(i64),
    Missing,
}

/// Why a settings command was turned down.
#[derive(Debug, PartialEq, Eq, Structural)]
pub enum SettingsRejection {
    /// No subcommand was given.
    MissingSubcommand,
    /// The subcommand is not known.
    UnknownSubcommand,
    /// The mode name is neither `debate` nor `summary`.
    UnknownMode,
    /// The interval is shorter than the minimum.
    IntervalTooShort,
    /// The subcommand came without a value of the right kind.
    MissingValue,
}

/// The reply for a rejected settings command.
pub fn rejection_text(r: SettingsRejection) -> (t: &'static str)
    ensures
        r == SettingsRejection::MissingSubcommand ==> t@ == "サブコマンドを指定してください。"@,
        r == SettingsRejection::UnknownSubcommand ==> t@ == "不明なサブコマンドです。"@,
        r == SettingsRejection::UnknownMode ==> t@
            == "❌ モードは 'debate' または 'summary' を指定してください。"@,
        r == SettingsRejection::IntervalTooShort ==> t@ == "❌ 間隔は最短60秒です。"@,
        r == SettingsRejection::MissingValue ==> t@ == "値を指定してください。"@,
{
    match r {
        SettingsRejection::MissingSubcommand => "サブコマンドを指定してください。",
        SettingsRejection::UnknownSubcommand => "不明なサブコマンドです。",
        SettingsRejection::UnknownMode => "❌ モードは 'debate' または 'summary' を指定してください。",
        SettingsRejection::IntervalTooShort => "❌ 間隔は最短60秒です。",
        SettingsRejection::MissingValue => "値を指定してください。",
    }
}

/// Checks a settings command: `set_mode` with a mode name, or
/// `set_interval` with a number of seconds no smaller than the minimum.
pub fn check_settings_command(subcommand: Option<&str>, argument: SettingsArgument) -> (r: Result<
    SettingsCommand,
    SettingsRejection,
>)
    ensures
        subcommand is None ==> r == Err::<SettingsCommand, SettingsRejection>(
            SettingsRejection::MissingSubcommand,
        ),
        subcommand is Some && subcommand->Some_0@ == "set_mode"@ ==> match argument {
            SettingsArgument::Text(t) => match mode_named(lowercase_of(t@)) {
                Some(m) => r == Ok::<SettingsCommand, SettingsRejection>(SettingsCommand::SetMode(m)),
                None => r == Err::<SettingsCommand, SettingsRejection>(
                    SettingsRejection::UnknownMode,
                ),
            },
            _ => r == Err::<SettingsCommand, SettingsRejection>(SettingsRejection::MissingValue),
        },
        subcommand is Some && subcommand->Some_0@ == "set_interval"@ ==> match argument {
            SettingsArgument::Integer(n) => if n < MIN_INTERVAL_SECS {
                r == Err::<SettingsCommand, SettingsRejection>(SettingsRejection::IntervalTooShort)
            } else {
                r == Ok::<SettingsCommand, SettingsRejection>(SettingsCommand::SetInterval(n as u64))
            },
            _ => r == Err::<SettingsCommand, SettingsRejection>(SettingsRejection::MissingValue),
        },
        subcommand is Some && subcommand->Some_0@ != "set_mode"@ && subcommand->Some_0@
            != "set_interval"@ ==> r == Err::<SettingsCommand, SettingsRejection>(
            SettingsRejection::UnknownSubcommand,
        ),
{
    proof {
        reveal_strlit("set_mode");
        reveal_strlit("set_interval");
        assert("set_mode"@.len() != "set_interval"@.len());
    }
    let name = match subcommand {
        Some(s) => String::from_str(s),
        None => {
            return Err(SettingsRejection::MissingSubcommand);
        },
    };
    if name == String::from_str("set_mode") {
        match argument {
            SettingsArgument::Text(t) => match AnalysisMode::from_str(t.as_str()) {
                Some(m) => Ok(SettingsCommand::SetMode(m)),
                None => Err(SettingsRejection::UnknownMode),
            },
            _ => Err(SettingsRejection::MissingValue),
        }
    } else if name == String::from_str("set_interval") {
        match argument {
            SettingsArgument::Integer(n) => if n < MIN_INTERVAL_SECS {
                Err(SettingsRejection::IntervalTooShort)
            } else {
                Ok(SettingsCommand::SetInterval(n as u64))
            },
            _ => Err(SettingsRejection::MissingValue),
        }
    } else {
        Err(SettingsRejection::UnknownSubcommand)
    }
}

} // verus!
