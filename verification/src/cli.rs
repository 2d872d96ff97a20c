//! Decisions the binary makes before bring-up: how logging is configured
//! from the environment, and whether the command line is consistent with
//! the image's direction.

use vstd::prelude::*;

use crate::direction::Direction;
use crate::errors::UsageError;

verus! {

/// The observed state of the log filter environment variable.
#[derive(Debug, Clone)]
pub enum LogFilterVar {
    /// Present, with a valid UTF-8 value.
    Filter(String),
    /// Absent.
    Unset,
    /// Present, but not valid UTF-8.
    NotUnicode,
}

/// How logging is configured for the run.
#[derive(Debug, Clone)]
pub enum LogConfig {
    /// Parse the filters the environment names.
    Custom(String),
    /// Warn everywhere; info for the host driver, the debugger library and
    /// the target's own output.
    Defaults,
}

/// The configuration each state of the filter variable decides: a set
/// variable overrides the defaults, an unset one keeps them, and a value
/// that is not UTF-8 fails startup.
pub open spec fn spec_log_config(v: LogFilterVar) -> Result<LogConfig, UsageError> {
    match v {
        LogFilterVar::Filter(filters) => Ok(LogConfig::Custom(filters)),
        LogFilterVar::Unset => Ok(LogConfig::Defaults),
        LogFilterVar::NotUnicode => Err(UsageError::LogFilterNotUnicode),
    }
}

/// Decide the log configuration from the filter variable.
pub fn choose_log_config(var: LogFilterVar) -> (r: Result<LogConfig, UsageError>)
    ensures
        r == spec_log_config(var),
{
    match var {
        LogFilterVar::Filter(filters) => Ok(LogConfig::Custom(filters)),
        LogFilterVar::Unset => Ok(LogConfig::Defaults),
        LogFilterVar::NotUnicode => Err(UsageError::LogFilterNotUnicode),
    }
}

/// The module names raised to info level under the default configuration:
/// the host driver, the debugger library, and the target's forwarded output.
pub fn default_log_modules() -> (r: Vec<&'static str>)
    ensures
        r@.len() == 3,
        r@[0]@ == "rs_flash"@,
        r@[1]@ == "probe_rs"@,
        r@[2]@ == "target"@,
{
    let mut modules: Vec<&'static str> = Vec::new();
    modules.push("rs_flash");
    modules.push("probe_rs");
    modules.push("target");
    modules
}

/// What the host does with its data file.
#[derive(Debug, Clone, Copy, PartialEq, Eq, Structural)]
pub enum DataRole {
    /// Open the path given by `--data` and stream it into flash.
    LoadInput,
    /// Create the fixed dump output path and stream flash into it.
    DumpOutput,
}

/// The role the data argument plays for each direction: a Load image
/// requires `--data`, a Dump image forbids it.
pub open spec fn spec_data_role(direction: Direction, has_data: bool) -> Result<
    DataRole,
    UsageError,
> {
    match direction {
        Direction::Dump => {
            if has_data {
                Err(UsageError::DataWithDump)
            } else {
                Ok(DataRole::DumpOutput)
            }
        },
        Direction::Load => {
            if has_data {
                Ok(DataRole::LoadInput)
            } else {
                Err(UsageError::DataMissingForLoad)
            }
        },
    }
}

/// Validate the presence of `--data` against the image's direction.
pub fn validate_data_arg(direction: Direction, has_data: bool) -> (r: Result<
    DataRole,
    UsageError,
>)
    ensures
        r == spec_data_role(direction, has_data),
{
    match direction {
        Direction::Dump => {
            if has_data {
                Err(UsageError::DataWithDump)
            } else {
                Ok(DataRole::DumpOutput)
            }
        },
        Direction::Load => {
            if has_data {
                Ok(DataRole::LoadInput)
            } else {
                Err(UsageError::DataMissingForLoad)
            }
        },
    }
}

/// The fixed relative path a dump is written to.
pub fn dump_output_path() -> (r: &'static str)
    ensures
        r@ == "dump.bin"@,
{
    "dump.bin"
}

} // verus!
