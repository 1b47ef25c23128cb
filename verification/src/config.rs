//! Where a setting comes from. Each can be given on the command line, in the
//! environment and in the configuration file, and has a default; the first
//! of these that gives a value wins.

use vstd::prelude::*;

verus! {

/// Port of the address that the server listens on by default, on the
/// loopback interface.
pub const DEFAULT_PORT: u16 = 3583;

/// The configuration file that is read where none is named.
pub fn default_config_file() -> (path: &'static str)
    ensures
        path@ == "tapir.toml"@,
{
    "tapir.toml"
}

/// The upload directory where none is set.
pub fn default_upload() -> (path: &'static str)
    ensures
        path@ == "./upload"@,
{
    "./upload"
}

/// The key where none is set.
pub fn default_api_key() -> (key: &'static str)
    ensures
        key@ == "key"@,
{
    "key"
}

/// What the command line and the environment give for a setting: the value
/// of the command line, or else that of the environment.
pub fn pick<T>(cli: Option<T>, env: Option<T>) -> (chosen: Option<T>)
    ensures
        chosen == match cli {
            Some(value) => Some(value),
            None => env,
        },
{
    match cli {
        Some(value) => Some(value),
        None => env,
    }
}

/// The value of a setting: `chosen`, what the command line and the
/// environment gave and the server could read, or else the value of the
/// configuration file, or else the default.
pub fn settle<T>(chosen: Option<T>, file: Option<T>, default: T) -> (value: T)
    ensures
        value == match chosen {
            Some(value) => value,
            None => match file {
                Some(value) => value,
                None => default,
            },
        },
{
    match chosen {
        Some(value) => value,
        None => match file {
            Some(value) => value,
            None => default,
        },
    }
}

} // verus!
