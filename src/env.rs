//! The environment variables that the project reads, and the errors for
//! one that is missing or not valid text.
use vstd::prelude::*;
use crate::errors::LitterboxError;

verus! {

/// An environment variable as the process found it.
pub enum EnvValue {
    Unset,
    /// Set, but not valid Unicode; holds a lossy rendering.
    NotUnicode(String),
    Value(String),
}

/// The value of the variable `name`, or the error that says why there is
/// none.
pub open spec fn env_result_ok(value: EnvValue, r: Result<String, LitterboxError>, name: Seq<char>) -> bool {
    match value {
        EnvValue::Unset => r matches Err(LitterboxError::EnvVarUndefined(n)) && n@ == name,
        EnvValue::NotUnicode(raw) => r matches Err(LitterboxError::EnvVarInvalid(n, v)) && n@
            == name && v@ == raw@,
        EnvValue::Value(v) => r matches Ok(s) && s@ == v@,
    }
}

fn get_env(name: &str, value: EnvValue) -> (r: Result<String, LitterboxError>)
    ensures
        env_result_ok(value, r, name@),
{
    match value {
        EnvValue::Unset => Err(LitterboxError::EnvVarUndefined(String::from_str(name))),
        EnvValue::NotUnicode(raw) => Err(LitterboxError::EnvVarInvalid(String::from_str(name), raw)),
        EnvValue::Value(v) => Ok(v),
    }
}

/// `HOME`, given how the process found it.
pub fn home_dir(value: EnvValue) -> (r: Result<String, LitterboxError>)
    ensures
        env_result_ok(value, r, "HOME"@),
{
    get_env("HOME", value)
}

/// `WAYLAND_DISPLAY`, given how the process found it.
pub fn wayland_display(value: EnvValue) -> (r: Result<String, LitterboxError>)
    ensures
        env_result_ok(value, r, "WAYLAND_DISPLAY"@),
{
    get_env("WAYLAND_DISPLAY", value)
}

/// `XDG_RUNTIME_DIR`, given how the process found it.
pub fn xdg_runtime_dir(value: EnvValue) -> (r: Result<String, LitterboxError>)
    ensures
        env_result_ok(value, r, "XDG_RUNTIME_DIR"@),
{
    get_env("XDG_RUNTIME_DIR", value)
}

} // verus!
