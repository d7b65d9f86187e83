//! Host probes that lean on outside crates: the per-user configuration and
//! runtime directories, and the physical core count. Each outside call sits
//! behind a trusted declaration; everything that can fail is mapped to this
//! crate's error kinds in verified code.

use vstd::prelude::*;

use crate::ERRORCODES;

verus! {

#[verifier::external_type_specification]
#[verifier::external_body]
pub struct ExBaseDirs(directories::BaseDirs);

pub assume_specification[ directories::BaseDirs::new ]() -> Option<directories::BaseDirs>;

/// Relies on `directories::BaseDirs::config_dir`: the per-user configuration
/// directory, converted to a plain string (`None` when it is not valid
/// Unicode).
#[verifier::external_body]
fn config_dir_of(dirs: &directories::BaseDirs) -> Option<String> {
    dirs.config_dir().to_str().map(|s| s.to_string())
}

/// Relies on `directories::BaseDirs::runtime_dir`: the per-user runtime
/// directory, which the platform may not define, converted to a plain string
/// (`None` when missing or not valid Unicode).
#[verifier::external_body]
fn runtime_dir_of(dirs: &directories::BaseDirs) -> Option<String> {
    dirs.runtime_dir().and_then(|p| p.to_str()).map(|s| s.to_string())
}

/// Relies on `num_cpus::get_physical`: the host's physical core count, which
/// is documented to always be at least 1.
#[verifier::external_body]
fn physical_core_count() -> (n: usize)
    ensures
        n >= 1,
{
    num_cpus::get_physical()
}

/// The per-user configuration directory, under which overlay documents are
/// searched. Fails only with the missing-configuration-directory error; the
/// caller may degrade gracefully.
pub fn get_xdg_config_dir() -> (r: Result<String, ERRORCODES>)
    ensures
        match r {
            Ok(_) => true,
            Err(e) => e == ERRORCODES::MissingXdgConfig,
        },
{
    let dirs = match directories::BaseDirs::new() {
        Some(d) => d,
        None => {
            return Err(ERRORCODES::MissingXdgConfig);
        },
    };
    match config_dir_of(&dirs) {
        Some(s) => Ok(s),
        None => Err(ERRORCODES::MissingXdgConfig),
    }
}

/// The per-user runtime directory, which the audio backend's server socket
/// lives under. A host without the base directories fails with the
/// missing-configuration-directory error; one without a runtime directory
/// fails with the missing-runtime-directory error. Both are fatal to
/// synthesis.
pub fn get_xdg_runtime_dir() -> (r: Result<String, ERRORCODES>)
    ensures
        match r {
            Ok(_) => true,
            Err(e) => e == ERRORCODES::MissingXdgConfig || e == ERRORCODES::MissingXdgRuntime,
        },
{
    let dirs = match directories::BaseDirs::new() {
        Some(d) => d,
        None => {
            return Err(ERRORCODES::MissingXdgConfig);
        },
    };
    match runtime_dir_of(&dirs) {
        Some(s) => Ok(s),
        None => Err(ERRORCODES::MissingXdgRuntime),
    }
}

/// The host's physical core count, at least 1.
pub fn probe_physical_cores() -> (n: usize)
    ensures
        n >= 1,
{
    physical_core_count()
}

} // verus!
