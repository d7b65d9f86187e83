//! Resolution and synthesis of QEMU launch configurations.
//!
//! A per-VM declaration is merged with optional overlay documents (a
//! `"defaults"` overlay and a guest-OS-keyed tweak overlay), every unset field
//! is filled with a built-in default, and the resolved record is translated
//! into the ordered command-line fragments for the emulator process.

pub mod hostprobe;
pub mod laws;
pub mod options;
pub mod paths;
pub mod resolve;
pub mod strutil;
pub mod synth;
pub mod utils;

use vstd::prelude::*;

verus! {

/// Error kinds raised while loading a configuration or synthesizing the
/// command line.
#[allow(non_camel_case_types)]
#[derive(Clone, Copy, Debug, PartialEq, Eq, Structural)]
pub enum ERRORCODES {
    OpenConfigFile,
    ReadConfigFile,
    NoSuchFile,
    ScsiControllerMissing,
    UnknownDiskController,
    MissingXdgRuntime,
    MissingXdgConfig,
    NoOpenPorts,
    YAML,
    MISC,
}

} // verus!
