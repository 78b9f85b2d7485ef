//! Build-time orchestration for compiling SPMD source modules with an external
//! cross-compiling toolchain and bundling the produced objects into one static
//! archive.
//!
//! The library holds the pure, verified core: the configuration model and its
//! fluent builder, environment-driven resolution of defaults, the deterministic
//! translation of a configuration into the compiler's command line, validation
//! of the archive name, computation of the per-ISA object candidates, the
//! discovery filter over probe results, and classification of a compiler run's
//! outcome. Reading the real process environment, spawning the compiler,
//! probing the filesystem and driving the native archiver are left to the
//! surrounding (unverified) driver, which hands this library plain values.

pub mod config;
pub mod discovery;
pub mod errors;
pub mod options;
pub mod paths;
pub mod text;

pub use config::{
    BuildPlan, Config, Env, SourcePlan, Tool, check_output_name, compile_library,
};
pub use errors::{BuildError, SpawnOutcome, classify_outcome};
pub use options::{Addr, Arch, Cpu, Math, Target};
