//! Language dispatch for a small scaffolding tool: which language a file
//! extension names, the starter program for it, how a dependency is declared,
//! which toolchain commands run it, and the layout of a new project.
//!
//! Everything here is pure: operations return plans of file-system effects
//! and process invocations, which the caller carries out.

pub mod engine;
pub mod inject;
pub mod languages;
pub mod laws;
pub mod plan;
pub mod template;
pub mod text;

pub use engine::{Action, Execution, Invocation, Platform, Step};
pub use inject::add_to_manifest;
pub use languages::{
    command_of, extension_of, parse_command, resolve, FileType, Functions, Language, MyCommand,
};
pub use plan::{FsOp, LionError, Plan};
pub use template::template;
