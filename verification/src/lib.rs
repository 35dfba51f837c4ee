//! A small build system for build scripts: it finds source files, has each compiled, tells the
//! host build system which files the result depends on, and has the objects linked into one
//! product.
//!
//! The library decides and never acts: it reads no directory, starts no process and prints
//! nothing. See [`build_system`] for how a build is driven.
pub mod build_laws;
pub mod build_system;
pub mod buildkit;
pub mod command;
pub mod compile;
pub mod dependency_parser;
pub mod diagnostics;
pub mod link;
pub mod path;
pub mod text;

pub use build_system::{BuildEvent, BuildRequest, BuildSystem};
pub use buildkit::{
    BuildSettings, BuildSettingsBuilder, CompileStep, Configuration, Environment, LinkStep,
    PathType, SourceFileStrategy,
};
pub use path::BuildPath;
