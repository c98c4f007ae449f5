//! Sandbox composition for a source-based package manager.
//!
//! A build runs in a sandbox that holds its declared dependencies and nothing else of the
//! host. This library decides what is mounted where, under which names, and in which
//! order the sandbox launcher is told about it; it starts no process itself. A caller
//! takes an [`sandbox::Invocation`] from here and spawns it, and reports the outcome of
//! each build command back to [`execution`].
//!
//! - [`path`]: host and sandbox paths, the standard sandbox directories, file names.
//! - [`mount`]: directories, bind mounts and symlinks, and their launcher arguments.
//! - [`derivation`]: from a declared dependency to its mount.
//! - [`sandbox`]: the sandbox builder and the invocation it is finalized into.
//! - [`launch`]: what every sandbox holds, and the interpreter patch.
//! - [`project`]: projects, their dependencies and build commands.
//! - [`execution`]: the course of a build, command by command.
//! - [`failure`]: the ways in which a build step fails.
//! - [`stage`]: the stages of the toolchain bootstrap.

pub mod derivation;
pub mod execution;
pub mod failure;
pub mod launch;
pub mod mount;
pub mod path;
pub mod project;
pub mod sandbox;
pub mod stage;
