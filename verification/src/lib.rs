//! Build orchestrator for C projects: a declarative project description is
//! decoded into a validated configuration, dependencies are resolved to
//! on-disk locations, and the compile/link engine computes which sources are
//! compiled, in what order, and how the outputs are combined.
//!
//! The library computes plans (command lines, file contents, fetch actions);
//! a thin driver around it performs the actual process, file-system and
//! network work.

pub mod compiler;
pub mod config;
pub mod creator;
pub mod deps;
pub mod error;
pub mod executor;
pub mod files;
pub mod initiator;
pub mod lua_utils;
pub mod scripts;
pub mod tips;
pub mod util;
