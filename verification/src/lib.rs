//! A library for build scripts that stage a Node-style package into a working
//! directory, install its dependencies once, and run its scripts through the
//! `npm` tool.
//!
//! Configuration is accumulated in the [`Build`] builder. A script run is
//! split in two: the library locates the tool, stages the project and hands
//! back the exact tool invocations still to be made (a [`ScriptRun`]); the
//! embedding build script executes them and reports a successful install back
//! through [`Build::confirm_installed`].

pub mod builder;
pub mod environment;
pub mod error;
pub mod paths;
pub mod staging;

pub use builder::Build;
pub use builder::Invocation;
pub use builder::ScriptRun;
pub use environment::default_node_env;
pub use environment::NodeEnv;
pub use error::BuildError;
pub use staging::CopyItems;
