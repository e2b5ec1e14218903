//! Version matching and build planning for WebAssembly game projects.
//!
//! - [`version`]: semantic versions and their precedence order;
//! - [`choose_version`]: choosing the greatest version that does not exceed a reference;
//! - [`release`]: choosing the asset release that matches a framework version;
//! - [`lockfile`]: reading a package's version out of a lock file;
//! - [`manifest`]: the part of a package manifest a build reads;
//! - [`text`]: the compiled crate name and placeholder substitution;
//! - [`build_plan`]: the steps of a build, driven by the outcomes of outside actions.
pub mod build_plan;
pub mod choose_version;
pub mod lockfile;
pub mod manifest;
pub mod release;
pub mod text;
pub mod version;
