//! Resolution, installation planning and launch of the Eclipse JDT language
//! server together with the Java runtime it needs.
//!
//! Everything in this crate is verified with Verus. The crate never touches
//! the network or the file system itself: a driver performs the requests
//! that the [`Installer`] asks for and reports their outcomes back.

pub mod adapter;
pub mod error;
pub mod install;
pub mod launch;
pub mod pages;
pub mod pattern;
pub mod platform;
pub mod text;
pub mod version;

pub use adapter::JavaLspAdapter;
pub use error::AdapterError;
pub use install::{Action, Installer, Outcome, Phase};
pub use launch::{arguments, config, java, launch_spec, LaunchSpec};
pub use pages::{resolve_latest_version, server_archive_url};
pub use platform::{Arch, Os, PlatformKey};
pub use version::{latest_version, MilestoneLink};
