//! The adapter through which an editor obtains the Java language server.

use vstd::prelude::*;
use crate::error::AdapterError;
use crate::install::{initial, Installer};
use crate::launch::{launch_spec, launch_spec_of, LaunchSpec};
use crate::pages::{resolve_latest_version, resolves_to, text_of, MILESTONE_LINK_PATTERN};
use crate::pattern::regex_captures;
use crate::platform::PlatformKey;

verus! {

/// A JSON value of `serde_json`. The adapter hands none out; the type only
/// appears in the signature of [`JavaLspAdapter::initialization_options`].
#[verifier::external_type_specification]
#[verifier::external_body]
pub struct ExJsonValue(serde_json::Value);

/// The adapter for the Eclipse JDT language server.
///
/// It holds no state: what is installed is read off the container directory
/// each time.
pub struct JavaLspAdapter {}

impl JavaLspAdapter {
    /// The name under which the server is registered.
    pub fn name(&self) -> (name: String)
        ensures
            name@ == "java"@,
    {
        "java".to_string()
    }

    /// The name of the server in short messages.
    pub fn short_name(&self) -> (name: &'static str)
        ensures
            name@ == "java"@,
    {
        "java"
    }

    /// The newest release that the milestone index advertises, given what
    /// fetching the index page brought: its text, or `None` where the page
    /// could not be fetched.
    ///
    /// Fails with [`AdapterError::Network`] where there is no page, and
    /// with [`AdapterError::VersionResolution`] where the page links to no
    /// release.
    pub fn fetch_latest_server_version(
        &self,
        index_page: Option<&str>,
    ) -> (r: Result<String, AdapterError>)
        ensures
            match index_page {
                Some(page) => resolves_to(
                    regex_captures(MILESTONE_LINK_PATTERN@, page@),
                    text_of(r),
                ),
                None => r == Err::<String, AdapterError>(AdapterError::Network),
            },
    {
        match index_page {
            Some(page) => resolve_latest_version(page),
            None => Err(AdapterError::Network),
        }
    }

    /// Begins the installation of the runtime and of the release `version`
    /// into `container_dir`. The installer that is returned says what is to
    /// be done, one request at a time, and ends with the launch command.
    pub fn fetch_server_binary(
        &self,
        version: String,
        container_dir: String,
        platform: PlatformKey,
    ) -> (installer: Installer)
        ensures
            installer@ == initial(version@, container_dir@, platform),
    {
        Installer::start(version, container_dir, platform)
    }

    /// The launch command of the server that an earlier installation left
    /// in `container_dir`. Nothing is probed: the command is made of the
    /// directory and the platform alone. `None` exactly where the platform
    /// is not supported.
    pub fn cached_server_binary(
        &self,
        container_dir: &str,
        platform: &PlatformKey,
    ) -> (r: Option<LaunchSpec>)
        ensures
            r is Some <==> platform.is_supported(),
            match r {
                Some(spec) => launch_spec_of(container_dir@, *platform) == Some(spec@),
                None => launch_spec_of(container_dir@, *platform) is None,
            },
    {
        match launch_spec(container_dir, platform) {
            Ok(spec) => Some(spec),
            Err(_) => None,
        }
    }

    /// The launch command with which an installation in `container_dir` is
    /// tried out. `None` exactly where the platform is not supported.
    pub fn installation_test_binary(
        &self,
        container_dir: &str,
        platform: &PlatformKey,
    ) -> (r: Option<LaunchSpec>)
        ensures
            r is Some <==> platform.is_supported(),
            match r {
                Some(spec) => launch_spec_of(container_dir@, *platform) == Some(spec@),
                None => launch_spec_of(container_dir@, *platform) is None,
            },
    {
        match launch_spec(container_dir, platform) {
            Ok(spec) => Some(spec),
            Err(_) => None,
        }
    }

    /// The options that the server is initialized with: there are none.
    pub fn initialization_options(&self) -> (options: Option<serde_json::Value>)
        ensures
            options is None,
    {
        None
    }
}

} // verus!
