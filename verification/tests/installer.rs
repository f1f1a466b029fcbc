use jdtls_adapter::{
    resolve_latest_version, Action, AdapterError, Arch, Installer, JavaLspAdapter, LaunchSpec, Os,
    Outcome, Phase, PlatformKey,
};

const RELEASE_PAGE: &str = "<html><body><a href='https://www.eclipse.org/downloads/download.php?file=/jdtls/milestones/1.9.0/jdt-language-server-1.9.0-202203031534.tar.gz'>download</a></body></html>";

const RUNTIME_URL: &str =
    "https://corretto.aws/downloads/latest/amazon-corretto-21-aarch64-macos-jdk.tar.gz";

const LAUNCHER: &str = "/c/plugins/org.eclipse.equinox.launcher_1.6.700.v20231214-2017.jar";

fn mac_arm() -> PlatformKey {
    PlatformKey::new(Arch::Aarch64, Os::MacOs)
}

fn start() -> Installer {
    Installer::start("1.9.0".to_string(), "/c".to_string(), mac_arm())
}

fn probe(path: &str) -> Action {
    Action::Probe { path: path.to_string() }
}

fn abort(error: AdapterError) -> Action {
    Action::Abort { error }
}

fn uses_network(action: &Action) -> bool {
    matches!(action, Action::Unpack { .. } | Action::Fetch { .. })
}

fn launch_of(action: Action) -> LaunchSpec {
    match action {
        Action::Launch { spec } => spec,
        other => panic!("no launch: {:?}", other),
    }
}

fn fresh_install() -> Vec<Action> {
    let mut installer = start();
    let mut actions = vec![installer.pending()];
    for outcome in [
        Outcome::Absent,
        Outcome::Completed,
        Outcome::Absent,
        Outcome::Page { body: RELEASE_PAGE.to_string() },
        Outcome::Completed,
        Outcome::Completed,
    ] {
        actions.push(installer.step(outcome));
    }
    assert!(installer.is_over());
    actions
}

#[test]
fn end_to_end_into_empty_directory() {
    let index = "<html><a href='/jdtls/milestones/1.9.0'>1.9.0</a></html>";
    let version = resolve_latest_version(index).unwrap();
    assert_eq!(version, "1.9.0");

    let adapter = JavaLspAdapter {};
    let mut installer = adapter.fetch_server_binary(version, "/c".to_string(), mac_arm());
    assert_eq!(installer.pending(), probe("/c/amazon-corretto-21.jdk/Contents/Home"));
    assert_eq!(
        installer.step(Outcome::Absent),
        Action::Unpack { url: RUNTIME_URL.to_string(), into: "/c".to_string() }
    );
    assert_eq!(installer.step(Outcome::Completed), probe(LAUNCHER));
    assert_eq!(
        installer.step(Outcome::Absent),
        Action::Fetch { url: "https://download.eclipse.org/jdtls/milestones/1.9.0".to_string() }
    );
    assert_eq!(
        installer.step(Outcome::Page { body: RELEASE_PAGE.to_string() }),
        Action::Unpack {
            url: "https://download.eclipse.org/jdtls/milestones/1.9.0/jdt-language-server-1.9.0-202203031534.tar.gz".to_string(),
            into: "/c".to_string(),
        }
    );
    assert_eq!(
        installer.step(Outcome::Completed),
        Action::Write { path: "/c/version.txt".to_string(), contents: "1.9.0".to_string() }
    );
    assert!(!installer.is_over());
    let spec = launch_of(installer.step(Outcome::Completed));
    assert!(installer.is_over());
    assert!(spec.path.ends_with("amazon-corretto-21.jdk/Contents/Home/bin/java"));
    assert_eq!(spec.path, "/c/amazon-corretto-21.jdk/Contents/Home/bin/java");
    assert_eq!(spec.arguments[1], LAUNCHER);
    assert_eq!(spec.arguments[13], "/c/config_mac_arm");
}

#[test]
fn populated_directory_needs_no_network() {
    let mut installer = start();
    let first = installer.pending();
    let second = installer.step(Outcome::Present);
    let third = installer.step(Outcome::Present);
    assert_eq!(first, probe("/c/amazon-corretto-21.jdk/Contents/Home"));
    assert_eq!(second, probe(LAUNCHER));
    for action in [&first, &second, &third] {
        assert!(!uses_network(action));
    }
    let cached = launch_of(third);
    let fresh = launch_of(fresh_install().pop().unwrap());
    assert_eq!(cached, fresh);
    assert_eq!(Some(cached), JavaLspAdapter {}.cached_server_binary("/c", &mac_arm()));
}

#[test]
fn present_runtime_is_not_downloaded_again() {
    let mut installer = start();
    assert_eq!(installer.step(Outcome::Present), probe(LAUNCHER));
    assert_eq!(
        installer.step(Outcome::Absent),
        Action::Fetch { url: "https://download.eclipse.org/jdtls/milestones/1.9.0".to_string() }
    );
}

#[test]
fn present_server_is_not_downloaded_again() {
    let mut installer = start();
    installer.step(Outcome::Absent);
    assert_eq!(installer.step(Outcome::Completed), probe(LAUNCHER));
    let last = installer.step(Outcome::Present);
    assert!(matches!(last, Action::Launch { .. }));
}

#[test]
fn unsupported_platform_aborts_at_once() {
    for platform in [
        PlatformKey::new(Arch::Other, Os::MacOs),
        PlatformKey::new(Arch::Aarch64, Os::Other),
        PlatformKey::new(Arch::Other, Os::Other),
    ] {
        let mut installer = Installer::start("1.9.0".to_string(), "/c".to_string(), platform);
        assert_eq!(installer.pending(), abort(AdapterError::UnsupportedPlatform));
        assert!(installer.is_over());
        assert_eq!(installer.step(Outcome::Present), abort(AdapterError::UnsupportedPlatform));
    }
}

#[test]
fn failed_runtime_download_is_installation_error() {
    let mut installer = start();
    installer.step(Outcome::Absent);
    assert_eq!(installer.step(Outcome::Failed), abort(AdapterError::Installation));
    assert!(installer.is_over());
}

#[test]
fn failed_page_fetch_is_network_error() {
    let mut installer = start();
    installer.step(Outcome::Present);
    installer.step(Outcome::Absent);
    assert_eq!(installer.step(Outcome::Failed), abort(AdapterError::Network));
}

#[test]
fn release_page_without_link_is_artifact_not_found() {
    let mut installer = start();
    installer.step(Outcome::Present);
    installer.step(Outcome::Absent);
    assert_eq!(
        installer.step(Outcome::Page { body: "<html>moved</html>".to_string() }),
        abort(AdapterError::ArtifactNotFound)
    );
}

#[test]
fn failed_server_download_is_installation_error() {
    let mut installer = start();
    installer.step(Outcome::Present);
    installer.step(Outcome::Absent);
    installer.step(Outcome::Page { body: RELEASE_PAGE.to_string() });
    assert_eq!(installer.step(Outcome::Failed), abort(AdapterError::Installation));
}

#[test]
fn failed_marker_write_is_installation_error() {
    let mut installer = start();
    installer.step(Outcome::Present);
    installer.step(Outcome::Absent);
    installer.step(Outcome::Page { body: RELEASE_PAGE.to_string() });
    installer.step(Outcome::Completed);
    assert_eq!(installer.step(Outcome::Failed), abort(AdapterError::Installation));
}

#[test]
fn outcome_that_answers_nothing_is_installation_error() {
    let mut installer = start();
    assert_eq!(installer.step(Outcome::Completed), abort(AdapterError::Installation));
    let mut installer = start();
    assert_eq!(
        installer.step(Outcome::Page { body: RELEASE_PAGE.to_string() }),
        abort(AdapterError::Installation)
    );
    let mut installer = start();
    installer.step(Outcome::Absent);
    assert_eq!(installer.step(Outcome::Present), abort(AdapterError::Installation));
}

#[test]
fn ended_installation_stays_ended() {
    let mut installer = start();
    installer.step(Outcome::Present);
    let done = installer.step(Outcome::Present);
    assert!(matches!(done, Action::Launch { .. }));
    for outcome in [Outcome::Absent, Outcome::Failed, Outcome::Completed, Outcome::Present] {
        assert_eq!(installer.step(outcome), done);
    }
    let mut installer = start();
    installer.step(Outcome::Absent);
    let failed = installer.step(Outcome::Failed);
    for outcome in [Outcome::Absent, Outcome::Failed, Outcome::Completed, Outcome::Present] {
        assert_eq!(installer.step(outcome), failed);
    }
}

#[test]
fn pending_does_not_advance() {
    let installer = start();
    assert_eq!(installer.pending(), installer.pending());
    assert!(!installer.is_over());
}

#[test]
fn fresh_install_asks_in_order() {
    let actions = fresh_install();
    assert_eq!(actions.len(), 7);
    let network: Vec<bool> = actions.iter().map(uses_network).collect();
    assert_eq!(network, vec![false, true, false, true, true, false, false]);
}

#[test]
fn installer_keeps_its_inputs() {
    let mut installer = start();
    assert_eq!(installer.phase(), &Phase::ProbingRuntime);
    installer.step(Outcome::Present);
    installer.step(Outcome::Absent);
    assert_eq!(installer.phase(), &Phase::FetchingReleasePage);
    installer.step(Outcome::Page { body: RELEASE_PAGE.to_string() });
    assert_eq!(
        installer.phase(),
        &Phase::InstallingServer {
            url: "https://download.eclipse.org/jdtls/milestones/1.9.0/jdt-language-server-1.9.0-202203031534.tar.gz".to_string()
        }
    );
    installer.step(Outcome::Completed);
    assert_eq!(installer.phase(), &Phase::WritingMarker);
    installer.step(Outcome::Completed);
    assert_eq!(installer.phase(), &Phase::Finished);
    assert_eq!(installer.version(), "1.9.0");
    assert_eq!(installer.container_dir(), "/c");
    assert_eq!(installer.platform(), mac_arm());
    installer.step(Outcome::Failed);
    assert_eq!(installer.phase(), &Phase::Finished);
}

#[test]
fn failed_phase_holds_the_error() {
    let mut installer = start();
    installer.step(Outcome::Failed);
    assert_eq!(installer.phase(), &Phase::Failed { error: AdapterError::Installation });
}
