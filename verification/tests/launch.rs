use jdtls_adapter::launch::{
    join, runtime_marker, server_marker, version_marker, JAVA_BINARY, LAUNCHER_JAR,
};
use jdtls_adapter::text::{chain, precedes, same_text};
use jdtls_adapter::{
    arguments, config, java, launch_spec, AdapterError, Arch, JavaLspAdapter, LaunchSpec, Os,
    PlatformKey,
};

fn mac_arm() -> PlatformKey {
    PlatformKey::new(Arch::Aarch64, Os::MacOs)
}

fn mac_intel() -> PlatformKey {
    PlatformKey::new(Arch::X86_64, Os::MacOs)
}

fn unsupported() -> Vec<PlatformKey> {
    vec![
        PlatformKey::new(Arch::Other, Os::MacOs),
        PlatformKey::new(Arch::Aarch64, Os::Other),
        PlatformKey::new(Arch::X86_64, Os::Other),
        PlatformKey::new(Arch::Other, Os::Other),
    ]
}

fn expected_arguments(dir: &str, config_dir: &str) -> Vec<String> {
    vec![
        "-jar".to_string(),
        format!("{}/plugins/org.eclipse.equinox.launcher_1.6.700.v20231214-2017.jar", dir),
        "-Declipse.application=org.eclipse.jdt.ls.core.id1".to_string(),
        "-Dosgi.bundles.defaultStartLevel=4".to_string(),
        "-Dosgi.checkConfiguration=true".to_string(),
        "-Declipse.product=org.eclipse.jdt.ls.core.product".to_string(),
        "-Dosgi.sharedConfiguration.area.readOnly=true".to_string(),
        "-Dosgi.configuration.cascaded=true".to_string(),
        "-Xmx1G".to_string(),
        "--add-modules=ALL-SYSTEM".to_string(),
        "--add-opens java.base/java.util=ALL-UNNAMED".to_string(),
        "--add-opens java.base/java.lang=ALL-UNNAMED".to_string(),
        "-configuration".to_string(),
        format!("{}/{}", dir, config_dir),
        "-data".to_string(),
        ".".to_string(),
    ]
}

#[test]
fn java_binary_below_container() {
    assert_eq!(java("/opt/jdtls"), "/opt/jdtls/amazon-corretto-21.jdk/Contents/Home/bin/java");
    assert!(java("/some where/else").ends_with(JAVA_BINARY));
}

#[test]
fn marker_paths() {
    assert_eq!(runtime_marker("/c"), "/c/amazon-corretto-21.jdk/Contents/Home");
    assert_eq!(
        server_marker("/c"),
        "/c/plugins/org.eclipse.equinox.launcher_1.6.700.v20231214-2017.jar"
    );
    assert_eq!(version_marker("/c"), "/c/version.txt");
}

#[test]
fn join_puts_one_separator() {
    assert_eq!(join("/a/b", "c/d"), "/a/b/c/d");
    assert_eq!(join("/a/b/", "c/d"), "/a/b/c/d");
    assert_eq!(join("", "c/d"), "c/d");
    assert_eq!(join("/", "c"), "/c");
    assert_eq!(join("rel", "c"), "rel/c");
    assert_eq!(join(" /a ", "c"), " /a /c");
}

#[test]
fn join_agrees_with_std_paths_on_unix() {
    if std::path::MAIN_SEPARATOR == '/' {
        for dir in ["/a/b", "/a/b/", "", "/", "rel", "a b"] {
            let expected = std::path::Path::new(dir).join(LAUNCHER_JAR);
            assert_eq!(join(dir, LAUNCHER_JAR), expected.to_str().unwrap());
        }
    }
}

#[test]
fn configuration_directory_by_architecture() {
    assert_eq!(config("/c", &mac_arm()), Ok("/c/config_mac_arm".to_string()));
    assert_eq!(config("/c", &mac_intel()), Ok("/c/config_mac".to_string()));
}

#[test]
fn configuration_directory_needs_supported_platform() {
    for p in unsupported() {
        assert_eq!(config("/c", &p), Err(AdapterError::UnsupportedPlatform));
    }
}

#[test]
fn arguments_in_order() {
    assert_eq!(arguments("/c", &mac_arm()), Ok(expected_arguments("/c", "config_mac_arm")));
    assert_eq!(arguments("/c", &mac_intel()), Ok(expected_arguments("/c", "config_mac")));
}

#[test]
fn arguments_are_not_escaped() {
    let dir = "/Users/me/Library/Application Support/jdtls";
    let args = arguments(dir, &mac_arm()).unwrap();
    assert_eq!(args.len(), 16);
    assert_eq!(args[0], "-jar");
    assert_eq!(args[1], format!("{}/{}", dir, LAUNCHER_JAR));
    assert_eq!(args[12], "-configuration");
    assert_eq!(args[13], format!("{}/config_mac_arm", dir));
    assert_eq!(args[14], "-data");
    assert_eq!(args[15], ".");
}

#[test]
fn arguments_need_supported_platform() {
    for p in unsupported() {
        assert_eq!(arguments("/c", &p), Err(AdapterError::UnsupportedPlatform));
    }
}

#[test]
fn launch_spec_has_path_and_arguments() {
    let spec = launch_spec("/c", &mac_intel()).unwrap();
    assert_eq!(
        spec,
        LaunchSpec {
            path: "/c/amazon-corretto-21.jdk/Contents/Home/bin/java".to_string(),
            arguments: expected_arguments("/c", "config_mac"),
        }
    );
}

#[test]
fn launch_spec_is_repeatable() {
    for p in [mac_arm(), mac_intel()] {
        let first = launch_spec("/container", &p);
        let second = launch_spec("/container", &p);
        assert!(first.is_ok());
        assert_eq!(first, second);
        assert_eq!(first.clone().unwrap(), second.unwrap().clone());
    }
}

#[test]
fn launch_spec_needs_supported_platform() {
    for p in unsupported() {
        assert_eq!(launch_spec("/c", &p), Err(AdapterError::UnsupportedPlatform));
        assert_eq!(p.runtime_url(), Err(AdapterError::UnsupportedPlatform));
        assert!(!p.supported());
    }
}

#[test]
fn runtime_download_by_architecture() {
    assert_eq!(
        mac_arm().runtime_url(),
        Ok("https://corretto.aws/downloads/latest/amazon-corretto-21-aarch64-macos-jdk.tar.gz")
    );
    assert_eq!(
        mac_intel().runtime_url(),
        Ok("https://corretto.aws/downloads/latest/amazon-corretto-21-x64-macos-jdk.tar.gz")
    );
    assert!(mac_arm().supported());
    assert!(mac_intel().supported());
}

#[test]
fn platform_from_host_names() {
    assert_eq!(PlatformKey::from_host("aarch64", "macos"), mac_arm());
    assert_eq!(PlatformKey::from_host("x86_64", "macos"), mac_intel());
    assert_eq!(PlatformKey::from_host("x86_64", "linux"), PlatformKey::new(Arch::X86_64, Os::Other));
    assert_eq!(PlatformKey::from_host("riscv64", "macos"), PlatformKey::new(Arch::Other, Os::MacOs));
    assert_eq!(PlatformKey::from_host("", ""), PlatformKey::new(Arch::Other, Os::Other));
    assert_eq!(PlatformKey::from_host("AARCH64", "MacOS"), PlatformKey::new(Arch::Other, Os::Other));
}

#[test]
fn adapter_names() {
    let adapter = JavaLspAdapter {};
    assert_eq!(adapter.name(), "java");
    assert_eq!(adapter.short_name(), "java");
    assert!(adapter.initialization_options().is_none());
}

#[test]
fn adapter_cached_binary() {
    let adapter = JavaLspAdapter {};
    assert_eq!(
        adapter.cached_server_binary("/c", &mac_arm()),
        Some(LaunchSpec {
            path: "/c/amazon-corretto-21.jdk/Contents/Home/bin/java".to_string(),
            arguments: expected_arguments("/c", "config_mac_arm"),
        })
    );
    assert_eq!(
        adapter.installation_test_binary("/c", &mac_arm()),
        adapter.cached_server_binary("/c", &mac_arm())
    );
    for p in unsupported() {
        assert_eq!(adapter.cached_server_binary("/c", &p), None);
        assert_eq!(adapter.installation_test_binary("/c", &p), None);
    }
}

#[test]
fn adapter_resolves_version() {
    let adapter = JavaLspAdapter {};
    let page = "<a href='/jdtls/milestones/1.9.0'>1.9.0</a><a href='/jdtls/milestones/1.29.0'>1.29.0</a>";
    assert_eq!(adapter.fetch_latest_server_version(Some(page)), Ok("1.29.0".to_string()));
    assert_eq!(
        adapter.fetch_latest_server_version(Some("none")),
        Err(AdapterError::VersionResolution)
    );
    assert_eq!(adapter.fetch_latest_server_version(None), Err(AdapterError::Network));
}

#[test]
fn dictionary_order() {
    assert!(precedes("", "a"));
    assert!(!precedes("", ""));
    assert!(!precedes("a", ""));
    assert!(precedes("a", "b"));
    assert!(precedes("ab", "abc"));
    assert!(!precedes("abc", "ab"));
    assert!(precedes("abc", "abd"));
    assert!(!precedes("abd", "abc"));
    assert!(!precedes("same", "same"));
    assert!(precedes("10", "9"));
    assert!(precedes("z", "\u{e9}"));
    for (a, b) in [("", "a"), ("a", "b"), ("ab", "abc"), ("001009000-1.9.0", "001029000-1.29.0"), ("z", "\u{e9}"), ("\u{ffff}", "\u{10000}")] {
        assert_eq!(precedes(a, b), a < b);
        assert_eq!(precedes(b, a), b < a);
    }
}

#[test]
fn text_helpers() {
    assert!(same_text("abc", "abc"));
    assert!(!same_text("abc", "abd"));
    assert!(!same_text("abc", "ab"));
    assert!(same_text("", ""));
    assert_eq!(chain("ab", "cd"), "abcd");
    assert_eq!(chain("", ""), "");
}

#[test]
fn error_messages() {
    let all = [
        AdapterError::Network,
        AdapterError::VersionResolution,
        AdapterError::ArtifactNotFound,
        AdapterError::UnsupportedPlatform,
        AdapterError::Installation,
        AdapterError::InvalidPattern,
    ];
    for (i, a) in all.iter().enumerate() {
        assert!(!a.message().is_empty());
        for b in all.iter().skip(i + 1) {
            assert_ne!(a.message(), b.message());
        }
    }
    assert_eq!(AdapterError::VersionResolution.message(), "the milestone index lists no version");
}
