//! Where the installed files live inside the container directory, and the
//! command line that starts the installed server.

use vstd::prelude::*;
use crate::error::AdapterError;
use crate::platform::{runtime_url_of, Arch, Os, PlatformKey};
use crate::text::chain;

verus! {

/// The runtime's home directory, relative to the container directory. Its
/// presence marks the runtime as installed.
pub const JAVA_HOME: &'static str = "amazon-corretto-21.jdk/Contents/Home";

/// The runtime's executable, relative to the container directory.
pub const JAVA_BINARY: &'static str = "amazon-corretto-21.jdk/Contents/Home/bin/java";

/// The server's launcher, relative to the container directory. Its presence
/// marks the server as installed.
pub const LAUNCHER_JAR: &'static str =
    "plugins/org.eclipse.equinox.launcher_1.6.700.v20231214-2017.jar";

/// The file that records the installed server version, relative to the
/// container directory.
pub const VERSION_MARKER: &'static str = "version.txt";

/// The server's configuration directory for Intel Macs, relative to the
/// container directory.
pub const CONFIG_MAC: &'static str = "config_mac";

/// The server's configuration directory for Apple-silicon Macs, relative to
/// the container directory.
pub const CONFIG_MAC_ARM: &'static str = "config_mac_arm";

/// The path of `rel` below `dir`. A separator is put between the two unless
/// `dir` is empty or already ends with one.
pub open spec fn join_path(dir: Seq<char>, rel: Seq<char>) -> Seq<char> {
    if dir.len() == 0 || dir.last() == '/' {
        dir + rel
    } else {
        dir + seq!['/'] + rel
    }
}

/// The path of the relative path `rel` below the directory `dir`.
pub fn join(dir: &str, rel: &str) -> (path: String)
    ensures
        path@ == join_path(dir@, rel@),
{
    let n: usize = dir.unicode_len();
    if n == 0 || dir.get_char(n - 1) == '/' {
        chain(dir, rel)
    } else {
        proof {
            reveal_strlit("/");
            assert("/"@ =~= seq!['/']);
        }
        let mut path: String = chain(dir, "/");
        path.append(rel);
        path
    }
}

/// The configuration directory that the server is started with, relative to
/// the container directory; `None` where the platform is not supported.
pub open spec fn config_dir_of(platform: PlatformKey) -> Option<Seq<char>> {
    match (platform.os, platform.arch) {
        (Os::MacOs, Arch::Aarch64) => Some(CONFIG_MAC_ARM@),
        (Os::MacOs, Arch::X86_64) => Some(CONFIG_MAC@),
        _ => None,
    }
}

/// The full path of the configuration directory inside `dir`.
pub open spec fn config_of(dir: Seq<char>, platform: PlatformKey) -> Option<Seq<char>> {
    match config_dir_of(platform) {
        Some(rel) => Some(join_path(dir, rel)),
        None => None,
    }
}

/// The argument vector that starts the server installed in `dir`: sixteen
/// arguments in the order in which the runtime must see them.
pub open spec fn arguments_of(dir: Seq<char>, platform: PlatformKey) -> Option<Seq<Seq<char>>> {
    match config_of(dir, platform) {
        Some(configuration) => Some(
            seq![
                "-jar"@,
                join_path(dir, LAUNCHER_JAR@),
                "-Declipse.application=org.eclipse.jdt.ls.core.id1"@,
                "-Dosgi.bundles.defaultStartLevel=4"@,
                "-Dosgi.checkConfiguration=true"@,
                "-Declipse.product=org.eclipse.jdt.ls.core.product"@,
                "-Dosgi.sharedConfiguration.area.readOnly=true"@,
                "-Dosgi.configuration.cascaded=true"@,
                "-Xmx1G"@,
                "--add-modules=ALL-SYSTEM"@,
                "--add-opens java.base/java.util=ALL-UNNAMED"@,
                "--add-opens java.base/java.lang=ALL-UNNAMED"@,
                "-configuration"@,
                configuration,
                "-data"@,
                "."@,
            ],
        ),
        None => None,
    }
}

/// What a [`LaunchSpec`] holds, as mathematical sequences.
pub struct LaunchSpecView {
    pub path: Seq<char>,
    pub arguments: Seq<Seq<char>>,
}

/// The launch command of the server installed in `dir`; `None` where the
/// platform is not supported.
pub open spec fn launch_spec_of(dir: Seq<char>, platform: PlatformKey) -> Option<LaunchSpecView> {
    match arguments_of(dir, platform) {
        Some(arguments) => Some(LaunchSpecView { path: join_path(dir, JAVA_BINARY@), arguments }),
        None => None,
    }
}

/// The executable and the ordered arguments that start the installed
/// server. The arguments are handed to the process as a vector: nothing is
/// escaped, reordered or removed.
#[derive(Debug, PartialEq, Eq)]
pub struct LaunchSpec {
    pub path: String,
    pub arguments: Vec<String>,
}

impl View for LaunchSpec {
    type V = LaunchSpecView;

    open spec fn view(&self) -> LaunchSpecView {
        LaunchSpecView { path: self.path@, arguments: self.arguments.deep_view() }
    }
}

impl Clone for LaunchSpec {
    fn clone(&self) -> (copy: LaunchSpec)
        ensures
            copy@ == self@,
    {
        let mut arguments: Vec<String> = Vec::new();
        let mut i: usize = 0;
        while i < self.arguments.len()
            invariant
                i <= self.arguments.len(),
                arguments.len() == i,
                forall|j: int| 0 <= j < i ==> arguments@[j]@ == self.arguments@[j]@,
            decreases self.arguments.len() - i,
        {
            arguments.push(self.arguments[i].clone());
            i = i + 1;
        }
        proof {
            assert(arguments.deep_view() =~= self.arguments.deep_view());
        }
        LaunchSpec { path: self.path.clone(), arguments }
    }
}

/// The path of the runtime's executable inside `container_dir`.
pub fn java(container_dir: &str) -> (path: String)
    ensures
        path@ == join_path(container_dir@, JAVA_BINARY@),
{
    join(container_dir, JAVA_BINARY)
}

/// The path whose presence marks the runtime as installed.
pub fn runtime_marker(container_dir: &str) -> (path: String)
    ensures
        path@ == join_path(container_dir@, JAVA_HOME@),
{
    join(container_dir, JAVA_HOME)
}

/// The path of the server's launcher, whose presence marks the server as
/// installed.
pub fn server_marker(container_dir: &str) -> (path: String)
    ensures
        path@ == join_path(container_dir@, LAUNCHER_JAR@),
{
    join(container_dir, LAUNCHER_JAR)
}

/// The path of the file that records the installed server version.
pub fn version_marker(container_dir: &str) -> (path: String)
    ensures
        path@ == join_path(container_dir@, VERSION_MARKER@),
{
    join(container_dir, VERSION_MARKER)
}

/// The path of the configuration directory that the server is started with.
///
/// Fails with [`AdapterError::UnsupportedPlatform`] exactly where the
/// platform is not supported.
pub fn config(container_dir: &str, platform: &PlatformKey) -> (r: Result<String, AdapterError>)
    ensures
        match r {
            Ok(path) => config_of(container_dir@, *platform) == Some(path@),
            Err(e) => (e == AdapterError::UnsupportedPlatform
                && config_of(container_dir@, *platform) is None),
        },
        r is Ok <==> platform.is_supported(),
{
    match (platform.os, platform.arch) {
        (Os::MacOs, Arch::Aarch64) => Ok(join(container_dir, CONFIG_MAC_ARM)),
        (Os::MacOs, Arch::X86_64) => Ok(join(container_dir, CONFIG_MAC)),
        _ => Err(AdapterError::UnsupportedPlatform),
    }
}

/// The ordered arguments that start the server installed in
/// `container_dir`.
///
/// Fails with [`AdapterError::UnsupportedPlatform`] exactly where the
/// platform is not supported.
pub fn arguments(
    container_dir: &str,
    platform: &PlatformKey,
) -> (r: Result<Vec<String>, AdapterError>)
    ensures
        match r {
            Ok(args) => arguments_of(container_dir@, *platform) == Some(args.deep_view()),
            Err(e) => (e == AdapterError::UnsupportedPlatform
                && arguments_of(container_dir@, *platform) is None),
        },
        r is Ok <==> platform.is_supported(),
{
    let configuration: String = match config(container_dir, platform) {
        Ok(path) => path,
        Err(e) => {
            return Err(e);
        },
    };
    let mut args: Vec<String> = Vec::new();
    args.push("-jar".to_string());
    args.push(join(container_dir, LAUNCHER_JAR));
    args.push("-Declipse.application=org.eclipse.jdt.ls.core.id1".to_string());
    args.push("-Dosgi.bundles.defaultStartLevel=4".to_string());
    args.push("-Dosgi.checkConfiguration=true".to_string());
    args.push("-Declipse.product=org.eclipse.jdt.ls.core.product".to_string());
    args.push("-Dosgi.sharedConfiguration.area.readOnly=true".to_string());
    args.push("-Dosgi.configuration.cascaded=true".to_string());
    args.push("-Xmx1G".to_string());
    args.push("--add-modules=ALL-SYSTEM".to_string());
    args.push("--add-opens java.base/java.util=ALL-UNNAMED".to_string());
    args.push("--add-opens java.base/java.lang=ALL-UNNAMED".to_string());
    args.push("-configuration".to_string());
    args.push(configuration);
    args.push("-data".to_string());
    args.push(".".to_string());
    proof {
        assert(args.deep_view() =~= arguments_of(container_dir@, *platform)->0);
    }
    Ok(args)
}

/// The command that starts the server installed in `container_dir`.
///
/// The result depends on the two arguments alone. It fails with
/// [`AdapterError::UnsupportedPlatform`] exactly where the platform is not
/// supported, and never hands out an empty path in its place.
pub fn launch_spec(
    container_dir: &str,
    platform: &PlatformKey,
) -> (r: Result<LaunchSpec, AdapterError>)
    ensures
        match r {
            Ok(spec) => launch_spec_of(container_dir@, *platform) == Some(spec@),
            Err(e) => (e == AdapterError::UnsupportedPlatform
                && launch_spec_of(container_dir@, *platform) is None),
        },
        r is Ok <==> platform.is_supported(),
{
    match arguments(container_dir, platform) {
        Ok(arguments) => Ok(LaunchSpec { path: java(container_dir), arguments }),
        Err(e) => Err(e),
    }
}

/// On a platform without a runtime there is neither a runtime download nor
/// a configuration directory, an argument vector or a launch command; on a
/// supported platform there are all four.
pub proof fn lemma_platform_support(dir: Seq<char>, platform: PlatformKey)
    ensures
        platform.is_supported() == runtime_url_of(platform).is_some(),
        platform.is_supported() == config_of(dir, platform).is_some(),
        platform.is_supported() == arguments_of(dir, platform).is_some(),
        platform.is_supported() == launch_spec_of(dir, platform).is_some(),
{
}

/// The launch command is a function of the container directory and the
/// platform: two answers for the same two are the same command, argument by
/// argument and in the same order.
pub proof fn lemma_launch_spec_repeatable(
    dir: Seq<char>,
    platform: PlatformKey,
    first: LaunchSpecView,
    second: LaunchSpecView,
)
    requires
        launch_spec_of(dir, platform) == Some(first),
        launch_spec_of(dir, platform) == Some(second),
    ensures
        first == second,
        first.arguments.len() == second.arguments.len(),
        forall|i: int| 0 <= i < first.arguments.len() ==> first.arguments[i] == second.arguments[i],
{
}

/// The shape of the launch command: the executable is the runtime's binary
/// below the container directory; of the sixteen arguments the second is
/// the path of the server's launcher and the fourteenth the path of the
/// configuration directory, each behind the flag that announces it.
pub proof fn lemma_launch_spec_shape(dir: Seq<char>, platform: PlatformKey)
    requires
        platform.is_supported(),
    ensures
        launch_spec_of(dir, platform) matches Some(spec) && (
            spec.path == join_path(dir, JAVA_BINARY@)
            && spec.path.subrange(spec.path.len() - JAVA_BINARY@.len(), spec.path.len() as int)
                == JAVA_BINARY@
            && spec.arguments.len() == 16
            && spec.arguments[0] == "-jar"@
            && spec.arguments[1] == join_path(dir, LAUNCHER_JAR@)
            && spec.arguments[12] == "-configuration"@
            && Some(spec.arguments[13]) == config_of(dir, platform)),
{
    let spec = launch_spec_of(dir, platform)->0;
    assert(spec.path.subrange(spec.path.len() - JAVA_BINARY@.len(), spec.path.len() as int)
        =~= JAVA_BINARY@);
}

/// Two relative paths that begin differently lead to different places below
/// a directory, and neither place lies inside the other.
pub proof fn lemma_join_apart(dir: Seq<char>, a: Seq<char>, b: Seq<char>)
    requires
        a.len() > 0,
        b.len() > 0,
        a[0] != b[0],
    ensures
        !join_path(dir, a).is_prefix_of(join_path(dir, b)),
        !join_path(dir, b).is_prefix_of(join_path(dir, a)),
{
    let base = if dir.len() == 0 || dir.last() == '/' {
        dir
    } else {
        dir + seq!['/']
    };
    let pa = join_path(dir, a);
    let pb = join_path(dir, b);
    assert(pa =~= base + a);
    assert(pb =~= base + b);
    assert(pa[base.len() as int] == a[0]);
    assert(pb[base.len() as int] == b[0]);
    if pa.is_prefix_of(pb) {
        assert(pb.subrange(0, pa.len() as int)[base.len() as int] == pa[base.len() as int]);
    }
    if pb.is_prefix_of(pa) {
        assert(pa.subrange(0, pb.len() as int)[base.len() as int] == pb[base.len() as int]);
    }
}

/// Inside a container directory the runtime and the server do not overlap:
/// the server's launcher, its configuration directories and the version
/// marker all lie outside the runtime's home directory.
pub proof fn lemma_runtime_apart_from_server(dir: Seq<char>)
    ensures
        !join_path(dir, JAVA_HOME@).is_prefix_of(join_path(dir, LAUNCHER_JAR@)),
        !join_path(dir, JAVA_HOME@).is_prefix_of(join_path(dir, CONFIG_MAC@)),
        !join_path(dir, JAVA_HOME@).is_prefix_of(join_path(dir, CONFIG_MAC_ARM@)),
        !join_path(dir, JAVA_HOME@).is_prefix_of(join_path(dir, VERSION_MARKER@)),
{
    reveal_strlit("amazon-corretto-21.jdk/Contents/Home");
    reveal_strlit("plugins/org.eclipse.equinox.launcher_1.6.700.v20231214-2017.jar");
    reveal_strlit("config_mac");
    reveal_strlit("config_mac_arm");
    reveal_strlit("version.txt");
    lemma_join_apart(dir, JAVA_HOME@, LAUNCHER_JAR@);
    lemma_join_apart(dir, JAVA_HOME@, CONFIG_MAC@);
    lemma_join_apart(dir, JAVA_HOME@, CONFIG_MAC_ARM@);
    lemma_join_apart(dir, JAVA_HOME@, VERSION_MARKER@);
}

} // verus!
