//! The installation of the runtime and the server as a state machine.
//!
//! The machine decides; it performs nothing. In every state it has one
//! request pending. A driver carries the request out, reports the outcome
//! with [`Installer::step`] and receives the next request, until the request
//! is to launch the server or to give up.
//!
//! Whether an artifact is installed is read off the presence of one path:
//! the runtime's home directory, the server's launcher. There is no record
//! of completeness beside it, and nothing is cleaned up after a failure. An
//! unpacking that broke off can therefore leave a marker behind, and a later
//! attempt will then take the artifact for installed. The version marker is
//! written only after the server archive was unpacked; it is kept for
//! diagnosis and is never read back.
//!
//! Nothing is locked either: two installations into one container directory
//! at the same time are not kept apart.

use vstd::prelude::*;
use crate::error::AdapterError;
use crate::launch::{
    join_path, launch_spec, launch_spec_of, lemma_platform_support, runtime_marker,
    server_marker, version_marker, LaunchSpec, LaunchSpecView, JAVA_HOME, LAUNCHER_JAR,
    VERSION_MARKER,
};
use crate::pages::{server_archive_url, server_archive_url_of, version_page_url, version_page_url_of};
use crate::platform::{runtime_url_of, PlatformKey};

verus! {

/// How far an installation has come.
#[derive(Debug, PartialEq, Eq)]
pub enum Phase {
    /// Asking whether the runtime's home directory exists.
    ProbingRuntime,
    /// The runtime archive is being downloaded and unpacked.
    InstallingRuntime,
    /// Asking whether the server's launcher exists.
    ProbingServer,
    /// The page of the release is being fetched.
    FetchingReleasePage,
    /// The server archive at `url` is being downloaded and unpacked.
    InstallingServer { url: String },
    /// The installed version is being recorded.
    WritingMarker,
    /// Runtime and server are in place.
    Finished,
    /// The attempt has ended with an error.
    Failed { error: AdapterError },
}

/// A [`Phase`] as a mathematical value.
pub enum PhaseView {
    ProbingRuntime,
    InstallingRuntime,
    ProbingServer,
    FetchingReleasePage,
    InstallingServer { url: Seq<char> },
    WritingMarker,
    Finished,
    Failed { error: AdapterError },
}

impl View for Phase {
    type V = PhaseView;

    open spec fn view(&self) -> PhaseView {
        match self {
            Phase::ProbingRuntime => PhaseView::ProbingRuntime,
            Phase::InstallingRuntime => PhaseView::InstallingRuntime,
            Phase::ProbingServer => PhaseView::ProbingServer,
            Phase::FetchingReleasePage => PhaseView::FetchingReleasePage,
            Phase::InstallingServer { url } => PhaseView::InstallingServer { url: url@ },
            Phase::WritingMarker => PhaseView::WritingMarker,
            Phase::Finished => PhaseView::Finished,
            Phase::Failed { error } => PhaseView::Failed { error: *error },
        }
    }
}

/// What the driver is asked to do.
#[derive(Debug, PartialEq, Eq)]
pub enum Action {
    /// Report whether `path` exists.
    Probe { path: String },
    /// Download the gzip-compressed archive at `url` and unpack it into the
    /// directory `into`.
    Unpack { url: String, into: String },
    /// Fetch the page at `url` and report its text.
    Fetch { url: String },
    /// Write `contents` to the file `path`.
    Write { path: String, contents: String },
    /// The installation is complete: the server is started with `spec`.
    Launch { spec: LaunchSpec },
    /// The installation has failed with `error`.
    Abort { error: AdapterError },
}

/// An [`Action`] as a mathematical value.
pub enum ActionView {
    Probe { path: Seq<char> },
    Unpack { url: Seq<char>, into: Seq<char> },
    Fetch { url: Seq<char> },
    Write { path: Seq<char>, contents: Seq<char> },
    Launch { spec: LaunchSpecView },
    Abort { error: AdapterError },
}

impl View for Action {
    type V = ActionView;

    open spec fn view(&self) -> ActionView {
        match self {
            Action::Probe { path } => ActionView::Probe { path: path@ },
            Action::Unpack { url, into } => ActionView::Unpack { url: url@, into: into@ },
            Action::Fetch { url } => ActionView::Fetch { url: url@ },
            Action::Write { path, contents } => ActionView::Write {
                path: path@,
                contents: contents@,
            },
            Action::Launch { spec } => ActionView::Launch { spec: spec@ },
            Action::Abort { error } => ActionView::Abort { error: *error },
        }
    }
}

impl ActionView {
    /// Whether carrying the request out takes a transfer over the network.
    pub open spec fn uses_network(self) -> bool {
        self is Unpack || self is Fetch
    }

    /// Whether the request ends the installation.
    pub open spec fn is_last(self) -> bool {
        self is Launch || self is Abort
    }
}

/// What the driver reports of the request that was pending.
#[derive(Debug, PartialEq, Eq)]
pub enum Outcome {
    /// The probed path exists.
    Present,
    /// The probed path does not exist.
    Absent,
    /// The page was fetched; `body` is its text.
    Page { body: String },
    /// The archive was unpacked, or the file was written.
    Completed,
    /// The request could not be carried out.
    Failed,
}

/// An [`Outcome`] as a mathematical value.
pub enum OutcomeView {
    Present,
    Absent,
    Page { body: Seq<char> },
    Completed,
    Failed,
}

impl View for Outcome {
    type V = OutcomeView;

    open spec fn view(&self) -> OutcomeView {
        match self {
            Outcome::Present => OutcomeView::Present,
            Outcome::Absent => OutcomeView::Absent,
            Outcome::Page { body } => OutcomeView::Page { body: body@ },
            Outcome::Completed => OutcomeView::Completed,
            Outcome::Failed => OutcomeView::Failed,
        }
    }
}

/// An [`Installer`] as a mathematical value.
pub struct InstallerView {
    pub version: Seq<char>,
    pub container_dir: Seq<char>,
    pub platform: PlatformKey,
    pub phase: PhaseView,
}

/// The state in which an installation begins. On a platform without a
/// runtime it has failed before anything is asked of the driver.
pub open spec fn initial(
    version: Seq<char>,
    container_dir: Seq<char>,
    platform: PlatformKey,
) -> InstallerView {
    InstallerView {
        version,
        container_dir,
        platform,
        phase: if platform.is_supported() {
            PhaseView::ProbingRuntime
        } else {
            PhaseView::Failed { error: AdapterError::UnsupportedPlatform }
        },
    }
}

/// The request that is pending in a state.
pub open spec fn pending(s: InstallerView) -> ActionView {
    match s.phase {
        PhaseView::ProbingRuntime => ActionView::Probe {
            path: join_path(s.container_dir, JAVA_HOME@),
        },
        PhaseView::InstallingRuntime => match runtime_url_of(s.platform) {
            Some(url) => ActionView::Unpack { url, into: s.container_dir },
            None => ActionView::Abort { error: AdapterError::UnsupportedPlatform },
        },
        PhaseView::ProbingServer => ActionView::Probe {
            path: join_path(s.container_dir, LAUNCHER_JAR@),
        },
        PhaseView::FetchingReleasePage => ActionView::Fetch { url: version_page_url_of(s.version) },
        PhaseView::InstallingServer { url } => ActionView::Unpack { url, into: s.container_dir },
        PhaseView::WritingMarker => ActionView::Write {
            path: join_path(s.container_dir, VERSION_MARKER@),
            contents: s.version,
        },
        PhaseView::Finished => match launch_spec_of(s.container_dir, s.platform) {
            Some(spec) => ActionView::Launch { spec },
            None => ActionView::Abort { error: AdapterError::UnsupportedPlatform },
        },
        PhaseView::Failed { error } => ActionView::Abort { error },
    }
}

/// The phase that follows when `outcome` is reported in state `s`.
///
/// A marker that is present skips the installation that it stands for. A
/// page that cannot be fetched is a network error; an archive that cannot
/// be unpacked and a marker that cannot be written are installation errors,
/// and so is an outcome that does not answer the pending request. Once
/// finished or failed, the machine stays as it is.
pub open spec fn next_phase(s: InstallerView, outcome: OutcomeView) -> PhaseView {
    let botched = PhaseView::Failed { error: AdapterError::Installation };
    match s.phase {
        PhaseView::ProbingRuntime => match outcome {
            OutcomeView::Present => PhaseView::ProbingServer,
            OutcomeView::Absent => PhaseView::InstallingRuntime,
            _ => botched,
        },
        PhaseView::InstallingRuntime => match outcome {
            OutcomeView::Completed => PhaseView::ProbingServer,
            _ => botched,
        },
        PhaseView::ProbingServer => match outcome {
            OutcomeView::Present => PhaseView::Finished,
            OutcomeView::Absent => PhaseView::FetchingReleasePage,
            _ => botched,
        },
        PhaseView::FetchingReleasePage => match outcome {
            OutcomeView::Page { body } => match server_archive_url_of(body) {
                Ok(url) => PhaseView::InstallingServer { url },
                Err(error) => PhaseView::Failed { error },
            },
            OutcomeView::Failed => PhaseView::Failed { error: AdapterError::Network },
            _ => botched,
        },
        PhaseView::InstallingServer { url } => match outcome {
            OutcomeView::Completed => PhaseView::WritingMarker,
            _ => botched,
        },
        PhaseView::WritingMarker => match outcome {
            OutcomeView::Completed => PhaseView::Finished,
            _ => botched,
        },
        PhaseView::Finished => PhaseView::Finished,
        PhaseView::Failed { error } => PhaseView::Failed { error },
    }
}

/// The state that follows when `outcome` is reported in state `s`. Only
/// the phase changes.
pub open spec fn advance(s: InstallerView, outcome: OutcomeView) -> InstallerView {
    InstallerView { phase: next_phase(s, outcome), ..s }
}

/// The state after the outcomes `outcomes` were reported one after the
/// other, beginning in state `s`.
pub open spec fn run(s: InstallerView, outcomes: Seq<OutcomeView>) -> InstallerView
    decreases outcomes.len(),
{
    if outcomes.len() == 0 {
        s
    } else {
        advance(run(s, outcomes.drop_last()), outcomes.last())
    }
}

/// One attempt to install the runtime and the release `version` of the
/// server into a container directory.
#[derive(Debug, PartialEq, Eq)]
pub struct Installer {
    version: String,
    container_dir: String,
    platform: PlatformKey,
    phase: Phase,
}

impl View for Installer {
    type V = InstallerView;

    closed spec fn view(&self) -> InstallerView {
        InstallerView {
            version: self.version@,
            container_dir: self.container_dir@,
            platform: self.platform,
            phase: self.phase@,
        }
    }
}

impl Installer {
    /// Begins an installation. Nothing has been asked of the driver yet:
    /// the first request is [`Installer::pending`].
    pub fn start(version: String, container_dir: String, platform: PlatformKey) -> (installer: Installer)
        ensures
            installer@ == initial(version@, container_dir@, platform),
    {
        let phase: Phase = if platform.supported() {
            Phase::ProbingRuntime
        } else {
            Phase::Failed { error: AdapterError::UnsupportedPlatform }
        };
        Installer { version, container_dir, platform, phase }
    }

    /// The request that the driver is to carry out next.
    pub fn pending(&self) -> (action: Action)
        ensures
            action@ == pending(self@),
    {
        let dir: &str = self.container_dir.as_str();
        match &self.phase {
            Phase::ProbingRuntime => Action::Probe { path: runtime_marker(dir) },
            Phase::InstallingRuntime => match self.platform.runtime_url() {
                Ok(url) => Action::Unpack {
                    url: url.to_string(),
                    into: self.container_dir.clone(),
                },
                Err(error) => Action::Abort { error },
            },
            Phase::ProbingServer => Action::Probe { path: server_marker(dir) },
            Phase::FetchingReleasePage => Action::Fetch {
                url: version_page_url(self.version.as_str()),
            },
            Phase::InstallingServer { url } => Action::Unpack {
                url: url.clone(),
                into: self.container_dir.clone(),
            },
            Phase::WritingMarker => Action::Write {
                path: version_marker(dir),
                contents: self.version.clone(),
            },
            Phase::Finished => match launch_spec(dir, &self.platform) {
                Ok(spec) => Action::Launch { spec },
                Err(error) => Action::Abort { error },
            },
            Phase::Failed { error } => Action::Abort { error: *error },
        }
    }

    /// Takes the outcome of the pending request and answers with the next
    /// request.
    pub fn step(&mut self, outcome: Outcome) -> (action: Action)
        ensures
            final(self)@ == advance(old(self)@, outcome@),
            action@ == pending(final(self)@),
    {
        let next: Phase = match &self.phase {
            Phase::ProbingRuntime => match outcome {
                Outcome::Present => Phase::ProbingServer,
                Outcome::Absent => Phase::InstallingRuntime,
                _ => Phase::Failed { error: AdapterError::Installation },
            },
            Phase::InstallingRuntime => match outcome {
                Outcome::Completed => Phase::ProbingServer,
                _ => Phase::Failed { error: AdapterError::Installation },
            },
            Phase::ProbingServer => match outcome {
                Outcome::Present => Phase::Finished,
                Outcome::Absent => Phase::FetchingReleasePage,
                _ => Phase::Failed { error: AdapterError::Installation },
            },
            Phase::FetchingReleasePage => match outcome {
                Outcome::Page { body } => match server_archive_url(body.as_str()) {
                    Ok(url) => Phase::InstallingServer { url },
                    Err(error) => Phase::Failed { error },
                },
                Outcome::Failed => Phase::Failed { error: AdapterError::Network },
                _ => Phase::Failed { error: AdapterError::Installation },
            },
            Phase::InstallingServer { url: _ } => match outcome {
                Outcome::Completed => Phase::WritingMarker,
                _ => Phase::Failed { error: AdapterError::Installation },
            },
            Phase::WritingMarker => match outcome {
                Outcome::Completed => Phase::Finished,
                _ => Phase::Failed { error: AdapterError::Installation },
            },
            Phase::Finished => Phase::Finished,
            Phase::Failed { error } => Phase::Failed { error: *error },
        };
        self.phase = next;
        self.pending()
    }

    /// The release that is being installed.
    pub fn version(&self) -> (version: &str)
        ensures
            version@ == self@.version,
    {
        self.version.as_str()
    }

    /// The directory that the installation goes into.
    pub fn container_dir(&self) -> (dir: &str)
        ensures
            dir@ == self@.container_dir,
    {
        self.container_dir.as_str()
    }

    /// The platform that is installed for.
    pub fn platform(&self) -> (platform: PlatformKey)
        ensures
            platform == self@.platform,
    {
        self.platform
    }

    /// How far the installation has come.
    pub fn phase(&self) -> (phase: &Phase)
        ensures
            phase@ == self@.phase,
    {
        &self.phase
    }

    /// Whether the installation has ended, well or badly.
    pub fn is_over(&self) -> (r: bool)
        ensures
            r == pending(self@).is_last(),
    {
        match &self.phase {
            Phase::Finished => true,
            Phase::Failed { error: _ } => true,
            Phase::InstallingRuntime => !self.platform.supported(),
            _ => false,
        }
    }
}

/// In a state that an installation can reach, the platform is supported
/// unless the installation has failed.
pub open spec fn reachable_shape(s: InstallerView) -> bool {
    s.phase is Failed || s.platform.is_supported()
}

/// Whatever is reported, an installation stays with its version, its
/// container directory and its platform, and on a supported platform
/// unless it has failed.
pub proof fn lemma_run_keeps_inputs(
    version: Seq<char>,
    container_dir: Seq<char>,
    platform: PlatformKey,
    outcomes: Seq<OutcomeView>,
)
    ensures
        run(initial(version, container_dir, platform), outcomes).version == version,
        run(initial(version, container_dir, platform), outcomes).container_dir == container_dir,
        run(initial(version, container_dir, platform), outcomes).platform == platform,
        reachable_shape(run(initial(version, container_dir, platform), outcomes)),
    decreases outcomes.len(),
{
    if outcomes.len() > 0 {
        lemma_run_keeps_inputs(version, container_dir, platform, outcomes.drop_last());
    }
}

/// However an installation got there, once it has finished it hands out
/// the launch command of its container directory and its platform: after a
/// fresh installation and after finding everything in place the command is
/// the same, and the version that was asked for plays no part in it.
pub proof fn lemma_finished_launch_is_fixed(
    version: Seq<char>,
    container_dir: Seq<char>,
    platform: PlatformKey,
    outcomes: Seq<OutcomeView>,
)
    requires
        run(initial(version, container_dir, platform), outcomes).phase is Finished,
    ensures
        launch_spec_of(container_dir, platform) matches Some(spec) && (
            pending(run(initial(version, container_dir, platform), outcomes))
                == (ActionView::Launch { spec })),
{
    lemma_run_keeps_inputs(version, container_dir, platform, outcomes);
    lemma_platform_support(container_dir, platform);
}

/// Where both markers are present the installation asks for the two probes
/// and then for the launch: nothing is fetched or downloaded.
pub proof fn lemma_populated_directory_needs_no_network(
    version: Seq<char>,
    container_dir: Seq<char>,
    platform: PlatformKey,
)
    requires
        platform.is_supported(),
    ensures
        ({
            let s0 = initial(version, container_dir, platform);
            let s1 = advance(s0, OutcomeView::Present);
            let s2 = advance(s1, OutcomeView::Present);
            &&& pending(s0) == (ActionView::Probe { path: join_path(container_dir, JAVA_HOME@) })
            &&& pending(s1) == (ActionView::Probe { path: join_path(container_dir, LAUNCHER_JAR@) })
            &&& launch_spec_of(container_dir, platform) matches Some(spec)
                && pending(s2) == (ActionView::Launch { spec })
            &&& !pending(s0).uses_network()
            &&& !pending(s1).uses_network()
            &&& !pending(s2).uses_network()
        }),
{
    lemma_platform_support(container_dir, platform);
}

/// Into an empty container directory the installation unpacks the runtime,
/// then reads the page of the release, unpacks the archive that the page
/// links to, records the version, and hands out the launch command.
pub proof fn lemma_fresh_installation(
    version: Seq<char>,
    container_dir: Seq<char>,
    platform: PlatformKey,
    release_page: Seq<char>,
)
    requires
        platform.is_supported(),
        server_archive_url_of(release_page) is Ok,
    ensures
        ({
            let s0 = initial(version, container_dir, platform);
            let s1 = advance(s0, OutcomeView::Absent);
            let s2 = advance(s1, OutcomeView::Completed);
            let s3 = advance(s2, OutcomeView::Absent);
            let s4 = advance(s3, OutcomeView::Page { body: release_page });
            let s5 = advance(s4, OutcomeView::Completed);
            let s6 = advance(s5, OutcomeView::Completed);
            &&& pending(s0) == (ActionView::Probe { path: join_path(container_dir, JAVA_HOME@) })
            &&& runtime_url_of(platform) matches Some(url)
                && pending(s1) == (ActionView::Unpack { url, into: container_dir })
            &&& pending(s2) == (ActionView::Probe { path: join_path(container_dir, LAUNCHER_JAR@) })
            &&& pending(s3) == (ActionView::Fetch { url: version_page_url_of(version) })
            &&& server_archive_url_of(release_page) matches Ok(url)
                && pending(s4) == (ActionView::Unpack { url, into: container_dir })
            &&& pending(s5) == (ActionView::Write {
                path: join_path(container_dir, VERSION_MARKER@),
                contents: version,
            })
            &&& launch_spec_of(container_dir, platform) matches Some(spec)
                && pending(s6) == (ActionView::Launch { spec })
        }),
{
    lemma_platform_support(container_dir, platform);
}

/// The server is not touched before the runtime is in place: the
/// installation turns to the server only when the runtime's marker was
/// found or the runtime's archive was unpacked.
pub proof fn lemma_runtime_before_server(s: InstallerView, outcome: OutcomeView)
    ensures
        next_phase(s, outcome) is ProbingServer ==> (
            (s.phase is ProbingRuntime && outcome is Present)
            || (s.phase is InstallingRuntime && outcome is Completed)),
        next_phase(s, outcome) is FetchingReleasePage ==> (
            s.phase is ProbingServer && outcome is Absent),
        next_phase(s, outcome) is InstallingServer ==> s.phase is FetchingReleasePage,
        next_phase(s, outcome) is WritingMarker ==> (
            s.phase is InstallingServer && outcome is Completed),
        next_phase(s, outcome) is Finished ==> (
            s.phase is Finished
            || (s.phase is ProbingServer && outcome is Present)
            || (s.phase is WritingMarker && outcome is Completed)),
{
}

/// An installation that has ended stays ended, with the same last request.
pub proof fn lemma_end_is_final(s: InstallerView, outcome: OutcomeView)
    requires
        s.phase is Finished || s.phase is Failed,
    ensures
        advance(s, outcome) == s,
{
}

/// A request that does not succeed ends the installation: a page that
/// cannot be fetched with a network error, everything else with an
/// installation error.
pub proof fn lemma_failure_is_fatal(s: InstallerView)
    requires
        !(s.phase is Finished),
    ensures
        pending(advance(s, OutcomeView::Failed)) is Abort,
        s.phase is FetchingReleasePage ==> (
            pending(advance(s, OutcomeView::Failed))
                == (ActionView::Abort { error: AdapterError::Network })),
        !(s.phase is FetchingReleasePage) && !(s.phase is Failed) ==> (
            pending(advance(s, OutcomeView::Failed))
                == (ActionView::Abort { error: AdapterError::Installation })),
{
}

/// On a platform without a runtime the installation fails before it asks
/// for anything.
pub proof fn lemma_unsupported_platform_aborts(
    version: Seq<char>,
    container_dir: Seq<char>,
    platform: PlatformKey,
)
    requires
        !platform.is_supported(),
    ensures
        pending(initial(version, container_dir, platform)) == (ActionView::Abort {
            error: AdapterError::UnsupportedPlatform,
        }),
{
}

} // verus!
