//! The two pages of the download site that the installer reads: the
//! milestone index, which lists the releases, and the page of one release,
//! which links to its archive.

use vstd::prelude::*;
use crate::error::AdapterError;
use crate::pattern::{find_captures, group, group_text, regex_captures};
use crate::text::chain;
use crate::version::{is_latest, latest_version, no_version, Milestone, MilestoneLink};

verus! {

/// The host that serves the milestone index, the release pages and the
/// server archives.
pub const JDT_MILESTONES_URL: &'static str = "https://download.eclipse.org";

/// The path of the milestone index on its host.
pub const MILESTONES_PATH: &'static str = "/jdtls/milestones";

/// A link of the milestone index to the page of one release. The three
/// groups are the components of the release number.
pub const MILESTONE_LINK_PATTERN: &'static str =
    r"<a href='/jdtls/milestones/(\d+)\.(\d+)\.(\d+)'>";

/// The link of a release page to the server archive. The group is the path
/// of the archive on the host.
pub const DOWNLOAD_LINK_PATTERN: &'static str =
    r"<a href='https://www.eclipse.org/downloads/download.php\?file=(.*\.tar\.gz)'";

/// A text or the error in its place, as mathematical sequences.
pub open spec fn text_of(r: Result<String, AdapterError>) -> Result<Seq<char>, AdapterError> {
    match r {
        Ok(text) => Ok(text@),
        Err(e) => Err(e),
    }
}

/// The address of the page of the release `version`.
pub open spec fn version_page_url_of(version: Seq<char>) -> Seq<char> {
    JDT_MILESTONES_URL@ + MILESTONES_PATH@ + seq!['/'] + version
}

/// The address of the milestone index.
pub fn milestones_url() -> (url: String)
    ensures
        url@ == JDT_MILESTONES_URL@ + MILESTONES_PATH@,
{
    chain(JDT_MILESTONES_URL, MILESTONES_PATH)
}

/// The address of the page of the release `version`.
pub fn version_page_url(version: &str) -> (url: String)
    ensures
        url@ == version_page_url_of(version@),
{
    proof {
        reveal_strlit("/");
        assert("/"@ =~= seq!['/']);
    }
    let mut url: String = milestones_url();
    url.append("/");
    url.append(version);
    url
}

/// The address of the archive that the host serves under `path`.
pub fn archive_url(path: &str) -> (url: String)
    ensures
        url@ == JDT_MILESTONES_URL@ + path@,
{
    chain(JDT_MILESTONES_URL, path)
}

/// The link that one match of [`MILESTONE_LINK_PATTERN`] stands for.
pub open spec fn milestone_of(groups: Seq<Option<Seq<char>>>) -> Milestone {
    Milestone {
        major: group_text(groups, 1),
        minor: group_text(groups, 2),
        patch: group_text(groups, 3),
    }
}

/// The links that the matches of [`MILESTONE_LINK_PATTERN`] stand for, in
/// the order of the matches.
pub open spec fn milestones_in(found: Seq<Seq<Option<Seq<char>>>>) -> Seq<Milestone> {
    Seq::new(found.len(), |i: int| milestone_of(found[i]))
}

/// The links that the matches of [`MILESTONE_LINK_PATTERN`] stand for, in
/// the order of the matches.
pub fn links_from_captures(found: &Vec<Vec<Option<String>>>) -> (links: Vec<MilestoneLink>)
    ensures
        links.deep_view() == milestones_in(found.deep_view()),
{
    let mut links: Vec<MilestoneLink> = Vec::new();
    let mut i: usize = 0;
    while i < found.len()
        invariant
            i <= found.len(),
            links.len() == i,
            forall|j: int|
                0 <= j < i ==> (#[trigger] links@[j])@ == milestone_of(found.deep_view()[j]),
        decreases found.len() - i,
    {
        let groups: &Vec<Option<String>> = &found[i];
        assert(found.deep_view()[i as int] == groups.deep_view());
        links.push(MilestoneLink::new(group(groups, 1), group(groups, 2), group(groups, 3)));
        i = i + 1;
    }
    proof {
        assert(links.deep_view() =~= milestones_in(found.deep_view()));
    }
    links
}

/// The links to releases that the milestone index holds, in the order in
/// which they stand in the page.
pub fn milestone_links(index_page: &str) -> (r: Result<Vec<MilestoneLink>, AdapterError>)
    ensures
        match r {
            Ok(links) => (regex_captures(MILESTONE_LINK_PATTERN@, index_page@) matches Some(found)
                && links.deep_view() == milestones_in(found)),
            Err(e) => (e == AdapterError::InvalidPattern
                && regex_captures(MILESTONE_LINK_PATTERN@, index_page@) is None),
        },
{
    match find_captures(MILESTONE_LINK_PATTERN, index_page) {
        Ok(found) => Ok(links_from_captures(&found)),
        Err(e) => Err(e),
    }
}

/// What the resolution of the newest release may answer for the links
/// `found` in the index: the newest release among them, or
/// [`AdapterError::VersionResolution`] where there is none, or
/// [`AdapterError::InvalidPattern`] where the search itself failed.
pub open spec fn resolves_to(
    found: Option<Seq<Seq<Option<Seq<char>>>>>,
    r: Result<Seq<char>, AdapterError>,
) -> bool {
    match found {
        Some(found) => match r {
            Ok(version) => (is_latest(milestones_in(found), version)
                && !no_version(milestones_in(found))),
            Err(e) => (e == AdapterError::VersionResolution
                && no_version(milestones_in(found))),
        },
        None => r == Err::<Seq<char>, AdapterError>(AdapterError::InvalidPattern),
    }
}

/// The newest release that the milestone index advertises.
///
/// The release is returned as the index writes it. Where the index holds no
/// link to a release the resolution fails with
/// [`AdapterError::VersionResolution`]; it never answers with an empty or
/// arbitrary text.
pub fn resolve_latest_version(index_page: &str) -> (r: Result<String, AdapterError>)
    ensures
        resolves_to(regex_captures(MILESTONE_LINK_PATTERN@, index_page@), text_of(r)),
{
    match milestone_links(index_page) {
        Ok(links) => latest_version(&links),
        Err(e) => Err(e),
    }
}

/// The path of the server archive that the first download link among
/// `found` names; `None` where there is no such link.
pub open spec fn archive_path_in(found: Seq<Seq<Option<Seq<char>>>>) -> Option<Seq<char>> {
    if found.len() > 0 && found[0].len() > 1 {
        found[0][1]
    } else {
        None
    }
}

/// The address of the server archive for the download links `found` in a
/// release page.
pub open spec fn archive_url_in(
    found: Option<Seq<Seq<Option<Seq<char>>>>>,
) -> Result<Seq<char>, AdapterError> {
    match found {
        Some(found) => match archive_path_in(found) {
            Some(path) => Ok(JDT_MILESTONES_URL@ + path),
            None => Err(AdapterError::ArtifactNotFound),
        },
        None => Err(AdapterError::InvalidPattern),
    }
}

/// The address of the server archive that the page of a release links to.
pub open spec fn server_archive_url_of(release_page: Seq<char>) -> Result<Seq<char>, AdapterError> {
    archive_url_in(regex_captures(DOWNLOAD_LINK_PATTERN@, release_page))
}

/// The address of the server archive that the first of the download links
/// `found` names.
///
/// Fails with [`AdapterError::ArtifactNotFound`] exactly where there is no
/// such link.
pub fn archive_url_from_captures(
    found: &Vec<Vec<Option<String>>>,
) -> (r: Result<String, AdapterError>)
    ensures
        text_of(r) == archive_url_in(Some(found.deep_view())),
{
    if found.len() > 0 && found[0].len() > 1 {
        assert(found.deep_view()[0] == found@[0].deep_view());
        assert(found@[0].deep_view()[1] == found@[0]@[1].deep_view());
        match &found[0][1] {
            Some(path) => Ok(archive_url(path.as_str())),
            None => Err(AdapterError::ArtifactNotFound),
        }
    } else {
        assert(found.deep_view().len() == found@.len());
        if found.len() > 0 {
            assert(found.deep_view()[0] == found@[0].deep_view());
        }
        Err(AdapterError::ArtifactNotFound)
    }
}

/// The address of the server archive that the page of a release links to.
///
/// Fails with [`AdapterError::ArtifactNotFound`] exactly where the page
/// holds no download link.
pub fn server_archive_url(release_page: &str) -> (r: Result<String, AdapterError>)
    ensures
        text_of(r) == server_archive_url_of(release_page@),
{
    match find_captures(DOWNLOAD_LINK_PATTERN, release_page) {
        Ok(found) => archive_url_from_captures(&found),
        Err(e) => Err(e),
    }
}

} // verus!
