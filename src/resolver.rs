//! Finding the `ols` language server binary. The search alternates between
//! questions for the editor (settings, `PATH`, the file system, the release
//! service) and decisions; the decisions are made here, one answer at a
//! time, and the caller carries out each step that comes back.

use vstd::prelude::*;
use crate::extension::OdinExtension;
use crate::platform::{
    arch_token, asset_name, exe_suffix, installed_binary_path, exe_suffix_spec, release_file_name,
    release_file_name_spec, unsupported_platform_message, version_dir, Architecture, Os,
};
use crate::text::{same_text, starts_with_text};

verus! {

/// A downloadable file of a release.
pub struct GithubReleaseAsset {
    pub name: String,
    pub download_url: String,
}

/// A published release of the language server.
pub struct GithubRelease {
    pub version: String,
    pub assets: Vec<GithubReleaseAsset>,
}

/// Where a resolution stands: which answer it waits for, and what it has
/// worked out so far.
pub enum Phase {
    AwaitConfigured,
    AwaitOnPath,
    AwaitCached,
    AwaitRelease,
    AwaitInstalled { binary_path: String, url: String, dir: String },
    AwaitDownload { binary_path: String, dir: String },
    AwaitExecutable { binary_path: String, dir: String },
    AwaitCleanup { binary_path: String },
    AwaitListing { error: String },
    AwaitFallback { candidates: Vec<String>, index: usize, error: String },
    Finished,
}

/// A resolution in progress on one platform.
pub struct Resolution {
    pub phase: Phase,
    pub os: Os,
    pub arch: Architecture,
}

/// What the caller is asked to do next.
pub enum ResolveStep {
    /// Look up a binary path in the worktree's language server settings.
    ReadConfiguredPath,
    /// Look the language server up on the worktree's `PATH`.
    FindOnPath,
    /// Tell whether this earlier found path is still a regular file.
    CheckCachedFile(String),
    /// Fetch the latest release, pre-releases included, that has assets.
    FetchLatestRelease,
    /// Tell whether this installed binary is a regular file.
    CheckInstalledFile(String),
    /// Download the zip archive at `url` and unpack it into `dir`.
    Download { url: String, dir: String },
    /// Mark the binary executable.
    MakeExecutable(String),
    /// Remove every entry of the working directory but `keep`.
    RemoveOtherVersions { keep: String },
    /// List the names of the entries of the working directory.
    ListWorkingDirectory,
    /// Tell whether this binary of an earlier installation is a regular file.
    CheckFallbackFile(String),
    /// The search is over.
    Done(Result<String, String>),
}

/// The answer to the last step.
pub enum ResolveEvent {
    ConfiguredPath(Option<String>),
    OnPath(Option<String>),
    CachedIsFile(bool),
    Release(Result<GithubRelease, String>),
    InstalledIsFile(bool),
    Downloaded(Result<(), String>),
    MadeExecutable(Result<(), String>),
    Cleaned(Result<(), String>),
    DirectoryEntries(Result<Vec<String>, String>),
    FallbackIsFile(bool),
}

/// A step as text.
pub enum StepView {
    ReadConfiguredPath,
    FindOnPath,
    CheckCachedFile(Seq<char>),
    FetchLatestRelease,
    CheckInstalledFile(Seq<char>),
    Download(Seq<char>, Seq<char>),
    MakeExecutable(Seq<char>),
    RemoveOtherVersions(Seq<char>),
    ListWorkingDirectory,
    CheckFallbackFile(Seq<char>),
    Done(Result<Seq<char>, Seq<char>>),
}

/// A phase as text.
pub enum PhaseView {
    AwaitConfigured,
    AwaitOnPath,
    AwaitCached,
    AwaitRelease,
    AwaitInstalled(Seq<char>, Seq<char>, Seq<char>),
    AwaitDownload(Seq<char>, Seq<char>),
    AwaitExecutable(Seq<char>, Seq<char>),
    AwaitCleanup(Seq<char>),
    AwaitListing(Seq<char>),
    AwaitFallback(Seq<Seq<char>>, nat, Seq<char>),
    Finished,
}

/// The text of a result of strings.
pub open spec fn text_result(r: Result<String, String>) -> Result<Seq<char>, Seq<char>> {
    match r {
        Ok(s) => Ok(s@),
        Err(e) => Err(e@),
    }
}

impl View for ResolveStep {
    type V = StepView;

    open spec fn view(&self) -> StepView {
        match self {
            ResolveStep::ReadConfiguredPath => StepView::ReadConfiguredPath,
            ResolveStep::FindOnPath => StepView::FindOnPath,
            ResolveStep::CheckCachedFile(p) => StepView::CheckCachedFile(p@),
            ResolveStep::FetchLatestRelease => StepView::FetchLatestRelease,
            ResolveStep::CheckInstalledFile(p) => StepView::CheckInstalledFile(p@),
            ResolveStep::Download { url, dir } => StepView::Download(url@, dir@),
            ResolveStep::MakeExecutable(p) => StepView::MakeExecutable(p@),
            ResolveStep::RemoveOtherVersions { keep } => StepView::RemoveOtherVersions(keep@),
            ResolveStep::ListWorkingDirectory => StepView::ListWorkingDirectory,
            ResolveStep::CheckFallbackFile(p) => StepView::CheckFallbackFile(p@),
            ResolveStep::Done(r) => StepView::Done(text_result(*r)),
        }
    }
}

impl View for Phase {
    type V = PhaseView;

    open spec fn view(&self) -> PhaseView {
        match self {
            Phase::AwaitConfigured => PhaseView::AwaitConfigured,
            Phase::AwaitOnPath => PhaseView::AwaitOnPath,
            Phase::AwaitCached => PhaseView::AwaitCached,
            Phase::AwaitRelease => PhaseView::AwaitRelease,
            Phase::AwaitInstalled { binary_path, url, dir } => PhaseView::AwaitInstalled(
                binary_path@,
                url@,
                dir@,
            ),
            Phase::AwaitDownload { binary_path, dir } => PhaseView::AwaitDownload(binary_path@, dir@),
            Phase::AwaitExecutable { binary_path, dir } => PhaseView::AwaitExecutable(
                binary_path@,
                dir@,
            ),
            Phase::AwaitCleanup { binary_path } => PhaseView::AwaitCleanup(binary_path@),
            Phase::AwaitListing { error } => PhaseView::AwaitListing(error@),
            Phase::AwaitFallback { candidates, index, error } => PhaseView::AwaitFallback(
                candidates.deep_view(),
                *index as nat,
                error@,
            ),
            Phase::Finished => PhaseView::Finished,
        }
    }
}

/// Each asset as its name and download URL.
pub open spec fn asset_views(assets: Seq<GithubReleaseAsset>) -> Seq<(Seq<char>, Seq<char>)> {
    assets.map_values(|a: GithubReleaseAsset| (a.name@, a.download_url@))
}

/// The download URL of the first asset called `name`.
pub open spec fn find_asset(assets: Seq<(Seq<char>, Seq<char>)>, name: Seq<char>) -> Option<Seq<char>>
    decreases assets.len(),
{
    if assets.len() == 0 {
        None
    } else if assets[0].0 == name {
        Some(assets[0].1)
    } else {
        find_asset(assets.drop_first(), name)
    }
}

/// The error when the release has no asset for the platform.
pub open spec fn no_asset_message(name: Seq<char>) -> Seq<char> {
    "no asset found matching \""@ + name + "\""@
}

/// The error when the download fails.
pub open spec fn download_failed_message(e: Seq<char>) -> Seq<char> {
    "failed to download file: "@ + e
}

/// The name of the binary inside an installation directory.
pub open spec fn binary_file_name(os: Os, arch: Architecture) -> Seq<char> {
    release_file_name_spec(arch_token(arch)->0, os) + exe_suffix_spec(os)
}

/// The binaries that earlier installations may have left: one for each
/// directory named `ols-...`, in the order listed.
pub open spec fn fallback_candidates(names: Seq<Seq<char>>, binary: Seq<char>) -> Seq<Seq<char>>
    decreases names.len(),
{
    if names.len() == 0 {
        seq![]
    } else {
        let rest = fallback_candidates(names.drop_last(), binary);
        if "ols-"@.is_prefix_of(names.last()) {
            rest.push(names.last() + "/"@ + binary)
        } else {
            rest
        }
    }
}

/// The error when no release could be fetched and no earlier installation
/// is left: what went wrong, and how to install the server by hand.
pub open spec fn offline_message(e: Seq<char>) -> Seq<char> {
    "could not fetch the latest ols release ("@ + e
        + "), and no earlier installation was found; install ols and put it on PATH, or set lsp.ols.binary.path in the settings"@
}

/// Try the candidate at `index`, or give up when none is left.
pub open spec fn next_fallback(candidates: Seq<Seq<char>>, index: nat, e: Seq<char>) -> (PhaseView, StepView) {
    if index < candidates.len() {
        (PhaseView::AwaitFallback(candidates, index, e), StepView::CheckFallbackFile(candidates[index as int]))
    } else {
        (PhaseView::Finished, StepView::Done(Err(offline_message(e))))
    }
}

/// Where a fresh installation starts: nothing is fetched for a platform
/// without a release build.
pub open spec fn fresh_install(arch: Architecture) -> (PhaseView, StepView) {
    if arch_token(arch) is None {
        (PhaseView::Finished, StepView::Done(Err(unsupported_platform_message())))
    } else {
        (PhaseView::AwaitRelease, StepView::FetchLatestRelease)
    }
}

/// What follows the latest release: its asset for the platform, and the
/// check whether that version is installed already.
pub open spec fn after_release(release: (Seq<char>, Seq<(Seq<char>, Seq<char>)>), os: Os, arch: Architecture) -> (PhaseView, StepView) {
    let file_name = release_file_name_spec(arch_token(arch)->0, os);
    let archive = file_name + ".zip"@;
    let dir = "ols-"@ + release.0;
    let binary_path = dir + "/"@ + file_name + exe_suffix_spec(os);
    match find_asset(release.1, archive) {
        None => (PhaseView::Finished, StepView::Done(Err(no_asset_message(archive)))),
        Some(url) => (
            PhaseView::AwaitInstalled(binary_path, url, dir),
            StepView::CheckInstalledFile(binary_path),
        ),
    }
}

/// The next phase and step, given the phase, the answer to the last step,
/// the cached path and the platform. An answer that does not fit the phase
/// ends the search with an error.
pub open spec fn transition(
    phase: PhaseView,
    event: ResolveEvent,
    cached: Option<Seq<char>>,
    os: Os,
    arch: Architecture,
) -> (PhaseView, StepView) {
    match (phase, event) {
        (PhaseView::AwaitConfigured, ResolveEvent::ConfiguredPath(Some(p))) => (
            PhaseView::Finished,
            StepView::Done(Ok(p@)),
        ),
        (PhaseView::AwaitConfigured, ResolveEvent::ConfiguredPath(None)) => (
            PhaseView::AwaitOnPath,
            StepView::FindOnPath,
        ),
        (PhaseView::AwaitOnPath, ResolveEvent::OnPath(Some(p))) => (
            PhaseView::Finished,
            StepView::Done(Ok(p@)),
        ),
        (PhaseView::AwaitOnPath, ResolveEvent::OnPath(None)) => match cached {
            Some(c) => (PhaseView::AwaitCached, StepView::CheckCachedFile(c)),
            None => fresh_install(arch),
        },
        (PhaseView::AwaitCached, ResolveEvent::CachedIsFile(is_file)) => if is_file && cached is Some {
            (PhaseView::Finished, StepView::Done(Ok(cached->0)))
        } else {
            fresh_install(arch)
        },
        (PhaseView::AwaitRelease, ResolveEvent::Release(Err(e))) => (
            PhaseView::AwaitListing(e@),
            StepView::ListWorkingDirectory,
        ),
        (PhaseView::AwaitListing(e), ResolveEvent::DirectoryEntries(Err(_))) => (
            PhaseView::Finished,
            StepView::Done(Err(offline_message(e))),
        ),
        (PhaseView::AwaitListing(e), ResolveEvent::DirectoryEntries(Ok(names))) => if arch_token(arch) is None {
            (PhaseView::Finished, StepView::Done(Err(unsupported_platform_message())))
        } else {
            next_fallback(fallback_candidates(names.deep_view(), binary_file_name(os, arch)), 0, e)
        },
        (PhaseView::AwaitFallback(candidates, i, e), ResolveEvent::FallbackIsFile(is_file)) => if i >= candidates.len() {
            (PhaseView::Finished, StepView::Done(Err(unexpected_event_message())))
        } else if is_file {
            (PhaseView::Finished, StepView::Done(Ok(candidates[i as int])))
        } else {
            next_fallback(candidates, i + 1, e)
        },
        (PhaseView::AwaitRelease, ResolveEvent::Release(Ok(r))) => if arch_token(arch) is None {
            (PhaseView::Finished, StepView::Done(Err(unsupported_platform_message())))
        } else {
            after_release((r.version@, asset_views(r.assets@)), os, arch)
        },
        (PhaseView::AwaitInstalled(path, url, dir), ResolveEvent::InstalledIsFile(is_file)) => if is_file {
            (PhaseView::Finished, StepView::Done(Ok(path)))
        } else {
            (PhaseView::AwaitDownload(path, dir), StepView::Download(url, dir))
        },
        (PhaseView::AwaitDownload(path, dir), ResolveEvent::Downloaded(Err(e))) => (
            PhaseView::Finished,
            StepView::Done(Err(download_failed_message(e@))),
        ),
        (PhaseView::AwaitDownload(path, dir), ResolveEvent::Downloaded(Ok(_))) => (
            PhaseView::AwaitExecutable(path, dir),
            StepView::MakeExecutable(path),
        ),
        (PhaseView::AwaitExecutable(path, dir), ResolveEvent::MadeExecutable(Err(e))) => (
            PhaseView::Finished,
            StepView::Done(Err(e@)),
        ),
        (PhaseView::AwaitExecutable(path, dir), ResolveEvent::MadeExecutable(Ok(_))) => (
            PhaseView::AwaitCleanup(path),
            StepView::RemoveOtherVersions(dir),
        ),
        (PhaseView::AwaitCleanup(path), ResolveEvent::Cleaned(Err(e))) => (
            PhaseView::Finished,
            StepView::Done(Err(e@)),
        ),
        (PhaseView::AwaitCleanup(path), ResolveEvent::Cleaned(Ok(_))) => (
            PhaseView::Finished,
            StepView::Done(Ok(path)),
        ),
        _ => (PhaseView::Finished, StepView::Done(Err(unexpected_event_message()))),
    }
}

/// The error for an answer that does not fit the step asked.
pub open spec fn unexpected_event_message() -> Seq<char> {
    "unexpected answer while locating the language server"@
}

/// The cache after a step: a path that the search ends with is remembered.
pub open spec fn cache_after(step: StepView, cached: Option<Seq<char>>) -> Option<Seq<char>> {
    match step {
        StepView::Done(Ok(p)) => Some(p),
        _ => cached,
    }
}

/// On 32-bit x86, which has no release build, the search never asks for the
/// latest release: where it would, it ends with the unsupported-platform error.
pub proof fn lemma_unsupported_platform_fetches_nothing(
    phase: PhaseView,
    event: ResolveEvent,
    cached: Option<Seq<char>>,
    os: Os,
)
    ensures
        transition(phase, event, cached, os, Architecture::X86).1 != StepView::FetchLatestRelease,
        fresh_install(Architecture::X86) == (
            PhaseView::Finished,
            StepView::Done(Err(unsupported_platform_message())),
        ),
{
}

/// A remembered path that is still a file ends the search with that path,
/// and nothing is fetched on the way to it.
pub proof fn lemma_cached_file_short_circuits(cached: Seq<char>, os: Os, arch: Architecture)
    ensures
        transition(PhaseView::AwaitOnPath, ResolveEvent::OnPath(None), Some(cached), os, arch) == (
            PhaseView::AwaitCached,
            StepView::CheckCachedFile(cached),
        ),
        transition(PhaseView::AwaitCached, ResolveEvent::CachedIsFile(true), Some(cached), os, arch)
            == (PhaseView::Finished, StepView::Done(Ok(cached))),
{
}

/// A remembered path whose file is gone is not returned: the search goes on
/// to a fresh installation.
pub proof fn lemma_missing_cached_file_moves_on(cached: Seq<char>, os: Os, arch: Architecture)
    ensures
        transition(PhaseView::AwaitCached, ResolveEvent::CachedIsFile(false), Some(cached), os, arch)
            == fresh_install(arch),
        transition(PhaseView::AwaitCached, ResolveEvent::CachedIsFile(false), Some(cached), os, arch).1
            != StepView::Done(Ok(cached)),
{
}

proof fn lemma_find_asset_step(assets: Seq<(Seq<char>, Seq<char>)>, name: Seq<char>, i: int)
    requires
        0 <= i < assets.len(),
    ensures
        find_asset(assets.subrange(i, assets.len() as int), name) == if assets[i].0 == name {
            Some(assets[i].1)
        } else {
            find_asset(assets.subrange(i + 1, assets.len() as int), name)
        },
{
    let s = assets.subrange(i, assets.len() as int);
    assert(s[0] == assets[i]);
    assert(s.drop_first() =~= assets.subrange(i + 1, assets.len() as int));
}

/// The download URL of the first asset called `name`.
fn find_asset_url(assets: &Vec<GithubReleaseAsset>, name: &str) -> (r: Option<String>)
    ensures
        r.deep_view() == find_asset(asset_views(assets@), name@),
{
    let ghost v = asset_views(assets@);
    assert(v.subrange(0, v.len() as int) =~= v);
    let mut i: usize = 0;
    while i < assets.len()
        invariant
            i <= assets.len(),
            v == asset_views(assets@),
            v.len() == assets@.len(),
            find_asset(v, name@) == find_asset(v.subrange(i as int, v.len() as int), name@),
        decreases assets.len() - i,
    {
        proof {
            lemma_find_asset_step(v, name@, i as int);
        }
        let asset = &assets[i];
        if same_text(asset.name.as_str(), name) {
            return Some(asset.download_url.clone());
        }
        i = i + 1;
    }
    assert(v.subrange(i as int, v.len() as int) =~= Seq::<(Seq<char>, Seq<char>)>::empty());
    None
}

proof fn lemma_fallback_candidates_step(names: Seq<Seq<char>>, binary: Seq<char>, i: int)
    requires
        0 <= i < names.len(),
    ensures
        fallback_candidates(names.subrange(0, i + 1), binary) == if "ols-"@.is_prefix_of(names[i]) {
            fallback_candidates(names.subrange(0, i), binary).push(names[i] + "/"@ + binary)
        } else {
            fallback_candidates(names.subrange(0, i), binary)
        },
{
    assert(names.subrange(0, i + 1).drop_last() =~= names.subrange(0, i));
}

/// The binaries that earlier installations may have left.
fn fallback_candidates_exec(names: &Vec<String>, binary: &str) -> (r: Vec<String>)
    ensures
        r.deep_view() == fallback_candidates(names.deep_view(), binary@),
{
    let ghost v = names.deep_view();
    let mut out: Vec<String> = Vec::new();
    let mut i: usize = 0;
    assert(v.subrange(0, 0) =~= Seq::<Seq<char>>::empty());
    while i < names.len()
        invariant
            i <= names.len(),
            v == names.deep_view(),
            out.deep_view() == fallback_candidates(v.subrange(0, i as int), binary@),
        decreases names.len() - i,
    {
        proof {
            lemma_fallback_candidates_step(v, binary@, i as int);
            assert(v[i as int] == names@[i as int]@);
        }
        let name = names[i].as_str();
        if starts_with_text(name, "ols-") {
            let mut path = String::from_str(name);
            path.append("/");
            path.append(binary);
            let ghost before = out.deep_view();
            out.push(path);
            assert(out.deep_view() =~= before.push(v[i as int] + "/"@ + binary@));
        }
        i = i + 1;
    }
    assert(v.subrange(0, i as int) =~= v);
    out
}

fn offline_error(error: &str) -> (r: String)
    ensures
        r@ == offline_message(error@),
{
    let mut message = String::from_str("could not fetch the latest ols release (");
    message.append(error);
    message.append(
        "), and no earlier installation was found; install ols and put it on PATH, or set lsp.ols.binary.path in the settings",
    );
    message
}

/// Try the candidate at `index`, or give up when none is left.
fn next_fallback_exec(candidates: Vec<String>, index: usize, error: String) -> (r: (Phase, ResolveStep))
    ensures
        (r.0@, r.1@) == next_fallback(candidates.deep_view(), index as nat, error@),
{
    if index < candidates.len() {
        let step = ResolveStep::CheckFallbackFile(candidates[index].clone());
        (Phase::AwaitFallback { candidates, index, error }, step)
    } else {
        (Phase::Finished, ResolveStep::Done(Err(offline_error(error.as_str()))))
    }
}

/// The first phase and step of a fresh installation.
fn fresh_install_exec(arch: Architecture) -> (r: (Phase, ResolveStep))
    ensures
        (r.0@, r.1@) == fresh_install(arch),
{
    match arch {
        Architecture::X86 => (
            Phase::Finished,
            ResolveStep::Done(Err(String::from_str("Unsupported platform x86"))),
        ),
        _ => (Phase::AwaitRelease, ResolveStep::FetchLatestRelease),
    }
}

/// The phase and step that follow the latest release.
fn after_release_exec(release: &GithubRelease, os: Os, arch: Architecture) -> (r: (Phase, ResolveStep))
    requires
        arch_token(arch) is Some,
    ensures
        (r.0@, r.1@) == after_release((release.version@, asset_views(release.assets@)), os, arch),
{
    let file_name = match release_file_name(os, arch) {
        Ok(name) => name,
        Err(e) => {
            return (Phase::Finished, ResolveStep::Done(Err(e)));
        },
    };
    let archive = asset_name(file_name.as_str());
    match find_asset_url(&release.assets, archive.as_str()) {
        None => {
            let mut message = String::from_str("no asset found matching \"");
            message.append(archive.as_str());
            message.append("\"");
            (Phase::Finished, ResolveStep::Done(Err(message)))
        },
        Some(url) => {
            let dir = version_dir(release.version.as_str());
            let binary_path = installed_binary_path(dir.as_str(), file_name.as_str(), os);
            let step = ResolveStep::CheckInstalledFile(binary_path.clone());
            (Phase::AwaitInstalled { binary_path, url, dir }, step)
        },
    }
}

fn unexpected_event() -> (r: (Phase, ResolveStep))
    ensures
        r.0@ == PhaseView::Finished,
        r.1@ == StepView::Done(Err(unexpected_event_message())),
{
    (
        Phase::Finished,
        ResolveStep::Done(Err(String::from_str("unexpected answer while locating the language server"))),
    )
}

impl OdinExtension {
    /// Starts locating the language server on the given platform. The first
    /// step asks for a path configured in the settings.
    pub fn start_binary_resolution(&self, os: Os, arch: Architecture) -> (r: (Resolution, ResolveStep))
        ensures
            r.0.phase@ == PhaseView::AwaitConfigured,
            r.0.os == os,
            r.0.arch == arch,
            r.1@ == StepView::ReadConfiguredPath,
    {
        (Resolution { phase: Phase::AwaitConfigured, os, arch }, ResolveStep::ReadConfiguredPath)
    }

    /// Takes the answer to the last step and returns the next one. The order
    /// of the search is: a configured path, the `PATH`, the path found last
    /// time if it is still a file, then the latest release, downloaded unless
    /// that version is installed already. The path the search ends with is
    /// remembered for next time.
    pub fn advance_binary_resolution(&mut self, resolution: &mut Resolution, event: ResolveEvent) -> (step: ResolveStep)
        ensures
            (final(resolution).phase@, step@) == transition(
                old(resolution).phase@,
                event,
                old(self).cached_binary_path.deep_view(),
                old(resolution).os,
                old(resolution).arch,
            ),
            final(resolution).os == old(resolution).os,
            final(resolution).arch == old(resolution).arch,
            final(self).cached_binary_path.deep_view() == cache_after(
                step@,
                old(self).cached_binary_path.deep_view(),
            ),
    {
        let os = resolution.os;
        let arch = resolution.arch;
        let mut phase = Phase::Finished;
        core::mem::swap(&mut phase, &mut resolution.phase);
        let (next, step) = match (phase, event) {
            (Phase::AwaitConfigured, ResolveEvent::ConfiguredPath(Some(p))) => (
                Phase::Finished,
                ResolveStep::Done(Ok(p)),
            ),
            (Phase::AwaitConfigured, ResolveEvent::ConfiguredPath(None)) => (
                Phase::AwaitOnPath,
                ResolveStep::FindOnPath,
            ),
            (Phase::AwaitOnPath, ResolveEvent::OnPath(Some(p))) => (
                Phase::Finished,
                ResolveStep::Done(Ok(p)),
            ),
            (Phase::AwaitOnPath, ResolveEvent::OnPath(None)) => match &self.cached_binary_path {
                Some(c) => (Phase::AwaitCached, ResolveStep::CheckCachedFile(c.clone())),
                None => fresh_install_exec(arch),
            },
            (Phase::AwaitCached, ResolveEvent::CachedIsFile(is_file)) => {
                match &self.cached_binary_path {
                    Some(c) => if is_file {
                        (Phase::Finished, ResolveStep::Done(Ok(c.clone())))
                    } else {
                        fresh_install_exec(arch)
                    },
                    None => fresh_install_exec(arch),
                }
            },
            (Phase::AwaitRelease, ResolveEvent::Release(Err(e))) => (
                Phase::AwaitListing { error: e },
                ResolveStep::ListWorkingDirectory,
            ),
            (Phase::AwaitListing { error }, ResolveEvent::DirectoryEntries(listing)) => match listing {
                Err(_) => (Phase::Finished, ResolveStep::Done(Err(offline_error(error.as_str())))),
                Ok(names) => match release_file_name(os, arch) {
                    Err(e) => (Phase::Finished, ResolveStep::Done(Err(e))),
                    Ok(file_name) => {
                        let mut binary = file_name;
                        binary.append(exe_suffix(os));
                        next_fallback_exec(fallback_candidates_exec(&names, binary.as_str()), 0, error)
                    },
                },
            },
            (
                Phase::AwaitFallback { candidates, index, error },
                ResolveEvent::FallbackIsFile(is_file),
            ) => if index >= candidates.len() {
                unexpected_event()
            } else if is_file {
                let path = candidates[index].clone();
                (Phase::Finished, ResolveStep::Done(Ok(path)))
            } else {
                next_fallback_exec(candidates, index + 1, error)
            },
            (Phase::AwaitRelease, ResolveEvent::Release(Ok(release))) => match arch {
                Architecture::X86 => fresh_install_exec(arch),
                _ => after_release_exec(&release, os, arch),
            },
            (
                Phase::AwaitInstalled { binary_path, url, dir },
                ResolveEvent::InstalledIsFile(is_file),
            ) => if is_file {
                (Phase::Finished, ResolveStep::Done(Ok(binary_path)))
            } else {
                let step = ResolveStep::Download { url, dir: dir.clone() };
                (Phase::AwaitDownload { binary_path, dir }, step)
            },
            (Phase::AwaitDownload { binary_path, dir }, ResolveEvent::Downloaded(result)) => {
                match result {
                    Err(e) => {
                        let mut message = String::from_str("failed to download file: ");
                        message.append(e.as_str());
                        (Phase::Finished, ResolveStep::Done(Err(message)))
                    },
                    Ok(_) => {
                        let step = ResolveStep::MakeExecutable(binary_path.clone());
                        (Phase::AwaitExecutable { binary_path, dir }, step)
                    },
                }
            },
            (
                Phase::AwaitExecutable { binary_path, dir },
                ResolveEvent::MadeExecutable(result),
            ) => match result {
                Err(e) => (Phase::Finished, ResolveStep::Done(Err(e))),
                Ok(_) => (
                    Phase::AwaitCleanup { binary_path },
                    ResolveStep::RemoveOtherVersions { keep: dir },
                ),
            },
            (Phase::AwaitCleanup { binary_path }, ResolveEvent::Cleaned(result)) => match result {
                Err(e) => (Phase::Finished, ResolveStep::Done(Err(e))),
                Ok(_) => (Phase::Finished, ResolveStep::Done(Ok(binary_path))),
            },
            _ => unexpected_event(),
        };
        if let ResolveStep::Done(Ok(path)) = &step {
            self.cached_binary_path = Some(path.clone());
        }
        resolution.phase = next;
        step
    }
}

/// How to start the language server.
pub struct Command {
    pub command: String,
    pub args: Vec<String>,
    pub env: Vec<(String, String)>,
}

impl OdinExtension {
    /// The command that starts the language server found at `binary_path`:
    /// the binary itself, with no arguments and no extra environment.
    pub fn language_server_command(&self, binary_path: String) -> (r: Command)
        ensures
            r.command@ == binary_path@,
            r.args@.len() == 0,
            r.env@.len() == 0,
    {
        Command { command: binary_path, args: Vec::new(), env: Vec::new() }
    }
}

} // verus!
