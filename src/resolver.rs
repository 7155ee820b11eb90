//! Deciding where the language-server binary comes from.
//!
//! A resolution tries, in order: the path configured for the worktree, the
//! binary found on the search path, the binary provisioned earlier in this
//! process, and a download of the latest release. The host performs every
//! outside step; [`Resolution::step`] takes the outcome of the last one and says
//! what to do next, until it hands back [`Action::Finish`].
use vstd::pervasive::unreached;
use vstd::prelude::*;
use vstd::string::StringExecFns;
use crate::platform::{archive_kind, archive_kind_spec, asset_name_spec, ArchiveKind, PlatformKey, BINARY_NAME};

verus! {

/// Key under which the worktree's settings for this server are stored.
pub const SETTINGS_KEY: &'static str = "golang-ci";

/// Repository whose releases carry the language-server archives.
pub const RELEASE_REPOSITORY: &'static str = "nametake/golangci-lint-langserver";

pub const MISSING_ASSET_PREFIX: &'static str = "no asset found matching \"";

pub const QUOTE: &'static str = "\"";

pub const LIST_FAILURE_PREFIX: &'static str = "failed to list working directory ";

pub const ENTRY_FAILURE_PREFIX: &'static str = "failed to load directory entry ";

/// A binary that can be launched.
#[derive(Debug)]
pub struct ResolvedBinary {
    pub path: String,
}

/// What one resolver remembers between resolutions, for as long as the
/// process lives.
#[derive(Debug)]
pub struct InstallationState {
    pub cached_binary_path: Option<String>,
}

/// One downloadable file of a release.
#[derive(Debug)]
pub struct ReleaseAsset {
    pub name: String,
    pub download_url: String,
}

/// The latest stable release, as the registry reports it.
#[derive(Debug)]
pub struct ReleaseDescriptor {
    pub version: String,
    pub assets: Vec<ReleaseAsset>,
}

/// How to start the language server: a program with no arguments and the
/// host's environment.
#[derive(Debug)]
pub struct LaunchCommand {
    pub command: String,
    pub args: Vec<String>,
    pub env: Vec<(String, String)>,
}

pub open spec fn version_dir_spec(version: Seq<char>) -> Seq<char> {
    BINARY_NAME@ + seq!['-'] + version
}

pub open spec fn binary_path_spec(version: Seq<char>) -> Seq<char> {
    version_dir_spec(version) + seq!['/'] + BINARY_NAME@
}

pub open spec fn missing_asset_message(name: Seq<char>) -> Seq<char> {
    MISSING_ASSET_PREFIX@ + name + QUOTE@
}

pub open spec fn names_of(entries: Seq<String>) -> Seq<Seq<char>> {
    entries.map_values(|e: String| e@)
}

/// The names of `names` other than `keep`, in their order.
pub open spec fn without(names: Seq<Seq<char>>, keep: Seq<char>) -> Seq<Seq<char>>
    decreases names.len(),
{
    if names.len() == 0 {
        seq![]
    } else {
        let rest = without(names.drop_last(), keep);
        if names.last() == keep {
            rest
        } else {
            rest.push(names.last())
        }
    }
}

/// `i` is the first asset of `assets` named `name`.
pub open spec fn is_first_match(assets: Seq<ReleaseAsset>, name: Seq<char>, i: int) -> bool {
    &&& 0 <= i < assets.len()
    &&& assets[i].name@ == name
    &&& forall|j: int| 0 <= j < i ==> assets[j].name@ != name
}

pub open spec fn has_match(assets: Seq<ReleaseAsset>, name: Seq<char>) -> bool {
    exists|i: int| 0 <= i < assets.len() && assets[i].name@ == name
}

/// The directory that holds the unpacked release `version`.
pub fn version_dir(version: &String) -> (r: String)
    ensures
        r@ == version_dir_spec(version@),
{
    let mut dir = String::from_str(BINARY_NAME);
    dir.append("-");
    dir.append(version.as_str());
    proof { reveal_strlit("-"); }
    dir
}

/// Where the binary of the release `version` lies once unpacked.
pub fn binary_path(version: &String) -> (r: String)
    ensures
        r@ == binary_path_spec(version@),
{
    let mut path = version_dir(version);
    path.append("/");
    path.append(BINARY_NAME);
    proof { reveal_strlit("/"); }
    path
}

/// The position of the first asset named `name`, if any.
pub fn find_asset(assets: &Vec<ReleaseAsset>, name: &String) -> (r: Option<usize>)
    ensures
        match r {
            Some(i) => is_first_match(assets@, name@, i as int),
            None => !has_match(assets@, name@),
        },
{
    let mut i: usize = 0;
    while i < assets.len()
        invariant
            i <= assets@.len(),
            forall|j: int| 0 <= j < i ==> assets@[j].name@ != name@,
        decreases assets@.len() - i,
    {
        if assets[i].name == *name {
            return Some(i);
        }
        i = i + 1;
    }
    None
}

/// The entries of a directory listing that are not `keep`, in their order.
pub fn stale_entries(entries: &Vec<String>, keep: &String) -> (r: Vec<String>)
    ensures
        names_of(r@) == without(names_of(entries@), keep@),
{
    let mut stale: Vec<String> = Vec::new();
    let mut i: usize = 0;
    while i < entries.len()
        invariant
            i <= entries@.len(),
            names_of(stale@) == without(names_of(entries@.take(i as int)), keep@),
        decreases entries@.len() - i,
    {
        proof {
            assert(names_of(entries@.take(i + 1)).drop_last() =~= names_of(entries@.take(i as int)));
            assert(names_of(entries@.take(i + 1)).last() == entries@[i as int]@);
        }
        if entries[i] != *keep {
            stale.push(entries[i].clone());
            assert(names_of(stale@) =~= without(names_of(entries@.take(i + 1)), keep@));
        }
        i = i + 1;
    }
    assert(entries@.take(entries@.len() as int) =~= entries@);
    stale
}

/// The command that starts `binary`.
pub fn build_launch_command(binary: ResolvedBinary) -> (r: LaunchCommand)
    ensures
        r.command@ == binary.path@,
        r.args@.len() == 0,
        r.env@.len() == 0,
{
    LaunchCommand { command: binary.path, args: Vec::new(), env: Vec::new() }
}

/// Why a directory listing failed.
#[derive(Debug)]
pub enum ListError {
    /// The directory itself could not be read.
    Directory(String),
    /// One of its entries could not be read.
    Entry(String),
}

/// The outcome of the outside step that the last [`Action`] asked for.
#[derive(Debug)]
pub enum Event {
    /// The path configured for the worktree, if any, or why the settings
    /// could not be read.
    Override(Result<Option<String>, String>),
    /// Where the search path holds the binary, if anywhere.
    SearchResult(Option<String>),
    /// Whether the path of the last [`Action::CheckFile`] is a regular file.
    FileChecked(bool),
    /// The latest stable release that has assets, or why none came.
    Release(Result<ReleaseDescriptor, String>),
    /// Whether the download and unpacking succeeded.
    Downloaded(Result<(), String>),
    /// The names of the top-level entries of the working directory.
    Listed(Result<Vec<String>, ListError>),
    /// The stale entries were removed, as far as that was possible.
    Removed,
}

/// What the host does next.
#[derive(Debug)]
pub enum Action {
    /// Read the binary path configured under [`SETTINGS_KEY`].
    ReadOverride,
    /// Look [`BINARY_NAME`] up on the search path.
    SearchPath,
    /// Tell whether the path is an existing regular file.
    CheckFile(String),
    /// Report that an update is being checked for, then ask for the latest
    /// stable release of [`RELEASE_REPOSITORY`] that has assets.
    FetchRelease,
    /// Report that a download is under way, then fetch `url` and unpack it
    /// into `dir`.
    Download { url: String, dir: String, kind: ArchiveKind },
    /// List the top-level entries of the working directory.
    ListEntries,
    /// Remove each of these entries with all it holds; a failure is ignored.
    RemoveEntries(Vec<String>),
    /// The resolution is over.
    Finish(Result<ResolvedBinary, String>),
}

/// Where a resolution stands, with what it must remember until the next step.
#[derive(Debug)]
pub enum Phase {
    /// Waits for the configured path.
    AwaitOverride,
    /// Waits for the search-path lookup.
    AwaitSearch,
    /// Waits to learn whether the cached `path` is still a file.
    AwaitCacheCheck { path: String },
    /// Waits for the latest release.
    AwaitRelease,
    /// Waits to learn whether the release's binary `path`, inside `dir`, was
    /// unpacked before; else `url` is downloaded.
    AwaitInstalledCheck { dir: String, path: String, url: String },
    /// Waits for the download into `dir`.
    AwaitDownload { dir: String, path: String },
    /// Waits for the listing in which every entry but `dir` is stale.
    AwaitListing { dir: String, path: String },
    /// Waits for the stale entries to be removed.
    AwaitRemoval { path: String },
    /// The resolution is over.
    Done,
}

/// One attempt to find the binary for a host.
#[derive(Debug)]
pub struct Resolution {
    pub platform: PlatformKey,
    pub phase: Phase,
}

/// The event that a phase waits for.
pub open spec fn accepts_spec(phase: Phase, event: Event) -> bool {
    match phase {
        Phase::AwaitOverride => event is Override,
        Phase::AwaitSearch => event is SearchResult,
        Phase::AwaitCacheCheck { .. } => event is FileChecked,
        Phase::AwaitRelease => event is Release,
        Phase::AwaitInstalledCheck { .. } => event is FileChecked,
        Phase::AwaitDownload { .. } => event is Downloaded,
        Phase::AwaitListing { .. } => event is Listed,
        Phase::AwaitRemoval { .. } => event is Removed,
        Phase::Done => false,
    }
}

pub open spec fn finishes_ok(r: Action, path: Seq<char>) -> bool {
    r matches Action::Finish(Ok(b)) && b.path@ == path
}

pub open spec fn finishes_err(r: Action, msg: Seq<char>) -> bool {
    r matches Action::Finish(Err(m)) && m@ == msg
}

pub open spec fn caches(st: InstallationState, path: Seq<char>) -> bool {
    st.cached_binary_path matches Some(c) && c@ == path
}

/// The position of the asset that a release is downloaded from.
pub open spec fn chosen_asset(assets: Seq<ReleaseAsset>, name: Seq<char>) -> int {
    choose|i: int| is_first_match(assets, name, i)
}

/// The step from a release to the check for an earlier download of it.
pub open spec fn release_stepped(
    platform: PlatformKey,
    rel: ReleaseDescriptor,
    post: Phase,
    r: Action,
) -> bool {
    let name = asset_name_spec(platform);
    if has_match(rel.assets@, name) {
        &&& r matches Action::CheckFile(f) && f@ == binary_path_spec(rel.version@)
        &&& post matches Phase::AwaitInstalledCheck { dir, path, url }
            && dir@ == version_dir_spec(rel.version@)
            && path@ == binary_path_spec(rel.version@)
            && url@ == rel.assets@[chosen_asset(rel.assets@, name)].download_url@
    } else {
        finishes_err(r, missing_asset_message(name))
    }
}

/// One step of a resolution: from `pre` and the cache `st`, the outcome
/// `event` leads to `post`, the cache `st2` and the action `r`.
pub open spec fn stepped(
    pre: Resolution,
    st: InstallationState,
    event: Event,
    post: Resolution,
    st2: InstallationState,
    r: Action,
) -> bool {
    &&& post.platform == pre.platform
    &&& (post.phase is Done <==> r is Finish)
    &&& match pre.phase {
        Phase::AwaitOverride => st2 == st && match event {
            Event::Override(Err(e)) => finishes_err(r, e@),
            Event::Override(Ok(Some(p))) => finishes_ok(r, p@),
            Event::Override(Ok(None)) => r is SearchPath && post.phase is AwaitSearch,
            _ => false,
        },
        Phase::AwaitSearch => st2 == st && match event {
            Event::SearchResult(Some(p)) => finishes_ok(r, p@),
            Event::SearchResult(None) => match st.cached_binary_path {
                Some(c) => {
                    &&& r matches Action::CheckFile(f) && f@ == c@
                    &&& post.phase matches Phase::AwaitCacheCheck { path } && path@ == c@
                },
                None => r is FetchRelease && post.phase is AwaitRelease,
            },
            _ => false,
        },
        Phase::AwaitCacheCheck { path } => st2 == st && match event {
            Event::FileChecked(true) => finishes_ok(r, path@),
            Event::FileChecked(false) => r is FetchRelease && post.phase is AwaitRelease,
            _ => false,
        },
        Phase::AwaitRelease => st2 == st && match event {
            Event::Release(Err(e)) => finishes_err(r, e@),
            Event::Release(Ok(rel)) => release_stepped(pre.platform, rel, post.phase, r),
            _ => false,
        },
        Phase::AwaitInstalledCheck { dir, path, url } => match event {
            Event::FileChecked(true) => finishes_ok(r, path@) && caches(st2, path@),
            Event::FileChecked(false) => {
                &&& st2 == st
                &&& r matches Action::Download { url: u, dir: d, kind }
                    && u@ == url@ && d@ == dir@ && kind == archive_kind_spec(pre.platform.os)
                &&& post.phase matches Phase::AwaitDownload { dir: d, path: p }
                    && d@ == dir@ && p@ == path@
            },
            _ => false,
        },
        Phase::AwaitDownload { dir, path } => st2 == st && match event {
            Event::Downloaded(Err(e)) => finishes_err(r, e@),
            Event::Downloaded(Ok(())) => {
                &&& r is ListEntries
                &&& post.phase matches Phase::AwaitListing { dir: d, path: p }
                    && d@ == dir@ && p@ == path@
            },
            _ => false,
        },
        Phase::AwaitListing { dir, path } => st2 == st && match event {
            Event::Listed(Err(ListError::Directory(e))) => finishes_err(
                r,
                LIST_FAILURE_PREFIX@ + e@,
            ),
            Event::Listed(Err(ListError::Entry(e))) => finishes_err(r, ENTRY_FAILURE_PREFIX@ + e@),
            Event::Listed(Ok(names)) => {
                &&& r matches Action::RemoveEntries(stale)
                    && names_of(stale@) == without(names_of(names@), dir@)
                &&& post.phase matches Phase::AwaitRemoval { path: p } && p@ == path@
            },
            _ => false,
        },
        Phase::AwaitRemoval { path } => match event {
            Event::Removed => finishes_ok(r, path@) && caches(st2, path@),
            _ => false,
        },
        Phase::Done => false,
    }
}

fn finish_ok(path: String) -> (r: Action)
    ensures
        finishes_ok(r, path@),
{
    Action::Finish(Ok(ResolvedBinary { path }))
}

fn prefixed(prefix: &str, text: &String) -> (r: String)
    ensures
        r@ == prefix@ + text@,
{
    let mut msg = String::from_str(prefix);
    msg.append(text.as_str());
    msg
}

impl Resolution {
    /// A resolution for `platform`, and the first thing to do: read the
    /// configured path.
    pub fn begin(platform: PlatformKey) -> (r: (Resolution, Action))
        ensures
            r.0.platform == platform,
            r.0.phase is AwaitOverride,
            r.1 is ReadOverride,
    {
        (Resolution { platform, phase: Phase::AwaitOverride }, Action::ReadOverride)
    }

    /// Whether `event` is the outcome that this resolution waits for.
    pub fn accepts(&self, event: &Event) -> (r: bool)
        ensures
            r == accepts_spec(self.phase, *event),
    {
        match &self.phase {
            Phase::AwaitOverride => matches!(event, Event::Override(_)),
            Phase::AwaitSearch => matches!(event, Event::SearchResult(_)),
            Phase::AwaitCacheCheck { .. } => matches!(event, Event::FileChecked(_)),
            Phase::AwaitRelease => matches!(event, Event::Release(_)),
            Phase::AwaitInstalledCheck { .. } => matches!(event, Event::FileChecked(_)),
            Phase::AwaitDownload { .. } => matches!(event, Event::Downloaded(_)),
            Phase::AwaitListing { .. } => matches!(event, Event::Listed(_)),
            Phase::AwaitRemoval { .. } => matches!(event, Event::Removed),
            Phase::Done => false,
        }
    }

    /// Takes the outcome of the last action and says what to do next.
    pub fn step(&mut self, state: &mut InstallationState, event: Event) -> (r: Action)
        requires
            accepts_spec(old(self).phase, event),
        ensures
            stepped(*old(self), *old(state), event, *final(self), *final(state), r),
    {
        let mut phase = Phase::Done;
        core::mem::swap(&mut self.phase, &mut phase);
        match phase {
            Phase::AwaitOverride => match event {
                Event::Override(Err(e)) => Action::Finish(Err(e)),
                Event::Override(Ok(Some(p))) => finish_ok(p),
                _ => {
                    self.phase = Phase::AwaitSearch;
                    Action::SearchPath
                },
            },
            Phase::AwaitSearch => match event {
                Event::SearchResult(Some(p)) => finish_ok(p),
                _ => match &state.cached_binary_path {
                    Some(c) => {
                        self.phase = Phase::AwaitCacheCheck { path: c.clone() };
                        Action::CheckFile(c.clone())
                    },
                    None => {
                        self.phase = Phase::AwaitRelease;
                        Action::FetchRelease
                    },
                },
            },
            Phase::AwaitCacheCheck { path } => match event {
                Event::FileChecked(true) => finish_ok(path),
                _ => {
                    self.phase = Phase::AwaitRelease;
                    Action::FetchRelease
                },
            },
            Phase::AwaitRelease => match event {
                Event::Release(Ok(rel)) => self.on_release(rel),
                Event::Release(Err(e)) => Action::Finish(Err(e)),
                _ => unreached(),
            },
            Phase::AwaitInstalledCheck { dir, path, url } => match event {
                Event::FileChecked(true) => {
                    state.cached_binary_path = Some(path.clone());
                    finish_ok(path)
                },
                _ => {
                    let kind = archive_kind(self.platform.os);
                    self.phase = Phase::AwaitDownload { dir: dir.clone(), path };
                    Action::Download { url, dir, kind }
                },
            },
            Phase::AwaitDownload { dir, path } => match event {
                Event::Downloaded(Err(e)) => Action::Finish(Err(e)),
                _ => {
                    self.phase = Phase::AwaitListing { dir, path };
                    Action::ListEntries
                },
            },
            Phase::AwaitListing { dir, path } => match event {
                Event::Listed(Ok(names)) => {
                    let stale = stale_entries(&names, &dir);
                    self.phase = Phase::AwaitRemoval { path };
                    Action::RemoveEntries(stale)
                },
                Event::Listed(Err(ListError::Directory(e))) => Action::Finish(
                    Err(prefixed(LIST_FAILURE_PREFIX, &e)),
                ),
                Event::Listed(Err(ListError::Entry(e))) => Action::Finish(
                    Err(prefixed(ENTRY_FAILURE_PREFIX, &e)),
                ),
                _ => unreached(),
            },
            Phase::AwaitRemoval { path } => {
                state.cached_binary_path = Some(path.clone());
                finish_ok(path)
            },
            Phase::Done => unreached(),
        }
    }

    /// Finds the asset for this host in `rel` and asks whether that release
    /// was unpacked before.
    fn on_release(&mut self, rel: ReleaseDescriptor) -> (r: Action)
        requires
            old(self).phase is Done,
        ensures
            final(self).platform == old(self).platform,
            final(self).phase is Done <==> r is Finish,
            release_stepped(old(self).platform, rel, final(self).phase, r),
    {
        let name = self.platform.asset_name();
        match find_asset(&rel.assets, &name) {
            Some(i) => {
                proof {
                    let c = chosen_asset(rel.assets@, name@);
                    assert(is_first_match(rel.assets@, name@, c));
                    if c < i {
                        assert(rel.assets@[c].name@ != name@);
                    }
                    if i < c {
                        assert(rel.assets@[i as int].name@ != name@);
                    }
                }
                let dir = version_dir(&rel.version);
                let path = binary_path(&rel.version);
                let url = rel.assets[i].download_url.clone();
                self.phase = Phase::AwaitInstalledCheck { dir, path: path.clone(), url };
                Action::CheckFile(path)
            },
            None => {
                let mut msg = String::from_str(MISSING_ASSET_PREFIX);
                msg.append(name.as_str());
                msg.append(QUOTE);
                Action::Finish(Err(msg))
            },
        }
    }
}

/// What stays in `without(names, keep)`: every name but `keep`.
pub proof fn lemma_without_contains(names: Seq<Seq<char>>, keep: Seq<char>, e: Seq<char>)
    ensures
        without(names, keep).contains(e) <==> (names.contains(e) && e != keep),
    decreases names.len(),
{
    if names.len() > 0 {
        lemma_without_contains(names.drop_last(), keep, e);
        let rest = without(names.drop_last(), keep);
        assert(names =~= names.drop_last().push(names.last()));
        if names.last() != keep {
            assert(rest.push(names.last()).last() == names.last());
            if rest.push(names.last()).contains(e) {
                let k = choose|k: int| 0 <= k < rest.len() + 1 && rest.push(names.last())[k] == e;
                if k < rest.len() {
                    assert(rest[k] == e);
                }
            }
            if rest.contains(e) {
                let k = choose|k: int| 0 <= k < rest.len() && rest[k] == e;
                assert(rest.push(names.last())[k] == e);
            }
        }
        if names.contains(e) {
            let k = choose|k: int| 0 <= k < names.len() && names[k] == e;
            if k < names.len() - 1 {
                assert(names.drop_last()[k] == e);
            }
        }
        if names.drop_last().contains(e) {
            let k = choose|k: int| 0 <= k < names.len() - 1 && names.drop_last()[k] == e;
            assert(names[k] == e);
        }
    }
}

/// Pruning a listing that holds the freshly unpacked directory removes every
/// other entry: of the listing, exactly that directory remains.
pub proof fn lemma_prune_keeps_only_current(listing: Seq<Seq<char>>, current: Seq<char>)
    requires
        listing.contains(current),
    ensures
        listing.to_set().difference(without(listing, current).to_set()) == set![current],
{
    assert forall|e: Seq<char>|
        listing.to_set().difference(without(listing, current).to_set()).contains(e) <==> e
            == current by {
        lemma_without_contains(listing, current, e);
    }
    assert(listing.to_set().difference(without(listing, current).to_set()) =~= set![current]);
}

} // verus!
