//! What holds of whole resolutions, stated over the step relation.
use vstd::prelude::*;
use crate::platform::{asset_name_spec, BINARY_NAME};
use crate::resolver::{
    binary_path_spec, caches, finishes_err, finishes_ok, has_match, lemma_prune_keeps_only_current,
    missing_asset_message, names_of, stepped, version_dir_spec, Action, Event, InstallationState,
    ReleaseDescriptor, Resolution,
};

verus! {

/// A configured path is the answer: the resolution ends with it at once, and
/// nothing is looked up, checked or fetched.
pub proof fn lemma_override_wins(
    pre: Resolution,
    st: InstallationState,
    p: String,
    post: Resolution,
    st2: InstallationState,
    r: Action,
)
    requires
        pre.phase is AwaitOverride,
        stepped(pre, st, Event::Override(Ok(Some(p))), post, st2, r),
    ensures
        finishes_ok(r, p@),
        post.phase is Done,
        st2 == st,
{
}

/// With no configured path, a binary on the search path is the answer, and
/// the registry is never asked.
pub proof fn lemma_search_path_wins(
    s0: Resolution,
    st: InstallationState,
    q: String,
    s1: Resolution,
    st1: InstallationState,
    r1: Action,
    s2: Resolution,
    st2: InstallationState,
    r2: Action,
)
    requires
        s0.phase is AwaitOverride,
        stepped(s0, st, Event::Override(Ok(None)), s1, st1, r1),
        stepped(s1, st1, Event::SearchResult(Some(q)), s2, st2, r2),
    ensures
        r1 is SearchPath,
        finishes_ok(r2, q@),
        s2.phase is Done,
        st2 == st,
{
}

/// With neither a configured path nor one on the search path, a cached path
/// that is still a regular file is the answer, and the registry is never
/// asked.
pub proof fn lemma_valid_cache_wins(
    s0: Resolution,
    st: InstallationState,
    s1: Resolution,
    st1: InstallationState,
    r1: Action,
    s2: Resolution,
    st2: InstallationState,
    r2: Action,
    s3: Resolution,
    st3: InstallationState,
    r3: Action,
)
    requires
        s0.phase is AwaitOverride,
        st.cached_binary_path is Some,
        stepped(s0, st, Event::Override(Ok(None)), s1, st1, r1),
        stepped(s1, st1, Event::SearchResult(None), s2, st2, r2),
        stepped(s2, st2, Event::FileChecked(true), s3, st3, r3),
    ensures
        r2 matches Action::CheckFile(f) && f@ == st.cached_binary_path->0@,
        finishes_ok(r3, st.cached_binary_path->0@),
        st3 == st,
{
}

/// A cached path that is no longer a regular file is not returned: the
/// resolution goes on to ask the registry.
pub proof fn lemma_stale_cache_falls_through(
    s0: Resolution,
    st: InstallationState,
    s1: Resolution,
    st1: InstallationState,
    r1: Action,
    s2: Resolution,
    st2: InstallationState,
    r2: Action,
    s3: Resolution,
    st3: InstallationState,
    r3: Action,
)
    requires
        s0.phase is AwaitOverride,
        st.cached_binary_path is Some,
        stepped(s0, st, Event::Override(Ok(None)), s1, st1, r1),
        stepped(s1, st1, Event::SearchResult(None), s2, st2, r2),
        stepped(s2, st2, Event::FileChecked(false), s3, st3, r3),
    ensures
        r3 is FetchRelease,
        s3.phase is AwaitRelease,
        st3 == st,
{
}

/// Two provisionings of one release version look for the binary at the same
/// place, inside the directory that the first one unpacked into; once it is
/// there, the second ends without downloading and remembers it.
pub proof fn lemma_same_version_downloads_once(
    a0: Resolution,
    sta: InstallationState,
    rel1: ReleaseDescriptor,
    a1: Resolution,
    sta1: InstallationState,
    ra1: Action,
    a2: Resolution,
    sta2: InstallationState,
    ra2: Action,
    b0: Resolution,
    stb: InstallationState,
    rel2: ReleaseDescriptor,
    b1: Resolution,
    stb1: InstallationState,
    rb1: Action,
    b2: Resolution,
    stb2: InstallationState,
    rb2: Action,
)
    requires
        a0.phase is AwaitRelease,
        b0.phase is AwaitRelease,
        b0.platform == a0.platform,
        rel2.version@ == rel1.version@,
        has_match(rel1.assets@, asset_name_spec(a0.platform)),
        has_match(rel2.assets@, asset_name_spec(b0.platform)),
        stepped(a0, sta, Event::Release(Ok(rel1)), a1, sta1, ra1),
        stepped(a1, sta1, Event::FileChecked(false), a2, sta2, ra2),
        stepped(b0, stb, Event::Release(Ok(rel2)), b1, stb1, rb1),
        stepped(b1, stb1, Event::FileChecked(true), b2, stb2, rb2),
    ensures
        ra2 matches Action::Download { dir, .. } && rb1 matches Action::CheckFile(f) && f@
            == dir@ + seq!['/'] + BINARY_NAME@,
        finishes_ok(rb2, binary_path_spec(rel1.version@)),
        caches(stb2, binary_path_spec(rel1.version@)),
{
}

/// After a download, every entry of the working directory but the new
/// version's directory is removed: of what was listed, that one alone
/// remains.
pub proof fn lemma_prune_after_download(
    s0: Resolution,
    st: InstallationState,
    rel: ReleaseDescriptor,
    s1: Resolution,
    st1: InstallationState,
    r1: Action,
    s2: Resolution,
    st2: InstallationState,
    r2: Action,
    s3: Resolution,
    st3: InstallationState,
    r3: Action,
    listing: Vec<String>,
    s4: Resolution,
    st4: InstallationState,
    r4: Action,
)
    requires
        s0.phase is AwaitRelease,
        has_match(rel.assets@, asset_name_spec(s0.platform)),
        names_of(listing@).contains(version_dir_spec(rel.version@)),
        stepped(s0, st, Event::Release(Ok(rel)), s1, st1, r1),
        stepped(s1, st1, Event::FileChecked(false), s2, st2, r2),
        stepped(s2, st2, Event::Downloaded(Ok(())), s3, st3, r3),
        stepped(s3, st3, Event::Listed(Ok(listing)), s4, st4, r4),
    ensures
        r4 matches Action::RemoveEntries(stale) && names_of(listing@).to_set().difference(
            names_of(stale@).to_set(),
        ) == set![version_dir_spec(rel.version@)],
{
    lemma_prune_keeps_only_current(names_of(listing@), version_dir_spec(rel.version@));
}

/// A release without the asset for this host ends the resolution with an
/// error whose message holds the asset's name.
pub proof fn lemma_missing_asset_named(
    pre: Resolution,
    st: InstallationState,
    rel: ReleaseDescriptor,
    post: Resolution,
    st2: InstallationState,
    r: Action,
)
    requires
        pre.phase is AwaitRelease,
        !has_match(rel.assets@, asset_name_spec(pre.platform)),
        stepped(pre, st, Event::Release(Ok(rel)), post, st2, r),
    ensures
        r matches Action::Finish(Err(m)) && exists|k: int|
            0 <= k <= m@.len() - asset_name_spec(pre.platform).len() && #[trigger] m@.subrange(
                k,
                k + asset_name_spec(pre.platform).len(),
            ) == asset_name_spec(pre.platform),
        st2 == st,
{
    let name = asset_name_spec(pre.platform);
    assert(finishes_err(r, missing_asset_message(name)));
    let m = r->Finish_0->Err_0;
    let k = crate::resolver::MISSING_ASSET_PREFIX@.len() as int;
    assert(m@.subrange(k, k + name.len()) =~= name);
}

} // verus!
