//! The fetcher's decisions: which versions of a package are fetched, and what is done
//! for one archive given whether it is already on disk.
use vstd::prelude::*;
use crate::index::{Package, strings_view};
use crate::naming::{artifact_path, artifact_path_spec, remote_url, remote_url_spec};

verus! {

/// The versions of a package that a run fetches: the highest alone, or every version in
/// the index's order.
pub open spec fn selected_versions_spec(p: &Package, only_most_recent: bool) -> Seq<Seq<char>> {
    if only_most_recent {
        seq![p.highest@]
    } else {
        p.versions_view()
    }
}

/// Copies a list of strings.
fn clone_strings(v: &Vec<String>) -> (r: Vec<String>)
    ensures
        strings_view(r@) == strings_view(v@),
{
    let mut r: Vec<String> = Vec::new();
    let mut i: usize = 0;
    while i < v.len()
        invariant
            i <= v@.len(),
            r@.len() == i,
            forall|k: int| 0 <= k < i ==> (#[trigger] r@[k])@ == v@[k]@,
        decreases v@.len() - i,
    {
        let s = v[i].clone();
        r.push(s);
        i = i + 1;
    }
    proof {
        assert(strings_view(r@) =~= strings_view(v@));
    }
    r
}

/// Chooses the versions of a package that a run fetches.
pub fn select_versions(p: &Package, only_most_recent: bool) -> (r: Vec<String>)
    ensures
        strings_view(r@) == selected_versions_spec(p, only_most_recent),
{
    if only_most_recent {
        let r = vec![p.highest.clone()];
        proof {
            assert(strings_view(r@) =~= seq![p.highest@]);
        }
        r
    } else {
        clone_strings(&p.versions)
    }
}

/// The work for one package: its versions, fetched one after the other under one permit.
pub struct FetchJob {
    pub name: String,
    pub versions: Vec<String>,
}

/// One job per package of the index, in the index's order.
pub fn plan_fetch(index: &Vec<Package>, only_most_recent: bool) -> (r: Vec<FetchJob>)
    ensures
        r@.len() == index@.len(),
        forall|i: int|
            0 <= i < r@.len() ==> {
                &&& (#[trigger] r@[i]).name@ == index@[i].name@
                &&& strings_view(r@[i].versions@) == selected_versions_spec(
                    &index@[i],
                    only_most_recent,
                )
            },
{
    let mut r: Vec<FetchJob> = Vec::new();
    let mut i: usize = 0;
    while i < index.len()
        invariant
            i <= index@.len(),
            r@.len() == i,
            forall|k: int|
                0 <= k < i ==> {
                    &&& (#[trigger] r@[k]).name@ == index@[k].name@
                    &&& strings_view(r@[k].versions@) == selected_versions_spec(
                        &index@[k],
                        only_most_recent,
                    )
                },
        decreases index@.len() - i,
    {
        let p = &index[i];
        let job = FetchJob { name: p.name.clone(), versions: select_versions(p, only_most_recent) };
        r.push(job);
        i = i + 1;
    }
    r
}

/// What is done for one archive.
#[derive(PartialEq, Eq, Structural, Clone, Copy, Debug)]
pub enum FetchAction {
    /// The archive is on disk and only missing ones are wanted: nothing is requested.
    Skip,
    /// The archive is not on disk: it is downloaded.
    Download,
    /// The archive is on disk and a refresh is wanted: it is removed, then downloaded.
    Replace,
}

pub open spec fn fetch_action_spec(exists: bool, update_only: bool) -> FetchAction {
    if !exists {
        FetchAction::Download
    } else if update_only {
        FetchAction::Skip
    } else {
        FetchAction::Replace
    }
}

/// Whether an action sends a request to the registry.
pub open spec fn issues_request(a: FetchAction) -> bool {
    a != FetchAction::Skip
}

/// Decides what is done for one archive, given whether it is already on disk and whether
/// the run only fetches what is missing.
pub fn fetch_action(exists: bool, update_only: bool) -> (r: FetchAction)
    ensures
        r == fetch_action_spec(exists, update_only),
{
    if !exists {
        FetchAction::Download
    } else if update_only {
        FetchAction::Skip
    } else {
        FetchAction::Replace
    }
}

/// Where one archive is fetched from and where it is written, relative to the working
/// directory.
pub struct FetchTarget {
    pub url: String,
    pub path: String,
}

/// The registry address and local path of a release's archive.
pub fn fetch_target(name: &str, version: &str) -> (r: FetchTarget)
    ensures
        r.url@ == remote_url_spec(name@, version@),
        r.path@ == artifact_path_spec(name@, version@),
{
    FetchTarget { url: remote_url(name, version), path: artifact_path(name, version) }
}

/// The archive paths, among `paths`, for which a run sends a request, given which paths
/// are on disk when it comes to them.
pub open spec fn requested_paths(
    paths: Seq<Seq<char>>,
    on_disk: Set<Seq<char>>,
    update_only: bool,
) -> Seq<Seq<char>> {
    paths.filter(|p: Seq<char>| issues_request(fetch_action_spec(on_disk.contains(p), update_only)))
}

/// A second run in update-only mode sends no request for any archive that is on disk,
/// whatever the first run left there.
pub proof fn lemma_update_only_rerun_sends_nothing(paths: Seq<Seq<char>>, on_disk: Set<Seq<char>>)
    ensures
        forall|p: Seq<char>|
            on_disk.contains(p) ==> !#[trigger] requested_paths(paths, on_disk, true).contains(p),
{
    let pred = |p: Seq<char>| issues_request(fetch_action_spec(on_disk.contains(p), true));
    assert forall|p: Seq<char>| on_disk.contains(p) implies !#[trigger] requested_paths(
        paths,
        on_disk,
        true,
    ).contains(p) by {
        if requested_paths(paths, on_disk, true).contains(p) {
            let out = paths.filter(pred);
            let j = choose|j: int| 0 <= j < out.len() && out[j] == p;
            paths.lemma_filter_pred(pred, j);
        }
    }
}

} // verus!
