//! Keeping the mods, shaderpacks and resourcepacks directories in step with
//! their remote catalogs.
//!
//! Files are compared by name only. For mods, local mod files that the
//! catalog no longer lists are deleted; for every category, listed files that
//! are missing locally are downloaded.

use vstd::prelude::*;
use crate::fetch::{
    lemma_planned_absent, lemma_planned_covers, planned, plan_downloads, target_paths, task_views,
    DownloadTask, Target,
};
use crate::text::{ends_with, has_suffix, str_eq};
use crate::types::GitHubFile;

verus! {

/// The content categories kept in step with a catalog.
#[derive(Debug, Clone, Copy, PartialEq, Eq, Structural)]
pub enum CatalogKind {
    Mods,
    Shaderpacks,
    Resourcepacks,
}

/// How many times deleting a stale mod file is tried before giving up.
pub const DELETE_ATTEMPTS: u32 = 3;

/// Whether failing to read the catalog fails the category: it does for mods,
/// while packs are skipped quietly.
pub fn catalog_failure_is_error(kind: CatalogKind) -> (r: bool)
    ensures
        r == (kind == CatalogKind::Mods),
{
    kind == CatalogKind::Mods
}

/// Milliseconds to wait between two attempts at deleting a file.
pub const DELETE_RETRY_DELAY_MS: u64 = 100;

/// A mod file: a `.jar` or a `.zip`.
pub open spec fn is_mod_file(name: Seq<char>) -> bool {
    has_suffix(name, ".jar"@) || has_suffix(name, ".zip"@)
}

/// Whether a catalog of this kind carries a file of this name: mods are jars
/// or zips, packs are zips.
pub open spec fn kind_accepts(kind: CatalogKind, name: Seq<char>) -> bool {
    match kind {
        CatalogKind::Mods => is_mod_file(name),
        _ => has_suffix(name, ".zip"@),
    }
}

/// Whether a catalog entry is a file that this kind keeps.
pub open spec fn entry_wanted(kind: CatalogKind, f: GitHubFile) -> bool {
    f.file_type@ == "file"@ && kind_accepts(kind, f.name@)
}

/// The names that the catalog wants present.
pub open spec fn wanted_names(kind: CatalogKind, remote: Seq<GitHubFile>) -> Set<Seq<char>> {
    Set::new(
        |n: Seq<char>|
            exists|i: int| 0 <= i < remote.len() && entry_wanted(kind, remote[i]) && remote[i].name@ == n,
    )
}

/// The wanted entries that can be downloaded, as (URL, file name).
pub open spec fn catalog_targets(kind: CatalogKind, remote: Seq<GitHubFile>) -> Seq<Target>
    decreases remote.len(),
{
    if remote.len() == 0 {
        Seq::empty()
    } else {
        let prev = catalog_targets(kind, remote.drop_last());
        let f = remote.last();
        if entry_wanted(kind, f) && f.download_url is Some {
            prev.push((f.download_url.unwrap()@, f.name@))
        } else {
            prev
        }
    }
}

/// Whether each target is already present locally.
pub open spec fn present_flags(c: Seq<Target>, local: Seq<Seq<char>>) -> Seq<bool> {
    Seq::new(c.len(), |i: int| local.contains(c[i].1))
}

/// The files to download: wanted, downloadable and missing locally.
pub open spec fn reconcile_downloads(kind: CatalogKind, local: Seq<Seq<char>>, remote: Seq<GitHubFile>) -> Seq<Target> {
    let c = catalog_targets(kind, remote);
    planned(c, present_flags(c, local))
}

/// Whether a local file is to be deleted: only in the mods directory, a mod
/// file that the catalog no longer lists.
pub open spec fn stale(kind: CatalogKind, name: Seq<char>, remote: Seq<GitHubFile>) -> bool {
    kind == CatalogKind::Mods && is_mod_file(name) && !wanted_names(kind, remote).contains(name)
}

/// The local files to delete, in listing order.
pub open spec fn reconcile_deletions(kind: CatalogKind, local: Seq<Seq<char>>, remote: Seq<GitHubFile>) -> Seq<Seq<char>> {
    local.filter(|n: Seq<char>| stale(kind, n, remote))
}

/// The names in the directory once the deletions and downloads are done.
pub open spec fn after_reconcile(kind: CatalogKind, local: Seq<Seq<char>>, remote: Seq<GitHubFile>) -> Set<Seq<char>> {
    local.to_set().difference(reconcile_deletions(kind, local, remote).to_set()).union(
        target_paths(reconcile_downloads(kind, local, remote)).to_set(),
    )
}

/// What to do in one directory: names to delete and files to fetch (their
/// path is the file name within the directory).
#[derive(Debug, Clone)]
pub struct ReconcilePlan {
    pub delete: Vec<String>,
    pub download: Vec<DownloadTask>,
}

fn is_mod_name(name: &str) -> (r: bool)
    ensures
        r == is_mod_file(name@),
{
    ends_with(name, ".jar") || ends_with(name, ".zip")
}

/// Whether the catalog of `kind` keeps this entry.
pub fn catalog_wants(kind: CatalogKind, f: &GitHubFile) -> (r: bool)
    ensures
        r == entry_wanted(kind, *f),
{
    if !str_eq(f.file_type.as_str(), "file") {
        return false;
    }
    match kind {
        CatalogKind::Mods => is_mod_name(f.name.as_str()),
        _ => ends_with(f.name.as_str(), ".zip"),
    }
}

fn wanted_by(kind: CatalogKind, remote: &Vec<GitHubFile>, name: &str) -> (r: bool)
    ensures
        r == wanted_names(kind, remote@).contains(name@),
{
    let mut i: usize = 0;
    while i < remote.len()
        invariant
            i <= remote@.len(),
            forall|j: int| 0 <= j < i ==> !(entry_wanted(kind, remote@[j]) && remote@[j].name@ == name@),
        decreases remote@.len() - i,
    {
        if catalog_wants(kind, &remote[i]) && str_eq(remote[i].name.as_str(), name) {
            return true;
        }
        i = i + 1;
    }
    false
}

fn catalog_tasks(kind: CatalogKind, remote: &Vec<GitHubFile>) -> (r: Vec<DownloadTask>)
    ensures
        task_views(r@) == catalog_targets(kind, remote@),
{
    let mut out: Vec<DownloadTask> = Vec::new();
    let mut i: usize = 0;
    while i < remote.len()
        invariant
            i <= remote@.len(),
            task_views(out@) == catalog_targets(kind, remote@.take(i as int)),
        decreases remote@.len() - i,
    {
        let ghost before = out@;
        assert(remote@.take(i + 1).drop_last() =~= remote@.take(i as int));
        if catalog_wants(kind, &remote[i]) {
            if let Some(u) = &remote[i].download_url {
                out.push(DownloadTask { url: u.clone(), path: remote[i].name.clone() });
                assert(task_views(out@) =~= task_views(before).push(
                    (remote@[i as int].download_url.unwrap()@, remote@[i as int].name@),
                ));
            }
        }
        i = i + 1;
    }
    assert(remote@.take(i as int) =~= remote@);
    out
}

fn listed(local: &Vec<String>, name: &str) -> (r: bool)
    ensures
        r == local@.map_values(|s: String| s@).contains(name@),
{
    let ghost names = local@.map_values(|s: String| s@);
    let mut i: usize = 0;
    while i < local.len()
        invariant
            i <= local@.len(),
            names == local@.map_values(|s: String| s@),
            forall|j: int| 0 <= j < i ==> names[j] != name@,
        decreases local@.len() - i,
    {
        if str_eq(local[i].as_str(), name) {
            assert(names[i as int] == name@);
            return true;
        }
        i = i + 1;
    }
    false
}

/// Plans the reconciliation of a local directory listing against a catalog.
pub fn plan_reconcile(kind: CatalogKind, local: &Vec<String>, remote: &Vec<GitHubFile>) -> (r:
    ReconcilePlan)
    ensures
        r.delete@.map_values(|s: String| s@) == reconcile_deletions(
            kind,
            local@.map_values(|s: String| s@),
            remote@,
        ),
        task_views(r.download@) == reconcile_downloads(
            kind,
            local@.map_values(|s: String| s@),
            remote@,
        ),
{
    let ghost names = local@.map_values(|s: String| s@);
    let mut delete: Vec<String> = Vec::new();
    let mut i: usize = 0;
    while i < local.len()
        invariant
            i <= local@.len(),
            names == local@.map_values(|s: String| s@),
            delete@.map_values(|s: String| s@) == names.take(i as int).filter(
                |n: Seq<char>| stale(kind, n, remote@),
            ),
        decreases local@.len() - i,
    {
        let ghost before = delete@;
        assert(names.take(i + 1).drop_last() =~= names.take(i as int));
        proof {
            reveal(Seq::filter);
        }
        let name = local[i].as_str();
        if kind == CatalogKind::Mods && is_mod_name(name) && !wanted_by(kind, remote, name) {
            delete.push(local[i].clone());
            assert(delete@.map_values(|s: String| s@) =~= before.map_values(|s: String| s@).push(
                names[i as int],
            ));
        } else {
            assert(delete@.map_values(|s: String| s@) =~= before.map_values(|s: String| s@));
        }
        i = i + 1;
    }
    assert(names.take(i as int) =~= names);
    let cands = catalog_tasks(kind, remote);
    let ghost c = task_views(cands@);
    let mut present: Vec<bool> = Vec::new();
    let mut k: usize = 0;
    while k < cands.len()
        invariant
            k <= cands@.len(),
            c == task_views(cands@),
            names == local@.map_values(|s: String| s@),
            present@ == present_flags(c, names).take(k as int),
        decreases cands@.len() - k,
    {
        present.push(listed(local, cands[k].path.as_str()));
        k = k + 1;
        assert(present@ =~= present_flags(c, names).take(k as int));
    }
    assert(present@ =~= present_flags(c, names));
    let download = plan_downloads(&cands, &present);
    ReconcilePlan { delete, download }
}

proof fn lemma_catalog_targets_wanted(kind: CatalogKind, remote: Seq<GitHubFile>, n: Seq<char>)
    requires
        target_paths(catalog_targets(kind, remote)).contains(n),
    ensures
        wanted_names(kind, remote).contains(n),
        kind_accepts(kind, n),
    decreases remote.len(),
{
    let prev = catalog_targets(kind, remote.drop_last());
    let all = catalog_targets(kind, remote);
    let k = choose|k: int| 0 <= k < target_paths(all).len() && target_paths(all)[k] == n;
    if k < prev.len() {
        assert(target_paths(prev)[k] == n);
        lemma_catalog_targets_wanted(kind, remote.drop_last(), n);
        let i = choose|i: int|
            0 <= i < remote.drop_last().len() && entry_wanted(kind, remote.drop_last()[i])
                && remote.drop_last()[i].name@ == n;
        assert(remote[i] == remote.drop_last()[i]);
    } else {
        assert(remote[remote.len() - 1].name@ == n);
    }
}

/// In every category, a file is downloaded exactly when the catalog offers
/// it for download and it is missing locally.
pub proof fn lemma_downloads_are_missing(kind: CatalogKind, local: Seq<Seq<char>>, remote: Seq<GitHubFile>, n: Seq<char>)
    ensures
        target_paths(reconcile_downloads(kind, local, remote)).contains(n) == (target_paths(
            catalog_targets(kind, remote),
        ).contains(n) && !local.contains(n)),
{
    let c = catalog_targets(kind, remote);
    let p = present_flags(c, local);
    let d = planned(c, p);
    lemma_planned_covers(c, p);
    lemma_planned_absent(c, p);
    if target_paths(d).contains(n) {
        let k = choose|k: int| 0 <= k < target_paths(d).len() && target_paths(d)[k] == n;
        let i = choose|i: int| 0 <= i < c.len() && d[k] == c[i] && !p[i];
        assert(target_paths(c)[i] == n);
    }
    if target_paths(c).contains(n) && !local.contains(n) {
        let i = choose|i: int| 0 <= i < target_paths(c).len() && target_paths(c)[i] == n;
        assert(c[i].1 == n);
    }
}

/// After the mods directory is reconciled, a mod file is there exactly when
/// the catalog lists it and it was there already or the catalog offers a
/// download for it; any other file is left as it was.
pub proof fn lemma_mods_reconciled(local: Seq<Seq<char>>, remote: Seq<GitHubFile>, n: Seq<char>)
    ensures
        is_mod_file(n) ==> (after_reconcile(CatalogKind::Mods, local, remote).contains(n) == (
        wanted_names(CatalogKind::Mods, remote).contains(n) && (local.contains(n) || target_paths(
            catalog_targets(CatalogKind::Mods, remote),
        ).contains(n)))),
        !is_mod_file(n) ==> (after_reconcile(CatalogKind::Mods, local, remote).contains(n)
            == local.contains(n)),
{
    broadcast use vstd::seq_lib::group_filter_ensures;

    let kind = CatalogKind::Mods;
    let pred = |m: Seq<char>| stale(kind, m, remote);
    let dels = reconcile_deletions(kind, local, remote);
    lemma_downloads_are_missing(kind, local, remote, n);
    if target_paths(catalog_targets(kind, remote)).contains(n) {
        lemma_catalog_targets_wanted(kind, remote, n);
    }
    if local.contains(n) && stale(kind, n, remote) {
        let i = choose|i: int| 0 <= i < local.len() && local[i] == n;
        local.lemma_filter_contains(pred, i);
    }
    if dels.contains(n) {
        let k = choose|k: int| 0 <= k < dels.len() && dels[k] == n;
        local.lemma_filter_pred(pred, k);
    }
}

} // verus!
