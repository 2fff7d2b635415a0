//! Which artifacts of a release still have to be downloaded.
//!
//! Every artifact is a candidate: a source URL and a target path under the
//! game directory. A candidate is fetched only when its target is absent;
//! files that are present are trusted as they are, without checking hashes.

use vstd::prelude::*;
use crate::json::{element_pointer, element_pointer_text, json_len_at, json_str_at, pointer_len, pointer_str};
use crate::layout::{
    asset_index_path, asset_object_path, asset_object_url, client_jar_path,
    spec_asset_index_path, spec_asset_object_path, spec_asset_object_url, spec_client_jar_path,
};
use crate::maven::{maven_name_to_path, maven_path};
use crate::rules::{library_allowed, should_use_library};
use crate::text::{push_str, str_eq};
use crate::types::{AssetIndex, AssetObject, Library, VersionInfo, VersionManifest};

verus! {

/// A file to fetch: where from, and where to under the game directory.
#[derive(Debug, Clone)]
pub struct DownloadTask {
    pub url: String,
    pub path: String,
}

/// A candidate as a pair of texts: its URL and its target path.
pub type Target = (Seq<char>, Seq<char>);

pub open spec fn task_views(ts: Seq<DownloadTask>) -> Seq<Target> {
    ts.map_values(|t: DownloadTask| (t.url@, t.path@))
}

pub open spec fn target_paths(ts: Seq<Target>) -> Seq<Seq<char>> {
    ts.map_values(|t: Target| t.1)
}

/// The candidates to fetch, in order: those whose target is not present and
/// not already the target of an earlier fetch.
pub open spec fn planned(c: Seq<Target>, present: Seq<bool>) -> Seq<Target>
    decreases c.len(),
{
    if c.len() == 0 || present.len() != c.len() {
        Seq::empty()
    } else {
        let prev = planned(c.drop_last(), present.drop_last());
        if present.last() || target_paths(prev).contains(c.last().1) {
            prev
        } else {
            prev.push(c.last())
        }
    }
}

/// What is present after every planned fetch succeeded.
pub open spec fn present_after(c: Seq<Target>, present: Seq<bool>) -> Seq<bool> {
    Seq::new(
        c.len(),
        |i: int| present[i] || target_paths(planned(c, present)).contains(c[i].1),
    )
}

pub proof fn lemma_planned_covers(c: Seq<Target>, present: Seq<bool>)
    requires
        present.len() == c.len(),
    ensures
        forall|i: int|
            0 <= i < c.len() ==> present[i] || target_paths(planned(c, present)).contains(
                #[trigger] c[i].1,
            ),
    decreases c.len(),
{
    if c.len() > 0 {
        let c0 = c.drop_last();
        let p0 = present.drop_last();
        lemma_planned_covers(c0, p0);
        let prev = planned(c0, p0);
        let all = planned(c, present);
        assert forall|i: int| 0 <= i < c.len() implies present[i] || target_paths(all).contains(
            #[trigger] c[i].1,
        ) by {
            if i < c.len() - 1 {
                assert(c0[i] == c[i]);
                assert(p0[i] == present[i]);
                if !present[i] {
                    let k = choose|k: int| 0 <= k < target_paths(prev).len() && target_paths(prev)[k] == c0[i].1;
                    assert(target_paths(all)[k] == c[i].1);
                }
            } else if !present[i] && !target_paths(prev).contains(c[i].1) {
                assert(target_paths(all)[prev.len() as int] == c[i].1);
            }
        }
    }
}

/// Every planned fetch is a candidate whose target was absent.
pub proof fn lemma_planned_absent(c: Seq<Target>, present: Seq<bool>)
    requires
        present.len() == c.len(),
    ensures
        forall|k: int|
            0 <= k < planned(c, present).len() ==> exists|i: int|
                0 <= i < c.len() && #[trigger] planned(c, present)[k] == c[i] && !present[i],
    decreases c.len(),
{
    if c.len() > 0 {
        let c0 = c.drop_last();
        let p0 = present.drop_last();
        lemma_planned_absent(c0, p0);
        let prev = planned(c0, p0);
        let all = planned(c, present);
        assert forall|k: int| 0 <= k < all.len() implies exists|i: int|
            0 <= i < c.len() && #[trigger] all[k] == c[i] && !present[i] by {
            if k < prev.len() {
                assert(all[k] == prev[k]);
                let i = choose|i: int| 0 <= i < c0.len() && prev[k] == c0[i] && !p0[i];
                assert(c[i] == c0[i] && present[i] == p0[i]);
            } else {
                assert(all[k] == c[c.len() - 1]);
            }
        }
    }
}

proof fn lemma_all_present_plans_nothing(c: Seq<Target>, present: Seq<bool>)
    requires
        present.len() == c.len(),
        forall|i: int| 0 <= i < present.len() ==> #[trigger] present[i],
    ensures
        planned(c, present).len() == 0,
    decreases c.len(),
{
    if c.len() > 0 {
        lemma_all_present_plans_nothing(c.drop_last(), present.drop_last());
    }
}

/// Once every planned fetch has succeeded, planning again fetches nothing.
pub proof fn lemma_fetch_idempotent(c: Seq<Target>, present: Seq<bool>)
    requires
        present.len() == c.len(),
    ensures
        planned(c, present_after(c, present)).len() == 0,
{
    lemma_planned_covers(c, present);
    lemma_all_present_plans_nothing(c, present_after(c, present));
}

fn copy_task(t: &DownloadTask) -> (r: DownloadTask)
    ensures
        r.url@ == t.url@,
        r.path@ == t.path@,
{
    DownloadTask { url: t.url.clone(), path: t.path.clone() }
}

fn has_target(tasks: &Vec<DownloadTask>, path: &str) -> (r: bool)
    ensures
        r == target_paths(task_views(tasks@)).contains(path@),
{
    let ghost paths = target_paths(task_views(tasks@));
    let mut i: usize = 0;
    while i < tasks.len()
        invariant
            i <= tasks@.len(),
            paths == target_paths(task_views(tasks@)),
            forall|j: int| 0 <= j < i ==> paths[j] != path@,
        decreases tasks@.len() - i,
    {
        if str_eq(tasks[i].path.as_str(), path) {
            assert(paths[i as int] == path@);
            return true;
        }
        i = i + 1;
    }
    false
}

/// The candidates to fetch, given whether each one's target is present.
pub fn plan_downloads(candidates: &Vec<DownloadTask>, present: &Vec<bool>) -> (r: Vec<DownloadTask>)
    requires
        candidates@.len() == present@.len(),
    ensures
        task_views(r@) == planned(task_views(candidates@), present@),
{
    let ghost c = task_views(candidates@);
    let mut out: Vec<DownloadTask> = Vec::new();
    let mut i: usize = 0;
    while i < candidates.len()
        invariant
            i <= candidates@.len(),
            candidates@.len() == present@.len(),
            c == task_views(candidates@),
            task_views(out@) == planned(c.take(i as int), present@.take(i as int)),
        decreases candidates@.len() - i,
    {
        let ghost before = out@;
        assert(c.take(i + 1).drop_last() =~= c.take(i as int));
        assert(present@.take(i + 1).drop_last() =~= present@.take(i as int));
        if !present[i] && !has_target(&out, candidates[i].path.as_str()) {
            out.push(copy_task(&candidates[i]));
            assert(task_views(out@) =~= task_views(before).push(c[i as int]));
        }
        i = i + 1;
    }
    assert(c.take(i as int) =~= c);
    assert(present@.take(i as int) =~= present@);
    out
}

/// The library artifact a platform needs, if any.
pub open spec fn library_candidate(lib: Library, os: Seq<char>) -> Option<Target> {
    if library_allowed(lib, os) {
        match lib.downloads {
            Some(d) => match d.artifact {
                Some(a) => Some((a.url@, "libraries/"@ + a.path@)),
                None => None,
            },
            None => None,
        }
    } else {
        None
    }
}

pub open spec fn library_candidates_of(libs: Seq<Library>, os: Seq<char>) -> Seq<Target>
    decreases libs.len(),
{
    if libs.len() == 0 {
        Seq::empty()
    } else {
        let prev = library_candidates_of(libs.drop_last(), os);
        match library_candidate(libs.last(), os) {
            Some(t) => prev.push(t),
            None => prev,
        }
    }
}

/// The library artifacts of a release that the platform `os` uses.
pub fn library_candidates(info: &VersionInfo, os: &str) -> (r: Vec<DownloadTask>)
    ensures
        task_views(r@) == library_candidates_of(info.libraries@, os@),
{
    let libs = &info.libraries;
    let mut out: Vec<DownloadTask> = Vec::new();
    let mut i: usize = 0;
    while i < libs.len()
        invariant
            i <= libs@.len(),
            task_views(out@) == library_candidates_of(libs@.take(i as int), os@),
        decreases libs@.len() - i,
    {
        let ghost before = out@;
        assert(libs@.take(i + 1).drop_last() =~= libs@.take(i as int));
        let lib = &libs[i];
        if should_use_library(lib, os) {
            if let Some(d) = &lib.downloads {
                if let Some(a) = &d.artifact {
                    let mut path = String::new();
                    push_str(&mut path, "libraries/");
                    push_str(&mut path, a.path.as_str());
                    out.push(DownloadTask { url: a.url.clone(), path });
                    assert(task_views(out@) =~= task_views(before).push(
                        library_candidate(libs@[i as int], os@).unwrap(),
                    ));
                }
            }
        }
        i = i + 1;
    }
    assert(libs@.take(i as int) =~= libs@);
    out
}

pub open spec fn asset_candidates_of(objects: Seq<(String, AssetObject)>) -> Seq<Target>
    decreases objects.len(),
{
    if objects.len() == 0 {
        Seq::empty()
    } else {
        let prev = asset_candidates_of(objects.drop_last());
        let h = objects.last().1.hash@;
        if h.len() >= 2 {
            prev.push((spec_asset_object_url(h), spec_asset_object_path(h)))
        } else {
            prev
        }
    }
}

/// The objects of an asset index, each at its content-addressed path.
/// Objects whose hash is too short to address are left out.
pub fn asset_candidates(index: &AssetIndex) -> (r: Vec<DownloadTask>)
    requires
        index.wf(),
    ensures
        task_views(r@) == asset_candidates_of(index.objects@),
{
    let objs = &index.objects;
    let mut out: Vec<DownloadTask> = Vec::new();
    let mut i: usize = 0;
    while i < objs.len()
        invariant
            i <= objs@.len(),
            task_views(out@) == asset_candidates_of(objs@.take(i as int)),
        decreases objs@.len() - i,
    {
        let ghost before = out@;
        assert(objs@.take(i + 1).drop_last() =~= objs@.take(i as int));
        let hash = objs[i].1.hash.as_str();
        match (asset_object_url(hash), asset_object_path(hash)) {
            (Some(url), Some(path)) => {
                out.push(DownloadTask { url, path });
                assert(task_views(out@) =~= task_views(before).push(
                    (spec_asset_object_url(hash@), spec_asset_object_path(hash@)),
                ));
            },
            _ => {},
        }
        i = i + 1;
    }
    assert(objs@.take(i as int) =~= objs@);
    out
}

/// A library of the mod-loader profile: its Maven coordinate and the base
/// URL of the repository that serves it.
#[derive(Debug, Clone)]
pub struct FabricLibrary {
    pub name: String,
    pub url: String,
}

pub open spec fn fabric_candidates_of(libs: Seq<FabricLibrary>) -> Seq<Target>
    decreases libs.len(),
{
    if libs.len() == 0 {
        Seq::empty()
    } else {
        let l = libs.last();
        fabric_candidates_of(libs.drop_last()).push(
            (l.url@ + maven_path(l.name@), "libraries/"@ + maven_path(l.name@)),
        )
    }
}

/// The mod-loader libraries, each resolved against its repository.
pub fn fabric_candidates(libs: &Vec<FabricLibrary>) -> (r: Vec<DownloadTask>)
    ensures
        task_views(r@) == fabric_candidates_of(libs@),
{
    let mut out: Vec<DownloadTask> = Vec::new();
    let mut i: usize = 0;
    while i < libs.len()
        invariant
            i <= libs@.len(),
            task_views(out@) == fabric_candidates_of(libs@.take(i as int)),
        decreases libs@.len() - i,
    {
        let ghost before = out@;
        assert(libs@.take(i + 1).drop_last() =~= libs@.take(i as int));
        let rel = maven_name_to_path(libs[i].name.as_str());
        let mut url = libs[i].url.clone();
        push_str(&mut url, rel.as_str());
        let mut path = String::new();
        push_str(&mut path, "libraries/");
        push_str(&mut path, rel.as_str());
        out.push(DownloadTask { url, path });
        assert(task_views(out@) =~= task_views(before).push(
            (libs@[i as int].url@ + maven_path(libs@[i as int].name@), "libraries/"@ + maven_path(libs@[i as int].name@)),
        ));
        i = i + 1;
    }
    assert(libs@.take(i as int) =~= libs@);
    out
}

/// The (name, url) pairs of the first `n` entries of a profile's
/// `libraries`, skipping entries without a string `name` and a string `url`.
pub open spec fn profile_libraries(text: Seq<char>, n: nat) -> Seq<(Seq<char>, Seq<char>)>
    decreases n,
{
    if n == 0 {
        Seq::empty()
    } else {
        let prev = profile_libraries(text, (n - 1) as nat);
        let name = json_str_at(text, element_pointer("/libraries"@, (n - 1) as nat, "name"@));
        let url = json_str_at(text, element_pointer("/libraries"@, (n - 1) as nat, "url"@));
        if name is Some && url is Some {
            prev.push((name.unwrap(), url.unwrap()))
        } else {
            prev
        }
    }
}

/// How many entries a profile's `libraries` has: none unless it is an array.
pub open spec fn libraries_len(text: Seq<char>) -> nat {
    match json_len_at(text, "/libraries"@) {
        Some(n) => n as nat,
        None => 0,
    }
}

pub open spec fn library_views(libs: Seq<FabricLibrary>) -> Seq<(Seq<char>, Seq<char>)> {
    libs.map_values(|l: FabricLibrary| (l.name@, l.url@))
}

/// Reads the `libraries` of a mod-loader profile document: the entries that
/// have a string `name` and a string `url`, in order.
pub fn fabric_libraries(profile: &str) -> (r: Vec<FabricLibrary>)
    ensures
        library_views(r@) == profile_libraries(profile@, libraries_len(profile@)),
{
    let mut out: Vec<FabricLibrary> = Vec::new();
    let n: usize = match pointer_len(profile, "/libraries") {
        Some(n) => n,
        None => 0,
    };
    proof {
        reveal_strlit("/libraries");
        reveal_strlit("name");
        reveal_strlit("url");
    }
    let mut i: usize = 0;
    while i < n
        invariant
            i <= n,
            n as nat == libraries_len(profile@),
            library_views(out@) == profile_libraries(profile@, i as nat),
        decreases n - i,
    {
        let ghost before = out@;
        let name = pointer_str(profile, element_pointer_text("/libraries", i, "name").as_str());
        let url = pointer_str(profile, element_pointer_text("/libraries", i, "url").as_str());
        match (name, url) {
            (Some(name), Some(url)) => {
                out.push(FabricLibrary { name, url });
            },
            _ => {},
        }
        i = i + 1;
        assert(library_views(out@) =~= profile_libraries(profile@, i as nat));
    }
    out
}

/// The client jar of a release, at its place for `mc`.
pub fn client_candidate(info: &VersionInfo, mc: &str) -> (r: DownloadTask)
    ensures
        r.url@ == info.downloads.client.url@,
        r.path@ == spec_client_jar_path(mc@),
{
    DownloadTask { url: info.downloads.client.url.clone(), path: client_jar_path(mc) }
}

/// The asset index of a release.
pub fn asset_index_candidate(info: &VersionInfo) -> (r: DownloadTask)
    ensures
        r.url@ == info.asset_index.url@,
        r.path@ == spec_asset_index_path(info.asset_index.id@),
{
    DownloadTask {
        url: info.asset_index.url.clone(),
        path: asset_index_path(info.asset_index.id.as_str()),
    }
}

/// The metadata URL of release `id`. None when the manifest does not list
/// it.
pub fn find_version_url(manifest: &VersionManifest, id: &str) -> (r: Option<String>)
    ensures
        r.is_none() == (forall|i: int|
            0 <= i < manifest.versions@.len() ==> manifest.versions@[i].id@ != id@),
        r matches Some(u) ==> exists|i: int|
            0 <= i < manifest.versions@.len() && manifest.versions@[i].id@ == id@
                && manifest.versions@[i].url@ == u@ && forall|j: int|
                0 <= j < i ==> manifest.versions@[j].id@ != id@,
{
    let vs = &manifest.versions;
    let mut i: usize = 0;
    while i < vs.len()
        invariant
            i <= vs@.len(),
            vs@ == manifest.versions@,
            forall|j: int| 0 <= j < i ==> vs@[j].id@ != id@,
        decreases vs@.len() - i,
    {
        if str_eq(vs[i].id.as_str(), id) {
            let u = vs[i].url.clone();
            assert(manifest.versions@[i as int].id@ == id@ && manifest.versions@[i as int].url@ == u@);
            return Some(u);
        }
        i = i + 1;
    }
    None
}

} // verus!
