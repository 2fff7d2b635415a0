//! Where things live: paths under the game directory (slash separated) and
//! the remote endpoints.

use vstd::prelude::*;
use crate::text::{decimal, push_decimal, push_str};
use crate::version::{spec_mods_folder, GameVersion};

verus! {

pub open spec fn spec_client_jar_path(mc: Seq<char>) -> Seq<char> {
    "versions/"@ + mc + "/"@ + mc + ".jar"@
}

pub open spec fn spec_version_json_path(mc: Seq<char>) -> Seq<char> {
    "versions/"@ + mc + "/"@ + mc + ".json"@
}

pub open spec fn spec_fabric_version_id(loader: Seq<char>, mc: Seq<char>) -> Seq<char> {
    "fabric-loader-"@ + loader + "-"@ + mc
}

pub open spec fn spec_fabric_profile_url(mc: Seq<char>, loader: Seq<char>) -> Seq<char> {
    "https://meta.fabricmc.net/v2/versions/loader/"@ + mc + "/"@ + loader + "/profile/json"@
}

pub open spec fn spec_asset_index_path(id: Seq<char>) -> Seq<char> {
    "assets/indexes/"@ + id + ".json"@
}

/// Assets are stored under the first two characters of their hash.
pub open spec fn spec_asset_object_path(hash: Seq<char>) -> Seq<char> {
    "assets/objects/"@ + hash.take(2) + "/"@ + hash
}

pub open spec fn spec_asset_object_url(hash: Seq<char>) -> Seq<char> {
    "https://resources.download.minecraft.net/"@ + hash.take(2) + "/"@ + hash
}

pub open spec fn spec_java_executable_path(major: u8) -> Seq<char> {
    "runtime/java-"@ + decimal(major as nat) + "/bin/java.exe"@
}

pub open spec fn spec_catalog_url(v: GameVersion, sub: Seq<char>) -> Seq<char> {
    "https://api.github.com/repos/PRISSET/mods/contents/"@ + spec_mods_folder(v) + sub
}

/// The client jar of a release.
pub fn client_jar_path(mc: &str) -> (r: String)
    ensures
        r@ == spec_client_jar_path(mc@),
{
    let mut s = String::new();
    push_str(&mut s, "versions/");
    push_str(&mut s, mc);
    push_str(&mut s, "/");
    push_str(&mut s, mc);
    push_str(&mut s, ".jar");
    assert(s@ =~= spec_client_jar_path(mc@));
    s
}

/// The saved metadata of a release.
pub fn version_json_path(mc: &str) -> (r: String)
    ensures
        r@ == spec_version_json_path(mc@),
{
    let mut s = String::new();
    push_str(&mut s, "versions/");
    push_str(&mut s, mc);
    push_str(&mut s, "/");
    push_str(&mut s, mc);
    push_str(&mut s, ".json");
    assert(s@ =~= spec_version_json_path(mc@));
    s
}

/// The identifier of a mod-loader profile.
pub fn fabric_version_id(loader: &str, mc: &str) -> (r: String)
    ensures
        r@ == spec_fabric_version_id(loader@, mc@),
{
    let mut s = String::new();
    push_str(&mut s, "fabric-loader-");
    push_str(&mut s, loader);
    push_str(&mut s, "-");
    push_str(&mut s, mc);
    assert(s@ =~= spec_fabric_version_id(loader@, mc@));
    s
}

/// Where the mod-loader profile of a release and loader version is served.
pub fn fabric_profile_url(mc: &str, loader: &str) -> (r: String)
    ensures
        r@ == spec_fabric_profile_url(mc@, loader@),
{
    let mut s = String::new();
    push_str(&mut s, "https://meta.fabricmc.net/v2/versions/loader/");
    push_str(&mut s, mc);
    push_str(&mut s, "/");
    push_str(&mut s, loader);
    push_str(&mut s, "/profile/json");
    assert(s@ =~= spec_fabric_profile_url(mc@, loader@));
    s
}

/// The saved asset index with identifier `id`.
pub fn asset_index_path(id: &str) -> (r: String)
    ensures
        r@ == spec_asset_index_path(id@),
{
    let mut s = String::new();
    push_str(&mut s, "assets/indexes/");
    push_str(&mut s, id);
    push_str(&mut s, ".json");
    assert(s@ =~= spec_asset_index_path(id@));
    s
}

/// Where an asset with this hash is stored; the hash must have at least two
/// characters.
pub fn asset_object_path(hash: &str) -> (r: Option<String>)
    ensures
        r.is_some() == (hash@.len() >= 2),
        r matches Some(p) ==> p@ == spec_asset_object_path(hash@),
{
    if hash.unicode_len() < 2 {
        return None;
    }
    let mut s = String::new();
    push_str(&mut s, "assets/objects/");
    push_str(&mut s, hash.substring_char(0, 2));
    push_str(&mut s, "/");
    push_str(&mut s, hash);
    assert(s@ =~= spec_asset_object_path(hash@));
    Some(s)
}

/// Where an asset with this hash is downloaded from.
pub fn asset_object_url(hash: &str) -> (r: Option<String>)
    ensures
        r.is_some() == (hash@.len() >= 2),
        r matches Some(p) ==> p@ == spec_asset_object_url(hash@),
{
    if hash.unicode_len() < 2 {
        return None;
    }
    let mut s = String::new();
    push_str(&mut s, "https://resources.download.minecraft.net/");
    push_str(&mut s, hash.substring_char(0, 2));
    push_str(&mut s, "/");
    push_str(&mut s, hash);
    assert(s@ =~= spec_asset_object_url(hash@));
    Some(s)
}

/// The Java executable of a runtime, under the game directory.
pub fn java_executable_path(major: u8) -> (r: String)
    ensures
        r@ == spec_java_executable_path(major),
{
    let mut s = String::new();
    push_str(&mut s, "runtime/java-");
    push_decimal(&mut s, major as u64);
    push_str(&mut s, "/bin/java.exe");
    assert(s@ =~= spec_java_executable_path(major));
    s
}

/// The remote listing of a version's files; `sub` is empty for the mods
/// themselves, or `/shaderpacks` or `/resourcepacks`.
pub fn catalog_url(version: GameVersion, sub: &str) -> (r: String)
    ensures
        r@ == spec_catalog_url(version, sub@),
{
    let mut s = String::new();
    push_str(&mut s, "https://api.github.com/repos/PRISSET/mods/contents/");
    push_str(&mut s, version.mods_folder());
    push_str(&mut s, sub);
    assert(s@ =~= spec_catalog_url(version, sub@));
    s
}

pub open spec fn spec_fabric_profile_path(id: Seq<char>) -> Seq<char> {
    "versions/"@ + id + "/"@ + id + ".json"@
}

/// The saved mod-loader profile with identifier `id`.
pub fn fabric_profile_path(id: &str) -> (r: String)
    ensures
        r@ == spec_fabric_profile_path(id@),
{
    let mut s = String::new();
    push_str(&mut s, "versions/");
    push_str(&mut s, id);
    push_str(&mut s, "/");
    push_str(&mut s, id);
    push_str(&mut s, ".json");
    assert(s@ =~= spec_fabric_profile_path(id@));
    s
}

/// The files whose presence marks a version as installed: its mod-loader
/// profile and its client jar.
pub fn install_markers(version: GameVersion) -> (r: Vec<String>)
    ensures
        r@.map_values(|s: String| s@) == seq![
            spec_fabric_profile_path(
                crate::layout::spec_fabric_version_id(
                    crate::version::spec_fabric_loader_version(version),
                    crate::version::spec_minecraft_version(version),
                ),
            ),
            spec_client_jar_path(crate::version::spec_minecraft_version(version)),
        ],
{
    let mc = version.minecraft_version();
    let id = fabric_version_id(version.fabric_loader_version(), mc);
    let r = vec![fabric_profile_path(id.as_str()), client_jar_path(mc)];
    assert(r@.map_values(|s: String| s@) =~= seq![
        spec_fabric_profile_path(
            crate::layout::spec_fabric_version_id(
                crate::version::spec_fabric_loader_version(version),
                crate::version::spec_minecraft_version(version),
            ),
        ),
        spec_client_jar_path(crate::version::spec_minecraft_version(version)),
    ]);
    r
}

} // verus!
