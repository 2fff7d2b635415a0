//! Whether a newer launcher release is available.

use vstd::prelude::*;
use crate::json::{element_pointer, element_pointer_text, json_len_at, json_str_at, opt_text, pointer_len, pointer_str};
use crate::state::UpdateResult;
use crate::text::{push_str, str_eq};

verus! {

/// The tag with its leading `v`s removed.
pub open spec fn trim_v(s: Seq<char>) -> Seq<char>
    decreases s.len(),
{
    if s.len() > 0 && s[0] == 'v' {
        trim_v(s.drop_first())
    } else {
        s
    }
}

/// Removes the leading `v`s of a release tag.
pub fn trim_version_prefix(tag: &str) -> (r: String)
    ensures
        r@ == trim_v(tag@),
{
    let len = tag.unicode_len();
    let mut i: usize = 0;
    assert(tag@.subrange(0, len as int) =~= tag@);
    while i < len && tag.get_char(i) == 'v'
        invariant
            i <= len,
            len == tag@.len(),
            trim_v(tag@) == trim_v(tag@.subrange(i as int, len as int)),
        decreases len - i,
    {
        assert(tag@.subrange(i as int, len as int).drop_first() =~= tag@.subrange(i + 1, len as int));
        i = i + 1;
    }
    let mut r = String::new();
    push_str(&mut r, tag.substring_char(i, len));
    r
}

/// An asset of a release: its file name and download URL, when given.
#[derive(Debug, Clone)]
pub struct ReleaseAsset {
    pub name: String,
    pub url: Option<String>,
}

/// An asset as its name and its URL, when given.
pub type AssetView = (Seq<char>, Option<Seq<char>>);

pub open spec fn asset_views(assets: Seq<ReleaseAsset>) -> Seq<AssetView> {
    assets.map_values(|a: ReleaseAsset| (a.name@, opt_text(a.url)))
}

/// Whether an asset is the installer and can be downloaded.
pub open spec fn is_installer(a: AssetView, installer: Seq<char>) -> bool {
    a.0 == installer && a.1 is Some
}

/// What a check decides from a release's tag and assets: no update when
/// the tag, without its leading `v`s, is empty or `current`; otherwise the
/// first installer asset with a URL, or no update when there is none.
pub open spec fn update_decided(
    r: UpdateResult,
    tag: Seq<char>,
    assets: Seq<AssetView>,
    current: Seq<char>,
    installer: Seq<char>,
) -> bool {
    if trim_v(tag).len() == 0 || trim_v(tag) == current {
        r is NoUpdate
    } else {
        match r {
            UpdateResult::UpdateAvailable(v, u) => v@ == trim_v(tag) && exists|i: int|
                0 <= i < assets.len() && is_installer(assets[i], installer) && assets[i].1 == Some(u@)
                    && forall|j: int| 0 <= j < i ==> !is_installer(#[trigger] assets[j], installer),
            UpdateResult::NoUpdate => forall|i: int|
                0 <= i < assets.len() ==> !is_installer(#[trigger] assets[i], installer),
            _ => false,
        }
    }
}

/// Decides from the latest release's tag and assets: an update is offered
/// when the tag, without its leading `v`s, is neither empty nor `current`,
/// and an asset named `installer` has a URL.
pub fn decide_update(tag: &str, assets: &Vec<ReleaseAsset>, current: &str, installer: &str) -> (r:
    UpdateResult)
    ensures
        update_decided(r, tag@, asset_views(assets@), current@, installer@),
{
    let ghost views = asset_views(assets@);
    let latest = trim_version_prefix(tag);
    if latest.as_str().unicode_len() == 0 || str_eq(latest.as_str(), current) {
        return UpdateResult::NoUpdate;
    }
    let mut i: usize = 0;
    while i < assets.len()
        invariant
            i <= assets@.len(),
            views == asset_views(assets@),
            latest@ == trim_v(tag@),
            !(trim_v(tag@).len() == 0 || trim_v(tag@) == current@),
            forall|j: int| 0 <= j < i ==> !is_installer(#[trigger] views[j], installer@),
        decreases assets@.len() - i,
    {
        if str_eq(assets[i].name.as_str(), installer) {
            if let Some(u) = &assets[i].url {
                let url = u.clone();
                assert(is_installer(views[i as int], installer@) && views[i as int].1 == Some(url@));
                return UpdateResult::UpdateAvailable(latest, url);
            }
        }
        assert(!is_installer(views[i as int], installer@));
        i = i + 1;
    }
    UpdateResult::NoUpdate
}

/// The tag of a release document: its string `tag_name`, or empty.
pub open spec fn release_tag(text: Seq<char>) -> Seq<char> {
    match json_str_at(text, "/tag_name"@) {
        Some(t) => t,
        None => Seq::empty(),
    }
}

/// The first `n` assets of a release document: each one's string `name`
/// (empty when missing) and string `browser_download_url`.
pub open spec fn release_assets(text: Seq<char>, n: nat) -> Seq<AssetView>
    decreases n,
{
    if n == 0 {
        Seq::empty()
    } else {
        let k = (n - 1) as nat;
        let name = match json_str_at(text, element_pointer("/assets"@, k, "name"@)) {
            Some(s) => s,
            None => Seq::empty(),
        };
        release_assets(text, k).push(
            (name, json_str_at(text, element_pointer("/assets"@, k, "browser_download_url"@))),
        )
    }
}

/// How many assets a release document lists: none unless `assets` is an
/// array.
pub open spec fn assets_len(text: Seq<char>) -> nat {
    match json_len_at(text, "/assets"@) {
        Some(n) => n as nat,
        None => 0,
    }
}

/// Reads the tag and assets of a release document and decides.
pub fn update_from_release(release: &str, current: &str, installer: &str) -> (r: UpdateResult)
    ensures
        update_decided(
            r,
            release_tag(release@),
            release_assets(release@, assets_len(release@)),
            current@,
            installer@,
        ),
{
    proof {
        reveal_strlit("/assets");
        reveal_strlit("name");
        reveal_strlit("browser_download_url");
    }
    let tag = match pointer_str(release, "/tag_name") {
        Some(s) => s,
        None => String::new(),
    };
    let n: usize = match pointer_len(release, "/assets") {
        Some(n) => n,
        None => 0,
    };
    let mut assets: Vec<ReleaseAsset> = Vec::new();
    let mut i: usize = 0;
    while i < n
        invariant
            i <= n,
            n as nat == assets_len(release@),
            asset_views(assets@) == release_assets(release@, i as nat),
        decreases n - i,
    {
        let name = match pointer_str(release, element_pointer_text("/assets", i, "name").as_str()) {
            Some(s) => s,
            None => String::new(),
        };
        let url = pointer_str(release, element_pointer_text("/assets", i, "browser_download_url").as_str());
        assets.push(ReleaseAsset { name, url });
        i = i + 1;
        assert(asset_views(assets@) =~= release_assets(release@, i as nat));
    }
    decide_update(tag.as_str(), &assets, current, installer)
}

} // verus!
