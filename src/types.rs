//! Descriptions of game artifacts as the metadata services publish them.

use vstd::prelude::*;

verus! {

/// An entry of a remote file listing.
#[derive(Debug, Clone)]
pub struct GitHubFile {
    pub name: String,
    pub download_url: Option<String>,
    pub file_type: String,
}

/// The global list of game releases.
#[derive(Debug, Clone)]
pub struct VersionManifest {
    pub versions: Vec<VersionEntry>,
}

/// A release and where its metadata lives.
#[derive(Debug, Clone)]
pub struct VersionEntry {
    pub id: String,
    pub url: String,
}

/// The metadata of one game release.
#[derive(Debug, Clone)]
pub struct VersionInfo {
    pub id: String,
    pub asset_index: AssetIndexInfo,
    pub downloads: Downloads,
    pub libraries: Vec<Library>,
    pub main_class: String,
}

/// Where the asset index of a release lives.
#[derive(Debug, Clone)]
pub struct AssetIndexInfo {
    pub id: String,
    pub url: String,
    pub sha1: String,
}

/// The downloads of a release.
#[derive(Debug, Clone)]
pub struct Downloads {
    pub client: DownloadInfo,
}

/// One downloadable file.
#[derive(Debug, Clone)]
pub struct DownloadInfo {
    pub url: String,
    pub sha1: String,
    pub size: u64,
}

/// A library of a release, with the platform rules that select it.
#[derive(Debug, Clone)]
pub struct Library {
    pub downloads: Option<LibraryDownloads>,
    pub name: String,
    pub rules: Option<Vec<Rule>>,
}

/// The downloads of a library.
#[derive(Debug, Clone)]
pub struct LibraryDownloads {
    pub artifact: Option<Artifact>,
}

/// A library file and where it goes under the libraries directory.
#[derive(Debug, Clone)]
pub struct Artifact {
    pub path: String,
    pub url: String,
    pub sha1: String,
    pub size: u64,
}

/// A platform rule: `allow` or `disallow`, for one operating system or all.
#[derive(Debug, Clone)]
pub struct Rule {
    pub action: String,
    pub os: Option<OsRule>,
}

/// The operating system a rule names.
#[derive(Debug, Clone)]
pub struct OsRule {
    pub name: String,
}

/// The objects of an asset index, by logical name.
#[derive(Debug, Clone)]
pub struct AssetIndex {
    pub objects: Vec<(String, AssetObject)>,
}

impl AssetIndex {
    /// Each logical name appears at most once, as in the index document.
    pub open spec fn wf(&self) -> bool {
        forall|i: int, j: int|
            0 <= i < j < self.objects@.len() ==> #[trigger] self.objects@[i].0@
                != #[trigger] self.objects@[j].0@
    }
}

/// A content-addressed asset.
#[derive(Debug, Clone)]
pub struct AssetObject {
    pub hash: String,
}

} // verus!
