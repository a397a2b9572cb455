use vstd::prelude::*;

verus! {

/// A file to retrieve: its SHA-1 digest in hexadecimal, its size in bytes,
/// and where it is found.
#[derive(Debug)]
pub struct DownloadInfo {
    pub sha1: String,
    pub size: u64,
    pub url: String,
}

/// The archives of a version.
#[derive(Debug)]
pub struct Downloads {
    pub client: DownloadInfo,
    pub server: Option<DownloadInfo>,
}

/// What a library offers for download.
#[derive(Debug)]
pub struct LibraryDownloads {
    pub artifact: Option<DownloadInfo>,
}

/// A library that a version depends on.
#[derive(Debug)]
pub struct Library {
    /// The coordinate of the library: `group:artifact:version`.
    pub name: String,
    pub downloads: LibraryDownloads,
}

/// Where the asset index of a version is found.
#[derive(Debug)]
pub struct AssetIndex {
    pub id: String,
    pub sha1: String,
    pub size: u64,
    pub url: String,
    pub total_size: u64,
}

/// The detailed descriptor of one version.
#[derive(Debug)]
pub struct VersionDetails {
    pub id: String,
    pub downloads: Downloads,
    pub libraries: Vec<Library>,
    pub asset_index: AssetIndex,
    pub assets: String,
    pub main_class: String,
}

} // verus!
