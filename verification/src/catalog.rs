use crate::error::InstallError;
use vstd::prelude::*;

verus! {

/// The identifiers of the newest release and the newest snapshot.
#[derive(Debug)]
pub struct Latest {
    pub release: String,
    pub snapshot: String,
}

/// One entry of the catalog.
#[derive(Debug)]
pub struct Version {
    pub id: String,
    /// `"release"`, `"snapshot"`, or another kind.
    pub version_type: String,
    /// Where the detailed descriptor of this version is found.
    pub url: String,
    pub time: String,
    pub release_time: String,
}

/// The catalog of versions, in the order in which the remote lists them.
#[derive(Debug)]
pub struct VersionManifest {
    pub latest: Latest,
    pub versions: Vec<Version>,
}

/// The kind that marks an entry as a release.
pub open spec fn release_kind() -> Seq<char> {
    "release"@
}

/// The identifier of `entry` if it is a release.
pub open spec fn release_id(entry: Version) -> Option<Seq<char>> {
    if entry.version_type@ == release_kind() {
        Some(entry.id@)
    } else {
        None
    }
}

/// The identifiers of the releases among `versions`, in catalog order.
pub open spec fn release_ids(versions: Seq<Version>) -> Seq<Seq<char>> {
    versions.filter_map(|entry: Version| release_id(entry))
}

/// The identifiers of all of `versions`, in catalog order.
pub open spec fn all_ids(versions: Seq<Version>) -> Seq<Seq<char>> {
    versions.map_values(|entry: Version| entry.id@)
}

/// `index` is the first entry of `versions` whose identifier is `id`.
pub open spec fn is_first_listing(versions: Seq<Version>, id: Seq<char>, index: int) -> bool {
    &&& 0 <= index < versions.len()
    &&& versions[index].id@ == id
    &&& forall|earlier: int| 0 <= earlier < index ==> versions[earlier].id@ != id
}

/// Some entry of `versions` has the identifier `id`.
pub open spec fn is_listed(versions: Seq<Version>, id: Seq<char>) -> bool {
    exists|index: int| 0 <= index < versions.len() && versions[index].id@ == id
}

/// The detail URL of the first entry of `versions` whose identifier is `id`.
pub open spec fn version_url(versions: Seq<Version>, id: Seq<char>) -> Option<Seq<char>> {
    if is_listed(versions, id) {
        Some(versions[choose|index: int| is_first_listing(versions, id, index)].url@)
    } else {
        None
    }
}

/// The identifiers of the release entries of the catalog, in catalog order.
pub fn get_release_versions(manifest: &VersionManifest) -> (ids: Vec<String>)
    ensures
        ids.deep_view() == release_ids(manifest.versions@),
{
    let release = "release".to_owned();
    let mut ids: Vec<String> = Vec::new();
    let mut i: usize = 0;
    while i < manifest.versions.len()
        invariant
            i <= manifest.versions.len(),
            release@ == release_kind(),
            ids.deep_view() == release_ids(manifest.versions@.take(i as int)),
        decreases manifest.versions.len() - i,
    {
        let entry = &manifest.versions[i];
        proof {
            manifest.versions@.lemma_filter_map_take_succ(|entry: Version| release_id(entry), i as int);
        }
        if entry.version_type == release {
            ids.push(entry.id.clone());
        }
        i = i + 1;
    }
    assert(manifest.versions@.take(manifest.versions@.len() as int) =~= manifest.versions@);
    ids
}

/// The identifiers of all entries of the catalog, in catalog order.
pub fn get_all_versions(manifest: &VersionManifest) -> (ids: Vec<String>)
    ensures
        ids.deep_view() == all_ids(manifest.versions@),
{
    let mut ids: Vec<String> = Vec::new();
    let mut i: usize = 0;
    while i < manifest.versions.len()
        invariant
            i <= manifest.versions.len(),
            ids.len() == i,
            ids.deep_view() == all_ids(manifest.versions@.take(i as int)),
        decreases manifest.versions.len() - i,
    {
        let ghost before = ids.deep_view();
        ids.push(manifest.versions[i].id.clone());
        assert(all_ids(manifest.versions@.take(i + 1)) =~= before.push(
            manifest.versions@[i as int].id@,
        ));
        i = i + 1;
    }
    ids
}

/// The detail URL of the version `version_id`: that of the first catalog
/// entry with this identifier. A version that the catalog does not list is
/// reported as [`InstallError::NotFound`].
pub fn get_version_url(manifest: &VersionManifest, version_id: &str) -> (found: Result<
    String,
    InstallError,
>)
    ensures
        match found {
            Ok(url) => version_url(manifest.versions@, version_id@) == Some(url@),
            Err(error) => error == InstallError::NotFound && !is_listed(
                manifest.versions@,
                version_id@,
            ),
        },
{
    let wanted = version_id.to_owned();
    let mut i: usize = 0;
    while i < manifest.versions.len()
        invariant
            i <= manifest.versions.len(),
            wanted@ == version_id@,
            forall|earlier: int| 0 <= earlier < i ==> manifest.versions@[earlier].id@ != version_id@,
        decreases manifest.versions.len() - i,
    {
        if manifest.versions[i].id == wanted {
            proof {
                lemma_first_listing_is_unique(manifest.versions@, version_id@, i as int);
            }
            return Ok(manifest.versions[i].url.clone());
        }
        i = i + 1;
    }
    Err(InstallError::NotFound)
}

/// At most one entry is the first with a given identifier, so the detail URL
/// of a listed version is that of its first listing.
pub proof fn lemma_first_listing_is_unique(versions: Seq<Version>, id: Seq<char>, index: int)
    requires
        is_first_listing(versions, id, index),
    ensures
        is_listed(versions, id),
        version_url(versions, id) == Some(versions[index].url@),
{
    let chosen = choose|other: int| is_first_listing(versions, id, other);
    assert(chosen == index);
}

/// An identifier that is listed has a first listing, at or before any
/// entry that carries it.
pub proof fn lemma_first_listing_exists(versions: Seq<Version>, id: Seq<char>, index: int)
    requires
        0 <= index < versions.len(),
        versions[index].id@ == id,
    ensures
        exists|first: int| 0 <= first <= index && is_first_listing(versions, id, first),
    decreases index,
{
    if exists|earlier: int| 0 <= earlier < index && versions[earlier].id@ == id {
        let earlier = choose|earlier: int| 0 <= earlier < index && versions[earlier].id@ == id;
        lemma_first_listing_exists(versions, id, earlier);
    } else {
        assert(is_first_listing(versions, id, index));
    }
}

/// Every entry of a catalog resolves: looked up by its identifier, an entry
/// has a detail URL, which is that of the first entry with this identifier,
/// and its own where no earlier entry shares the identifier.
pub proof fn lemma_listed_version_resolves(versions: Seq<Version>, index: int)
    requires
        0 <= index < versions.len(),
    ensures
        is_listed(versions, versions[index].id@),
        exists|first: int|
            0 <= first <= index && is_first_listing(versions, versions[index].id@, first)
                && version_url(versions, versions[index].id@) == Some(versions[first].url@),
        is_first_listing(versions, versions[index].id@, index) ==> version_url(
            versions,
            versions[index].id@,
        ) == Some(versions[index].url@),
{
    let id = versions[index].id@;
    lemma_first_listing_exists(versions, id, index);
    let first = choose|first: int| 0 <= first <= index && is_first_listing(versions, id, first);
    lemma_first_listing_is_unique(versions, id, first);
    if is_first_listing(versions, id, index) {
        lemma_first_listing_is_unique(versions, id, index);
    }
}

} // verus!
