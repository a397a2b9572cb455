use crate::text::{chars_of, find_char, string_of_range};
use vstd::prelude::*;

verus! {

/// Where asset objects are retrieved from.
pub open spec fn resources_url() -> Seq<char> {
    "https://resources.download.minecraft.net/"@
}

/// Where the catalog of versions is retrieved from.
pub open spec fn manifest_url() -> Seq<char> {
    "https://piston-meta.mojang.com/mc/game/version_manifest_v2.json"@
}

/// The URL of the catalog of versions.
pub fn catalog_url() -> (url: String)
    ensures
        url@ == manifest_url(),
{
    "https://piston-meta.mojang.com/mc/game/version_manifest_v2.json".to_owned()
}

/// The client archive of version `id`, below the instance root.
pub open spec fn client_jar_path(id: Seq<char>) -> Seq<char> {
    "minecraft/versions/"@ + id + "/"@ + id + ".jar"@
}

/// The stored descriptor of version `id`, below the instance root.
pub open spec fn descriptor_path(id: Seq<char>) -> Seq<char> {
    "minecraft/versions/"@ + id + "/"@ + id + ".json"@
}

/// The asset index `id`, below the instance root.
pub open spec fn asset_index_path(id: Seq<char>) -> Seq<char> {
    "minecraft/assets/indexes/"@ + id + ".json"@
}

/// `relative`, a path below the library store, as a path below the instance
/// root.
pub open spec fn in_libraries(relative: Seq<char>) -> Seq<char> {
    "minecraft/libraries/"@ + relative
}

/// `relative`, a path below the asset store, as a path below the instance
/// root.
pub open spec fn in_assets(relative: Seq<char>) -> Seq<char> {
    "minecraft/assets/"@ + relative
}

/// Where the client archive of version `id` is stored.
pub fn version_jar_path(id: &str) -> (path: String)
    ensures
        path@ == client_jar_path(id@),
{
    let mut path = "minecraft/versions/".to_owned();
    path.append(id);
    path.append("/");
    path.append(id);
    path.append(".jar");
    path
}

/// Where the descriptor of version `id` is stored.
pub fn version_json_path(id: &str) -> (path: String)
    ensures
        path@ == descriptor_path(id@),
{
    let mut path = "minecraft/versions/".to_owned();
    path.append(id);
    path.append("/");
    path.append(id);
    path.append(".json");
    path
}

/// Where the asset index `id` is stored.
pub fn index_json_path(id: &str) -> (path: String)
    ensures
        path@ == asset_index_path(id@),
{
    let mut path = "minecraft/assets/indexes/".to_owned();
    path.append(id);
    path.append(".json");
    path
}

/// The three segments of a library coordinate.
#[derive(Debug)]
pub struct Coordinate {
    pub group: String,
    pub artifact: String,
    pub version: String,
}

/// The characters of a [`Coordinate`].
pub struct CoordinateView {
    pub group: Seq<char>,
    pub artifact: Seq<char>,
    pub version: Seq<char>,
}

impl View for Coordinate {
    type V = CoordinateView;

    open spec fn view(&self) -> CoordinateView {
        CoordinateView { group: self.group@, artifact: self.artifact@, version: self.version@ }
    }
}

/// `name` holds exactly two colons, at `first` and at `second`.
pub open spec fn splits_at(name: Seq<char>, first: int, second: int) -> bool {
    &&& 0 <= first < second < name.len()
    &&& name[first] == ':'
    &&& name[second] == ':'
    &&& forall|k: int| 0 <= k < name.len() && k != first && k != second ==> name[k] != ':'
}

/// `name` splits at its colons into exactly three segments.
pub open spec fn is_materializable(name: Seq<char>) -> bool {
    exists|first: int, second: int| splits_at(name, first, second)
}

/// The segments of `name` around colons at `first` and `second`.
pub open spec fn segments_at(name: Seq<char>, first: int, second: int) -> CoordinateView {
    CoordinateView {
        group: name.subrange(0, first),
        artifact: name.subrange(first + 1, second),
        version: name.subrange(second + 1, name.len() as int),
    }
}

/// The group, artifact and version of the coordinate `name`; nothing where
/// `name` does not split into exactly three segments.
pub open spec fn coordinate_of(name: Seq<char>) -> Option<CoordinateView> {
    if is_materializable(name) {
        let (first, second) = choose|first: int, second: int| splits_at(name, first, second);
        Some(segments_at(name, first, second))
    } else {
        None
    }
}

/// A group as a directory path: every `.` becomes a separator.
pub open spec fn group_as_path(group: Seq<char>) -> Seq<char> {
    group.map_values(
        |c: char|
            if c == '.' {
                '/'
            } else {
                c
            },
    )
}

/// Where the artifact of `coordinate` is stored, below the library store.
pub open spec fn artifact_path(coordinate: CoordinateView) -> Seq<char> {
    group_as_path(coordinate.group) + "/"@ + coordinate.artifact + "/"@ + coordinate.version
        + "/"@ + coordinate.artifact + "-"@ + coordinate.version + ".jar"@
}

/// Where the artifact of the library `name` is stored, below the library
/// store; nothing where `name` does not split into exactly three segments.
pub open spec fn library_path(name: Seq<char>) -> Option<Seq<char>> {
    match coordinate_of(name) {
        Some(coordinate) => Some(artifact_path(coordinate)),
        None => None,
    }
}

/// A name has at most one pair of positions at which it splits.
pub proof fn lemma_split_is_unique(name: Seq<char>, first: int, second: int)
    requires
        splits_at(name, first, second),
    ensures
        is_materializable(name),
        coordinate_of(name) == Some(segments_at(name, first, second)),
{
    let (a, b) = choose|a: int, b: int| splits_at(name, a, b);
    assert(a == first && b == second);
}

/// Splits a library coordinate of the form `group:artifact:version`.
/// A name with fewer or more than two colons has no coordinate.
pub fn parse_coordinate(name: &str) -> (coordinate: Option<Coordinate>)
    ensures
        match coordinate {
            Some(coordinate) => coordinate_of(name@) == Some(coordinate@),
            None => !is_materializable(name@),
        },
{
    let chars = chars_of(name);
    let first = find_char(&chars, ':', 0);
    if first >= chars.len() {
        return None;
    }
    let second = find_char(&chars, ':', first + 1);
    if second >= chars.len() {
        return None;
    }
    let third = find_char(&chars, ':', second + 1);
    if third < chars.len() {
        return None;
    }
    proof {
        lemma_split_is_unique(name@, first as int, second as int);
    }
    Some(
        Coordinate {
            group: string_of_range(&chars, 0, first),
            artifact: string_of_range(&chars, first + 1, second),
            version: string_of_range(&chars, second + 1, chars.len()),
        },
    )
}

impl Coordinate {
    /// Where the artifact is stored, below the library store:
    /// `group/as/path/artifact/version/artifact-version.jar`.
    pub fn artifact_path(&self) -> (path: String)
        ensures
            path@ == artifact_path(self@),
    {
        let group = chars_of(self.group.as_str());
        let mut path = String::new();
        let mut i: usize = 0;
        while i < group.len()
            invariant
                i <= group.len(),
                group@ == self.group@,
                path@ == group_as_path(group@.take(i as int)),
            decreases group.len() - i,
        {
            let c = group[i];
            if c == '.' {
                path.push('/');
            } else {
                path.push(c);
            }
            i = i + 1;
        }
        path.append("/");
        path.append(self.artifact.as_str());
        path.append("/");
        path.append(self.version.as_str());
        path.append("/");
        path.append(self.artifact.as_str());
        path.append("-");
        path.append(self.version.as_str());
        path.append(".jar");
        path
    }
}

/// Where the artifact of the library `name` is stored, below the library
/// store. A name that does not split into exactly three segments has no
/// such place.
pub fn library_artifact_path(name: &str) -> (path: Option<String>)
    ensures
        match path {
            Some(path) => library_path(name@) == Some(path@),
            None => library_path(name@) is None,
        },
{
    match parse_coordinate(name) {
        Some(coordinate) => Some(coordinate.artifact_path()),
        None => None,
    }
}

/// Whether `hash` is long enough to have a shard prefix.
pub open spec fn has_shard(hash: Seq<char>) -> bool {
    hash.len() >= 2
}

/// The shard prefix of `hash`: its first two characters.
pub open spec fn shard_of(hash: Seq<char>) -> Seq<char> {
    hash.subrange(0, 2)
}

/// Where the object with content hash `hash` is stored, below the asset
/// store.
pub open spec fn object_path(hash: Seq<char>) -> Seq<char> {
    "objects/"@ + shard_of(hash) + "/"@ + hash
}

/// Where the object with content hash `hash` is retrieved from.
pub open spec fn object_url(hash: Seq<char>) -> Seq<char> {
    resources_url() + shard_of(hash) + "/"@ + hash
}

/// Whether `c` is a digit of a hexadecimal number.
pub open spec fn is_hex_digit(c: char) -> bool {
    ('0' <= c && c <= '9') || ('a' <= c && c <= 'f') || ('A' <= c && c <= 'F')
}

/// Whether `hash` is a SHA-1 digest in hexadecimal: forty digits.
pub open spec fn is_sha1_hex(hash: Seq<char>) -> bool {
    &&& hash.len() == 40
    &&& forall|k: int| 0 <= k < hash.len() ==> is_hex_digit(#[trigger] hash[k])
}

/// The shard prefix of `hash`, where it has one.
fn shard_prefix(hash: &str) -> (prefix: Option<String>)
    ensures
        match prefix {
            Some(prefix) => has_shard(hash@) && prefix@ == shard_of(hash@),
            None => !has_shard(hash@),
        },
{
    let chars = chars_of(hash);
    if chars.len() < 2 {
        None
    } else {
        Some(string_of_range(&chars, 0, 2))
    }
}

/// Where the object with content hash `hash` is stored, below the asset
/// store: `objects/`, the first two characters of the hash, `/`, and the
/// hash. A hash of fewer than two characters has no such place.
pub fn asset_object_path(hash: &str) -> (path: Option<String>)
    ensures
        match path {
            Some(path) => has_shard(hash@) && path@ == object_path(hash@),
            None => !has_shard(hash@),
        },
{
    match shard_prefix(hash) {
        Some(prefix) => {
            let mut path = "objects/".to_owned();
            path.append(prefix.as_str());
            path.append("/");
            path.append(hash);
            Some(path)
        },
        None => None,
    }
}

/// Where the object with content hash `hash` is retrieved from: the
/// resource server, the first two characters of the hash, `/`, and the hash.
/// A hash of fewer than two characters has no such place.
pub fn asset_object_url(hash: &str) -> (url: Option<String>)
    ensures
        match url {
            Some(url) => has_shard(hash@) && url@ == object_url(hash@),
            None => !has_shard(hash@),
        },
{
    match shard_prefix(hash) {
        Some(prefix) => {
            let mut url = "https://resources.download.minecraft.net/".to_owned();
            url.append(prefix.as_str());
            url.append("/");
            url.append(hash);
            Some(url)
        },
        None => None,
    }
}

/// Every SHA-1 digest in hexadecimal has a place in the store, and the
/// directory it lies in is named by the digest's first two digits.
pub proof fn lemma_digest_has_object_path(hash: Seq<char>)
    requires
        is_sha1_hex(hash),
    ensures
        has_shard(hash),
        object_path(hash) == "objects/"@ + seq![hash[0], hash[1]] + "/"@ + hash,
        is_hex_digit(hash[0]) && is_hex_digit(hash[1]),
{
}

} // verus!
