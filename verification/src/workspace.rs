use vstd::prelude::*;

verus! {

/// The directory of the launcher, below the home directory of the user.
pub open spec fn launcher_root() -> Seq<char> {
    ".copper-launcher"@
}

/// The directory of the instance `name`, below the home directory.
pub open spec fn instance_root(name: Seq<char>) -> Seq<char> {
    launcher_root() + "/instances/"@ + name
}

/// The directories of the launcher: its own, and those of the instances,
/// the versions and the assets.
pub open spec fn launcher_layout() -> Seq<Seq<char>> {
    seq![
        launcher_root(),
        launcher_root() + "/instances"@,
        launcher_root() + "/versions"@,
        launcher_root() + "/assets"@,
    ]
}

/// The directories of the instance `name`: its own, the game directory in
/// it, and in that the saves and the resource packs.
pub open spec fn instance_layout(name: Seq<char>) -> Seq<Seq<char>> {
    seq![
        instance_root(name),
        instance_root(name) + "/minecraft"@,
        instance_root(name) + "/minecraft/saves"@,
        instance_root(name) + "/minecraft/resourcepacks"@,
    ]
}

/// Whether an instance may be called `name`: a name takes from three to
/// sixteen bytes.
pub open spec fn is_instance_name(name: &str) -> bool {
    3 <= name.len() && name.len() <= 16
}

/// Whether an instance may be called `name`.
pub fn is_valid_instance_name(name: &str) -> (valid: bool)
    ensures
        valid == is_instance_name(name),
{
    let length = name.len();
    3 <= length && length <= 16
}

/// The directory of the instance `name`, below the home directory.
pub fn instance_path(name: &str) -> (path: String)
    ensures
        path@ == instance_root(name@),
{
    let mut path = ".copper-launcher".to_owned();
    path.append("/instances/");
    path.append(name);
    path
}

/// The directories to create for the launcher, below the home directory,
/// each after the one that holds it.
pub fn launcher_directories() -> (directories: Vec<String>)
    ensures
        directories.deep_view() == launcher_layout(),
{
    let mut directories: Vec<String> = Vec::new();
    directories.push(".copper-launcher".to_owned());
    let mut instances = ".copper-launcher".to_owned();
    instances.append("/instances");
    directories.push(instances);
    let mut versions = ".copper-launcher".to_owned();
    versions.append("/versions");
    directories.push(versions);
    let mut assets = ".copper-launcher".to_owned();
    assets.append("/assets");
    directories.push(assets);
    directories
}

/// The directories to create for the instance `name`, below the home
/// directory, each after the one that holds it.
pub fn instance_directories(name: &str) -> (directories: Vec<String>)
    ensures
        directories.deep_view() == instance_layout(name@),
{
    let mut directories: Vec<String> = Vec::new();
    directories.push(instance_path(name));
    let mut game = instance_path(name);
    game.append("/minecraft");
    directories.push(game);
    let mut saves = instance_path(name);
    saves.append("/minecraft/saves");
    directories.push(saves);
    let mut packs = instance_path(name);
    packs.append("/minecraft/resourcepacks");
    directories.push(packs);
    directories
}

/// The versions that are offered while the catalog cannot be reached.
pub open spec fn offline_versions() -> Seq<Seq<char>> {
    seq!["1.21.11"@, "1.21.1"@, "1.12.2"@]
}

/// The versions to offer while the catalog cannot be reached.
pub fn fallback_versions() -> (versions: Vec<String>)
    ensures
        versions.deep_view() == offline_versions(),
{
    let mut versions: Vec<String> = Vec::new();
    versions.push("1.21.11".to_owned());
    versions.push("1.21.1".to_owned());
    versions.push("1.12.2".to_owned());
    versions
}

} // verus!
