use copper_launcher::catalog::{Latest, Version, VersionManifest};
use copper_launcher::descriptor::{
    AssetIndex, DownloadInfo, Downloads, Library, LibraryDownloads, VersionDetails,
};
use copper_launcher::error::InstallError;
use copper_launcher::install::{
    download_assets, download_libraries, download_minecraft_client, fetch_version_details,
    setup_minecraft_version, Action, Event, Installer,
};
use copper_launcher::plan::{
    client_download, index_download, install_plan, library_download, library_downloads, Selection,
    Step,
};

const HASH_A: &str = "0a1b2c3d4e5f60718293a4b5c6d7e8f901234567";
const HASH_B: &str = "bdf48ef6b5d0d23bbb02e17d04865216179f510a";

fn download(url: &str) -> DownloadInfo {
    DownloadInfo { sha1: HASH_A.to_string(), size: 10, url: url.to_string() }
}

fn library(name: &str, url: Option<&str>) -> Library {
    Library { name: name.to_string(), downloads: LibraryDownloads { artifact: url.map(download) } }
}

fn details() -> VersionDetails {
    VersionDetails {
        id: "1.21.1".to_string(),
        downloads: Downloads { client: download("https://cdn.example/client.jar"), server: None },
        libraries: vec![
            library("com.mojang:authlib:1.5.25", Some("https://lib.example/authlib.jar")),
            library("badcoord:1.0", Some("https://lib.example/bad.jar")),
            library("org.lwjgl:lwjgl:3.3.1", None),
            library("org.lwjgl:lwjgl:3.3.1:natives-linux", Some("https://lib.example/natives.jar")),
            library("oshi:oshi-core:1.1", Some("https://lib.example/oshi.jar")),
        ],
        asset_index: AssetIndex {
            id: "17".to_string(),
            sha1: HASH_B.to_string(),
            size: 100,
            url: "https://meta.example/indexes/17.json".to_string(),
            total_size: 1000,
        },
        assets: "17".to_string(),
        main_class: "net.minecraft.client.main.Main".to_string(),
    }
}

fn catalog() -> VersionManifest {
    let listed = |id: &str, kind: &str| Version {
        id: id.to_string(),
        version_type: kind.to_string(),
        url: format!("https://meta.example/{}.json", id),
        time: String::new(),
        release_time: String::new(),
    };
    VersionManifest {
        latest: Latest { release: "1.21.1".to_string(), snapshot: "24w33a".to_string() },
        versions: vec![listed("24w33a", "snapshot"), listed("1.21.1", "release")],
    }
}

fn index_text() -> String {
    format!(
        "{{\"objects\": {{\"a.png\": {{\"hash\": \"{}\", \"size\": 1}}, \"b.ogg\": {{\"hash\": \"{}\", \"size\": 2}}}}}}",
        HASH_A, HASH_B
    )
}

fn place(hash: &str) -> String {
    format!("minecraft/assets/objects/{}/{}", &hash[0..2], hash)
}

/// A short name of `action`, with the path or URL it speaks of.
fn label(action: &Action) -> String {
    match action {
        Action::FetchCatalog { url } => format!("catalog {}", url),
        Action::FetchDetails { url } => format!("details {}", url),
        Action::WriteDescriptor { path } => format!("write {}", path),
        Action::Fetch(task) => format!("fetch {} -> {}", task.url, task.path),
        Action::ReadIndex { path } => format!("read {}", path),
        Action::Probe { path } => format!("probe {}", path),
        Action::Finish => "finish".to_string(),
        Action::Abort(error) => format!("abort {:?}", error),
    }
}

/// Runs an installation in which every action succeeds, over a store that
/// holds `present`, and gives the actions in the order they were asked for.
fn run(mut installer: Installer, present: &[String]) -> Vec<String> {
    let mut asked = Vec::new();
    loop {
        let action = installer.pending();
        asked.push(label(&action));
        let event = match action {
            Action::FetchCatalog { .. } => Event::Catalog(catalog()),
            Action::FetchDetails { .. } => Event::Details(details()),
            Action::WriteDescriptor { .. } | Action::Fetch(_) => Event::Done,
            Action::ReadIndex { .. } => Event::Text(index_text()),
            Action::Probe { path } => {
                if present.contains(&path) {
                    Event::Present
                } else {
                    Event::Missing
                }
            }
            Action::Finish | Action::Abort(_) => return asked,
        };
        installer = installer.handle(event);
    }
}

#[test]
fn library_downloads_are_those_of_the_materializable_libraries() {
    let tasks = library_downloads(&details().libraries);
    assert_eq!(tasks.len(), 2);
    assert_eq!(tasks[0].url, "https://lib.example/authlib.jar");
    assert_eq!(
        tasks[0].path,
        "minecraft/libraries/com/mojang/authlib/1.5.25/authlib-1.5.25.jar"
    );
    assert_eq!(tasks[1].url, "https://lib.example/oshi.jar");
    assert_eq!(tasks[1].path, "minecraft/libraries/oshi/oshi-core/1.1/oshi-core-1.1.jar");
}

#[test]
fn library_with_a_malformed_coordinate_is_skipped() {
    assert!(library_download(&library("badcoord:1.0", Some("https://lib.example/bad.jar")))
        .is_none());
    let only = vec![library("badcoord:1.0", Some("https://lib.example/bad.jar"))];
    assert!(library_downloads(&only).is_empty());
}

#[test]
fn library_without_an_artifact_is_skipped() {
    assert!(library_download(&library("org.lwjgl:lwjgl:3.3.1", None)).is_none());
    assert!(library_downloads(&Vec::new()).is_empty());
}

#[test]
fn client_and_index_are_stored_under_their_identifiers() {
    let client = client_download(&details(), "1.21.1");
    assert_eq!(client.url, "https://cdn.example/client.jar");
    assert_eq!(client.path, "minecraft/versions/1.21.1/1.21.1.jar");
    let index = index_download(&details().asset_index);
    assert_eq!(index.url, "https://meta.example/indexes/17.json");
    assert_eq!(index.path, "minecraft/assets/indexes/17.json");
}

#[test]
fn plan_takes_the_client_then_the_libraries_then_the_index() {
    let steps = install_plan(&details(), "1.21.1", Selection::install(true));
    let shown: Vec<String> = steps
        .iter()
        .map(|step| match step {
            Step::WriteDescriptor { path } => format!("write {}", path),
            Step::Fetch(task) => format!("fetch {}", task.path),
            Step::ReadIndex { path } => format!("read {}", path),
        })
        .collect();
    assert_eq!(
        shown,
        vec![
            "write minecraft/versions/1.21.1/1.21.1.json",
            "fetch minecraft/versions/1.21.1/1.21.1.jar",
            "fetch minecraft/libraries/com/mojang/authlib/1.5.25/authlib-1.5.25.jar",
            "fetch minecraft/libraries/oshi/oshi-core/1.1/oshi-core-1.1.jar",
            "fetch minecraft/assets/indexes/17.json",
            "read minecraft/assets/indexes/17.json",
        ]
    );
}

#[test]
fn plan_holds_only_what_is_selected() {
    let nothing = Selection { client: false, libraries: false, assets: false };
    assert!(install_plan(&details(), "1.21.1", nothing).is_empty());
    assert_eq!(install_plan(&details(), "1.21.1", Selection::install(false)).len(), 4);
    let assets = Selection { client: false, libraries: false, assets: true };
    assert_eq!(install_plan(&details(), "1.21.1", assets).len(), 2);
    let libraries = Selection { client: false, libraries: true, assets: false };
    assert_eq!(install_plan(&details(), "1.21.1", libraries).len(), 2);
}

#[test]
fn installation_runs_from_the_catalog_to_the_last_object() {
    let asked = run(setup_minecraft_version("1.21.1", true), &[place(HASH_B)]);
    assert_eq!(
        asked,
        vec![
            "catalog https://piston-meta.mojang.com/mc/game/version_manifest_v2.json".to_string(),
            "details https://meta.example/1.21.1.json".to_string(),
            "write minecraft/versions/1.21.1/1.21.1.json".to_string(),
            "fetch https://cdn.example/client.jar -> minecraft/versions/1.21.1/1.21.1.jar"
                .to_string(),
            "fetch https://lib.example/authlib.jar -> minecraft/libraries/com/mojang/authlib/1.5.25/authlib-1.5.25.jar"
                .to_string(),
            "fetch https://lib.example/oshi.jar -> minecraft/libraries/oshi/oshi-core/1.1/oshi-core-1.1.jar"
                .to_string(),
            "fetch https://meta.example/indexes/17.json -> minecraft/assets/indexes/17.json"
                .to_string(),
            "read minecraft/assets/indexes/17.json".to_string(),
            format!("probe {}", place(HASH_A)),
            format!(
                "fetch https://resources.download.minecraft.net/0a/{} -> {}",
                HASH_A,
                place(HASH_A)
            ),
            format!("probe {}", place(HASH_B)),
            "finish".to_string(),
        ]
    );
}

#[test]
fn installation_without_assets_ends_after_the_libraries() {
    let asked = run(setup_minecraft_version("1.21.1", false), &[]);
    assert_eq!(asked.len(), 7);
    assert_eq!(asked[6], "finish");
    assert!(asked.iter().all(|action| !action.starts_with("probe")));
    assert!(asked.iter().all(|action| !action.contains("indexes")));
}

#[test]
fn installation_over_a_full_store_fetches_no_object() {
    let asked = run(download_assets("1.21.1"), &[place(HASH_A), place(HASH_B)]);
    assert_eq!(
        asked,
        vec![
            "catalog https://piston-meta.mojang.com/mc/game/version_manifest_v2.json".to_string(),
            "details https://meta.example/1.21.1.json".to_string(),
            "fetch https://meta.example/indexes/17.json -> minecraft/assets/indexes/17.json"
                .to_string(),
            "read minecraft/assets/indexes/17.json".to_string(),
            format!("probe {}", place(HASH_A)),
            format!("probe {}", place(HASH_B)),
            "finish".to_string(),
        ]
    );
}

#[test]
fn parts_of_an_installation_can_be_run_alone() {
    let client = run(download_minecraft_client("1.21.1"), &[]);
    assert_eq!(client.len(), 5);
    assert_eq!(client[2], "write minecraft/versions/1.21.1/1.21.1.json");
    assert_eq!(client[4], "finish");
    let libraries = run(download_libraries("1.21.1"), &[]);
    assert_eq!(libraries.len(), 5);
    assert!(libraries[2].ends_with("authlib-1.5.25.jar"));
    assert!(libraries[3].ends_with("oshi-core-1.1.jar"));
    let resolved = run(fetch_version_details("1.21.1"), &[]);
    assert_eq!(resolved.len(), 3);
    assert_eq!(resolved[1], "details https://meta.example/1.21.1.json");
    assert_eq!(resolved[2], "finish");
}

#[test]
fn unlisted_version_is_not_found_and_nothing_is_fetched() {
    let asked = run(setup_minecraft_version("nonexistent-id", true), &[]);
    assert_eq!(
        asked,
        vec![
            "catalog https://piston-meta.mojang.com/mc/game/version_manifest_v2.json".to_string(),
            "abort NotFound".to_string(),
        ]
    );
}

#[test]
fn failure_is_final() {
    let installer = Installer::new("nonexistent-id", Selection::install(true));
    let installer = installer.handle(Event::Catalog(catalog()));
    let installer = installer.handle(Event::Details(details()));
    assert!(matches!(installer.pending(), Action::Abort(InstallError::NotFound)));
    let installer = installer.handle(Event::Done);
    let installer = installer.handle(Event::Failed(InstallError::Network));
    assert!(matches!(installer.pending(), Action::Abort(InstallError::NotFound)));
}

#[test]
fn unreachable_catalog_is_a_network_error() {
    let installer = setup_minecraft_version("1.21.1", true);
    let installer = installer.handle(Event::Failed(InstallError::Network));
    assert!(matches!(installer.pending(), Action::Abort(InstallError::Network)));
}

#[test]
fn undecodable_descriptor_is_a_parse_error() {
    let installer = setup_minecraft_version("1.21.1", true);
    let installer = installer.handle(Event::Catalog(catalog()));
    let installer = installer.handle(Event::Failed(InstallError::Parse));
    assert!(matches!(installer.pending(), Action::Abort(InstallError::Parse)));
}

#[test]
fn first_failed_step_ends_the_installation() {
    let installer = setup_minecraft_version("1.21.1", true);
    let installer = installer.handle(Event::Catalog(catalog()));
    let installer = installer.handle(Event::Details(details()));
    assert!(matches!(installer.pending(), Action::WriteDescriptor { .. }));
    let installer = installer.handle(Event::Failed(InstallError::Filesystem));
    assert!(matches!(installer.pending(), Action::Abort(InstallError::Filesystem)));
    let installer = installer.handle(Event::Done);
    assert!(matches!(installer.pending(), Action::Abort(InstallError::Filesystem)));
}

#[test]
fn failed_library_ends_the_installation() {
    let mut installer = download_libraries("1.21.1");
    installer = installer.handle(Event::Catalog(catalog()));
    installer = installer.handle(Event::Details(details()));
    installer = installer.handle(Event::Done);
    match installer.pending() {
        Action::Fetch(task) => assert!(task.path.ends_with("oshi-core-1.1.jar")),
        other => panic!("expected a retrieval, got {:?}", other),
    }
    installer = installer.handle(Event::Failed(InstallError::Network));
    assert!(matches!(installer.pending(), Action::Abort(InstallError::Network)));
}

#[test]
fn malformed_index_ends_the_installation() {
    let mut installer = download_assets("1.21.1");
    installer = installer.handle(Event::Catalog(catalog()));
    installer = installer.handle(Event::Details(details()));
    installer = installer.handle(Event::Done);
    assert!(matches!(installer.pending(), Action::ReadIndex { .. }));
    installer = installer.handle(Event::Text("{\"objects\": ".to_string()));
    assert!(matches!(installer.pending(), Action::Abort(InstallError::Parse)));
}

#[test]
fn failed_object_ends_the_installation() {
    let mut installer = download_assets("1.21.1");
    installer = installer.handle(Event::Catalog(catalog()));
    installer = installer.handle(Event::Details(details()));
    installer = installer.handle(Event::Done);
    installer = installer.handle(Event::Text(index_text()));
    assert!(matches!(installer.pending(), Action::Probe { .. }));
    installer = installer.handle(Event::Missing);
    installer = installer.handle(Event::Failed(InstallError::Network));
    assert!(matches!(installer.pending(), Action::Abort(InstallError::Network)));
}

#[test]
fn event_that_was_not_asked_for_is_ignored() {
    let mut installer = setup_minecraft_version("1.21.1", true);
    installer = installer.handle(Event::Done);
    installer = installer.handle(Event::Details(details()));
    installer = installer.handle(Event::Present);
    assert!(matches!(installer.pending(), Action::FetchCatalog { .. }));
    installer = installer.handle(Event::Catalog(catalog()));
    installer = installer.handle(Event::Catalog(catalog()));
    installer = installer.handle(Event::Text(index_text()));
    assert!(matches!(installer.pending(), Action::FetchDetails { .. }));
    installer = installer.handle(Event::Details(details()));
    installer = installer.handle(Event::Text(index_text()));
    installer = installer.handle(Event::Missing);
    assert!(matches!(installer.pending(), Action::WriteDescriptor { .. }));
}

#[test]
fn index_is_read_only_when_its_text_is_handed_in() {
    let mut installer = download_assets("1.21.1");
    installer = installer.handle(Event::Catalog(catalog()));
    installer = installer.handle(Event::Details(details()));
    installer = installer.handle(Event::Done);
    installer = installer.handle(Event::Done);
    assert!(matches!(installer.pending(), Action::ReadIndex { .. }));
}
