use copper_launcher::layout::{
    asset_object_path, asset_object_url, catalog_url, index_json_path, library_artifact_path,
    parse_coordinate, version_jar_path, version_json_path,
};
use copper_launcher::text::{chars_of, find_char, same_text, string_of, string_of_range};

#[test]
fn coordinate_maps_to_the_artifact_path() {
    assert_eq!(
        library_artifact_path("com.mojang:authlib:1.5.25"),
        Some("com/mojang/authlib/1.5.25/authlib-1.5.25.jar".to_string())
    );
}

#[test]
fn coordinate_with_a_deep_group_maps_every_dot() {
    assert_eq!(
        library_artifact_path("org.apache.logging.log4j:log4j-core:2.0-beta9"),
        Some("org/apache/logging/log4j/log4j-core/2.0-beta9/log4j-core-2.0-beta9.jar".to_string())
    );
}

#[test]
fn coordinate_with_a_plain_group_keeps_it() {
    assert_eq!(library_artifact_path("oshi:oshi-core:1.1"), Some(
        "oshi/oshi-core/1.1/oshi-core-1.1.jar".to_string()
    ));
}

#[test]
fn dots_outside_the_group_are_kept() {
    let coordinate = parse_coordinate("a.b:c.d:1.0").unwrap();
    assert_eq!(coordinate.group, "a.b");
    assert_eq!(coordinate.artifact, "c.d");
    assert_eq!(coordinate.version, "1.0");
    assert_eq!(coordinate.artifact_path(), "a/b/c.d/1.0/c.d-1.0.jar");
}

#[test]
fn coordinate_of_two_segments_has_no_path() {
    assert_eq!(library_artifact_path("badcoord:1.0"), None);
    assert!(parse_coordinate("badcoord:1.0").is_none());
}

#[test]
fn coordinate_of_one_segment_has_no_path() {
    assert_eq!(library_artifact_path("badcoord"), None);
    assert_eq!(library_artifact_path(""), None);
}

#[test]
fn coordinate_of_four_segments_has_no_path() {
    assert_eq!(library_artifact_path("org.lwjgl:lwjgl:3.3.1:natives-linux"), None);
    assert_eq!(library_artifact_path(":::"), None);
}

#[test]
fn coordinate_with_empty_segments_still_has_three() {
    let coordinate = parse_coordinate("::").unwrap();
    assert_eq!(coordinate.group, "");
    assert_eq!(coordinate.artifact, "");
    assert_eq!(coordinate.version, "");
    assert_eq!(library_artifact_path("::"), Some("///-.jar".to_string()));
    assert_eq!(library_artifact_path("g::v"), Some("g//v/-v.jar".to_string()));
}

#[test]
fn coordinate_segments_may_hold_any_character() {
    let coordinate = parse_coordinate("grüße.x:ärtifact:1.0-β").unwrap();
    assert_eq!(coordinate.group, "grüße.x");
    assert_eq!(coordinate.artifact, "ärtifact");
    assert_eq!(coordinate.version, "1.0-β");
    assert_eq!(coordinate.artifact_path(), "grüße/x/ärtifact/1.0-β/ärtifact-1.0-β.jar");
}

#[test]
fn object_path_is_sharded_by_the_first_two_digits() {
    let hash = "0a1b2c3d4e5f60718293a4b5c6d7e8f901234567";
    assert_eq!(hash.len(), 40);
    assert_eq!(
        asset_object_path(hash),
        Some("objects/0a/0a1b2c3d4e5f60718293a4b5c6d7e8f901234567".to_string())
    );
}

#[test]
fn object_url_is_sharded_by_the_first_two_digits() {
    assert_eq!(
        asset_object_url("bdf48ef6b5d0d23bbb02e17d04865216179f510a"),
        Some(
            "https://resources.download.minecraft.net/bd/bdf48ef6b5d0d23bbb02e17d04865216179f510a"
                .to_string()
        )
    );
}

#[test]
fn hash_of_two_characters_is_its_own_shard() {
    assert_eq!(asset_object_path("ab"), Some("objects/ab/ab".to_string()));
    assert_eq!(
        asset_object_url("ab"),
        Some("https://resources.download.minecraft.net/ab/ab".to_string())
    );
}

#[test]
fn hash_shorter_than_a_shard_has_no_place() {
    assert_eq!(asset_object_path(""), None);
    assert_eq!(asset_object_path("a"), None);
    assert_eq!(asset_object_url(""), None);
    assert_eq!(asset_object_url("a"), None);
}

#[test]
fn shard_is_counted_in_characters() {
    assert_eq!(asset_object_path("éa7"), Some("objects/éa/éa7".to_string()));
    assert_eq!(asset_object_path("é"), None);
}

#[test]
fn version_files_lie_in_the_directory_of_the_version() {
    assert_eq!(version_jar_path("1.21.1"), "minecraft/versions/1.21.1/1.21.1.jar");
    assert_eq!(version_json_path("1.21.1"), "minecraft/versions/1.21.1/1.21.1.json");
}

#[test]
fn asset_index_lies_in_the_index_directory() {
    assert_eq!(index_json_path("17"), "minecraft/assets/indexes/17.json");
}

#[test]
fn catalog_is_found_at_the_manifest_endpoint() {
    assert_eq!(
        catalog_url(),
        "https://piston-meta.mojang.com/mc/game/version_manifest_v2.json"
    );
}

#[test]
fn characters_survive_the_round_trip() {
    let text = "a:ß/日本.jar";
    let chars = chars_of(text);
    assert_eq!(chars, text.chars().collect::<Vec<char>>());
    assert_eq!(string_of(&chars), text);
    assert_eq!(string_of(&Vec::new()), "");
}

#[test]
fn range_of_characters_is_cut_out() {
    let chars = chars_of("héllo:wörld");
    assert_eq!(string_of_range(&chars, 0, 5), "héllo");
    assert_eq!(string_of_range(&chars, 6, 11), "wörld");
    assert_eq!(string_of_range(&chars, 3, 3), "");
}

#[test]
fn first_position_of_a_character_is_found() {
    let chars = chars_of("a:b:c");
    assert_eq!(find_char(&chars, ':', 0), 1);
    assert_eq!(find_char(&chars, ':', 1), 1);
    assert_eq!(find_char(&chars, ':', 2), 3);
    assert_eq!(find_char(&chars, ':', 4), 5);
    assert_eq!(find_char(&chars, 'z', 0), 5);
    assert_eq!(find_char(&chars, ':', 5), 5);
}

#[test]
fn texts_are_compared_by_their_characters() {
    assert!(same_text("hash", "hash"));
    assert!(same_text("", ""));
    assert!(!same_text("hash", "hasH"));
    assert!(!same_text("hash", "hashes"));
    assert!(!same_text("hash", ""));
}
