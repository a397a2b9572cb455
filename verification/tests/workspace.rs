use copper_launcher::workspace::{
    fallback_versions, instance_directories, instance_path, is_valid_instance_name,
    launcher_directories,
};

#[test]
fn launcher_directories_are_created_from_the_top() {
    assert_eq!(
        launcher_directories(),
        vec![
            ".copper-launcher",
            ".copper-launcher/instances",
            ".copper-launcher/versions",
            ".copper-launcher/assets",
        ]
    );
}

#[test]
fn instance_directories_are_created_from_the_top() {
    assert_eq!(
        instance_directories("survival"),
        vec![
            ".copper-launcher/instances/survival",
            ".copper-launcher/instances/survival/minecraft",
            ".copper-launcher/instances/survival/minecraft/saves",
            ".copper-launcher/instances/survival/minecraft/resourcepacks",
        ]
    );
    assert_eq!(instance_path("survival"), ".copper-launcher/instances/survival");
}

#[test]
fn instance_name_takes_three_to_sixteen_bytes() {
    assert!(!is_valid_instance_name(""));
    assert!(!is_valid_instance_name("ab"));
    assert!(is_valid_instance_name("abc"));
    assert!(is_valid_instance_name("sixteen-letters!"));
    assert!(!is_valid_instance_name("seventeen-letters"));
    assert!(is_valid_instance_name("éé"));
    assert!(!is_valid_instance_name("ééééééééé"));
}

#[test]
fn fallback_versions_are_offered_offline() {
    assert_eq!(fallback_versions(), vec!["1.21.11", "1.21.1", "1.12.2"]);
}
