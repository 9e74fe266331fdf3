use juge_launcher::game::GameManager;

#[test]
fn forge_coordinate_resolves_to_repository_path() {
    let p = GameManager::maven_to_path("net.minecraftforge:forge:1.8.9-11.15.1.2318-1.8.9");
    assert_eq!(
        p,
        "net/minecraftforge/forge/1.8.9-11.15.1.2318-1.8.9/forge-1.8.9-11.15.1.2318-1.8.9.jar"
    );
}

#[test]
fn short_coordinate_falls_back_to_jar_suffix() {
    assert_eq!(GameManager::maven_to_path("badformat"), "badformat.jar");
}

#[test]
fn two_part_coordinate_falls_back_with_slashes() {
    assert_eq!(GameManager::maven_to_path("group:artifact"), "group/artifact.jar");
}

#[test]
fn classifier_coordinate_appends_classifier() {
    let p = GameManager::maven_to_path("org.lwjgl:lwjgl:2.9.4:natives-linux");
    assert_eq!(p, "org/lwjgl/lwjgl/2.9.4/lwjgl-2.9.4-natives-linux.jar");
}

#[test]
fn empty_coordinate_is_bare_jar() {
    assert_eq!(GameManager::maven_to_path(""), ".jar");
}

#[test]
fn dots_in_group_become_directories() {
    let p = GameManager::maven_to_path("com.google.code.gson:gson:2.10.1");
    assert_eq!(p, "com/google/code/gson/gson/2.10.1/gson-2.10.1.jar");
}
