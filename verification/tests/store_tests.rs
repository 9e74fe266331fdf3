use juge_launcher::java::JavaManager;
use juge_launcher::mods::{
    mod_entry, select_metadata, sort_mods_by_name, toggle_target_name, Mod, ModManager,
    ModMetadata,
};
use juge_launcher::profiles::{Profile, ProfileManager};
use juge_launcher::scanner::{local_version_entry, version_json_path};
use juge_launcher::settings::{Settings, SettingsManager};
use juge_launcher::skins::get_offline_skin_path;

#[test]
fn java_versions_follow_the_game_version() {
    assert_eq!(JavaManager::determine_required_java_version("1.8.9"), 8);
    assert_eq!(JavaManager::determine_required_java_version("1.16.5"), 8);
    assert_eq!(JavaManager::determine_required_java_version("1.17.1"), 17);
    assert_eq!(JavaManager::determine_required_java_version("1.19.4"), 17);
    assert_eq!(JavaManager::determine_required_java_version("1.20.1"), 21);
    assert_eq!(JavaManager::determine_required_java_version("2.0"), 21);
    assert_eq!(JavaManager::determine_required_java_version("nodots"), 17);
    // an unparsable minor counts as zero, an unparsable major as one
    assert_eq!(JavaManager::determine_required_java_version("1.x"), 8);
    assert_eq!(JavaManager::determine_required_java_version("x.5"), 8);
}

#[test]
fn java_paths_and_download_url_are_fixed() {
    let mgr = JavaManager::new("/data".to_string());
    assert_eq!(mgr.get_java_dir(), "/data/runtimes/java");
    assert_eq!(
        mgr.local_java_candidate(17),
        "/data/runtimes/java/jdk-17/bin/java.exe"
    );
    assert_eq!(
        JavaManager::runtime_download_url(8),
        "https://api.adoptium.net/v3/binary/latest/8/ga/windows/x64/jre/hotspot/normal/eclipse"
    );
}

#[test]
fn settings_defaults_match_the_stock_record() {
    let s = Settings::default();
    assert_eq!(s.min_memory, 1024);
    assert_eq!(s.max_memory, 4096);
    assert_eq!(s.width, 854);
    assert_eq!(s.height, 480);
    assert!(!s.full_screen);
    assert!(s.minecraft_dir.is_none());
    assert!(s.java_path.is_none());
    assert_eq!(s.theme, "dark");
    assert_eq!(s.language, "en");
    let mgr = SettingsManager::new("/data".to_string());
    assert_eq!(mgr.get_file_path(), "/data/settings.json");
}

#[test]
fn profile_lifecycle_creates_updates_deletes_and_sorts() {
    let mut mgr = ProfileManager::new("/data".to_string());
    assert_eq!(mgr.get_file_path(), "/data/profiles.json");

    let mut a = mgr.create_profile("alpha".to_string(), "1.20.1".to_string());
    let b = mgr.create_profile("beta".to_string(), "1.8.9".to_string());
    assert_eq!(a.name, "alpha");
    assert_eq!(a.version_id, "1.20.1");
    assert_eq!(a.id.len(), 36);
    assert_ne!(a.id, b.id);
    assert_eq!(mgr.profiles.len(), 2);

    a.max_memory = 8192;
    mgr.update_profile(a.clone()).unwrap();
    assert_eq!(mgr.profiles[0].max_memory, 8192);

    let mut ghost = a.clone();
    ghost.id = "missing-id".to_string();
    assert_eq!(mgr.update_profile(ghost), Err("Profile not found".to_string()));

    // profiles list oldest-first by creation time
    mgr.profiles[0].created_at = 200;
    mgr.profiles[1].created_at = 100;
    let listed = mgr.list_profiles();
    assert_eq!(listed.len(), 2);
    assert_eq!(listed[0].name, "beta");
    assert_eq!(listed[1].name, "alpha");

    mgr.delete_profile(&b.id);
    assert_eq!(mgr.profiles.len(), 1);
    assert_eq!(mgr.profiles[0].name, "alpha");
}

#[test]
fn default_profile_has_the_stock_settings() {
    let p = Profile::default();
    assert_eq!(p.name, "Default Profile");
    assert_eq!(p.version_id, "1.19.4");
    assert_eq!(p.java_args, "-XX:+UseG1GC");
    assert_eq!(p.min_memory, 1024);
    assert_eq!(p.max_memory, 4096);
    assert_eq!(p.width, 854);
    assert_eq!(p.height, 480);
    assert_eq!(p.id.len(), 36);
    assert!(p.enabled_mods.is_empty());
}

#[test]
fn mod_entries_follow_file_names_and_metadata() {
    let meta = ModMetadata::default();
    let m = mod_entry("/mods", "sodium.jar", 10, meta).unwrap();
    assert!(m.enabled);
    assert_eq!(m.name, "sodium");
    assert_eq!(m.path, "/mods/sodium.jar");
    assert_eq!(m.size, 10);

    let meta = ModMetadata::default();
    let m = mod_entry("/mods", "lithium.jar.disabled", 5, meta).unwrap();
    assert!(!m.enabled);
    assert_eq!(m.name, "lithium");

    let mut named = ModMetadata::default();
    named.name = Some("Sodium Renderer".to_string());
    named.version = Some("0.5".to_string());
    let m = mod_entry("/mods", "sodium.jar", 10, named).unwrap();
    assert_eq!(m.name, "Sodium Renderer");
    assert_eq!(m.version.as_deref(), Some("0.5"));

    let meta = ModMetadata::default();
    assert!(mod_entry("/mods", "readme.txt", 1, meta).is_none());
}

#[test]
fn toggle_renames_follow_the_enable_flag() {
    assert_eq!(
        toggle_target_name("sodium.jar.disabled", true).as_deref(),
        Some("sodium.jar")
    );
    assert_eq!(
        toggle_target_name("sodium.jar", false).as_deref(),
        Some("sodium.jar.disabled")
    );
    // disabling an already-disabled file changes nothing
    assert!(toggle_target_name("sodium.jar.disabled", false).is_none());
    // enabling an enabled file keeps its name
    assert_eq!(toggle_target_name("sodium.jar", true).as_deref(), Some("sodium.jar"));
}

#[test]
fn metadata_formats_rank_fabric_first() {
    let mut fabric = ModMetadata::default();
    fabric.name = Some("from-fabric".to_string());
    let mut forge = ModMetadata::default();
    forge.name = Some("from-forge".to_string());
    let mut legacy = ModMetadata::default();
    legacy.name = Some("from-legacy".to_string());

    let r = select_metadata(Some(fabric.clone()), Some(forge.clone()), Some(legacy.clone()));
    assert_eq!(r.name.as_deref(), Some("from-fabric"));
    let r = select_metadata(None, Some(forge), Some(legacy.clone()));
    assert_eq!(r.name.as_deref(), Some("from-forge"));
    let r = select_metadata(None, None, Some(legacy));
    assert_eq!(r.name.as_deref(), Some("from-legacy"));
    let r = select_metadata(None, None, None);
    assert!(r.name.is_none());
}

fn named_mod(name: &str) -> Mod {
    Mod {
        name: name.to_string(),
        filename: format!("{}.jar", name),
        path: format!("/mods/{}.jar", name),
        enabled: true,
        size: 0,
        sha256: None,
        version: None,
        game_version: None,
        description: None,
        authors: None,
    }
}

#[test]
fn mods_sort_by_display_name() {
    let mods = vec![named_mod("zeta"), named_mod("Alpha"), named_mod("beta")];
    let sorted = sort_mods_by_name(&mods);
    let names: Vec<String> = sorted.into_iter().map(|m| m.name).collect();
    // byte order: uppercase before lowercase
    assert_eq!(names, vec!["Alpha".to_string(), "beta".to_string(), "zeta".to_string()]);
    let mgr = ModManager::new("/data".to_string());
    assert_eq!(mgr.get_mods_dir("1.20.1"), "/data/versions/1.20.1/mods");
}

#[test]
fn scanner_paths_and_records_are_fixed() {
    assert_eq!(
        version_json_path("/game", "1.20.1"),
        "/game/versions/1.20.1/1.20.1.json"
    );
    let v = local_version_entry("1.20.1", "/game/versions/1.20.1");
    assert_eq!(v.id, "1.20.1");
    assert_eq!(v.version_type, "local");
    assert_eq!(v.path, "/game/versions/1.20.1");
    assert_eq!(get_offline_skin_path("/data"), "/data/skins/offline_skin.png");
}
