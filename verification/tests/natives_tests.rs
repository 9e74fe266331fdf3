use juge_launcher::game::{Artifact, GameManager, Library, LibraryDownloads, Manifest};
use juge_launcher::natives::native_entry_target;
use juge_launcher::platform::{HostArch, HostOs, HostPlatform};

#[test]
fn traversal_entry_is_flattened_to_its_base_name() {
    assert_eq!(native_entry_target("../../evil.so").as_deref(), Some("evil.so"));
    assert_eq!(
        native_entry_target("..\\..\\windows\\evil.dll").as_deref(),
        Some("evil.dll")
    );
    assert_eq!(native_entry_target("/absolute/path/lib.dylib").as_deref(), Some("lib.dylib"));
}

#[test]
fn nested_entry_keeps_only_file_name() {
    assert_eq!(native_entry_target("native/linux/liblwjgl.so").as_deref(), Some("liblwjgl.so"));
}

#[test]
fn meta_inf_and_checksums_are_excluded() {
    assert!(native_entry_target("META-INF/MANIFEST.MF").is_none());
    assert!(native_entry_target("META-INF/lib.so").is_none());
    assert!(native_entry_target("lib/liblwjgl.so.sha1").is_none());
    assert!(native_entry_target("repo/.git/lib.dll").is_none());
}

#[test]
fn non_native_extensions_are_skipped() {
    assert!(native_entry_target("readme.txt").is_none());
    assert!(native_entry_target("lib/lwjgl.jar").is_none());
    assert!(native_entry_target("dir/").is_none());
    assert!(native_entry_target("").is_none());
}

#[test]
fn hidden_file_named_like_extension_is_skipped() {
    // a file called ".so" has no extension, like Path::extension says
    assert!(native_entry_target(".so").is_none());
    assert!(native_entry_target("dir/.dll").is_none());
}

fn bare_manifest(id: &str) -> Manifest {
    Manifest {
        id: id.to_string(),
        minecraft_version: None,
        main_class: "Main".to_string(),
        minecraft_arguments: None,
        arguments: None,
        download_urls: None,
        libraries: None,
        inherits_from: None,
        jar: None,
        assets: None,
    }
}

fn lwjgl_natives_lib() -> Library {
    Library {
        name: "org.lwjgl:lwjgl-platform:2.9.4".to_string(),
        url: None,
        downloads: None,
        natives: vec![
            ("linux".to_string(), "natives-linux".to_string()),
            ("windows".to_string(), "natives-windows-${arch}".to_string()),
        ],
        rules: None,
    }
}

#[test]
fn native_archive_uses_maven_fallback_with_classifier() {
    let mut m = bare_manifest("1.8.9");
    m.libraries = Some(vec![lwjgl_natives_lib()]);
    let mgr = GameManager::new("/game".to_string());
    let host = HostPlatform { os: HostOs::Linux, arch: HostArch::X64 };
    let archives = mgr.native_archive_paths(&m, &host);
    assert_eq!(
        archives,
        vec![
            "/game/libraries/org/lwjgl/lwjgl-platform/2.9.4/lwjgl-platform-2.9.4-natives-linux.jar"
                .to_string()
        ]
    );
}

#[test]
fn arch_placeholder_expands_per_host() {
    let mut m = bare_manifest("1.8.9");
    m.libraries = Some(vec![lwjgl_natives_lib()]);
    let mgr = GameManager::new("/game".to_string());
    let w64 = HostPlatform { os: HostOs::Windows, arch: HostArch::X64 };
    let w32 = HostPlatform { os: HostOs::Windows, arch: HostArch::X86 };
    assert_eq!(
        mgr.native_archive_paths(&m, &w64),
        vec!["/game/libraries/org/lwjgl/lwjgl-platform/2.9.4/lwjgl-platform-2.9.4-natives-windows-64.jar".to_string()]
    );
    assert_eq!(
        mgr.native_archive_paths(&m, &w32),
        vec!["/game/libraries/org/lwjgl/lwjgl-platform/2.9.4/lwjgl-platform-2.9.4-natives-windows-32.jar".to_string()]
    );
}

#[test]
fn explicit_classifier_record_wins_over_maven_fallback() {
    let mut library = lwjgl_natives_lib();
    library.downloads = Some(LibraryDownloads {
        artifact: None,
        classifiers: vec![(
            "natives-linux".to_string(),
            Artifact {
                path: Some("explicit/place/native.jar".to_string()),
                url: None,
                sha1: None,
                size: None,
            },
        )],
    });
    let mut m = bare_manifest("1.8.9");
    m.libraries = Some(vec![library]);
    let mgr = GameManager::new("/game".to_string());
    let host = HostPlatform { os: HostOs::Linux, arch: HostArch::X64 };
    assert_eq!(
        mgr.native_archive_paths(&m, &host),
        vec!["/game/libraries/explicit/place/native.jar".to_string()]
    );
}

#[test]
fn library_without_natives_for_host_contributes_nothing() {
    let mut m = bare_manifest("1.8.9");
    m.libraries = Some(vec![lwjgl_natives_lib()]);
    let mgr = GameManager::new("/game".to_string());
    let host = HostPlatform { os: HostOs::Osx, arch: HostArch::X64 };
    assert!(mgr.native_archive_paths(&m, &host).is_empty());
}
