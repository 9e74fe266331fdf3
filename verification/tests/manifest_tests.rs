use juge_launcher::error::LauncherError;
use juge_launcher::game::{
    Artifact, GameManager, InheritanceResolver, Library, LibraryDownloads, Manifest,
    MAX_INHERITANCE_DEPTH,
};
use juge_launcher::platform::{HostArch, HostOs, HostPlatform};
use juge_launcher::rules::{OsRule, Rule};

fn bare_manifest(id: &str) -> Manifest {
    Manifest {
        id: id.to_string(),
        minecraft_version: None,
        main_class: "net.minecraft.client.main.Main".to_string(),
        minecraft_arguments: None,
        arguments: None,
        download_urls: None,
        libraries: None,
        inherits_from: None,
        jar: None,
        assets: None,
    }
}

fn lib(name: &str) -> Library {
    Library {
        name: name.to_string(),
        url: None,
        downloads: None,
        natives: Vec::new(),
        rules: None,
    }
}

#[test]
fn descriptor_without_parent_resolves_to_itself() {
    let mut m = bare_manifest("1.20.1");
    m.assets = Some("5".to_string());
    m.libraries = Some(vec![lib("a:b:1"), lib("c:d:2")]);
    let resolver = InheritanceResolver::start(m);
    assert!(resolver.pending_parent().is_none());
    let eff = resolver.finish();
    assert_eq!(eff.id, "1.20.1");
    assert_eq!(eff.assets.as_deref(), Some("5"));
    let names: Vec<String> =
        eff.libraries.unwrap().into_iter().map(|l| l.name).collect();
    assert_eq!(names, vec!["a:b:1".to_string(), "c:d:2".to_string()]);
}

#[test]
fn three_level_chain_concatenates_libraries_ancestor_first() {
    let mut grandparent = bare_manifest("1.8.9");
    grandparent.libraries = Some(vec![lib("g:one:1"), lib("g:two:1")]);
    let mut parent = bare_manifest("forge-mid");
    parent.libraries = Some(vec![lib("p:mid:2")]);
    parent.inherits_from = Some("1.8.9".to_string());
    let mut child = bare_manifest("forge-1.8.9");
    child.libraries = Some(vec![lib("c:top:3")]);
    child.inherits_from = Some("forge-mid".to_string());

    let mut resolver = InheritanceResolver::start(child);
    assert_eq!(resolver.pending_parent().as_deref(), Some("forge-mid"));
    resolver.push_parent(parent).unwrap();
    assert_eq!(resolver.pending_parent().as_deref(), Some("1.8.9"));
    resolver.push_parent(grandparent).unwrap();
    assert!(resolver.pending_parent().is_none());
    let eff = resolver.finish();

    let names: Vec<String> =
        eff.libraries.unwrap().into_iter().map(|l| l.name).collect();
    assert_eq!(
        names,
        vec![
            "g:one:1".to_string(),
            "g:two:1".to_string(),
            "p:mid:2".to_string(),
            "c:top:3".to_string()
        ]
    );
    assert_eq!(eff.id, "forge-1.8.9");
}

#[test]
fn child_fields_fall_back_to_parent_when_unset() {
    let mut parent = bare_manifest("1.8.9");
    parent.minecraft_arguments = Some("--legacy".to_string());
    parent.assets = Some("legacy-index".to_string());
    let mut child = bare_manifest("forge-1.8.9");
    child.inherits_from = Some("1.8.9".to_string());

    let mut resolver = InheritanceResolver::start(child);
    resolver.push_parent(parent).unwrap();
    let eff = resolver.finish();
    assert_eq!(eff.minecraft_arguments.as_deref(), Some("--legacy"));
    assert_eq!(eff.assets.as_deref(), Some("legacy-index"));
}

#[test]
fn child_fields_override_parent_when_set() {
    let mut parent = bare_manifest("1.8.9");
    parent.minecraft_arguments = Some("--from-parent".to_string());
    parent.assets = Some("parent-index".to_string());
    let mut child = bare_manifest("custom");
    child.minecraft_arguments = Some("--from-child".to_string());
    child.assets = Some("child-index".to_string());
    child.inherits_from = Some("1.8.9".to_string());

    let mut resolver = InheritanceResolver::start(child);
    resolver.push_parent(parent).unwrap();
    let eff = resolver.finish();
    assert_eq!(eff.minecraft_arguments.as_deref(), Some("--from-child"));
    assert_eq!(eff.assets.as_deref(), Some("child-index"));
}

#[test]
fn too_deep_chain_reports_cycle_error() {
    let mut child = bare_manifest("looper");
    child.inherits_from = Some("looper".to_string());
    let mut resolver = InheritanceResolver::start(child);
    let mut failed = false;
    for _ in 0..MAX_INHERITANCE_DEPTH + 1 {
        let mut next = bare_manifest("looper");
        next.inherits_from = Some("looper".to_string());
        match resolver.push_parent(next) {
            Ok(()) => {}
            Err(LauncherError::Cycle(id)) => {
                assert_eq!(id, "looper");
                failed = true;
                break;
            }
            Err(_) => panic!("expected the cycle error"),
        }
    }
    assert!(failed);
}

#[test]
fn library_paths_skip_excluded_and_use_explicit_artifact_path() {
    let mut m = bare_manifest("1.20.1");
    let mut explicit = lib("org.ow2.asm:asm:9.3");
    explicit.downloads = Some(LibraryDownloads {
        artifact: Some(Artifact {
            path: Some("org/ow2/asm/asm/9.3/asm-9.3.jar".to_string()),
            url: None,
            sha1: None,
            size: None,
        }),
        classifiers: Vec::new(),
    });
    let mut windows_only = lib("win:only:1.0");
    windows_only.rules = Some(vec![Rule {
        action: "allow".to_string(),
        os: Some(OsRule { name: Some("windows".to_string()) }),
    }]);
    m.libraries = Some(vec![explicit, windows_only, lib("plain:fallback:2.0")]);

    let mgr = GameManager::new("/game".to_string());
    let host = HostPlatform { os: HostOs::Linux, arch: HostArch::X64 };
    let paths = mgr.get_library_paths(&m, &host);
    assert_eq!(
        paths,
        vec![
            "/game/libraries/org/ow2/asm/asm/9.3/asm-9.3.jar".to_string(),
            "/game/libraries/plain/fallback/2.0/fallback-2.0.jar".to_string(),
        ]
    );
}
