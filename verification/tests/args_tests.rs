use juge_launcher::auth::{Account, AccountType};
use juge_launcher::game::{ArgumentValue, Arguments, Manifest};
use juge_launcher::launcher::{
    build_context, build_game_args, build_jvm_args, build_launch_command, main_jar_path,
    natives_dir_path, LaunchOptions,
};
use juge_launcher::platform::{HostArch, HostOs, HostPlatform};

fn steve() -> Account {
    Account {
        uuid: "abc".to_string(),
        name: "Steve".to_string(),
        access_token: None,
        refresh_token: None,
        account_type: AccountType::Offline,
        skin_url: None,
        cape_url: None,
        expires_at: None,
    }
}

fn bare_manifest(id: &str) -> Manifest {
    Manifest {
        id: id.to_string(),
        minecraft_version: None,
        main_class: "net.minecraft.client.main.Main".to_string(),
        minecraft_arguments: None,
        arguments: None,
        download_urls: None,
        libraries: None,
        inherits_from: None,
        jar: None,
        assets: None,
    }
}

fn options() -> LaunchOptions {
    LaunchOptions {
        min_memory: 1024,
        max_memory: 4096,
        java_path: "/usr/bin/java".to_string(),
        width: 854,
        height: 480,
    }
}

#[test]
fn placeholders_resolve_from_account_and_descriptor() {
    let m = bare_manifest("1.20.1");
    let ctx = build_context(&steve(), &m, "/game");
    let token = juge_launcher::launcher::substitute(
        &juge_launcher::text::str_chars("${auth_access_token}"),
        &ctx,
    );
    assert_eq!(juge_launcher::text::chars_string(&token), "0");
    let name = juge_launcher::launcher::substitute(
        &juge_launcher::text::str_chars("${auth_player_name}"),
        &ctx,
    );
    assert_eq!(juge_launcher::text::chars_string(&name), "Steve");
}

#[test]
fn legacy_template_splits_and_substitutes_each_token() {
    let mut m = bare_manifest("1.8.9");
    m.minecraft_arguments = Some("--username ${auth_player_name} --uuid ${auth_uuid}".to_string());
    let ctx = build_context(&steve(), &m, "/game");
    let args = build_game_args(&m, &ctx);
    assert_eq!(
        args,
        vec![
            "--username".to_string(),
            "Steve".to_string(),
            "--uuid".to_string(),
            "abc".to_string()
        ]
    );
}

#[test]
fn structured_game_args_keep_literals_and_drop_conditionals() {
    let mut m = bare_manifest("1.20.1");
    m.arguments = Some(Arguments {
        game: Some(vec![
            ArgumentValue::Literal("--username".to_string()),
            ArgumentValue::Literal("${auth_player_name}".to_string()),
            ArgumentValue::Conditional,
            ArgumentValue::Literal("--demo-free".to_string()),
        ]),
        jvm: None,
    });
    let ctx = build_context(&steve(), &m, "/game");
    let args = build_game_args(&m, &ctx);
    assert_eq!(
        args,
        vec!["--username".to_string(), "Steve".to_string(), "--demo-free".to_string()]
    );
}

#[test]
fn fallback_game_args_have_sixteen_entries() {
    let m = bare_manifest("1.20.1");
    let ctx = build_context(&steve(), &m, "/game");
    let args = build_game_args(&m, &ctx);
    assert_eq!(args.len(), 16);
    assert_eq!(
        args,
        vec![
            "--username".to_string(),
            "Steve".to_string(),
            "--version".to_string(),
            "1.20.1".to_string(),
            "--gameDir".to_string(),
            "/game".to_string(),
            "--assetsDir".to_string(),
            "/game/assets".to_string(),
            "--assetIndex".to_string(),
            "legacy".to_string(),
            "--uuid".to_string(),
            "abc".to_string(),
            "--accessToken".to_string(),
            "0".to_string(),
            "--userType".to_string(),
            "mojang".to_string(),
        ]
    );
}

#[test]
fn structured_args_without_game_list_fall_back() {
    let mut m = bare_manifest("1.20.1");
    m.arguments = Some(Arguments { game: None, jvm: None });
    let ctx = build_context(&steve(), &m, "/game");
    let args = build_game_args(&m, &ctx);
    assert_eq!(args.len(), 16);
}

#[test]
fn full_command_orders_sections_and_appends_window_size() {
    let m = bare_manifest("1.20.1");
    let host = HostPlatform { os: HostOs::Linux, arch: HostArch::X64 };
    let classpath = vec![
        "/game/versions/1.20.1/1.20.1.jar".to_string(),
        "/game/libraries/a.jar".to_string(),
    ];
    let cmd = build_launch_command(&m, &steve(), &options(), "/game", &host, &classpath);
    assert_eq!(cmd.program, "/usr/bin/java");
    assert_eq!(cmd.working_dir, "/game");
    assert_eq!(cmd.args[0], "-Xms1024M");
    assert_eq!(cmd.args[1], "-Xmx4096M");
    assert_eq!(cmd.args[2], "-Djava.library.path=/game/versions/1.20.1/natives");
    assert_eq!(cmd.args[3], "-cp");
    assert_eq!(cmd.args[4], "/game/versions/1.20.1/1.20.1.jar:/game/libraries/a.jar");
    assert_eq!(cmd.args[5], "net.minecraft.client.main.Main");
    // fallback game args plus the window size
    assert_eq!(cmd.args.len(), 6 + 16 + 4);
    let n = cmd.args.len();
    assert_eq!(cmd.args[n - 4], "--width");
    assert_eq!(cmd.args[n - 3], "854");
    assert_eq!(cmd.args[n - 2], "--height");
    assert_eq!(cmd.args[n - 1], "480");
}

#[test]
fn windows_classpath_joins_with_semicolon() {
    let m = bare_manifest("1.20.1");
    let host = HostPlatform { os: HostOs::Windows, arch: HostArch::X64 };
    let classpath = vec!["a.jar".to_string(), "b.jar".to_string()];
    let cmd = build_launch_command(&m, &steve(), &options(), "C:/game", &host, &classpath);
    assert_eq!(cmd.args[4], "a.jar;b.jar");
}

#[test]
fn descriptor_jvm_literals_come_before_main_class() {
    let mut m = bare_manifest("1.20.1");
    m.arguments = Some(Arguments {
        game: None,
        jvm: Some(vec![
            ArgumentValue::Literal("-XX:+UseG1GC".to_string()),
            ArgumentValue::Conditional,
        ]),
    });
    let jvm = build_jvm_args(&m);
    assert_eq!(jvm, vec!["-XX:+UseG1GC".to_string()]);
    let host = HostPlatform { os: HostOs::Linux, arch: HostArch::X64 };
    let cmd = build_launch_command(&m, &steve(), &options(), "/game", &host, &Vec::new());
    assert_eq!(cmd.args[5], "-XX:+UseG1GC");
    assert_eq!(cmd.args[6], "net.minecraft.client.main.Main");
}

#[test]
fn msa_user_type_for_microsoft_accounts() {
    let mut acct = steve();
    acct.account_type = AccountType::Microsoft;
    acct.access_token = Some("token123".to_string());
    let m = bare_manifest("1.20.1");
    let ctx = build_context(&acct, &m, "/game");
    assert_eq!(ctx.user_type, "msa");
    assert_eq!(ctx.auth_access_token, "token123");
}

#[test]
fn main_jar_path_uses_jar_override() {
    let mut m = bare_manifest("forge-1.8.9");
    assert_eq!(
        main_jar_path("/game", &m),
        "/game/versions/forge-1.8.9/forge-1.8.9.jar"
    );
    m.jar = Some("1.8.9".to_string());
    assert_eq!(main_jar_path("/game", &m), "/game/versions/1.8.9/1.8.9.jar");
    // the natives directory still keys on the descriptor id
    assert_eq!(natives_dir_path("/game", &m), "/game/versions/forge-1.8.9/natives");
}
