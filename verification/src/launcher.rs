//! Launch argument assembly.
//!
//! Turns an effective descriptor, an account, launch options and a host
//! platform into the exact argument vector of the Java process: memory
//! flags, native-library path, classpath, descriptor JVM arguments, main
//! class, game arguments, and the window size. Spawning the process and
//! streaming its output is the application's job; it receives the
//! finished command as plain values.

use vstd::prelude::*;
use crate::auth::{Account, AccountType};
use crate::game::{Manifest, ManifestView, ArgumentValue, ArgumentValueView};
use crate::platform::HostPlatform;
use crate::text::{
    str_chars, chars_string, append_str, append_chars, replace_chars, replace_seq,
    split_whitespace_chars, ws_tokens, u32_dec_chars, dec_chars, join_with, join_strings,
};

verus! {

/// Per-launch options: memory bounds, the Java executable, window size.
#[derive(Clone, Debug)]
pub struct LaunchOptions {
    pub min_memory: u32,
    pub max_memory: u32,
    pub java_path: String,
    pub width: u32,
    pub height: u32,
}

/// The placeholder-substitution context: one value per placeholder key.
#[derive(Clone, Debug)]
pub struct ArgContext {
    pub player_name: String,
    pub version_name: String,
    pub game_directory: String,
    pub assets_root: String,
    pub assets_index_name: String,
    pub auth_uuid: String,
    pub auth_access_token: String,
    pub user_type: String,
}

#[verifier::ext_equal]
pub struct ArgContextView {
    pub player_name: Seq<char>,
    pub version_name: Seq<char>,
    pub game_directory: Seq<char>,
    pub assets_root: Seq<char>,
    pub assets_index_name: Seq<char>,
    pub auth_uuid: Seq<char>,
    pub auth_access_token: Seq<char>,
    pub user_type: Seq<char>,
}

impl View for ArgContext {
    type V = ArgContextView;

    open spec fn view(&self) -> ArgContextView {
        ArgContextView {
            player_name: self.player_name@,
            version_name: self.version_name@,
            game_directory: self.game_directory@,
            assets_root: self.assets_root@,
            assets_index_name: self.assets_index_name@,
            auth_uuid: self.auth_uuid@,
            auth_access_token: self.auth_access_token@,
            user_type: self.user_type@,
        }
    }
}

/// The substitution table applied to one template string: each `${...}`
/// key replaced by its value, in a fixed key order.
pub open spec fn subst_spec(s: Seq<char>, c: ArgContextView) -> Seq<char> {
    let s1 = replace_seq(s, "${auth_player_name}"@, c.player_name);
    let s2 = replace_seq(s1, "${version_name}"@, c.version_name);
    let s3 = replace_seq(s2, "${game_directory}"@, c.game_directory);
    let s4 = replace_seq(s3, "${assets_root}"@, c.assets_root);
    let s5 = replace_seq(s4, "${game_assets}"@, c.assets_root);
    let s6 = replace_seq(s5, "${assets_index_name}"@, c.assets_index_name);
    let s7 = replace_seq(s6, "${auth_uuid}"@, c.auth_uuid);
    let s8 = replace_seq(s7, "${auth_access_token}"@, c.auth_access_token);
    let s9 = replace_seq(s8, "${user_type}"@, c.user_type);
    let s10 = replace_seq(s9, "${user_properties}"@, "{}"@);
    replace_seq(s10, "${version_type}"@, "release"@)
}

/// Substitute every placeholder of the table in one template.
pub fn substitute(s: &Vec<char>, ctx: &ArgContext) -> (r: Vec<char>)
    ensures
        r@ == subst_spec(s@, ctx@),
{
    let s1 = replace_chars(s, &str_chars("${auth_player_name}"), &str_chars(
        ctx.player_name.as_str(),
    ));
    let s2 = replace_chars(&s1, &str_chars("${version_name}"), &str_chars(
        ctx.version_name.as_str(),
    ));
    let s3 = replace_chars(&s2, &str_chars("${game_directory}"), &str_chars(
        ctx.game_directory.as_str(),
    ));
    let s4 = replace_chars(&s3, &str_chars("${assets_root}"), &str_chars(
        ctx.assets_root.as_str(),
    ));
    let s5 = replace_chars(&s4, &str_chars("${game_assets}"), &str_chars(
        ctx.assets_root.as_str(),
    ));
    let s6 = replace_chars(&s5, &str_chars("${assets_index_name}"), &str_chars(
        ctx.assets_index_name.as_str(),
    ));
    let s7 = replace_chars(&s6, &str_chars("${auth_uuid}"), &str_chars(ctx.auth_uuid.as_str()));
    let s8 = replace_chars(&s7, &str_chars("${auth_access_token}"), &str_chars(
        ctx.auth_access_token.as_str(),
    ));
    let s9 = replace_chars(&s8, &str_chars("${user_type}"), &str_chars(ctx.user_type.as_str()));
    let s10 = replace_chars(&s9, &str_chars("${user_properties}"), &str_chars("{}"));
    replace_chars(&s10, &str_chars("${version_type}"), &str_chars("release"))
}

/// Build the substitution context for one launch.
pub fn build_context(account: &Account, manifest: &Manifest, base_dir: &str) -> (r: ArgContext)
    ensures
        r@.player_name == account.name@,
        r@.version_name == manifest.id@,
        r@.game_directory == base_dir@,
        r@.assets_root == base_dir@ + "/assets"@,
        r@.assets_index_name == match manifest.assets {
            Some(a) => a@,
            None => "legacy"@,
        },
        r@.auth_uuid == account.uuid@,
        r@.auth_access_token == match account.access_token {
            Some(t) => t@,
            None => "0"@,
        },
        r@.user_type == if account.account_type == AccountType::Microsoft {
            "msa"@
        } else {
            "mojang"@
        },
{
    let mut assets_root = str_chars(base_dir);
    append_str(&mut assets_root, "/assets");
    let assets_index_name = match &manifest.assets {
        Some(a) => a.clone(),
        None => chars_string(&str_chars("legacy")),
    };
    let auth_access_token = match &account.access_token {
        Some(t) => t.clone(),
        None => chars_string(&str_chars("0")),
    };
    let user_type = if account.account_type == AccountType::Microsoft {
        chars_string(&str_chars("msa"))
    } else {
        chars_string(&str_chars("mojang"))
    };
    ArgContext {
        player_name: account.name.clone(),
        version_name: manifest.id.clone(),
        game_directory: chars_string(&str_chars(base_dir)),
        assets_root: chars_string(&assets_root),
        assets_index_name,
        auth_uuid: account.uuid.clone(),
        auth_access_token,
        user_type,
    }
}

/// The texts of the literal entries of a structured argument list, in
/// order; conditional entries contribute nothing.
pub open spec fn literal_texts(entries: Seq<ArgumentValueView>) -> Seq<Seq<char>>
    decreases entries.len(),
{
    if entries.len() == 0 {
        Seq::<Seq<char>>::empty()
    } else {
        let pre = literal_texts(entries.drop_last());
        match entries.last() {
            ArgumentValueView::Literal(s) => pre.push(s),
            ArgumentValueView::Conditional => pre,
        }
    }
}

/// Collect the literal entries of a structured argument list.
pub fn collect_literals(entries: &Vec<ArgumentValue>) -> (r: Vec<String>)
    ensures
        r.deep_view() == literal_texts(entries@.map_values(|a: ArgumentValue| a@)),
{
    let ghost ev = entries@.map_values(|a: ArgumentValue| a@);
    let mut r: Vec<String> = Vec::new();
    let mut i: usize = 0;
    proof {
        assert(r.deep_view() =~~= literal_texts(ev.take(0)));
    }
    while i < entries.len()
        invariant
            i <= entries@.len(),
            ev == entries@.map_values(|a: ArgumentValue| a@),
            r.deep_view() == literal_texts(ev.take(i as int)),
        decreases entries@.len() - i,
    {
        proof {
            assert(ev.take(i as int + 1).drop_last() =~= ev.take(i as int));
            assert(ev.take(i as int + 1).last() == ev[i as int]);
            assert(ev[i as int] == entries@[i as int]@);
        }
        match &entries[i] {
            ArgumentValue::Literal(s) => {
                let ghost dv0 = r.deep_view();
                r.push(s.clone());
                proof {
                    assert(r.deep_view() =~~= dv0.push(s@));
                }
            },
            ArgumentValue::Conditional => {},
        }
        i = i + 1;
    }
    proof {
        assert(ev.take(entries@.len() as int) =~= ev);
    }
    r
}

/// The game arguments of a launch, before width/height are appended.
/// Precedence: a legacy `minecraftArguments` template is split on
/// whitespace and each token substituted; else the literal entries of
/// `arguments.game` are substituted; else a fixed fallback of eight
/// flag/value pairs carries the minimally sufficient identity.
pub open spec fn game_args_spec(m: ManifestView, c: ArgContextView) -> Seq<Seq<char>> {
    if m.minecraft_arguments is Some {
        ws_tokens(m.minecraft_arguments->0).map_values(|t: Seq<char>| subst_spec(t, c))
    } else if m.arguments matches Some(a) && a.game is Some {
        literal_texts((m.arguments->0).game->0).map_values(|t: Seq<char>| subst_spec(t, c))
    } else {
        seq![
            "--username"@,
            c.player_name,
            "--version"@,
            c.version_name,
            "--gameDir"@,
            c.game_directory,
            "--assetsDir"@,
            c.assets_root,
            "--assetIndex"@,
            c.assets_index_name,
            "--uuid"@,
            c.auth_uuid,
            "--accessToken"@,
            c.auth_access_token,
            "--userType"@,
            c.user_type,
        ]
    }
}

/// The JVM arguments the descriptor contributes: the literal entries of
/// `arguments.jvm`, verbatim.
pub open spec fn jvm_args_spec(m: ManifestView) -> Seq<Seq<char>> {
    if m.arguments matches Some(a) && a.jvm is Some {
        literal_texts((m.arguments->0).jvm->0)
    } else {
        Seq::<Seq<char>>::empty()
    }
}

/// Law: when a descriptor offers neither a legacy template nor structured
/// game arguments, the fallback game-argument list has exactly sixteen
/// entries — eight flag/value pairs — whatever the descriptor and account
/// hold.
pub proof fn lemma_fallback_game_args_len(m: ManifestView, c: ArgContextView)
    requires
        m.minecraft_arguments is None,
        !(m.arguments matches Some(a) && a.game is Some),
    ensures
        game_args_spec(m, c).len() == 16,
{
}

/// Substitute a whole token list.
fn substitute_all(tokens: &Vec<Vec<char>>, ctx: &ArgContext) -> (r: Vec<String>)
    ensures
        r.deep_view() == tokens.deep_view().map_values(|t: Seq<char>| subst_spec(t, ctx@)),
{
    let ghost target = tokens.deep_view().map_values(|t: Seq<char>| subst_spec(t, ctx@));
    let mut r: Vec<String> = Vec::new();
    let mut i: usize = 0;
    while i < tokens.len()
        invariant
            i <= tokens@.len(),
            target == tokens.deep_view().map_values(|t: Seq<char>| subst_spec(t, ctx@)),
            tokens.deep_view().len() == tokens@.len(),
            r.deep_view() == target.take(i as int),
        decreases tokens@.len() - i,
    {
        let subbed = substitute(&tokens[i], ctx);
        let ghost dv0 = r.deep_view();
        proof {
            assert(tokens.deep_view()[i as int] == tokens@[i as int]@);
            assert(target[i as int] == subst_spec(tokens@[i as int]@, ctx@));
            assert(target.take(i as int + 1) =~= target.take(i as int).push(target[i as int]));
        }
        r.push(chars_string(&subbed));
        proof {
            assert(r.deep_view() =~~= dv0.push(subst_spec(tokens@[i as int]@, ctx@)));
        }
        i = i + 1;
    }
    proof {
        assert(target.take(tokens@.len() as int) =~= target);
    }
    r
}

/// Build the game arguments for one launch.
pub fn build_game_args(manifest: &Manifest, ctx: &ArgContext) -> (r: Vec<String>)
    ensures
        r.deep_view() == game_args_spec(manifest@, ctx@),
{
    match &manifest.minecraft_arguments {
        Some(ma) => {
            let mc = str_chars(ma.as_str());
            let tokens = split_whitespace_chars(&mc);
            let r = substitute_all(&tokens, ctx);
            proof {
                assert(r.deep_view() =~~= game_args_spec(manifest@, ctx@));
            }
            r
        },
        None => {
            let mut structured: bool = false;
            match &manifest.arguments {
                Some(a) => match &a.game {
                    Some(_) => {
                        structured = true;
                    },
                    None => {},
                },
                None => {},
            }
            if structured {
                let args = match &manifest.arguments {
                    Some(a) => a,
                    None => unreached(),
                };
                let game = match &args.game {
                    Some(g) => g,
                    None => unreached(),
                };
                let lits = collect_literals(game);
                let mut tokens: Vec<Vec<char>> = Vec::new();
                let mut i: usize = 0;
                proof {
                    assert(tokens.deep_view() =~~= lits.deep_view().take(0));
                }
                while i < lits.len()
                    invariant
                        i <= lits@.len(),
                        lits.deep_view().len() == lits@.len(),
                        tokens.deep_view() == lits.deep_view().take(i as int),
                    decreases lits@.len() - i,
                {
                    let ghost dv0 = tokens.deep_view();
                    let cs = str_chars(lits[i].as_str());
                    tokens.push(cs);
                    proof {
                        assert(tokens.deep_view() =~~= dv0.push(lits@[i as int]@));
                        assert(lits.deep_view().take(i as int + 1) =~= dv0.push(
                            lits.deep_view()[i as int],
                        ));
                    }
                    i = i + 1;
                }
                proof {
                    assert(lits.deep_view().take(lits@.len() as int) =~= lits.deep_view());
                }
                let r = substitute_all(&tokens, ctx);
                proof {
                    assert(r.deep_view() =~~= game_args_spec(manifest@, ctx@));
                }
                r
            } else {
                let mut r: Vec<String> = Vec::new();
                r.push(chars_string(&str_chars("--username")));
                r.push(ctx.player_name.clone());
                r.push(chars_string(&str_chars("--version")));
                r.push(ctx.version_name.clone());
                r.push(chars_string(&str_chars("--gameDir")));
                r.push(ctx.game_directory.clone());
                r.push(chars_string(&str_chars("--assetsDir")));
                r.push(ctx.assets_root.clone());
                r.push(chars_string(&str_chars("--assetIndex")));
                r.push(ctx.assets_index_name.clone());
                r.push(chars_string(&str_chars("--uuid")));
                r.push(ctx.auth_uuid.clone());
                r.push(chars_string(&str_chars("--accessToken")));
                r.push(ctx.auth_access_token.clone());
                r.push(chars_string(&str_chars("--userType")));
                r.push(ctx.user_type.clone());
                proof {
                    assert(r.deep_view() =~~= game_args_spec(manifest@, ctx@));
                }
                r
            }
        },
    }
}

/// Build the JVM arguments the descriptor contributes.
pub fn build_jvm_args(manifest: &Manifest) -> (r: Vec<String>)
    ensures
        r.deep_view() == jvm_args_spec(manifest@),
{
    match &manifest.arguments {
        Some(a) => match &a.jvm {
            Some(jvm) => {
                let r = collect_literals(jvm);
                proof {
                    assert(r.deep_view() =~~= jvm_args_spec(manifest@));
                }
                r
            },
            None => {
                let r: Vec<String> = Vec::new();
                proof {
                    assert(r.deep_view() =~~= jvm_args_spec(manifest@));
                }
                r
            },
        },
        None => {
            let r: Vec<String> = Vec::new();
            proof {
                assert(r.deep_view() =~~= jvm_args_spec(manifest@));
            }
            r
        },
    }
}

/// The jar base name a descriptor launches: the explicit `jar` override
/// when present, else the descriptor's own id.
pub open spec fn jar_name_spec(m: ManifestView) -> Seq<char> {
    match m.jar {
        Some(j) => j,
        None => m.id,
    }
}

/// Where the main jar of a descriptor lives under the game directory.
pub open spec fn main_jar_path_spec(base: Seq<char>, m: ManifestView) -> Seq<char> {
    base + "/versions/"@ + jar_name_spec(m) + "/"@ + jar_name_spec(m) + ".jar"@
}

/// Where a version's natives are extracted to.
pub open spec fn natives_dir_spec(base: Seq<char>, id: Seq<char>) -> Seq<char> {
    base + "/versions/"@ + id + "/natives"@
}

/// Resolve the main jar path of a descriptor.
pub fn main_jar_path(base_dir: &str, manifest: &Manifest) -> (r: String)
    ensures
        r@ == main_jar_path_spec(base_dir@, manifest@),
{
    let mut v = str_chars(base_dir);
    append_str(&mut v, "/versions/");
    let jar_name = match &manifest.jar {
        Some(j) => j.as_str(),
        None => manifest.id.as_str(),
    };
    append_str(&mut v, jar_name);
    append_str(&mut v, "/");
    append_str(&mut v, jar_name);
    append_str(&mut v, ".jar");
    chars_string(&v)
}

/// Resolve the natives directory of a descriptor.
pub fn natives_dir_path(base_dir: &str, manifest: &Manifest) -> (r: String)
    ensures
        r@ == natives_dir_spec(base_dir@, manifest@.id),
{
    let mut v = str_chars(base_dir);
    append_str(&mut v, "/versions/");
    append_str(&mut v, manifest.id.as_str());
    append_str(&mut v, "/natives");
    chars_string(&v)
}

/// A fully assembled process invocation: the program, its working
/// directory, and every argument in order.
#[derive(Clone, Debug)]
pub struct LaunchCommand {
    pub program: String,
    pub working_dir: String,
    pub args: Vec<String>,
}

/// The exact argument vector of a launch: memory flags, natives path,
/// classpath, descriptor JVM arguments, main class, game arguments, and
/// the window size, in that fixed order.
pub open spec fn launch_args_spec(
    m: ManifestView,
    c: ArgContextView,
    min_memory: u32,
    max_memory: u32,
    width: u32,
    height: u32,
    base: Seq<char>,
    host: HostPlatform,
    classpath: Seq<Seq<char>>,
) -> Seq<Seq<char>> {
    seq![
        "-Xms"@ + dec_chars(min_memory as int) + "M"@,
        "-Xmx"@ + dec_chars(max_memory as int) + "M"@,
        "-Djava.library.path="@ + natives_dir_spec(base, m.id),
        "-cp"@,
        join_with(classpath, host.os.classpath_sep_spec()),
    ] + jvm_args_spec(m) + seq![m.main_class] + game_args_spec(m, c) + seq![
        "--width"@,
        dec_chars(width as int),
        "--height"@,
        dec_chars(height as int),
    ]
}

/// Assemble the process command for one launch. The classpath entries —
/// main jar first, then the resolved libraries that exist on disk — are
/// supplied by the caller, joined here with the host's separator. The
/// working directory is the game directory; the program is the
/// configured Java executable.
pub fn build_launch_command(
    manifest: &Manifest,
    account: &Account,
    options: &LaunchOptions,
    base_dir: &str,
    host: &HostPlatform,
    classpath: &Vec<String>,
) -> (r: LaunchCommand)
    ensures
        r.program@ == options.java_path@,
        r.working_dir@ == base_dir@,
        r.args.deep_view() == launch_args_spec(
            manifest@,
            build_context_view(account, manifest, base_dir@),
            options.min_memory,
            options.max_memory,
            options.width,
            options.height,
            base_dir@,
            *host,
            classpath.deep_view(),
        ),
{
    let ctx = build_context(account, manifest, base_dir);
    proof {
        assert(ctx@ =~= build_context_view(account, manifest, base_dir@));
    }
    let mut args: Vec<String> = Vec::new();

    let mut xms = str_chars("-Xms");
    let min_digits = u32_dec_chars(options.min_memory);
    append_chars(&mut xms, &min_digits);
    append_str(&mut xms, "M");
    args.push(chars_string(&xms));

    let mut xmx = str_chars("-Xmx");
    let max_digits = u32_dec_chars(options.max_memory);
    append_chars(&mut xmx, &max_digits);
    append_str(&mut xmx, "M");
    args.push(chars_string(&xmx));

    let mut libpath = str_chars("-Djava.library.path=");
    let natives = natives_dir_path(base_dir, manifest);
    append_str(&mut libpath, natives.as_str());
    args.push(chars_string(&libpath));

    args.push(chars_string(&str_chars("-cp")));
    args.push(join_strings(classpath, host.os.classpath_sep()));

    let ghost head = args.deep_view();
    let mut jvm = build_jvm_args(manifest);
    let ghost jvm_v = jvm.deep_view();
    args.append(&mut jvm);
    proof {
        assert(args.deep_view() =~~= head + jvm_v);
    }

    let ghost with_jvm = args.deep_view();
    args.push(manifest.main_class.clone());
    proof {
        assert(args.deep_view() =~~= with_jvm.push(manifest.main_class@));
    }

    let ghost with_main = args.deep_view();
    let mut game = build_game_args(manifest, &ctx);
    let ghost game_v = game.deep_view();
    args.append(&mut game);
    proof {
        assert(args.deep_view() =~~= with_main + game_v);
    }

    let ghost with_game = args.deep_view();
    args.push(chars_string(&str_chars("--width")));
    let width_s = u32_dec_chars(options.width);
    args.push(chars_string(&width_s));
    args.push(chars_string(&str_chars("--height")));
    let height_s = u32_dec_chars(options.height);
    args.push(chars_string(&height_s));
    proof {
        assert(args.deep_view() =~~= with_game + seq![
            "--width"@,
            dec_chars(options.width as int),
            "--height"@,
            dec_chars(options.height as int),
        ]);
        assert(args.deep_view() =~~= launch_args_spec(
            manifest@,
            ctx@,
            options.min_memory,
            options.max_memory,
            options.width,
            options.height,
            base_dir@,
            *host,
            classpath.deep_view(),
        ));
    }

    LaunchCommand {
        program: options.java_path.clone(),
        working_dir: chars_string(&str_chars(base_dir)),
        args,
    }
}

/// What a launch runs with before the Java executable is resolved:
/// memory and window bounds, the extra JVM arguments, and the optional
/// explicit Java path.
#[derive(Clone, Debug)]
pub struct LaunchPreferences {
    pub min_memory: u32,
    pub max_memory: u32,
    pub width: u32,
    pub height: u32,
    pub java_args: String,
    pub java_path: Option<String>,
}

/// The launch preferences one launch uses: the matching profile's
/// values when one exists, else the launcher settings with the stock
/// JVM arguments.
pub fn launch_preferences(
    profile: Option<&crate::profiles::Profile>,
    settings: &crate::settings::Settings,
) -> (r: LaunchPreferences)
    ensures
        match profile {
            Some(p) => {
                &&& r.min_memory == p.min_memory
                &&& r.max_memory == p.max_memory
                &&& r.width == p.width
                &&& r.height == p.height
                &&& r.java_args@ == p.java_args@
                &&& crate::game::opt_view(r.java_path) == crate::game::opt_view(p.java_path)
            },
            None => {
                &&& r.min_memory == settings.min_memory
                &&& r.max_memory == settings.max_memory
                &&& r.width == settings.width
                &&& r.height == settings.height
                &&& r.java_args@ == "-XX:+UseG1GC"@
                &&& crate::game::opt_view(r.java_path) == crate::game::opt_view(settings.java_path)
            },
        },
{
    match profile {
        Some(p) => LaunchPreferences {
            min_memory: p.min_memory,
            max_memory: p.max_memory,
            width: p.width,
            height: p.height,
            java_args: p.java_args.clone(),
            java_path: match &p.java_path {
                Some(j) => Some(j.clone()),
                None => None,
            },
        },
        None => LaunchPreferences {
            min_memory: settings.min_memory,
            max_memory: settings.max_memory,
            width: settings.width,
            height: settings.height,
            java_args: chars_string(&str_chars("-XX:+UseG1GC")),
            java_path: match &settings.java_path {
                Some(j) => Some(j.clone()),
                None => None,
            },
        },
    }
}

/// The context `build_context` yields, as a spec-level value.
pub open spec fn build_context_view(
    account: &Account,
    manifest: &Manifest,
    base_dir: Seq<char>,
) -> ArgContextView {
    ArgContextView {
        player_name: account.name@,
        version_name: manifest.id@,
        game_directory: base_dir,
        assets_root: base_dir + "/assets"@,
        assets_index_name: match manifest.assets {
            Some(a) => a@,
            None => "legacy"@,
        },
        auth_uuid: account.uuid@,
        auth_access_token: match account.access_token {
            Some(t) => t@,
            None => "0"@,
        },
        user_type: if account.account_type == AccountType::Microsoft {
            "msa"@
        } else {
            "mojang"@
        },
    }
}

} // verus!
