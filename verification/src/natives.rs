//! Native-library extraction planning.
//!
//! For every library the host's rules permit that names a native
//! classifier for the host OS, the plan resolves which archive file to
//! open; for every entry of such an archive, the entry filter decides
//! whether it is extracted and under which flattened file name. Opening
//! the archives and writing the files is the application's job.

use vstd::prelude::*;
use crate::coord::{maven_classified_rel_path, maven_classified_path_chars};
use crate::game::{Manifest, Library, LibraryView, Artifact, ArtifactView, GameManager};
use crate::platform::HostPlatform;
use crate::text::{
    str_chars, chars_string, chars_eq, contains_sub, has_substring, append_str, append_chars,
    copy_chars, replace_chars, replace_seq,
};

verus! {

/// The characters that separate path segments inside an archive entry
/// name. Backslashes are treated as separators too, so that a hostile
/// name cannot smuggle a separator past the flattening on any platform.
pub open spec fn is_path_sep(c: char) -> bool {
    c == '/' || c == '\\'
}

pub open spec fn is_dot(c: char) -> bool {
    c == '.'
}

/// The characters of `s` after the last one satisfying `sep`; all of `s`
/// when none does.
pub open spec fn after_last(s: Seq<char>, sep: spec_fn(char) -> bool) -> Seq<char>
    decreases s.len(),
{
    if s.len() == 0 {
        s
    } else if sep(s.last()) {
        Seq::<char>::empty()
    } else {
        after_last(s.drop_last(), sep).push(s.last())
    }
}

proof fn lemma_after_last_skip(s: Seq<char>, sep: spec_fn(char) -> bool, k: int)
    requires
        -1 <= k < s.len() || (s.len() == 0 && k == -1),
        k >= 0 ==> sep(s[k]),
        forall|j: int| k < j < s.len() ==> !sep(#[trigger] s[j]),
    ensures
        after_last(s, sep) == s.skip(k + 1),
    decreases s.len(),
{
    if s.len() == 0 {
        assert(s.skip(0) =~= s);
    } else if k == s.len() - 1 {
        assert(s.skip(s.len() as int) =~= Seq::<char>::empty());
    } else {
        lemma_after_last_skip(s.drop_last(), sep, k);
        assert(s.drop_last().skip(k + 1).push(s.last()) =~= s.skip(k + 1));
    }
}

proof fn lemma_after_last_clean(s: Seq<char>, sep: spec_fn(char) -> bool)
    ensures
        forall|i: int|
            0 <= i < after_last(s, sep).len() ==> !sep(#[trigger] after_last(s, sep)[i]),
    decreases s.len(),
{
    if s.len() > 0 && !sep(s.last()) {
        lemma_after_last_clean(s.drop_last(), sep);
        let b = after_last(s, sep);
        let bp = after_last(s.drop_last(), sep);
        assert forall|i: int| 0 <= i < b.len() implies !sep(b[i]) by {
            if i < b.len() - 1 {
                assert(b[i] == bp[i]);
            } else {
                assert(b[i] == s.last());
            }
        }
    }
}

/// The base file name of an archive entry: what follows the last path
/// separator.
pub open spec fn base_name_spec(name: Seq<char>) -> Seq<char> {
    after_last(name, |c: char| is_path_sep(c))
}

/// Whether a file name has an extension: a dot that is not its first
/// character.
pub open spec fn has_extension(base: Seq<char>) -> bool {
    exists|j: int| 1 <= j < base.len() && base[j] == '.'
}

/// The extension of a file name: what follows the last dot.
pub open spec fn extension_spec(base: Seq<char>) -> Seq<char> {
    after_last(base, |c: char| is_dot(c))
}

/// Entry paths containing any of these runs are never extracted.
pub open spec fn excluded_entry(name: Seq<char>) -> bool {
    has_substring(name, "META-INF"@) || has_substring(name, ".git"@) || has_substring(
        name,
        ".sha1"@,
    )
}

/// The dynamic-library extensions of the three supported OS families.
pub open spec fn is_native_extension(e: Seq<char>) -> bool {
    e == "dll"@ || e == "so"@ || e == "dylib"@
}

/// What one archive entry contributes to extraction: the flattened file
/// name to write under the natives directory, or nothing. An entry is
/// extracted exactly when its path avoids the exclusion runs and its
/// base name carries a dynamic-library extension; any directory
/// structure inside the archive is discarded.
pub open spec fn native_entry_target_spec(name: Seq<char>) -> Option<Seq<char>> {
    if excluded_entry(name) {
        None
    } else {
        let base = base_name_spec(name);
        if has_extension(base) && is_native_extension(extension_spec(base)) {
            Some(base)
        } else {
            None
        }
    }
}

/// Law: extraction never escapes the natives directory. Whatever the
/// entry path holds — parent-directory segments, absolute prefixes,
/// backslashes — the target is a plain non-empty file name: free of path
/// separators and not a dot-only name, so joining it under the natives
/// directory stays inside that directory.
pub proof fn lemma_native_target_stays_inside(name: Seq<char>)
    ensures
        match native_entry_target_spec(name) {
            Some(b) => {
                &&& b.len() > 0
                &&& forall|i: int| 0 <= i < b.len() ==> !is_path_sep(#[trigger] b[i])
                &&& b != "."@
                &&& b != ".."@
            },
            None => true,
        },
{
    reveal_strlit(".");
    reveal_strlit("..");
    reveal_strlit("dll");
    reveal_strlit("so");
    reveal_strlit("dylib");
    if native_entry_target_spec(name) is Some {
        let b = base_name_spec(name);
        lemma_after_last_clean(name, |c: char| is_path_sep(c));
        assert(forall|i: int| 0 <= i < b.len() ==> !is_path_sep(#[trigger] b[i]));
        assert(has_extension(b));
        assert(b.len() >= 2);
        if b == ".."@ {
            lemma_after_last_skip(b, |c: char| is_dot(c), 1);
            assert(extension_spec(b) =~= Seq::<char>::empty());
            assert(!is_native_extension(extension_spec(b)));
        }
    }
}

fn last_index_path_sep(v: &Vec<char>) -> (r: Option<usize>)
    ensures
        match r {
            Some(k) => k < v@.len() && is_path_sep(v@[k as int]) && forall|j: int|
                k < j < v@.len() ==> !is_path_sep(#[trigger] v@[j]),
            None => forall|j: int| 0 <= j < v@.len() ==> !is_path_sep(#[trigger] v@[j]),
        },
{
    let mut i: usize = v.len();
    while i > 0
        invariant
            i <= v@.len(),
            forall|j: int| i <= j < v@.len() ==> !is_path_sep(#[trigger] v@[j]),
        decreases i,
    {
        i = i - 1;
        let c = v[i];
        if c == '/' || c == '\\' {
            return Some(i);
        }
    }
    None
}

fn last_index_dot(v: &Vec<char>) -> (r: Option<usize>)
    ensures
        match r {
            Some(k) => k < v@.len() && v@[k as int] == '.' && forall|j: int|
                k < j < v@.len() ==> v@[j] != '.',
            None => forall|j: int| 0 <= j < v@.len() ==> v@[j] != '.',
        },
{
    let mut i: usize = v.len();
    while i > 0
        invariant
            i <= v@.len(),
            forall|j: int| i <= j < v@.len() ==> v@[j] != '.',
        decreases i,
    {
        i = i - 1;
        if v[i] == '.' {
            return Some(i);
        }
    }
    None
}

fn copy_from(v: &Vec<char>, from: usize) -> (r: Vec<char>)
    requires
        from <= v@.len(),
    ensures
        r@ == v@.skip(from as int),
{
    let mut r: Vec<char> = Vec::new();
    let mut i: usize = from;
    while i < v.len()
        invariant
            from <= i <= v@.len(),
            r@ == v@.subrange(from as int, i as int),
        decreases v@.len() - i,
    {
        r.push(v[i]);
        i = i + 1;
        proof {
            assert(r@ =~= v@.subrange(from as int, i as int));
        }
    }
    proof {
        assert(v@.subrange(from as int, v@.len() as int) =~= v@.skip(from as int));
    }
    r
}

/// Decide whether one archive entry is extracted, and under which
/// flattened file name.
pub fn native_entry_target(entry_name: &str) -> (r: Option<String>)
    ensures
        match r {
            Some(s) => native_entry_target_spec(entry_name@) == Some(s@),
            None => native_entry_target_spec(entry_name@) is None,
        },
{
    let name = str_chars(entry_name);
    if contains_sub(&name, &str_chars("META-INF")) || contains_sub(&name, &str_chars(".git"))
        || contains_sub(&name, &str_chars(".sha1")) {
        return None;
    }
    let n = name.len();
    let base = match last_index_path_sep(&name) {
        Some(k) => {
            proof {
                assert(k < n);
                lemma_after_last_skip(name@, |c: char| is_path_sep(c), k as int);
            }
            copy_from(&name, k + 1)
        },
        None => {
            proof {
                lemma_after_last_skip(name@, |c: char| is_path_sep(c), -1);
                assert(name@.skip(0) =~= name@);
            }
            copy_from(&name, 0)
        },
    };
    proof {
        assert(base@ == base_name_spec(entry_name@));
    }
    let dot = match last_index_dot(&base) {
        Some(k) => k,
        None => {
            proof {
                assert(!has_extension(base@));
            }
            return None;
        },
    };
    if dot == 0 {
        proof {
            assert forall|j: int| 1 <= j < base@.len() implies base@[j] != '.' by {}
            assert(!has_extension(base@));
        }
        return None;
    }
    let bn = base.len();
    proof {
        assert(dot < bn);
        assert(has_extension(base@));
        lemma_after_last_skip(base@, |c: char| is_dot(c), dot as int);
    }
    let ext = copy_from(&base, dot + 1);
    proof {
        assert(ext@ == extension_spec(base@));
    }
    if chars_eq(&ext, &str_chars("dll")) || chars_eq(&ext, &str_chars("so")) || chars_eq(
        &ext,
        &str_chars("dylib"),
    ) {
        Some(chars_string(&base))
    } else {
        None
    }
}

// ---------------------------------------------------------------------
// Archive selection
// ---------------------------------------------------------------------

/// First value of an association list whose key matches.
pub open spec fn assoc_text_spec(entries: Seq<(Seq<char>, Seq<char>)>, key: Seq<char>) -> Option<
    Seq<char>,
>
    decreases entries.len(),
{
    if entries.len() == 0 {
        None
    } else if entries[0].0 == key {
        Some(entries[0].1)
    } else {
        assoc_text_spec(entries.drop_first(), key)
    }
}

/// First artifact of an association list whose key matches.
pub open spec fn assoc_artifact_spec(
    entries: Seq<(Seq<char>, ArtifactView)>,
    key: Seq<char>,
) -> Option<ArtifactView>
    decreases entries.len(),
{
    if entries.len() == 0 {
        None
    } else if entries[0].0 == key {
        Some(entries[0].1)
    } else {
        assoc_artifact_spec(entries.drop_first(), key)
    }
}

/// Look a key up in a string-valued association list.
fn assoc_text<'a>(entries: &'a Vec<(String, String)>, key: &Vec<char>) -> (r: Option<&'a String>)
    ensures
        match r {
            Some(t) => assoc_text_spec(
                entries@.map_values(|e: (String, String)| (e.0@, e.1@)),
                key@,
            ) == Some(t@),
            None => assoc_text_spec(
                entries@.map_values(|e: (String, String)| (e.0@, e.1@)),
                key@,
            ) is None,
        },
{
    let ghost ev = entries@.map_values(|e: (String, String)| (e.0@, e.1@));
    let mut i: usize = 0;
    proof {
        assert(ev.skip(0) =~= ev);
    }
    while i < entries.len()
        invariant
            i <= entries@.len(),
            ev == entries@.map_values(|e: (String, String)| (e.0@, e.1@)),
            assoc_text_spec(ev, key@) == assoc_text_spec(ev.skip(i as int), key@),
        decreases entries@.len() - i,
    {
        proof {
            assert(ev.skip(i as int)[0] == ev[i as int]);
            assert(ev.skip(i as int).drop_first() =~= ev.skip(i as int + 1));
        }
        let kc = str_chars(entries[i].0.as_str());
        if chars_eq(&kc, key) {
            return Some(&entries[i].1);
        }
        i = i + 1;
    }
    None
}

/// Look a classifier up in the classified-artifact list.
fn assoc_artifact<'a>(entries: &'a Vec<(String, Artifact)>, key: &Vec<char>) -> (r: Option<
    &'a Artifact,
>)
    ensures
        match r {
            Some(a) => assoc_artifact_spec(
                entries@.map_values(|e: (String, Artifact)| (e.0@, e.1@)),
                key@,
            ) == Some(a@),
            None => assoc_artifact_spec(
                entries@.map_values(|e: (String, Artifact)| (e.0@, e.1@)),
                key@,
            ) is None,
        },
{
    let ghost ev = entries@.map_values(|e: (String, Artifact)| (e.0@, e.1@));
    let mut i: usize = 0;
    proof {
        assert(ev.skip(0) =~= ev);
    }
    while i < entries.len()
        invariant
            i <= entries@.len(),
            ev == entries@.map_values(|e: (String, Artifact)| (e.0@, e.1@)),
            assoc_artifact_spec(ev, key@) == assoc_artifact_spec(ev.skip(i as int), key@),
        decreases entries@.len() - i,
    {
        proof {
            assert(ev.skip(i as int)[0] == ev[i as int]);
            assert(ev.skip(i as int).drop_first() =~= ev.skip(i as int + 1));
        }
        let kc = str_chars(entries[i].0.as_str());
        if chars_eq(&kc, key) {
            return Some(&entries[i].1);
        }
        i = i + 1;
    }
    None
}

/// The native classifier of a library on the host: the template the
/// natives table names for the host OS, its `${arch}` placeholder
/// expanded to the host's 32/64 bits.
pub open spec fn native_classifier_spec(lib: LibraryView, host: HostPlatform) -> Option<Seq<char>> {
    match assoc_text_spec(lib.natives, host.os.key_spec()) {
        Some(t) => Some(replace_seq(t, "${arch}"@, host.arch.bits_spec())),
        None => None,
    }
}

/// The repository-relative path of a library's native archive for the
/// given classifier: the explicit classified download record when it
/// carries a path, else the classified Maven fallback (absent when the
/// coordinate is too short for one).
pub open spec fn native_archive_rel_spec(lib: LibraryView, classifier: Seq<char>) -> Option<
    Seq<char>,
> {
    let explicit = match lib.downloads {
        Some(d) => match assoc_artifact_spec(d.classifiers, classifier) {
            Some(a) => a.path,
            None => None,
        },
        None => None,
    };
    match explicit {
        Some(p) => Some(p),
        None => maven_classified_rel_path(lib.name, classifier),
    }
}

/// What the natives of one library contribute to the plan: the full
/// archive path under `lib_dir`, when the library is permitted, names a
/// classifier for this OS, and an archive path resolves.
pub open spec fn native_archive_of_lib_spec(
    lib: LibraryView,
    lib_dir: Seq<char>,
    host: HostPlatform,
) -> Option<Seq<char>> {
    if lib.permitted(host) {
        match native_classifier_spec(lib, host) {
            Some(cl) => match native_archive_rel_spec(lib, cl) {
                Some(rel) => Some(lib_dir + "/"@ + rel),
                None => None,
            },
            None => None,
        }
    } else {
        None
    }
}

/// The archives native extraction opens, in descriptor order.
pub open spec fn native_archives_spec(
    libs: Seq<LibraryView>,
    lib_dir: Seq<char>,
    host: HostPlatform,
) -> Seq<Seq<char>>
    decreases libs.len(),
{
    if libs.len() == 0 {
        Seq::<Seq<char>>::empty()
    } else {
        let pre = native_archives_spec(libs.drop_last(), lib_dir, host);
        match native_archive_of_lib_spec(libs.last(), lib_dir, host) {
            Some(p) => pre.push(p),
            None => pre,
        }
    }
}

impl GameManager {
    /// Plan native extraction: the archive files to open, in descriptor
    /// order, under `<base_dir>/libraries`. The application opens each
    /// archive that exists (missing ones are logged and skipped there)
    /// and extracts the entries `native_entry_target` selects into the
    /// natives directory.
    pub fn native_archive_paths(&self, manifest: &Manifest, host: &HostPlatform) -> (r: Vec<
        String,
    >)
        ensures
            r.deep_view() == native_archives_spec(
                manifest@.libs(),
                self.base_dir@ + "/libraries"@,
                *host,
            ),
    {
        let ghost libs_v = manifest@.libs();
        let ghost dir_v = self.base_dir@ + "/libraries"@;
        let mut lib_dir = str_chars(self.base_dir.as_str());
        append_str(&mut lib_dir, "/libraries");
        let mut r: Vec<String> = Vec::new();
        proof {
            assert(r.deep_view() =~~= native_archives_spec(libs_v.take(0), dir_v, *host));
        }
        let libraries = match &manifest.libraries {
            Some(v) => v,
            None => {
                proof {
                    assert(libs_v.take(0) =~= libs_v);
                }
                return r;
            },
        };
        let n = libraries.len();
        proof {
            assert(libs_v =~= libraries@.map_values(|l: Library| l@));
        }
        let mut i: usize = 0;
        while i < n
            invariant
                i <= n,
                n == libraries@.len(),
                libs_v == libraries@.map_values(|l: Library| l@),
                lib_dir@ == dir_v,
                r.deep_view() == native_archives_spec(libs_v.take(i as int), dir_v, *host),
            decreases n - i,
        {
            let lib = &libraries[i];
            proof {
                assert(libs_v.take(i as int + 1).drop_last() =~= libs_v.take(i as int));
                assert(libs_v.take(i as int + 1).last() == libs_v[i as int]);
                assert(libs_v[i as int] == lib@);
            }
            if self.should_include_library(lib, host) {
                let key = str_chars(host.os.key());
                match assoc_text(&lib.natives, &key) {
                    Some(template) => {
                        let tc = str_chars(template.as_str());
                        let classifier = replace_chars(&tc, &str_chars("${arch}"), &str_chars(
                            host.arch.bits(),
                        ));
                        let mut rel: Option<Vec<char>> = None;
                        match &lib.downloads {
                            Some(d) => match assoc_artifact(&d.classifiers, &classifier) {
                                Some(a) => match &a.path {
                                    Some(p) => {
                                        rel = Some(str_chars(p.as_str()));
                                    },
                                    None => {},
                                },
                                None => {},
                            },
                            None => {},
                        }
                        if rel.is_none() {
                            let nc = str_chars(lib.name.as_str());
                            rel = maven_classified_path_chars(&nc, &classifier);
                        }
                        match rel {
                            Some(relc) => {
                                proof {
                                    assert(native_archive_of_lib_spec(lib@, dir_v, *host)
                                        == Some(dir_v + "/"@ + relc@));
                                }
                                let mut path = copy_chars(&lib_dir);
                                append_str(&mut path, "/");
                                append_chars(&mut path, &relc);
                                let ghost dv0 = r.deep_view();
                                r.push(chars_string(&path));
                                proof {
                                    assert(r.deep_view() =~~= dv0.push(path@));
                                }
                            },
                            None => {
                                proof {
                                    assert(native_archive_of_lib_spec(lib@, dir_v, *host)
                                        is None);
                                }
                            },
                        }
                    },
                    None => {
                        proof {
                            assert(native_classifier_spec(lib@, *host) is None);
                        }
                    },
                }
            }
            i = i + 1;
        }
        proof {
            assert(libs_v.take(n as int) =~= libs_v);
        }
        r
    }
}

} // verus!
