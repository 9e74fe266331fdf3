//! Installed-mod bookkeeping.
//!
//! Reading the mods directory and mod archives is the application's
//! job. The per-file decisions — which files count as mods, how their
//! names derive from file names and metadata, how enabling renames a
//! file, and how the metadata formats rank — are made here.

use vstd::prelude::*;
use vstd::multiset::Multiset;
use vstd::seq_lib::to_multiset_insert;
use vstd::seq_lib::group_to_multiset_ensures;
use crate::game::opt_view;
use crate::text::{
    str_chars, chars_string, append_str, append_chars, chars_end_with, ends_with,
    chars_trim_suffix_all, trim_suffix_all, chars_lex_le, lex_le, lemma_lex_le_total,
    lemma_lex_le_trans,
};

verus! {

/// What a mod archive says about itself.
#[derive(Clone, Debug)]
pub struct ModMetadata {
    pub name: Option<String>,
    pub version: Option<String>,
    pub game_version: Option<String>,
    pub description: Option<String>,
    pub authors: Option<Vec<String>>,
}

impl Default for ModMetadata {
    /// Metadata with nothing known.
    fn default() -> (r: ModMetadata)
        ensures
            r.name is None,
            r.version is None,
            r.game_version is None,
            r.description is None,
            r.authors is None,
    {
        ModMetadata { name: None, version: None, game_version: None, description: None, authors: None }
    }
}

/// The metadata formats a mod archive may carry, in precedence order:
/// the Fabric JSON wins over the newer Forge manifest, which wins over
/// the legacy Forge info file; with none of them, nothing is known.
pub fn select_metadata(
    fabric: Option<ModMetadata>,
    forge: Option<ModMetadata>,
    legacy: Option<ModMetadata>,
) -> (r: ModMetadata)
    ensures
        match (fabric, forge, legacy) {
            (Some(m), _, _) => r == m,
            (None, Some(m), _) => r == m,
            (None, None, Some(m)) => r == m,
            (None, None, None) => r.name is None && r.version is None && r.game_version is None
                && r.description is None && r.authors is None,
        },
{
    match fabric {
        Some(m) => m,
        None => match forge {
            Some(m) => m,
            None => match legacy {
                Some(m) => m,
                None => ModMetadata::default(),
            },
        },
    }
}

/// One mod file, as listed to the user.
#[derive(Clone, Debug)]
pub struct Mod {
    pub name: String,
    pub filename: String,
    pub path: String,
    pub enabled: bool,
    pub size: u64,
    pub sha256: Option<String>,
    pub version: Option<String>,
    pub game_version: Option<String>,
    pub description: Option<String>,
    pub authors: Option<Vec<String>>,
}

#[verifier::ext_equal]
pub struct ModView {
    pub name: Seq<char>,
    pub filename: Seq<char>,
    pub path: Seq<char>,
    pub enabled: bool,
    pub size: u64,
    pub sha256: Option<Seq<char>>,
    pub version: Option<Seq<char>>,
    pub game_version: Option<Seq<char>>,
    pub description: Option<Seq<char>>,
    pub authors: Option<Seq<Seq<char>>>,
}

impl View for Mod {
    type V = ModView;

    open spec fn view(&self) -> ModView {
        ModView {
            name: self.name@,
            filename: self.filename@,
            path: self.path@,
            enabled: self.enabled,
            size: self.size,
            sha256: opt_view(self.sha256),
            version: opt_view(self.version),
            game_version: opt_view(self.game_version),
            description: opt_view(self.description),
            authors: match self.authors {
                Some(v) => Some(v@.map_values(|s: String| s@)),
                None => None,
            },
        }
    }
}

/// The display name a mod file gets when its metadata names none: the
/// file name with the enabled or disabled suffix trimmed.
pub open spec fn default_mod_name(filename: Seq<char>) -> Seq<char> {
    if ends_with(filename, ".jar"@) {
        trim_suffix_all(filename, ".jar"@)
    } else {
        trim_suffix_all(filename, ".jar.disabled"@)
    }
}

/// The record for one file of the mods directory, or nothing when the
/// file is not a mod. A `.jar` file is an enabled mod, a
/// `.jar.disabled` file a disabled one; the name comes from the
/// metadata when it names one, else from the file name; the path is the
/// file's place under `dir`.
pub fn mod_entry(dir: &str, filename: &str, size: u64, meta: ModMetadata) -> (r: Option<Mod>)
    ensures
        ({
            let f = filename@;
            if ends_with(f, ".jar"@) || ends_with(f, ".jar.disabled"@) {
                r matches Some(m) && {
                    &&& m@.enabled == ends_with(f, ".jar"@)
                    &&& m@.filename == f
                    &&& m@.path == dir@ + "/"@ + f
                    &&& m@.size == size
                    &&& m@.sha256 is None
                    &&& m@.name == match meta.name {
                        Some(n) => n@,
                        None => default_mod_name(f),
                    }
                    &&& m@.version == opt_view(meta.version)
                    &&& m@.game_version == opt_view(meta.game_version)
                    &&& m@.description == opt_view(meta.description)
                    &&& m@.authors == match meta.authors {
                        Some(v) => Some(v@.map_values(|s: String| s@)),
                        None => None,
                    }
                }
            } else {
                r is None
            }
        }),
{
    let fc = str_chars(filename);
    let jar = str_chars(".jar");
    let jar_disabled = str_chars(".jar.disabled");
    let enabled = chars_end_with(&fc, &jar);
    if !enabled && !chars_end_with(&fc, &jar_disabled) {
        return None;
    }
    let name = match meta.name {
        Some(n) => n,
        None => {
            let trimmed = if enabled {
                chars_trim_suffix_all(&fc, &jar)
            } else {
                chars_trim_suffix_all(&fc, &jar_disabled)
            };
            chars_string(&trimmed)
        },
    };
    let mut path = str_chars(dir);
    append_str(&mut path, "/");
    append_chars(&mut path, &fc);
    Some(
        Mod {
            name,
            filename: chars_string(&fc),
            path: chars_string(&path),
            enabled,
            size,
            sha256: None,
            version: meta.version,
            game_version: meta.game_version,
            description: meta.description,
            authors: meta.authors,
        },
    )
}

/// The file name a mod file is renamed to when toggled, or nothing when
/// no rename is needed: enabling trims the disabled suffix, disabling
/// appends it, and disabling an already-disabled file changes nothing.
pub fn toggle_target_name(filename: &str, enable: bool) -> (r: Option<String>)
    ensures
        match r {
            Some(n) => enable && n@ == trim_suffix_all(filename@, ".disabled"@) || !enable
                && !ends_with(filename@, ".disabled"@) && n@ == filename@ + ".disabled"@,
            None => !enable && ends_with(filename@, ".disabled"@),
        },
{
    let fc = str_chars(filename);
    let disabled = str_chars(".disabled");
    if enable {
        let trimmed = chars_trim_suffix_all(&fc, &disabled);
        Some(chars_string(&trimmed))
    } else {
        if chars_end_with(&fc, &disabled) {
            return None;
        }
        let mut v = str_chars(filename);
        append_str(&mut v, ".disabled");
        Some(chars_string(&v))
    }
}

/// Copy a string vector.
fn clone_strings(v: &Vec<String>) -> (r: Vec<String>)
    ensures
        r.deep_view() == v.deep_view(),
{
    let mut r: Vec<String> = Vec::new();
    let mut i: usize = 0;
    proof {
        assert(r.deep_view() =~~= v.deep_view().take(0));
    }
    while i < v.len()
        invariant
            i <= v@.len(),
            v.deep_view().len() == v@.len(),
            r.deep_view() == v.deep_view().take(i as int),
        decreases v@.len() - i,
    {
        let ghost dv0 = r.deep_view();
        r.push(v[i].clone());
        proof {
            assert(r.deep_view() =~~= dv0.push(v@[i as int]@));
            assert(v.deep_view().take(i as int + 1) =~= dv0.push(v.deep_view()[i as int]));
        }
        i = i + 1;
    }
    proof {
        assert(v.deep_view().take(v@.len() as int) =~= v.deep_view());
    }
    r
}

impl Mod {
    /// Copy this record.
    pub fn duplicate(&self) -> (r: Mod)
        ensures
            r@ == self@,
    {
        let authors = match &self.authors {
            Some(v) => Some(clone_strings(v)),
            None => None,
        };
        let r = Mod {
            name: self.name.clone(),
            filename: self.filename.clone(),
            path: self.path.clone(),
            enabled: self.enabled,
            size: self.size,
            sha256: match &self.sha256 {
                Some(s) => Some(s.clone()),
                None => None,
            },
            version: match &self.version {
                Some(s) => Some(s.clone()),
                None => None,
            },
            game_version: match &self.game_version {
                Some(s) => Some(s.clone()),
                None => None,
            },
            description: match &self.description {
                Some(s) => Some(s.clone()),
                None => None,
            },
            authors,
        };
        proof {
            match (&r.authors, &self.authors) {
                (Some(a), Some(b)) => {
                    assert(a.deep_view().len() == a@.len());
                    assert(b.deep_view().len() == b@.len());
                    assert forall|i: int| 0 <= i < a@.len() implies a@[i]@ == b@[i]@ by {
                        assert(a.deep_view()[i] == a@[i]@);
                        assert(b.deep_view()[i] == b@[i]@);
                    }
                    assert(a@.map_values(|s: String| s@) =~= b@.map_values(|s: String| s@));
                },
                _ => {},
            }
            assert(r@ =~= self@);
        }
        r
    }
}

/// The mods directory, keyed by base directory.
pub struct ModManager {
    pub base_dir: String,
}

/// Non-decreasing mod name, in lexicographic order.
pub open spec fn sorted_by_name(mods: Seq<Mod>) -> bool {
    forall|i: int, j: int|
        0 <= i < j < mods.len() ==> lex_le(
            #[trigger] mods[i].name@,
            #[trigger] mods[j].name@,
        )
}

/// The views of a mod list.
pub open spec fn mods_view(mods: Seq<Mod>) -> Seq<ModView> {
    mods.map_values(|m: Mod| m@)
}

impl ModManager {
    /// A manager rooted at the launcher's data directory.
    pub fn new(base_dir: String) -> (r: Self)
        ensures
            r.base_dir == base_dir,
    {
        ModManager { base_dir }
    }

    /// Where a version's mods live.
    pub fn get_mods_dir(&self, version_id: &str) -> (r: String)
        ensures
            r@ == self.base_dir@ + "/versions/"@ + version_id@ + "/mods"@,
    {
        let mut v = str_chars(self.base_dir.as_str());
        append_str(&mut v, "/versions/");
        append_str(&mut v, version_id);
        append_str(&mut v, "/mods");
        chars_string(&v)
    }
}

/// Where a record sorts into an already-sorted list: the first index
/// whose name is strictly greater, keeping equal names in arrival order.
fn insertion_index(r: &Vec<Mod>, p: &Mod) -> (j: usize)
    ensures
        j <= r@.len(),
        forall|k: int| 0 <= k < j ==> lex_le(#[trigger] r@[k].name@, p.name@),
        j < r@.len() ==> !lex_le(r@[j as int].name@, p.name@),
{
    let pc = str_chars(p.name.as_str());
    let mut j: usize = 0;
    loop
        invariant
            j <= r@.len(),
            pc@ == p.name@,
            forall|k: int| 0 <= k < j ==> lex_le(#[trigger] r@[k].name@, p.name@),
        decreases r@.len() - j,
    {
        if j >= r.len() {
            return j;
        }
        let rc = str_chars(r[j].name.as_str());
        if !chars_lex_le(&rc, &pc) {
            return j;
        }
        j = j + 1;
    }
}

/// Sort mod records by display name, as the mod list is shown.
pub fn sort_mods_by_name(mods: &Vec<Mod>) -> (r: Vec<Mod>)
    ensures
        sorted_by_name(r@),
        mods_view(r@).to_multiset() == mods_view(mods@).to_multiset(),
{
    broadcast use group_to_multiset_ensures;

    let ghost pv = mods_view(mods@);
    let mut r: Vec<Mod> = Vec::new();
    let mut i: usize = 0;
    proof {
        assert(mods_view(r@) =~= pv.take(0));
        assert(pv.take(0).to_multiset() =~= Multiset::<ModView>::empty());
        assert(mods_view(r@).to_multiset() =~= pv.take(0).to_multiset());
    }
    while i < mods.len()
        invariant
            i <= mods@.len(),
            pv == mods_view(mods@),
            sorted_by_name(r@),
            mods_view(r@).to_multiset() == pv.take(i as int).to_multiset(),
        decreases mods@.len() - i,
    {
        let p = mods[i].duplicate();
        let j = insertion_index(&r, &p);
        proof {
            if j < r@.len() {
                lemma_lex_le_total(r@[j as int].name@, p.name@);
            }
        }
        let ghost rv0 = r@;
        let ghost rm0 = mods_view(r@);
        let ghost pg = p;
        r.insert(j, p);
        proof {
            rv0.insert_ensures(j as int, pg);
            assert forall|a: int, b: int| 0 <= a < b < r@.len() implies lex_le(
                r@[a].name@,
                r@[b].name@,
            ) by {
                if b < j {
                    assert(r@[a] == rv0[a] && r@[b] == rv0[b]);
                } else if b == j {
                    assert(r@[a] == rv0[a] && r@[b] == pg);
                } else {
                    assert(r@[b] == rv0[b - 1]);
                    if a < j {
                        assert(r@[a] == rv0[a]);
                        assert(lex_le(rv0[a].name@, rv0[b - 1].name@));
                    } else if a == j {
                        assert(r@[a] == pg);
                        assert(lex_le(pg.name@, rv0[j as int].name@));
                        if b - 1 > j {
                            assert(lex_le(rv0[j as int].name@, rv0[b - 1].name@));
                            lemma_lex_le_trans(pg.name@, rv0[j as int].name@, rv0[b - 1].name@);
                        }
                    } else {
                        assert(r@[a] == rv0[a - 1]);
                    }
                }
            }
            assert(mods_view(r@) =~= rm0.insert(j as int, pg@));
            assert(rm0.len() == rv0.len());
            to_multiset_insert(rm0, j as int, pg@);
            pv.take(i as int).to_multiset_ensures();
            assert(pv.take(i as int + 1).drop_last() =~= pv.take(i as int));
            assert(pv.take(i as int + 1) =~= pv.take(i as int).push(pv[i as int]));
        }
        i = i + 1;
    }
    proof {
        assert(pv.take(mods@.len() as int) =~= pv);
    }
    r
}

} // verus!
