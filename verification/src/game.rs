//! Version descriptors and their resolution.
//!
//! A version descriptor (the parsed form of a version's JSON manifest)
//! carries identity, the main class, argument templates, and an ordered
//! library list. A descriptor may inherit from a parent descriptor; the
//! effective descriptor merges the chain, parent libraries first, child
//! scalar fields overriding absent ones.
//!
//! Reading and parsing the descriptor files is the application's job; this
//! module's functions take descriptors as values.

use vstd::prelude::*;
use crate::coord::{maven_rel_path, maven_path_chars};
use crate::platform::HostPlatform;
use crate::rules::{Rule, RuleView, rules_view, opt_rules_permit, eval_opt_rules_permit};
use crate::text::{str_chars, chars_string};

verus! {

/// One entry of a structured argument list: either a literal string or a
/// conditional entry. Conditional entries are parsed far enough to be
/// skipped safely and are otherwise opaque; argument assembly drops them.
#[derive(Clone, Debug)]
pub enum ArgumentValue {
    Literal(String),
    Conditional,
}

/// Structured JVM and game argument lists.
#[derive(Clone, Debug)]
pub struct Arguments {
    pub game: Option<Vec<ArgumentValue>>,
    pub jvm: Option<Vec<ArgumentValue>>,
}

/// One downloadable artifact record of a library.
#[derive(Clone, Debug)]
pub struct Artifact {
    pub path: Option<String>,
    pub url: Option<String>,
    pub sha1: Option<String>,
    pub size: Option<u64>,
}

/// Download records of a library: the main artifact and the classified
/// (native) artifacts, keyed by classifier name.
#[derive(Clone, Debug)]
pub struct LibraryDownloads {
    pub artifact: Option<Artifact>,
    pub classifiers: Vec<(String, Artifact)>,
}

/// One library dependency of a descriptor. The natives table maps an OS
/// name to a native-classifier template (which may contain an `${arch}`
/// placeholder); an empty table means the library ships no natives.
#[derive(Clone, Debug)]
pub struct Library {
    pub name: String,
    pub url: Option<String>,
    pub downloads: Option<LibraryDownloads>,
    pub natives: Vec<(String, String)>,
    pub rules: Option<Vec<Rule>>,
}

/// A version descriptor.
#[derive(Clone, Debug)]
pub struct Manifest {
    pub id: String,
    pub minecraft_version: Option<String>,
    pub main_class: String,
    pub minecraft_arguments: Option<String>,
    pub arguments: Option<Arguments>,
    pub download_urls: Option<DownloadUrls>,
    pub libraries: Option<Vec<Library>>,
    pub inherits_from: Option<String>,
    pub jar: Option<String>,
    pub assets: Option<String>,
}

/// Download locations for a full version install.
#[derive(Clone, Debug)]
pub struct DownloadUrls {
    pub minecraft: String,
    pub forge: Option<String>,
    pub libraries: Vec<String>,
}

/// An asset index reference.
#[derive(Clone, Debug)]
pub struct AssetIndex {
    pub id: String,
    pub sha1: String,
    pub size: u64,
    pub url: String,
    pub total_size: u64,
}

/// The flavour of a version.
#[derive(Clone, Copy, PartialEq, Eq, Structural, Debug)]
pub enum VersionType {
    Vanilla,
    Forge,
    Fabric,
    Custom,
}

/// One object of an asset index.
#[derive(Clone, Debug)]
pub struct AssetObject {
    pub hash: String,
    pub size: u64,
}

/// The parsed content of an asset index, keyed by object name.
#[derive(Clone, Debug)]
pub struct AssetIndexContent {
    pub objects: Vec<(String, AssetObject)>,
}

// ---------------------------------------------------------------------
// Mathematical views
// ---------------------------------------------------------------------

#[verifier::ext_equal]
pub enum ArgumentValueView {
    Literal(Seq<char>),
    Conditional,
}

#[verifier::ext_equal]
pub struct ArgumentsView {
    pub game: Option<Seq<ArgumentValueView>>,
    pub jvm: Option<Seq<ArgumentValueView>>,
}

#[verifier::ext_equal]
pub struct ArtifactView {
    pub path: Option<Seq<char>>,
    pub url: Option<Seq<char>>,
    pub sha1: Option<Seq<char>>,
    pub size: Option<u64>,
}

#[verifier::ext_equal]
pub struct LibraryDownloadsView {
    pub artifact: Option<ArtifactView>,
    pub classifiers: Seq<(Seq<char>, ArtifactView)>,
}

#[verifier::ext_equal]
pub struct LibraryView {
    pub name: Seq<char>,
    pub url: Option<Seq<char>>,
    pub downloads: Option<LibraryDownloadsView>,
    pub natives: Seq<(Seq<char>, Seq<char>)>,
    pub rules: Option<Seq<RuleView>>,
}

#[verifier::ext_equal]
pub struct DownloadUrlsView {
    pub minecraft: Seq<char>,
    pub forge: Option<Seq<char>>,
    pub libraries: Seq<Seq<char>>,
}

#[verifier::ext_equal]
pub struct ManifestView {
    pub id: Seq<char>,
    pub minecraft_version: Option<Seq<char>>,
    pub main_class: Seq<char>,
    pub minecraft_arguments: Option<Seq<char>>,
    pub arguments: Option<ArgumentsView>,
    pub download_urls: Option<DownloadUrlsView>,
    pub libraries: Option<Seq<LibraryView>>,
    pub inherits_from: Option<Seq<char>>,
    pub jar: Option<Seq<char>>,
    pub assets: Option<Seq<char>>,
}

pub open spec fn opt_view(s: Option<String>) -> Option<Seq<char>> {
    match s {
        Some(x) => Some(x@),
        None => None,
    }
}

impl View for ArgumentValue {
    type V = ArgumentValueView;

    open spec fn view(&self) -> ArgumentValueView {
        match self {
            ArgumentValue::Literal(s) => ArgumentValueView::Literal(s@),
            ArgumentValue::Conditional => ArgumentValueView::Conditional,
        }
    }
}

impl View for Arguments {
    type V = ArgumentsView;

    open spec fn view(&self) -> ArgumentsView {
        ArgumentsView {
            game: match self.game {
                Some(v) => Some(v@.map_values(|a: ArgumentValue| a@)),
                None => None,
            },
            jvm: match self.jvm {
                Some(v) => Some(v@.map_values(|a: ArgumentValue| a@)),
                None => None,
            },
        }
    }
}

impl View for Artifact {
    type V = ArtifactView;

    open spec fn view(&self) -> ArtifactView {
        ArtifactView {
            path: opt_view(self.path),
            url: opt_view(self.url),
            sha1: opt_view(self.sha1),
            size: self.size,
        }
    }
}

impl View for LibraryDownloads {
    type V = LibraryDownloadsView;

    open spec fn view(&self) -> LibraryDownloadsView {
        LibraryDownloadsView {
            artifact: match self.artifact {
                Some(a) => Some(a@),
                None => None,
            },
            classifiers: self.classifiers@.map_values(|e: (String, Artifact)| (e.0@, e.1@)),
        }
    }
}

impl View for Library {
    type V = LibraryView;

    open spec fn view(&self) -> LibraryView {
        LibraryView {
            name: self.name@,
            url: opt_view(self.url),
            downloads: match self.downloads {
                Some(d) => Some(d@),
                None => None,
            },
            natives: self.natives@.map_values(|e: (String, String)| (e.0@, e.1@)),
            rules: match self.rules {
                Some(rs) => Some(rules_view(rs@)),
                None => None,
            },
        }
    }
}

impl View for DownloadUrls {
    type V = DownloadUrlsView;

    open spec fn view(&self) -> DownloadUrlsView {
        DownloadUrlsView {
            minecraft: self.minecraft@,
            forge: opt_view(self.forge),
            libraries: self.libraries@.map_values(|s: String| s@),
        }
    }
}

impl View for Manifest {
    type V = ManifestView;

    open spec fn view(&self) -> ManifestView {
        ManifestView {
            id: self.id@,
            minecraft_version: opt_view(self.minecraft_version),
            main_class: self.main_class@,
            minecraft_arguments: opt_view(self.minecraft_arguments),
            arguments: match self.arguments {
                Some(a) => Some(a@),
                None => None,
            },
            download_urls: match self.download_urls {
                Some(d) => Some(d@),
                None => None,
            },
            libraries: match self.libraries {
                Some(v) => Some(v@.map_values(|l: Library| l@)),
                None => None,
            },
            inherits_from: opt_view(self.inherits_from),
            jar: opt_view(self.jar),
            assets: opt_view(self.assets),
        }
    }
}

impl LibraryView {
    /// Whether the library's rules permit it on the host.
    pub open spec fn permitted(self, host: HostPlatform) -> bool {
        opt_rules_permit(self.rules, host)
    }
}

impl ManifestView {
    /// The libraries, absent meaning none.
    pub open spec fn libs(self) -> Seq<LibraryView> {
        match self.libraries {
            Some(v) => v,
            None => Seq::<LibraryView>::empty(),
        }
    }
}

// ---------------------------------------------------------------------
// Inheritance merging
// ---------------------------------------------------------------------

/// The merge of a fully-resolved parent into a child descriptor:
/// `minecraftArguments` and `assets` fall back to the parent when the
/// child leaves them unset, the library lists concatenate parent-first,
/// and every other field is the child's.
pub open spec fn merge_spec(parent: ManifestView, child: ManifestView) -> ManifestView {
    ManifestView {
        minecraft_arguments: if child.minecraft_arguments is Some {
            child.minecraft_arguments
        } else {
            parent.minecraft_arguments
        },
        assets: if child.assets is Some {
            child.assets
        } else {
            parent.assets
        },
        libraries: Some(parent.libs() + child.libs()),
        ..child
    }
}

/// The effective descriptor of an ancestor-first inheritance chain: each
/// descriptor merged over the result of resolving its ancestors.
pub open spec fn resolved_chain_spec(chain: Seq<ManifestView>) -> ManifestView
    recommends
        chain.len() >= 1,
    decreases chain.len(),
{
    if chain.len() <= 1 {
        chain[0]
    } else {
        merge_spec(resolved_chain_spec(chain.drop_last()), chain.last())
    }
}

/// The views of a descriptor vector.
pub open spec fn manifests_view(chain: Seq<Manifest>) -> Seq<ManifestView> {
    chain.map_values(|m: Manifest| m@)
}

/// Merge a fully-resolved parent descriptor into a child descriptor.
pub fn merge_with_parent(parent: Manifest, child: Manifest) -> (r: Manifest)
    ensures
        r@ == merge_spec(parent@, child@),
{
    let ghost pv = parent@;
    let ghost cv = child@;
    let mut libs: Vec<Library> = match parent.libraries {
        Some(v) => v,
        None => Vec::new(),
    };
    let mut child_libs: Vec<Library> = match child.libraries {
        Some(v) => v,
        None => Vec::new(),
    };
    proof {
        assert(libs@.map_values(|l: Library| l@) =~= pv.libs());
        assert(child_libs@.map_values(|l: Library| l@) =~= cv.libs());
    }
    let ghost libs0 = libs@;
    let ghost child_libs0 = child_libs@;
    libs.append(&mut child_libs);
    proof {
        assert(libs@.map_values(|l: Library| l@) =~= libs0.map_values(|l: Library| l@)
            + child_libs0.map_values(|l: Library| l@));
    }
    let r = Manifest {
        id: child.id,
        minecraft_version: child.minecraft_version,
        main_class: child.main_class,
        minecraft_arguments: match child.minecraft_arguments {
            Some(s) => Some(s),
            None => parent.minecraft_arguments,
        },
        arguments: child.arguments,
        download_urls: child.download_urls,
        libraries: Some(libs),
        inherits_from: child.inherits_from,
        jar: child.jar,
        assets: match child.assets {
            Some(s) => Some(s),
            None => parent.assets,
        },
    };
    proof {
        assert(r@ =~= merge_spec(pv, cv));
    }
    r
}

/// Resolve an ancestor-first inheritance chain into the effective
/// descriptor.
pub fn resolve_chain(chain: Vec<Manifest>) -> (r: Manifest)
    requires
        chain@.len() >= 1,
    ensures
        r@ == resolved_chain_spec(manifests_view(chain@)),
{
    let ghost full = manifests_view(chain@);
    let mut rest = chain;
    let eff0 = rest.remove(0);
    let mut eff = eff0;
    proof {
        assert(full.take(1).len() == 1);
        assert(full.take(1)[0] == full[0]);
        assert(resolved_chain_spec(full.take(1)) == full[0]);
        assert(manifests_view(rest@) =~= full.skip(1));
    }
    while rest.len() > 0
        invariant
            rest@.len() < full.len(),
            manifests_view(rest@) == full.skip(full.len() - rest@.len()),
            eff@ == resolved_chain_spec(full.take(full.len() - rest@.len())),
        decreases rest@.len(),
    {
        let ghost k = full.len() - rest@.len();
        let ghost restv0 = rest@;
        let next = rest.remove(0);
        proof {
            assert(manifests_view(restv0)[0] == next@);
            assert(next@ == full[k]);
            assert(full.take(k + 1).drop_last() =~= full.take(k));
            assert(full.take(k + 1).last() == full[k]);
            assert forall|j: int| 0 <= j < rest@.len() implies manifests_view(rest@)[j]
                == full.skip(k + 1)[j] by {
                assert(rest@[j] == restv0[j + 1]);
                assert(manifests_view(restv0)[j + 1] == restv0[j + 1]@);
            }
            assert(manifests_view(rest@) =~= full.skip(k + 1));
        }
        eff = merge_with_parent(eff, next);
        proof {
            assert(eff@ == merge_spec(resolved_chain_spec(full.take(k)), full[k]));
            assert(resolved_chain_spec(full.take(k + 1)) == merge_spec(
                resolved_chain_spec(full.take(k + 1).drop_last()),
                full.take(k + 1).last(),
            ));
            assert(resolved_chain_spec(full.take(k + 1).drop_last()) == resolved_chain_spec(
                full.take(k),
            ));
            assert(full.len() - rest@.len() == k + 1);
        }
    }
    proof {
        assert(full.take(full.len() as int) =~= full);
    }
    eff
}

/// The most inheritance levels a descriptor chain may have. Descriptor
/// files on disk can name each other in a cycle; bounding the chain turns
/// what would otherwise exhaust the stack into a reported error.
pub const MAX_INHERITANCE_DEPTH: usize = 20;

/// Step-by-step resolution of an inheritance chain.
///
/// The caller loads descriptor files; this type tracks the lineage and
/// decides what to load next. Starting from the requested descriptor,
/// while `pending_parent` names one, the caller loads that descriptor
/// and hands it to `push_parent`; `finish` then merges the lineage,
/// ancestors first, into the effective descriptor.
pub struct InheritanceResolver {
    lineage: Vec<Manifest>,
}

impl InheritanceResolver {
    /// The loaded lineage, child first.
    pub closed spec fn lineage_view(self) -> Seq<ManifestView> {
        manifests_view(self.lineage@)
    }

    pub closed spec fn wf(self) -> bool {
        1 <= self.lineage@.len() <= MAX_INHERITANCE_DEPTH
    }

    /// Begin resolving at the requested descriptor.
    pub fn start(child: Manifest) -> (r: Self)
        ensures
            r.lineage_view() == seq![child@],
            r.wf(),
    {
        let mut lineage: Vec<Manifest> = Vec::new();
        lineage.push(child);
        let r = InheritanceResolver { lineage };
        proof {
            assert(r.lineage_view() =~= seq![r.lineage@[0]@]);
        }
        r
    }

    /// The id of the descriptor still to load: the `inheritsFrom` of the
    /// last one loaded, if any.
    pub fn pending_parent(&self) -> (r: Option<String>)
        requires
            self.wf(),
        ensures
            match r {
                Some(id) => self.lineage_view().last().inherits_from == Some(id@),
                None => self.lineage_view().last().inherits_from is None,
            },
    {
        let last = &self.lineage[self.lineage.len() - 1];
        proof {
            assert(self.lineage_view().last() == self.lineage@.last()@);
        }
        match &last.inherits_from {
            Some(id) => Some(id.clone()),
            None => None,
        }
    }

    /// Record the parent descriptor the caller loaded. Fails, leaving
    /// the lineage unchanged, exactly when the chain has already reached
    /// the depth limit — the distinct signal of a cyclic or degenerate
    /// chain.
    pub fn push_parent(&mut self, parent: Manifest) -> (r: Result<(), crate::error::LauncherError>)
        requires
            old(self).wf(),
        ensures
            final(self).wf(),
            match r {
                Ok(()) => old(self).lineage_view().len() < MAX_INHERITANCE_DEPTH
                    && final(self).lineage_view() == old(self).lineage_view().push(parent@),
                Err(e) => old(self).lineage_view().len() == MAX_INHERITANCE_DEPTH && *final(self)
                    == *old(self) && e is Cycle,
            },
    {
        if self.lineage.len() >= MAX_INHERITANCE_DEPTH {
            let id = parent.id.clone();
            return Err(crate::error::LauncherError::Cycle(id));
        }
        let ghost l0 = self.lineage_view();
        self.lineage.push(parent);
        proof {
            assert(self.lineage_view() =~= l0.push(self.lineage@.last()@));
        }
        Ok(())
    }

    /// Merge the lineage into the effective descriptor: the chain in
    /// ancestor-first order, resolved.
    pub fn finish(self) -> (r: Manifest)
        requires
            self.wf(),
        ensures
            r@ == resolved_chain_spec(self.lineage_view().reverse()),
    {
        let ghost lv = self.lineage_view();
        let mut lineage = self.lineage;
        let mut chain: Vec<Manifest> = Vec::new();
        proof {
            assert(manifests_view(lineage@) == lv);
        }
        let ghost n = lineage@.len();
        while lineage.len() > 0
            invariant
                lineage@.len() <= n,
                lv.len() == n,
                manifests_view(lineage@) == lv.take(lineage@.len() as int),
                manifests_view(chain@) == lv.reverse().take(n - lineage@.len()),
            decreases lineage@.len(),
        {
            let ghost k = lineage@.len() as int;
            let m = lineage.pop().unwrap();
            proof {
                assert(m@ == lv.take(k)[k - 1]);
                assert(lv.take(k)[k - 1] == lv[k - 1]);
                assert(manifests_view(lineage@) =~= lv.take(k - 1));
                assert(lv.reverse()[n - k] == lv[k - 1]);
            }
            let ghost c0 = chain@;
            chain.push(m);
            proof {
                assert(manifests_view(chain@) =~= manifests_view(c0).push(lv[k - 1]));
                assert(lv.reverse().take(n - (k - 1)) =~= lv.reverse().take(n - k).push(
                    lv.reverse()[n - k],
                ));
            }
        }
        proof {
            assert(lv.reverse().take(n as int) =~= lv.reverse());
            assert(chain@.len() == n);
        }
        resolve_chain(chain)
    }
}

/// Law: a descriptor that inherits from nothing is its own effective
/// descriptor — resolving a one-element chain is the identity.
pub proof fn lemma_resolve_identity(m: ManifestView)
    ensures
        resolved_chain_spec(seq![m]) == m,
{
}

/// The library lists of a chain concatenated ancestor-first.
pub open spec fn chain_libs(chain: Seq<ManifestView>) -> Seq<LibraryView>
    decreases chain.len(),
{
    if chain.len() == 0 {
        Seq::<LibraryView>::empty()
    } else {
        chain_libs(chain.drop_last()) + chain.last().libs()
    }
}

/// Law: resolving any inheritance chain yields the chain's library
/// lists concatenated ancestor-first — merging never reorders, drops or
/// deduplicates a library.
pub proof fn lemma_chain_libraries(chain: Seq<ManifestView>)
    requires
        chain.len() >= 1,
    ensures
        resolved_chain_spec(chain).libs() == chain_libs(chain),
    decreases chain.len(),
{
    if chain.len() == 1 {
        assert(chain_libs(chain.drop_last()) =~= Seq::<LibraryView>::empty());
        assert(chain_libs(chain) =~= chain[0].libs());
    } else {
        lemma_chain_libraries(chain.drop_last());
    }
}

/// Law: along a grandparent–parent–child chain, the effective library
/// list is the three library lists concatenated ancestor-first, exactly
/// as if they had been concatenated by hand.
pub proof fn lemma_three_level_chain_libraries(g: ManifestView, p: ManifestView, c: ManifestView)
    ensures
        resolved_chain_spec(seq![g, p, c]).libraries == Some(g.libs() + p.libs() + c.libs()),
{
    let chain = seq![g, p, c];
    assert(chain.drop_last() =~= seq![g, p]);
    assert(seq![g, p].drop_last() =~= seq![g]);
    assert(resolved_chain_spec(seq![g]) == g);
    assert(resolved_chain_spec(seq![g, p]) == merge_spec(g, p));
    assert(resolved_chain_spec(chain) == merge_spec(merge_spec(g, p), c));
    assert(merge_spec(g, p).libs() == g.libs() + p.libs());
    assert((g.libs() + p.libs()) + c.libs() =~= g.libs() + p.libs() + c.libs());
}

// ---------------------------------------------------------------------
// Classpath resolution
// ---------------------------------------------------------------------

/// The repository-relative path a library resolves to: the explicit
/// artifact path when the descriptor carries one, else the path derived
/// from the library's Maven coordinate.
pub open spec fn lib_rel_path_spec(lib: LibraryView) -> Seq<char> {
    match lib.downloads {
        Some(d) => match d.artifact {
            Some(a) => match a.path {
                Some(p) => p,
                None => maven_rel_path(lib.name),
            },
            None => maven_rel_path(lib.name),
        },
        None => maven_rel_path(lib.name),
    }
}

/// The resolved paths of the libraries the host's rules permit, in
/// descriptor order, each under `lib_dir`.
pub open spec fn library_paths_spec(
    libs: Seq<LibraryView>,
    lib_dir: Seq<char>,
    host: HostPlatform,
) -> Seq<Seq<char>>
    decreases libs.len(),
{
    if libs.len() == 0 {
        Seq::<Seq<char>>::empty()
    } else {
        let pre = library_paths_spec(libs.drop_last(), lib_dir, host);
        if libs.last().permitted(host) {
            pre.push(lib_dir + "/"@ + lib_rel_path_spec(libs.last()))
        } else {
            pre
        }
    }
}

/// Manager of an installed game directory tree.
pub struct GameManager {
    pub base_dir: String,
}

impl GameManager {
    /// A manager rooted at the given game directory.
    pub fn new(base_dir: String) -> (r: Self)
        ensures
            r.base_dir == base_dir,
    {
        GameManager { base_dir }
    }

    /// Convert a Maven coordinate to its repository-relative file path.
    pub fn maven_to_path(coordinate: &str) -> (r: String)
        ensures
            r@ == maven_rel_path(coordinate@),
    {
        let cs = str_chars(coordinate);
        let path = maven_path_chars(&cs);
        chars_string(&path)
    }

    /// Whether the host's rules permit this library.
    pub fn should_include_library(&self, lib: &Library, host: &HostPlatform) -> (r: bool)
        ensures
            r == lib@.permitted(*host),
    {
        eval_opt_rules_permit(&lib.rules, host)
    }

    /// Resolve the classpath contributions of the descriptor's libraries:
    /// every library the host's rules permit, in order, under
    /// `<base_dir>/libraries`. Whether each file exists on disk is the
    /// caller's concern; missing ones are skipped there, not here.
    pub fn get_library_paths(&self, manifest: &Manifest, host: &HostPlatform) -> (r: Vec<String>)
        ensures
            r.deep_view() == library_paths_spec(
                manifest@.libs(),
                self.base_dir@ + "/libraries"@,
                *host,
            ),
    {
        let ghost libs_v = manifest@.libs();
        let ghost dir_v = self.base_dir@ + "/libraries"@;
        let mut lib_dir = str_chars(self.base_dir.as_str());
        crate::text::append_str(&mut lib_dir, "/libraries");
        let mut r: Vec<String> = Vec::new();
        proof {
            assert(r.deep_view() =~~= library_paths_spec(libs_v.take(0), dir_v, *host));
        }
        let libraries = match &manifest.libraries {
            Some(v) => v,
            None => {
                proof {
                    assert(libs_v.take(0) =~= libs_v);
                }
                return r;
            },
        };
        let n = libraries.len();
        proof {
            assert(libs_v =~= libraries@.map_values(|l: Library| l@));
        }
        let mut i: usize = 0;
        while i < n
            invariant
                i <= n,
                n == libraries@.len(),
                libs_v == libraries@.map_values(|l: Library| l@),
                lib_dir@ == dir_v,
                r.deep_view() == library_paths_spec(libs_v.take(i as int), dir_v, *host),
            decreases n - i,
        {
            let lib = &libraries[i];
            proof {
                assert(libs_v.take(i as int + 1).drop_last() =~= libs_v.take(i as int));
                assert(libs_v.take(i as int + 1).last() == libs_v[i as int]);
                assert(libs_v[i as int] == lib@);
            }
            if self.should_include_library(lib, host) {
                let mut path = crate::text::copy_chars(&lib_dir);
                crate::text::append_str(&mut path, "/");
                let mut resolved_explicit = false;
                match &lib.downloads {
                    Some(d) => match &d.artifact {
                        Some(a) => match &a.path {
                            Some(p) => {
                                let pc = str_chars(p.as_str());
                                crate::text::append_chars(&mut path, &pc);
                                resolved_explicit = true;
                            },
                            None => {},
                        },
                        None => {},
                    },
                    None => {},
                }
                if !resolved_explicit {
                    let nc = str_chars(lib.name.as_str());
                    let rel = maven_path_chars(&nc);
                    crate::text::append_chars(&mut path, &rel);
                }
                proof {
                    assert(path@ == dir_v + "/"@ + lib_rel_path_spec(lib@));
                }
                let ghost dv0 = r.deep_view();
                let s = chars_string(&path);
                r.push(s);
                proof {
                    assert(r.deep_view() =~~= dv0.push(path@));
                }
            }
            i = i + 1;
        }
        proof {
            assert(libs_v.take(n as int) =~= libs_v);
        }
        r
    }
}

} // verus!
