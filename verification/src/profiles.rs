//! Launch profiles: named per-version launch configurations.
//!
//! Profiles are kept as a list of records; reading and writing the
//! profiles file is the application's job. A fresh profile gets a random
//! id and the creation timestamp from the trusted clock bridge.

use vstd::prelude::*;
use vstd::seq_lib::group_to_multiset_ensures;
use vstd::seq_lib::to_multiset_insert;
use vstd::pervasive::VecAdditionalExecFns;
use vstd::multiset::Multiset;
use crate::external::{new_uuid_string, now_timestamp};
use crate::text::{str_chars, chars_string};

verus! {

/// One launch profile.
#[derive(Clone, Debug)]
pub struct Profile {
    pub id: String,
    pub name: String,
    pub version_id: String,
    pub java_args: String,
    pub java_path: Option<String>,
    pub min_memory: u32,
    pub max_memory: u32,
    pub width: u32,
    pub height: u32,
    pub enabled_mods: Vec<String>,
    pub created_at: i64,
}

#[verifier::ext_equal]
pub struct ProfileView {
    pub id: Seq<char>,
    pub name: Seq<char>,
    pub version_id: Seq<char>,
    pub java_args: Seq<char>,
    pub java_path: Option<Seq<char>>,
    pub min_memory: u32,
    pub max_memory: u32,
    pub width: u32,
    pub height: u32,
    pub enabled_mods: Seq<Seq<char>>,
    pub created_at: i64,
}

impl View for Profile {
    type V = ProfileView;

    open spec fn view(&self) -> ProfileView {
        ProfileView {
            id: self.id@,
            name: self.name@,
            version_id: self.version_id@,
            java_args: self.java_args@,
            java_path: crate::game::opt_view(self.java_path),
            min_memory: self.min_memory,
            max_memory: self.max_memory,
            width: self.width,
            height: self.height,
            enabled_mods: self.enabled_mods@.map_values(|s: String| s@),
            created_at: self.created_at,
        }
    }
}

/// Copy a string vector.
fn clone_string_vec(v: &Vec<String>) -> (r: Vec<String>)
    ensures
        r.deep_view() == v.deep_view(),
{
    let mut r: Vec<String> = Vec::new();
    let mut i: usize = 0;
    proof {
        assert(r.deep_view() =~~= v.deep_view().take(0));
    }
    while i < v.len()
        invariant
            i <= v@.len(),
            v.deep_view().len() == v@.len(),
            r.deep_view() == v.deep_view().take(i as int),
        decreases v@.len() - i,
    {
        let ghost dv0 = r.deep_view();
        r.push(v[i].clone());
        proof {
            assert(r.deep_view() =~~= dv0.push(v@[i as int]@));
            assert(v.deep_view().take(i as int + 1) =~= dv0.push(v.deep_view()[i as int]));
        }
        i = i + 1;
    }
    proof {
        assert(v.deep_view().take(v@.len() as int) =~= v.deep_view());
    }
    r
}

impl Profile {
    /// Copy this profile.
    pub fn duplicate(&self) -> (r: Profile)
        ensures
            r@ == self@,
    {
        let r = Profile {
            id: self.id.clone(),
            name: self.name.clone(),
            version_id: self.version_id.clone(),
            java_args: self.java_args.clone(),
            java_path: match &self.java_path {
                Some(p) => Some(p.clone()),
                None => None,
            },
            min_memory: self.min_memory,
            max_memory: self.max_memory,
            width: self.width,
            height: self.height,
            enabled_mods: clone_string_vec(&self.enabled_mods),
            created_at: self.created_at,
        };
        proof {
            assert(r.enabled_mods.deep_view().len() == r.enabled_mods@.len());
            assert(self.enabled_mods.deep_view().len() == self.enabled_mods@.len());
            assert forall|i: int| 0 <= i < r.enabled_mods@.len() implies r.enabled_mods@[i]@
                == self.enabled_mods@[i]@ by {
                assert(r.enabled_mods.deep_view()[i] == r.enabled_mods@[i]@);
                assert(self.enabled_mods.deep_view()[i] == self.enabled_mods@[i]@);
            }
            assert(r.enabled_mods@.map_values(|s: String| s@) =~= self.enabled_mods@.map_values(
                |s: String| s@,
            ));
            assert(r@ =~= self@);
        }
        r
    }
}

impl Default for Profile {
    /// A fresh default profile: a random id, the stock name, version and
    /// Java arguments, default memory and window bounds, no mods, and
    /// the clock's current timestamp.
    fn default() -> (r: Profile)
        ensures
            r@.id.len() == 36,
            r@.name == "Default Profile"@,
            r@.version_id == "1.19.4"@,
            r@.java_args == "-XX:+UseG1GC"@,
            r@.java_path is None,
            r@.min_memory == 1024,
            r@.max_memory == 4096,
            r@.width == 854,
            r@.height == 480,
            r@.enabled_mods == Seq::<Seq<char>>::empty(),
    {
        let r = Profile {
            id: new_uuid_string(),
            name: chars_string(&str_chars("Default Profile")),
            version_id: chars_string(&str_chars("1.19.4")),
            java_args: chars_string(&str_chars("-XX:+UseG1GC")),
            java_path: None,
            min_memory: 1024,
            max_memory: 4096,
            width: 854,
            height: 480,
            enabled_mods: Vec::new(),
            created_at: now_timestamp(),
        };
        proof {
            assert(r.enabled_mods@.map_values(|s: String| s@) =~= Seq::<Seq<char>>::empty());
        }
        r
    }
}

/// The profile store, with the directory its file lives in.
pub struct ProfileManager {
    pub profiles: Vec<Profile>,
    pub base_dir: String,
}

/// The views of the stored profiles, in storage order.
pub open spec fn profiles_view(profiles: Seq<Profile>) -> Seq<ProfileView> {
    profiles.map_values(|p: Profile| p@)
}

/// The first index holding a profile with the given id.
pub open spec fn find_profile_index(profiles: Seq<ProfileView>, id: Seq<char>) -> Option<int>
    decreases profiles.len(),
{
    if profiles.len() == 0 {
        None
    } else if profiles[0].id == id {
        Some(0)
    } else {
        match find_profile_index(profiles.drop_first(), id) {
            Some(i) => Some(i + 1),
            None => None,
        }
    }
}

/// Non-decreasing creation time.
pub open spec fn sorted_by_created(profiles: Seq<Profile>) -> bool {
    forall|i: int, j: int|
        0 <= i < j < profiles.len() ==> #[trigger] profiles[i].created_at
            <= #[trigger] profiles[j].created_at
}

impl ProfileManager {
    /// An empty store rooted at the given directory; the application
    /// loads persisted profiles into it.
    pub fn new(base_dir: String) -> (r: Self)
        ensures
            r.base_dir == base_dir,
            r.profiles@ == Seq::<Profile>::empty(),
    {
        let r = ProfileManager { profiles: Vec::new(), base_dir };
        r
    }

    /// Where the profiles file lives.
    pub fn get_file_path(&self) -> (r: String)
        ensures
            r@ == self.base_dir@ + "/profiles.json"@,
    {
        let mut v = str_chars(self.base_dir.as_str());
        crate::text::append_str(&mut v, "/profiles.json");
        chars_string(&v)
    }

    /// Create a profile for a version: default settings under the given
    /// name, appended to the store and returned.
    pub fn create_profile(&mut self, name: String, version_id: String) -> (r: Profile)
        ensures
            r@.name == name@,
            r@.version_id == version_id@,
            r@.id.len() == 36,
            r@.java_args == "-XX:+UseG1GC"@,
            r@.java_path is None,
            r@.min_memory == 1024,
            r@.max_memory == 4096,
            r@.width == 854,
            r@.height == 480,
            r@.enabled_mods == Seq::<Seq<char>>::empty(),
            profiles_view(final(self).profiles@) == profiles_view(old(self).profiles@).push(r@),
            final(self).base_dir == old(self).base_dir,
    {
        let mut profile = Profile::default();
        profile.name = name;
        profile.version_id = version_id;
        let copy = profile.duplicate();
        let ghost pv0 = profiles_view(self.profiles@);
        self.profiles.push(copy);
        proof {
            assert(profiles_view(self.profiles@) =~= pv0.push(profile@));
        }
        profile
    }

    /// Replace the stored profile with the same id. Errs, with the store
    /// unchanged, exactly when no profile has that id.
    pub fn update_profile(&mut self, profile: Profile) -> (r: Result<(), String>)
        ensures
            final(self).base_dir == old(self).base_dir,
            match find_profile_index(profiles_view(old(self).profiles@), profile@.id) {
                Some(i) => r is Ok && profiles_view(final(self).profiles@) == profiles_view(
                    old(self).profiles@,
                ).update(i, profile@),
                None => (r matches Err(e) && e@ == "Profile not found"@) && final(self).profiles@
                    == old(self).profiles@,
            },
    {
        let ghost pv = profiles_view(self.profiles@);
        let idc = str_chars(profile.id.as_str());
        let mut i: usize = 0;
        proof {
            assert(pv.skip(0) =~= pv);
        }
        while i < self.profiles.len()
            invariant
                i <= self.profiles@.len(),
                self.base_dir == old(self).base_dir,
                self.profiles@ == old(self).profiles@,
                pv == profiles_view(self.profiles@),
                match find_profile_index(pv.skip(i as int), idc@) {
                    Some(k) => find_profile_index(pv, idc@) == Some(k + i),
                    None => find_profile_index(pv, idc@) is None,
                },
                idc@ == profile@.id,
            decreases self.profiles@.len() - i,
        {
            proof {
                assert(pv.skip(i as int)[0] == pv[i as int]);
                assert(pv.skip(i as int).drop_first() =~= pv.skip(i as int + 1));
            }
            let pc = str_chars(self.profiles[i].id.as_str());
            if crate::text::chars_eq(&pc, &idc) {
                proof {
                    assert(find_profile_index(pv.skip(i as int), idc@) == Some(0int));
                    assert(find_profile_index(pv, idc@) == Some(i as int));
                }
                let ghost pv0 = profiles_view(self.profiles@);
                self.profiles.set(i, profile);
                proof {
                    assert(profiles_view(self.profiles@) =~= pv0.update(
                        i as int,
                        self.profiles@[i as int]@,
                    ));
                }
                return Ok(());
            }
            i = i + 1;
        }
        proof {
            assert(pv.skip(self.profiles@.len() as int) =~= Seq::<ProfileView>::empty());
        }
        Err(chars_string(&str_chars("Profile not found")))
    }

    /// Remove every stored profile with the given id.
    pub fn delete_profile(&mut self, id: &str)
        ensures
            final(self).base_dir == old(self).base_dir,
            profiles_view(final(self).profiles@) == profiles_view(old(self).profiles@).filter(
                |p: ProfileView| p.id != id@,
            ),
    {
        let ghost pv = profiles_view(self.profiles@);
        let ghost pred = |p: ProfileView| p.id != id@;
        let idc = str_chars(id);
        let mut kept: Vec<Profile> = Vec::new();
        let mut i: usize = 0;
        proof {
            reveal(Seq::filter);
            assert(pv.take(0) =~= Seq::<ProfileView>::empty());
            assert(profiles_view(kept@) =~= pv.take(0).filter(pred));
        }
        while i < self.profiles.len()
            invariant
                i <= self.profiles@.len(),
                pv == profiles_view(self.profiles@),
                idc@ == id@,
                profiles_view(kept@) == pv.take(i as int).filter(pred),
                pred == (|p: ProfileView| p.id != id@),
            decreases self.profiles@.len() - i,
        {
            proof {
                reveal(Seq::filter);
                assert(pv.take(i as int + 1).drop_last() =~= pv.take(i as int));
                assert(pv.take(i as int + 1).last() == pv[i as int]);
            }
            let pc = str_chars(self.profiles[i].id.as_str());
            if !crate::text::chars_eq(&pc, &idc) {
                let ghost kv0 = profiles_view(kept@);
                let p = self.profiles[i].duplicate();
                kept.push(p);
                proof {
                    assert(profiles_view(kept@) =~= kv0.push(pv[i as int]));
                }
            }
            i = i + 1;
        }
        proof {
            assert(pv.take(self.profiles@.len() as int) =~= pv);
        }
        self.profiles = kept;
    }

    /// The stored profiles, oldest creation first.
    pub fn list_profiles(&self) -> (r: Vec<Profile>)
        ensures
            sorted_by_created(r@),
            profiles_view(r@).to_multiset() == profiles_view(self.profiles@).to_multiset(),
    {
        broadcast use group_to_multiset_ensures;
        broadcast use to_multiset_insert;

        let ghost pv = profiles_view(self.profiles@);
        let mut r: Vec<Profile> = Vec::new();
        let mut i: usize = 0;
        proof {
            assert(profiles_view(r@) =~= pv.take(0));
            assert(pv.take(0).to_multiset() =~= Multiset::<ProfileView>::empty());
            assert(profiles_view(r@).to_multiset() =~= pv.take(0).to_multiset());
        }
        while i < self.profiles.len()
            invariant
                i <= self.profiles@.len(),
                pv == profiles_view(self.profiles@),
                sorted_by_created(r@),
                profiles_view(r@).to_multiset() == pv.take(i as int).to_multiset(),
            decreases self.profiles@.len() - i,
        {
            let p = self.profiles[i].duplicate();
            let mut j: usize = 0;
            while j < r.len() && r[j].created_at <= p.created_at
                invariant
                    j <= r@.len(),
                    forall|k: int| 0 <= k < j ==> #[trigger] r@[k].created_at <= p.created_at,
                decreases r@.len() - j,
            {
                j = j + 1;
            }
            let ghost rv0 = r@;
            let ghost rm0 = profiles_view(r@);
            let ghost pg = p;
            r.insert(j, p);
            proof {
                rv0.insert_ensures(j as int, pg);
                assert forall|a: int, b: int| 0 <= a < b < r@.len() implies r@[a].created_at
                    <= r@[b].created_at by {
                    if b < j {
                        assert(r@[a] == rv0[a] && r@[b] == rv0[b]);
                    } else if b == j {
                        assert(r@[a] == rv0[a] && r@[b] == pg);
                    } else {
                        assert(r@[b] == rv0[b - 1]);
                        assert(j < rv0.len() + 1);
                        if a < j {
                            assert(r@[a] == rv0[a]);
                            assert(rv0[a].created_at <= rv0[b - 1].created_at);
                        } else if a == j {
                            assert(r@[a] == pg);
                            assert(rv0[j as int].created_at > pg.created_at);
                            assert(rv0[j as int].created_at <= rv0[b - 1].created_at);
                        } else {
                            assert(r@[a] == rv0[a - 1]);
                        }
                    }
                }
                assert(profiles_view(r@) =~= rm0.insert(j as int, pg@));
                assert(rm0.len() == rv0.len());
                to_multiset_insert(rm0, j as int, pg@);
                pv.take(i as int).to_multiset_ensures();
                assert(pv.take(i as int + 1).drop_last() =~= pv.take(i as int));
                assert(pv.take(i as int + 1) =~= pv.take(i as int).push(pv[i as int]));
            }
            i = i + 1;
        }
        proof {
            assert(pv.take(self.profiles@.len() as int) =~= pv);
        }
        r
    }
}

} // verus!
