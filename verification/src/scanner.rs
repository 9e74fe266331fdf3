//! Locating installed versions.
//!
//! Walking the versions directory is the application's job; the paths
//! it probes and the records it builds are fixed here.

use vstd::prelude::*;
use crate::text::{str_chars, chars_string, append_str};

verus! {

/// One locally installed version.
#[derive(Clone, Debug)]
pub struct LocalVersion {
    pub id: String,
    pub version_type: String,
    pub path: String,
}

/// The descriptor file that marks a directory under `versions` as an
/// installed version.
pub fn version_json_path(mc_dir: &str, id: &str) -> (r: String)
    ensures
        r@ == mc_dir@ + "/versions/"@ + id@ + "/"@ + id@ + ".json"@,
{
    let mut v = str_chars(mc_dir);
    append_str(&mut v, "/versions/");
    append_str(&mut v, id);
    append_str(&mut v, "/");
    append_str(&mut v, id);
    append_str(&mut v, ".json");
    chars_string(&v)
}

/// The record for one installed version found on disk.
pub fn local_version_entry(id: &str, path: &str) -> (r: LocalVersion)
    ensures
        r.id@ == id@,
        r.version_type@ == "local"@,
        r.path@ == path@,
{
    LocalVersion {
        id: chars_string(&str_chars(id)),
        version_type: chars_string(&str_chars("local")),
        path: chars_string(&str_chars(path)),
    }
}

} // verus!
