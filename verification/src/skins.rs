//! Where offline skins and capes are stored.
//!
//! Copying image files into place is the application's job; the paths
//! are fixed here.

use vstd::prelude::*;
use crate::text::{str_chars, chars_string, append_str};

verus! {

/// The directory offline skins live in.
pub fn skins_dir_path(app_dir: &str) -> (r: String)
    ensures
        r@ == app_dir@ + "/skins"@,
{
    let mut v = str_chars(app_dir);
    append_str(&mut v, "/skins");
    chars_string(&v)
}

/// Where the offline skin is stored.
pub fn get_offline_skin_path(app_dir: &str) -> (r: String)
    ensures
        r@ == app_dir@ + "/skins/offline_skin.png"@,
{
    let mut v = str_chars(app_dir);
    append_str(&mut v, "/skins/offline_skin.png");
    chars_string(&v)
}

/// Where the offline cape is stored.
pub fn get_offline_cape_path(app_dir: &str) -> (r: String)
    ensures
        r@ == app_dir@ + "/skins/offline_cape.png"@,
{
    let mut v = str_chars(app_dir);
    append_str(&mut v, "/skins/offline_cape.png");
    chars_string(&v)
}

} // verus!
