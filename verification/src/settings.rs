//! Launcher settings, as a plain record.
//!
//! Persisting the record is the application's job; the store here only
//! knows where its file lives and what the defaults are.

use vstd::prelude::*;
use crate::text::{str_chars, chars_string, append_str};

verus! {

/// The launcher-wide settings record.
#[derive(Clone, Debug)]
pub struct Settings {
    pub minecraft_dir: Option<String>,
    pub min_memory: u32,
    pub max_memory: u32,
    pub width: u32,
    pub height: u32,
    pub full_screen: bool,
    pub java_path: Option<String>,
    pub theme: String,
    pub language: String,
}

impl Default for Settings {
    /// The stock settings: no explicit game directory or Java path,
    /// 1024–4096 MB of memory, an 854x480 window, dark theme, English.
    fn default() -> (r: Settings)
        ensures
            r.minecraft_dir is None,
            r.min_memory == 1024,
            r.max_memory == 4096,
            r.width == 854,
            r.height == 480,
            !r.full_screen,
            r.java_path is None,
            r.theme@ == "dark"@,
            r.language@ == "en"@,
    {
        Settings {
            minecraft_dir: None,
            min_memory: 1024,
            max_memory: 4096,
            width: 854,
            height: 480,
            full_screen: false,
            java_path: None,
            theme: chars_string(&str_chars("dark")),
            language: chars_string(&str_chars("en")),
        }
    }
}

/// The settings store, rooted at the launcher's data directory.
pub struct SettingsManager {
    pub base_dir: String,
}

impl SettingsManager {
    /// A store rooted at the given directory.
    pub fn new(base_dir: String) -> (r: Self)
        ensures
            r.base_dir == base_dir,
    {
        SettingsManager { base_dir }
    }

    /// Where the settings file lives.
    pub fn get_file_path(&self) -> (r: String)
        ensures
            r@ == self.base_dir@ + "/settings.json"@,
    {
        let mut v = str_chars(self.base_dir.as_str());
        append_str(&mut v, "/settings.json");
        chars_string(&v)
    }
}

} // verus!
