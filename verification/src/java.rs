//! Java runtime selection.
//!
//! Which Java major version a game version needs is a pure mapping on
//! the version string; locating or downloading a runtime is disk and
//! network work the application performs with the paths and URLs
//! computed here.

use vstd::prelude::*;
use crate::text::{
    str_chars, chars_string, append_str, append_chars, split_parts, split_chars, parse_u32,
    parse_u32_spec, u32_dec_chars, dec_chars,
};

verus! {

/// One usable Java installation.
#[derive(Clone, Debug)]
pub struct JavaRuntime {
    pub version: String,
    pub path: String,
    pub architecture: String,
}

/// Manager of the launcher's own Java runtimes.
pub struct JavaManager {
    pub base_dir: String,
}

/// A parse result, or the fallback when parsing fails.
pub open spec fn parse_or(s: Seq<char>, fallback: u32) -> u32 {
    match parse_u32_spec(s) {
        Some(v) => v,
        None => fallback,
    }
}

/// The Java major version a game version requires. Versions `1.0` to
/// `1.16` run on Java 8, `1.17` to `1.19` on Java 17, everything later
/// or unrecognised on Java 21 — except that a version string without two
/// dot-separated parts defaults to Java 17.
pub open spec fn required_java_spec(version: Seq<char>) -> u32 {
    let parts = split_parts(version, '.');
    if parts.len() < 2 {
        17
    } else {
        let major = parse_or(parts[0], 1);
        let minor = parse_or(parts[1], 0);
        if major == 1 {
            if minor <= 16 {
                8
            } else if minor <= 19 {
                17
            } else {
                21
            }
        } else {
            21
        }
    }
}

impl JavaManager {
    /// A manager rooted at the launcher's data directory.
    pub fn new(base_dir: String) -> (r: Self)
        ensures
            r.base_dir == base_dir,
    {
        JavaManager { base_dir }
    }

    /// Where the managed runtimes live.
    pub fn get_java_dir(&self) -> (r: String)
        ensures
            r@ == self.base_dir@ + "/runtimes/java"@,
    {
        let mut v = str_chars(self.base_dir.as_str());
        append_str(&mut v, "/runtimes/java");
        chars_string(&v)
    }

    /// The Java major version the given game version requires.
    pub fn determine_required_java_version(minecraft_version: &str) -> (r: u32)
        ensures
            r == required_java_spec(minecraft_version@),
    {
        let vc = str_chars(minecraft_version);
        let parts = split_chars(&vc, '.');
        if parts.len() < 2 {
            return 17;
        }
        proof {
            assert(parts.deep_view()[0] == parts@[0]@);
            assert(parts.deep_view()[1] == parts@[1]@);
        }
        let major = match parse_u32(&parts[0]) {
            Some(v) => v,
            None => 1,
        };
        let minor = match parse_u32(&parts[1]) {
            Some(v) => v,
            None => 0,
        };
        if major == 1 {
            if minor <= 16 {
                8
            } else if minor <= 19 {
                17
            } else {
                21
            }
        } else {
            21
        }
    }

    /// Where a locally managed runtime of the given major version keeps
    /// its executable; the application checks whether it exists.
    pub fn local_java_candidate(&self, major_version: u32) -> (r: String)
        ensures
            r@ == self.base_dir@ + "/runtimes/java"@ + "/jdk-"@ + dec_chars(major_version as int)
                + "/bin/java.exe"@,
    {
        let mut v = str_chars(self.base_dir.as_str());
        append_str(&mut v, "/runtimes/java");
        append_str(&mut v, "/jdk-");
        let digits = u32_dec_chars(major_version);
        append_chars(&mut v, &digits);
        append_str(&mut v, "/bin/java.exe");
        chars_string(&v)
    }

    /// The release-archive URL a runtime of the given major version is
    /// fetched from.
    pub fn runtime_download_url(major_version: u32) -> (r: String)
        ensures
            r@ == "https://api.adoptium.net/v3/binary/latest/"@ + dec_chars(major_version as int)
                + "/ga/windows/x64/jre/hotspot/normal/eclipse"@,
    {
        let mut v = str_chars("https://api.adoptium.net/v3/binary/latest/");
        let digits = u32_dec_chars(major_version);
        append_chars(&mut v, &digits);
        append_str(&mut v, "/ga/windows/x64/jre/hotspot/normal/eclipse");
        chars_string(&v)
    }
}

} // verus!
