//! The launch pipeline's error taxonomy.
//!
//! A missing descriptor and a malformed one are fatal to a launch; a
//! too-deep inheritance chain is reported distinctly instead of
//! recursing without bound; archive trouble is per-library and
//! non-fatal; a spawn failure is terminal. Missing individual library
//! files and missing native archives are downgraded to warnings by the
//! callers and never reach this type.

use vstd::prelude::*;
use crate::text::{str_chars, chars_string, append_str};

verus! {

/// What can end a launch.
#[derive(Debug)]
pub enum LauncherError {
    /// A descriptor or required file is absent.
    NotFound(String),
    /// A descriptor could not be parsed; carries the parse diagnostic.
    Parse(String),
    /// An inheritance chain exceeded the depth limit.
    Cycle(String),
    /// An archive could not be opened or extracted.
    Io(String),
    /// The game process could not be started.
    Spawn(String),
}

impl LauncherError {
    /// The error rendered as a message, one fixed prefix per variant.
    pub fn message(&self) -> (r: String)
        ensures
            match self {
                LauncherError::NotFound(e) => r@ == "not found: "@ + e@,
                LauncherError::Parse(e) => r@ == "parse error: "@ + e@,
                LauncherError::Cycle(e) => r@ == "inheritance too deep: "@ + e@,
                LauncherError::Io(e) => r@ == "io error: "@ + e@,
                LauncherError::Spawn(e) => r@ == "spawn failed: "@ + e@,
            },
    {
        let (prefix, detail): (&str, &String) = match self {
            LauncherError::NotFound(e) => ("not found: ", e),
            LauncherError::Parse(e) => ("parse error: ", e),
            LauncherError::Cycle(e) => ("inheritance too deep: ", e),
            LauncherError::Io(e) => ("io error: ", e),
            LauncherError::Spawn(e) => ("spawn failed: ", e),
        };
        let mut v = str_chars(prefix);
        append_str(&mut v, detail.as_str());
        chars_string(&v)
    }
}

} // verus!
