//! The host platform a launch is evaluated against.
//!
//! Descriptor rules and native classifiers are keyed by the manifest
//! format's three OS names (`windows`, `linux`, `osx`) and by a 32/64-bit
//! architecture placeholder. The platform is an explicit value handed into
//! the evaluation functions, so the same build can be checked against every
//! branch.

use vstd::prelude::*;

verus! {

/// Operating-system family, in the manifest format's three-way naming.
#[derive(Clone, Copy, PartialEq, Eq, Structural, Debug)]
pub enum HostOs {
    Windows,
    Linux,
    Osx,
}

/// Pointer-width class of the host. Only the 32/64 distinction exists in
/// the format; finer architecture distinctions are not modelled.
#[derive(Clone, Copy, PartialEq, Eq, Structural, Debug)]
pub enum HostArch {
    X86,
    X64,
}

/// The platform a launch runs on.
#[derive(Clone, Copy, PartialEq, Eq, Structural, Debug)]
pub struct HostPlatform {
    pub os: HostOs,
    pub arch: HostArch,
}

impl HostOs {
    /// The OS name used by descriptor rules and native-classifier maps.
    pub open spec fn key_spec(self) -> Seq<char> {
        match self {
            HostOs::Windows => "windows"@,
            HostOs::Linux => "linux"@,
            HostOs::Osx => "osx"@,
        }
    }

    /// The OS name as a string slice.
    pub fn key(&self) -> (r: &'static str)
        ensures
            r@ == self.key_spec(),
    {
        match self {
            HostOs::Windows => "windows",
            HostOs::Linux => "linux",
            HostOs::Osx => "osx",
        }
    }

    /// The character separating classpath entries on this OS.
    pub open spec fn classpath_sep_spec(self) -> Seq<char> {
        if self == HostOs::Windows {
            ";"@
        } else {
            ":"@
        }
    }

    /// The classpath separator as a string slice.
    pub fn classpath_sep(&self) -> (r: &'static str)
        ensures
            r@ == self.classpath_sep_spec(),
    {
        match self {
            HostOs::Windows => ";",
            _ => ":",
        }
    }
}

impl HostArch {
    /// What the `${arch}` placeholder in a native classifier expands to.
    pub open spec fn bits_spec(self) -> Seq<char> {
        match self {
            HostArch::X86 => "32"@,
            HostArch::X64 => "64"@,
        }
    }

    /// The placeholder expansion as a string slice.
    pub fn bits(&self) -> (r: &'static str)
        ensures
            r@ == self.bits_spec(),
    {
        match self {
            HostArch::X86 => "32",
            HostArch::X64 => "64",
        }
    }
}

} // verus!
