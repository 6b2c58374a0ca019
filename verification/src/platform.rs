//! The host platform as an explicit value, so that every rule that depends
//! on it can be evaluated for any target.

use vstd::prelude::*;

verus! {

/// Operating system families that manifests distinguish.
#[derive(Clone, Copy, Debug, PartialEq, Eq, Structural)]
pub enum Os {
    Linux,
    MacOs,
    Windows,
    Other,
}

/// Processor architectures that manifests distinguish.
#[derive(Clone, Copy, Debug, PartialEq, Eq, Structural)]
pub enum Arch {
    X86,
    X86_64,
    Other,
}

/// The platform a launch is prepared for.
#[derive(Clone, Copy, Debug, PartialEq, Eq, Structural)]
pub struct Platform {
    pub os: Os,
    pub arch: Arch,
}

/// The character that separates class path entries on `os`.
pub open spec fn classpath_separator_char(os: Os) -> char {
    if os == Os::Windows { ';' } else { ':' }
}

/// Returns the class path separator of the given operating system.
pub fn classpath_separator(os: Os) -> (c: char)
    ensures
        c == classpath_separator_char(os),
{
    match os {
        Os::Windows => ';',
        _ => ':',
    }
}

} // verus!
